//! A pair of values of one type.

use std::fmt::Display;
use vstd::prelude::*;
use vstd::string::to_string_from_display_ensures;
use vstd::string::StringExecFns;

verus! {

/// Two values of one type, `x` and `y`.
pub struct Pair<T> {
    x: T,
    y: T,
}

impl<T> View for Pair<T> {
    type V = (T, T);

    /// The pair as a tuple: `x` first, `y` second.
    closed spec fn view(&self) -> (T, T) {
        (self.x, self.y)
    }
}

/// The line that names the largest member of a pair. `shown` is the display
/// form of that member.
///
/// The two wordings differ, "member" for `x` and "number" for `y`, and
/// existing output is matched against both as they stand.
pub open spec fn largest_text(x_first: bool, shown: Seq<char>) -> Seq<char> {
    if x_first {
        "The largest member is x = "@ + shown
    } else {
        "The largest number is y = "@ + shown
    }
}

/// Builds the line that names the largest member of a pair.
pub fn largest_line(x_first: bool, shown: &str) -> (line: String)
    ensures
        line@ == largest_text(x_first, shown@),
{
    let mut line = if x_first {
        String::from_str("The largest member is x = ")
    } else {
        String::from_str("The largest number is y = ")
    };
    line.append(shown);
    line
}

impl<T> Pair<T> {
    /// Makes the pair of `x` and `y`.
    pub fn new(x: T, y: T) -> (pair: Self)
        ensures
            pair@ == (x, y),
    {
        Self { x, y }
    }
}

impl<T: Display + PartialOrd> Pair<T> {
    /// Returns the line that names the largest member.
    ///
    /// The line names `x` when `x >= y` answers yes, so a tie goes to `x`,
    /// and names `y` otherwise. It ends with the display form of the member
    /// that it names.
    pub fn cmp_display(&self) -> (line: String)
        ensures
            exists|x_first: bool, shown: String|
                {
                    &&& call_ensures(T::ge, (&self@.0, &self@.1), x_first)
                    &&& to_string_from_display_ensures::<T>(
                        if x_first {
                            &self@.0
                        } else {
                            &self@.1
                        },
                        shown,
                    )
                    &&& line@ == #[trigger] largest_text(x_first, shown@)
                },
    {
        if self.x >= self.y {
            let shown = self.x.to_string();
            largest_line(true, shown.as_str())
        } else {
            let shown = self.y.to_string();
            largest_line(false, shown.as_str())
        }
    }
}

} // verus!
