//! A line that shows two values side by side: the first as it displays, the
//! second in its pretty debug form.

use std::fmt::Debug;
use std::fmt::Display;
use vstd::prelude::*;
use vstd::string::to_string_from_display_ensures;
use vstd::string::StringExecFns;

verus! {

/// The line that joins the display form of one value and the debug form of
/// another.
pub open spec fn joined_text(shown: Seq<char>, debugged: Seq<char>) -> Seq<char> {
    shown + ", "@ + debugged
}

/// Whether `out` is the result for two values that render as `shown` and
/// `debugged`: the joined line, and the number 10.
pub open spec fn is_joined_output(
    out: (String, i32),
    shown: Seq<char>,
    debugged: Seq<char>,
) -> bool {
    out.0@ == joined_text(shown, debugged) && out.1 == 10
}

/// Builds the line that joins two rendered values.
pub fn joined_line(shown: &str, debugged: &str) -> (line: String)
    ensures
        line@ == joined_text(shown@, debugged@),
{
    let mut line = String::from_str(shown);
    line.append(", ");
    line.append(debugged);
    line
}

/// Calls `std::format!` with the pretty debug form, `{:#?}`, of `value`.
///
/// Trusted, and nothing is claimed of the text: it is whatever the `Debug`
/// impl of `U` writes. `std::format!` panics where that impl reports an
/// error, which a derived impl never does.
#[verifier::external_body]
fn pretty_debug<U: Debug>(value: &U) -> (text: String) {
    format!("{:#?}", value)
}

/// Whether `text` is a pretty debug form that `value` may give, that is, a
/// text that `std::format!` may return for it. Nothing else is known of it.
pub closed spec fn is_pretty_debug<U: Debug>(value: &U, text: String) -> bool {
    call_ensures(pretty_debug::<U>, (value,), text)
}

/// Returns the line that shows `t` and `u`, and the number 10.
///
/// The line is the display form of `t`, a comma and a space, and the pretty
/// debug form of `u`.
pub fn some_function<T: Display + Clone, U: Clone + Debug>(t: &T, u: &U) -> (out: (String, i32))
    ensures
        out.1 == 10,
        exists|shown: String, debugged: String|
            {
                &&& to_string_from_display_ensures::<T>(t, shown)
                &&& is_pretty_debug(u, debugged)
                &&& #[trigger] is_joined_output(out, shown@, debugged@)
            },
{
    let shown = t.to_string();
    let debugged = pretty_debug(u);
    let out = (joined_line(shown.as_str(), debugged.as_str()), 10i32);
    assert(is_joined_output(out, shown@, debugged@));
    out
}

/// Does what `some_function` does, with the bounds in a `where` clause.
pub fn some_function_where<T, U>(t: &T, u: &U) -> (out: (String, i32)) where
    T: Display + Clone,
    U: Clone + Debug,

    ensures
        out.1 == 10,
        exists|shown: String, debugged: String|
            {
                &&& to_string_from_display_ensures::<T>(t, shown)
                &&& is_pretty_debug(u, debugged)
                &&& #[trigger] is_joined_output(out, shown@, debugged@)
            },
{
    let shown = t.to_string();
    let debugged = pretty_debug(u);
    let out = (joined_line(shown.as_str(), debugged.as_str()), 10i32);
    assert(is_joined_output(out, shown@, debugged@));
    out
}

/// The two forms agree: two results for values that render as the same
/// `shown` and `debugged`, whichever form gave each, hold the same line and
/// the same number, which is 10.
pub proof fn lemma_forms_agree(
    first: (String, i32),
    second: (String, i32),
    shown: Seq<char>,
    debugged: Seq<char>,
)
    requires
        is_joined_output(first, shown, debugged),
        is_joined_output(second, shown, debugged),
    ensures
        first.0@ == second.0@,
        first.1 == second.1,
        first.1 == 10,
{
}

} // verus!
