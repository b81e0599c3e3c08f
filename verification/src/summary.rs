//! The `Summary` capability: every summarizable item supplies an author line,
//! and gets a teaser built around that line unless it writes its own.

use vstd::prelude::*;
use vstd::string::StringExecFns;

verus! {

/// The teaser built around an author line.
///
/// The text opens a parenthesis and never closes it. Consumers of the output
/// match on these exact characters, so the closing one stays absent.
pub open spec fn teaser_text(author: Seq<char>) -> Seq<char> {
    "(Read more from "@ + author + "..."@
}

/// Builds the teaser around `author`.
pub fn teaser(author: &str) -> (text: String)
    ensures
        text@ == teaser_text(author@),
{
    let mut text = String::from_str("(Read more from ");
    text.append(author);
    text.append("...");
    text
}

/// An item that can be summarized.
///
/// The trait asks nothing of an implementing type beyond the two signatures,
/// so that any type can take part. What a type promises of its own author
/// line it states on its own `summarize_author`.
pub trait Summary {
    /// Returns the author line of this item.
    fn summarize_author(&self) -> String;

    /// Returns the teaser of this item.
    ///
    /// A type that keeps this provided method gets `teaser_text` of an author
    /// line of its own. A type may write another teaser instead, and then
    /// only what that type states holds of the text.
    fn summarize(&self) -> (text: String)
        default_ensures
            exists|author: String| #[trigger]
                call_ensures(Self::summarize_author, (self,), author) && text@ == teaser_text(
                    author@,
                ),
    {
        let author = self.summarize_author();
        teaser(author.as_str())
    }
}

/// Whether `text` is an author line that `item.summarize_author()` may
/// return.
#[verifier::inline]
pub open spec fn is_author_line<T: Summary + ?Sized>(item: &T, text: String) -> bool {
    call_ensures(T::summarize_author, (item,), text)
}

/// Whether `text` is a teaser that `item.summarize()` may return.
#[verifier::inline]
pub open spec fn is_teaser<T: Summary + ?Sized>(item: &T, text: String) -> bool {
    call_ensures(T::summarize, (item,), text)
}

} // verus!
