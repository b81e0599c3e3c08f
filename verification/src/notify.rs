//! Announcements of summarizable items.

use crate::summary::is_teaser;
use crate::summary::Summary;
use std::fmt::Display;
use vstd::prelude::*;
use vstd::string::StringExecFns;

verus! {

/// The line that announces an item with the given teaser.
pub open spec fn breaking_news_text(teaser: Seq<char>) -> Seq<char> {
    "Breaking news! "@ + teaser
}

/// Whether `line` announces `item`: the words "Breaking news! " and then a
/// teaser that `item.summarize()` may return.
pub open spec fn announces<T: Summary + ?Sized>(item: &T, line: String) -> bool {
    exists|teaser: String| #[trigger]
        is_teaser(item, teaser) && line@ == breaking_news_text(teaser@)
}

/// Builds the line that announces an item with the given teaser.
pub fn breaking_news(teaser: &str) -> (line: String)
    ensures
        line@ == breaking_news_text(teaser@),
{
    let mut line = String::from_str("Breaking news! ");
    line.append(teaser);
    line
}

/// Returns the line that announces `item`, whatever its type.
pub fn notify(item: &impl Summary) -> (line: String)
    ensures
        announces(item, line),
{
    let teaser = item.summarize();
    breaking_news(teaser.as_str())
}

/// Returns the line that announces `item`, with the item's type as a named
/// parameter. The line is the one that `notify` returns.
pub fn notify_generic<T: Summary>(item: &T) -> (line: String)
    ensures
        announces(item, line),
{
    let teaser = item.summarize();
    breaking_news(teaser.as_str())
}

/// Returns the lines that announce two items, which may be of different
/// types: first the line of `item1`, then the line of `item2`.
pub fn notify_two(item1: &impl Summary, item2: &impl Summary) -> (lines: (String, String))
    ensures
        announces(item1, lines.0),
        announces(item2, lines.1),
{
    let first = notify(item1);
    let second = notify(item2);
    (first, second)
}

/// Returns the lines that announce two items of one type: first the line of
/// `item1`, then the line of `item2`.
pub fn notify_two_generic<T: Summary>(item1: &T, item2: &T) -> (lines: (String, String))
    ensures
        announces(item1, lines.0),
        announces(item2, lines.1),
{
    let first = notify_generic(item1);
    let second = notify_generic(item2);
    (first, second)
}

/// Returns the line that announces an item that can also be displayed. The
/// display form plays no part in the line.
pub fn notify_multiple(item: &(impl Summary + Display)) -> (line: String)
    ensures
        announces(item, line),
{
    let teaser = item.summarize();
    breaking_news(teaser.as_str())
}

/// Returns the line that announces an item that can also be displayed, with
/// the item's type as a named parameter.
pub fn notify_multiple_generic<T: Summary + Display>(item: &T) -> (line: String)
    ensures
        announces(item, line),
{
    let teaser = item.summarize();
    breaking_news(teaser.as_str())
}

} // verus!
