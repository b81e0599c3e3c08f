//! A small media aggregator: items that can be summarized, the lines that
//! announce them, and a generic pair that reports its largest member.
//!
//! Nothing here writes to a stream. Every function that has a line to show
//! returns it as a `String`, without a line break, for the caller to emit.

pub mod article;
pub mod notify;
pub mod pair;
pub mod post;
pub mod render;
pub mod summary;

pub use article::NewsArticle;
pub use notify::notify;
pub use notify::notify_generic;
pub use notify::notify_multiple;
pub use notify::notify_multiple_generic;
pub use notify::notify_two;
pub use notify::notify_two_generic;
pub use pair::Pair;
pub use post::returns_summarizable;
pub use post::Tweet;
pub use render::some_function;
pub use render::some_function_where;
pub use summary::Summary;
