//! Short social posts.

use crate::summary::is_author_line;
use crate::summary::is_teaser;
use crate::summary::teaser_text;
use crate::summary::Summary;
use vstd::prelude::*;
use vstd::string::StringExecFns;

verus! {

/// A short post on a social network.
pub struct Tweet {
    pub username: String,
    pub content: String,
    pub reply: bool,
    pub retweet: bool,
}

/// What a `Tweet` holds, with its texts as sequences of characters.
pub struct TweetView {
    pub username: Seq<char>,
    pub content: Seq<char>,
    pub reply: bool,
    pub retweet: bool,
}

impl View for Tweet {
    type V = TweetView;

    open spec fn view(&self) -> TweetView {
        TweetView {
            username: self.username@,
            content: self.content@,
            reply: self.reply,
            retweet: self.retweet,
        }
    }
}

/// The author line of a post: an at sign, then the user name.
pub open spec fn post_author_text(username: Seq<char>) -> Seq<char> {
    "@"@ + username
}

impl Summary for Tweet {
    fn summarize_author(&self) -> (text: String)
        ensures
            text@ == post_author_text(self@.username),
    {
        let mut text = String::from_str("@");
        text.append(self.username.as_str());
        text
    }
}

/// A post keeps the provided teaser: whatever `summarize` returns for it is
/// `teaser_text` of its author line.
pub proof fn lemma_post_teaser(post: &Tweet, text: String)
    requires
        is_teaser(post, text),
    ensures
        text@ == teaser_text(post_author_text(post@.username)),
{
}

/// The post that `returns_summarizable` hands out.
pub fn horse_ebooks() -> (post: Tweet)
    ensures
        post@ == (TweetView {
            username: "horse_ebooks"@,
            content: "of course, as you probably already know, people"@,
            reply: false,
            retweet: false,
        }),
{
    Tweet {
        username: String::from_str("horse_ebooks"),
        content: String::from_str("of course, as you probably already know, people"),
        reply: false,
        retweet: false,
    }
}

/// Returns a summarizable item without saying which type it is.
///
/// Every call returns an item with one and the same author line and one and
/// the same teaser, which is all that a caller can ask of it.
pub fn returns_summarizable() -> (item: impl Summary)
    ensures
        forall|text: String| #[trigger] is_author_line(&item, text) ==> text@ == "@horse_ebooks"@,
        forall|text: String| #[trigger]
            is_teaser(&item, text) ==> text@ == teaser_text("@horse_ebooks"@),
{
    proof {
        reveal_strlit("@");
        reveal_strlit("horse_ebooks");
        reveal_strlit("@horse_ebooks");
        assert(post_author_text("horse_ebooks"@) =~= "@horse_ebooks"@);
    }
    horse_ebooks()
}

} // verus!
