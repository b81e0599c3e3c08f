//! News articles.

use crate::summary::is_teaser;
use crate::summary::teaser_text;
use crate::summary::Summary;
use vstd::prelude::*;
use vstd::string::StringExecFns;

verus! {

/// A news article. All four parts are free text.
pub struct NewsArticle {
    pub headline: String,
    pub location: String,
    pub author: String,
    pub content: String,
}

/// What a `NewsArticle` holds, as sequences of characters.
pub struct NewsArticleView {
    pub headline: Seq<char>,
    pub location: Seq<char>,
    pub author: Seq<char>,
    pub content: Seq<char>,
}

impl View for NewsArticle {
    type V = NewsArticleView;

    open spec fn view(&self) -> NewsArticleView {
        NewsArticleView {
            headline: self.headline@,
            location: self.location@,
            author: self.author@,
            content: self.content@,
        }
    }
}

/// The author line of an article: headline, then author, then the location
/// in parentheses.
pub open spec fn article_author_text(
    headline: Seq<char>,
    author: Seq<char>,
    location: Seq<char>,
) -> Seq<char> {
    headline + ", by "@ + author + " ("@ + location + ")"@
}

impl Summary for NewsArticle {
    fn summarize_author(&self) -> (text: String)
        ensures
            text@ == article_author_text(self@.headline, self@.author, self@.location),
    {
        let mut text = self.headline.clone();
        text.append(", by ");
        text.append(self.author.as_str());
        text.append(" (");
        text.append(self.location.as_str());
        text.append(")");
        text
    }
}

/// An article keeps the provided teaser: whatever `summarize` returns for it
/// is `teaser_text` of its author line.
pub proof fn lemma_article_teaser(article: &NewsArticle, text: String)
    requires
        is_teaser(article, text),
    ensures
        text@ == teaser_text(
            article_author_text(article@.headline, article@.author, article@.location),
        ),
{
}

} // verus!
