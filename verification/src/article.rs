//! Articles, as far as the polling loop reads them, and the reading of a
//! fetched feed document into a list of them.

use vstd::prelude::*;

verus! {

/// One entry of a fetched feed. The link identifies the article; an article
/// without one can be neither checked nor delivered.
#[derive(Clone, Debug, PartialEq, Eq)]
pub struct Article {
    pub link: Option<String>,
    pub title: Option<String>,
    pub content: Option<String>,
}

/// The mathematical model of an [`Article`].
pub struct ArticleView {
    pub link: Option<Seq<char>>,
    pub title: Option<Seq<char>>,
    pub content: Option<Seq<char>>,
}

/// The model of an optional text.
pub open spec fn text_view(text: Option<String>) -> Option<Seq<char>> {
    match text {
        Some(text) => Some(text@),
        None => None,
    }
}

impl View for Article {
    type V = ArticleView;

    open spec fn view(&self) -> ArticleView {
        ArticleView {
            link: text_view(self.link),
            title: text_view(self.title),
            content: text_view(self.content),
        }
    }
}

/// The model of a list of articles, article by article.
pub open spec fn articles_view(articles: Seq<Article>) -> Seq<ArticleView> {
    Seq::new(articles.len(), |i: int| articles[i]@)
}

#[verifier::external_type_specification]
#[verifier::external_body]
pub struct ExRssError(rss::Error);

/// The articles that `rss::Channel::read_from` reads out of a feed document,
/// in the document's order, or `None` where it rejects the document.
pub uninterp spec fn parsed_articles(document: Seq<u8>) -> Option<Seq<ArticleView>>;

/// Calls `rss::Channel::read_from` on the document and copies link, title and
/// content of each item, in order. The contract only names the outcome: it is
/// `parsed_articles` of the document's bytes, an error standing for `None`.
#[verifier::external_body]
pub(crate) fn read_articles(document: &[u8]) -> (parsed: Result<Vec<Article>, rss::Error>)
    ensures
        match parsed {
            Ok(articles) => parsed_articles(document@) == Some(articles_view(articles@)),
            Err(_) => parsed_articles(document@) is None,
        },
{
    rss::Channel::read_from(document).map(
        |channel|
            channel.items().iter().map(
                |item|
                    Article {
                        link: item.link().map(String::from),
                        title: item.title().map(String::from),
                        content: item.content().map(String::from),
                    },
            ).collect(),
    )
}

} // verus!
