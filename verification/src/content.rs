//! The content platform: what is asked of it, and what its replies mean.
//!
//! Three calls are made, each a GET with a bearer credential: one resolves a
//! publication's slug to its id, one lists the ids of a publication's articles,
//! one fetches an article. A reply is a status and a body. The status tells a
//! rejected credential (401, 403) and, for an article, an unknown id (404);
//! with any other status the body is decoded.

use vstd::prelude::*;
use vstd::string::StringExecFns;
use crate::error::{text_outcome, texts_outcome, ErrorKind};
use crate::json::{
    json_parsed, parse, read_text_list_member, read_text_member, text_list_member, text_member,
    Json,
};

verus! {

/// The address that resolves a slug, up to the slug.
pub const PUBLICATION_ID_URL: &'static str = "https://medium2.p.rapidapi.com/publication/id_for/";

/// The address that lists a publication's articles, up to the publication's id.
pub const PUBLICATION_URL: &'static str = "https://medium2.p.rapidapi.com/publication/";

/// What follows the publication's id in that address.
pub const ARTICLES_SUFFIX: &'static str = "/articles";

/// The address that fetches an article, up to the article's id.
pub const ARTICLE_URL: &'static str = "https://medium2.p.rapidapi.com/article/";

/// What follows the article's id in that address.
pub const CONTENT_SUFFIX: &'static str = "/content";

/// What precedes a credential in an `Authorization` header.
pub const BEARER: &'static str = "Bearer ";

/// The member that holds a publication's id.
pub const PUBLICATION_ID_KEY: &'static str = "publication_id";

/// The member that holds the ids of a publication's articles.
pub const PUBLICATION_ARTICLES_KEY: &'static str = "publication_articles";

/// The member that holds an article's id.
pub const ARTICLE_ID_KEY: &'static str = "id";

/// The member that holds an article's text.
pub const ARTICLE_CONTENT_KEY: &'static str = "content";

/// An article as the platform returned it.
#[derive(Clone, Debug, PartialEq, Eq)]
pub struct ArticleContent {
    pub id: String,
    pub content: String,
}

/// An article as a pair of texts.
pub ghost struct ArticleView {
    pub id: Seq<char>,
    pub content: Seq<char>,
}

impl View for ArticleContent {
    type V = ArticleView;

    open spec fn view(&self) -> ArticleView {
        ArticleView { id: self.id@, content: self.content@ }
    }
}

impl DeepView for ArticleContent {
    type V = ArticleView;

    open spec fn deep_view(&self) -> ArticleView {
        self@
    }
}

/// An article or the kind of a failure, seen as texts.
pub open spec fn article_outcome(outcome: Result<ArticleContent, ErrorKind>) -> Result<
    ArticleView,
    ErrorKind,
> {
    match outcome {
        Ok(article) => Ok(article@),
        Err(kind) => Err(kind),
    }
}

/// The address that resolves `slug`.
pub open spec fn publication_id_url_text(slug: Seq<char>) -> Seq<char> {
    PUBLICATION_ID_URL@ + slug
}

/// The address that lists the articles of the publication `publication_id`.
pub open spec fn publication_articles_url_text(publication_id: Seq<char>) -> Seq<char> {
    PUBLICATION_URL@ + publication_id + ARTICLES_SUFFIX@
}

/// The address that fetches the article `article_id`.
pub open spec fn article_content_url_text(article_id: Seq<char>) -> Seq<char> {
    ARTICLE_URL@ + article_id + CONTENT_SUFFIX@
}

/// The `Authorization` header that carries `credential`.
pub open spec fn bearer_text(credential: Seq<char>) -> Seq<char> {
    BEARER@ + credential
}

/// The address that resolves `slug`.
pub fn publication_id_url(slug: &str) -> (url: String)
    ensures
        url@ == publication_id_url_text(slug@),
{
    let mut url = PUBLICATION_ID_URL.to_owned();
    url.append(slug);
    url
}

/// The address that lists the articles of the publication `publication_id`.
pub fn publication_articles_url(publication_id: &str) -> (url: String)
    ensures
        url@ == publication_articles_url_text(publication_id@),
{
    let mut url = PUBLICATION_URL.to_owned();
    url.append(publication_id);
    url.append(ARTICLES_SUFFIX);
    url
}

/// The address that fetches the article `article_id`.
pub fn article_content_url(article_id: &str) -> (url: String)
    ensures
        url@ == article_content_url_text(article_id@),
{
    let mut url = ARTICLE_URL.to_owned();
    url.append(article_id);
    url.append(CONTENT_SUFFIX);
    url
}

/// The `Authorization` header that carries `credential`.
pub fn bearer(credential: &str) -> (header: String)
    ensures
        header@ == bearer_text(credential@),
{
    let mut header = BEARER.to_owned();
    header.append(credential);
    header
}

/// The publication's id in a decoded body: the string under `publication_id`.
pub open spec fn publication_id_in(document: Option<Json>) -> Option<Seq<char>> {
    match document {
        Some(document) => text_member(document, PUBLICATION_ID_KEY@),
        None => None,
    }
}

/// The article ids in a decoded body: the strings of the array under
/// `publication_articles`.
pub open spec fn article_ids_in(document: Option<Json>) -> Option<Seq<Seq<char>>> {
    match document {
        Some(document) => text_list_member(document, PUBLICATION_ARTICLES_KEY@),
        None => None,
    }
}

/// The article in a decoded body: the strings under `id` and `content`.
pub open spec fn article_in(document: Option<Json>) -> Option<ArticleView> {
    match document {
        Some(document) => match (
            text_member(document, ARTICLE_ID_KEY@),
            text_member(document, ARTICLE_CONTENT_KEY@),
        ) {
            (Some(id), Some(content)) => Some(ArticleView { id, content }),
            _ => None,
        },
        None => None,
    }
}

/// Decodes the body of a reply to the resolving call.
pub fn decode_publication_id(body: &str) -> (id: Option<String>)
    ensures
        id.deep_view() == publication_id_in(json_parsed(body@)),
{
    match parse(body) {
        Ok(document) => read_text_member(&document, PUBLICATION_ID_KEY),
        Err(_) => None,
    }
}

/// Decodes the body of a reply to the listing call.
pub fn decode_article_ids(body: &str) -> (ids: Option<Vec<String>>)
    ensures
        ids.deep_view() == article_ids_in(json_parsed(body@)),
{
    match parse(body) {
        Ok(document) => read_text_list_member(&document, PUBLICATION_ARTICLES_KEY),
        Err(_) => None,
    }
}

/// Decodes the body of a reply to the fetching call.
pub fn decode_article(body: &str) -> (article: Option<ArticleContent>)
    ensures
        article.deep_view() == article_in(json_parsed(body@)),
{
    match parse(body) {
        Ok(document) => {
            match read_text_member(&document, ARTICLE_ID_KEY) {
                Some(id) => match read_text_member(&document, ARTICLE_CONTENT_KEY) {
                    Some(content) => Some(ArticleContent { id, content }),
                    None => None,
                },
                None => None,
            }
        },
        Err(_) => None,
    }
}

/// Whether a status says that the credential was rejected.
pub open spec fn credential_rejected(status: u16) -> bool {
    status == 401 || status == 403
}

/// Whether a status says that nothing exists under the requested id.
pub open spec fn nothing_found(status: u16) -> bool {
    status == 404
}

/// What a reply to the resolving call comes to, given its status and the id
/// decoded from its body. An id is accepted only if it is not empty.
pub open spec fn resolution(status: u16, id: Option<Seq<char>>) -> Result<Seq<char>, ErrorKind> {
    if credential_rejected(status) {
        Err(ErrorKind::ProviderAuthFailed)
    } else {
        match id {
            Some(id) => if id.len() > 0 {
                Ok(id)
            } else {
                Err(ErrorKind::ProviderResponseInvalid)
            },
            None => Err(ErrorKind::ProviderResponseInvalid),
        }
    }
}

/// What a reply to the listing call comes to. An empty list is a list.
pub open spec fn listing(status: u16, ids: Option<Seq<Seq<char>>>) -> Result<
    Seq<Seq<char>>,
    ErrorKind,
> {
    if credential_rejected(status) {
        Err(ErrorKind::ProviderAuthFailed)
    } else {
        match ids {
            Some(ids) => Ok(ids),
            None => Err(ErrorKind::ProviderResponseInvalid),
        }
    }
}

/// The article that a run works on: the first that the platform listed.
pub open spec fn selection(ids: Seq<Seq<char>>) -> Result<Seq<char>, ErrorKind> {
    if ids.len() > 0 {
        Ok(ids[0])
    } else {
        Err(ErrorKind::NoArticlesAvailable)
    }
}

/// What a reply to the fetching call comes to. The article is taken as it
/// came: its id is not held against the id that was asked for.
pub open spec fn retrieval(status: u16, article: Option<ArticleView>) -> Result<
    ArticleView,
    ErrorKind,
> {
    if credential_rejected(status) {
        Err(ErrorKind::ProviderAuthFailed)
    } else if nothing_found(status) {
        Err(ErrorKind::ArticleNotFound)
    } else {
        match article {
            Some(article) => Ok(article),
            None => Err(ErrorKind::ProviderResponseInvalid),
        }
    }
}

/// Judges a reply to the resolving call. Success always carries an id that is
/// not empty, and a failure is always one of the provider's three.
pub fn resolved(status: u16, id: Option<String>) -> (outcome: Result<String, ErrorKind>)
    ensures
        text_outcome(outcome) == resolution(status, id.deep_view()),
        outcome matches Ok(id) ==> id@.len() > 0,
        outcome matches Err(kind) ==> kind.is_provider(),
{
    if status == 401 || status == 403 {
        return Err(ErrorKind::ProviderAuthFailed);
    }
    match id {
        Some(id) => if id.as_str().is_empty() {
            Err(ErrorKind::ProviderResponseInvalid)
        } else {
            Ok(id)
        },
        None => Err(ErrorKind::ProviderResponseInvalid),
    }
}

/// Judges a reply to the listing call. A list comes back as it was decoded,
/// empty or not, and a failure is always one of the provider's three.
pub fn listed(status: u16, ids: Option<Vec<String>>) -> (outcome: Result<Vec<String>, ErrorKind>)
    ensures
        texts_outcome(outcome) == listing(status, ids.deep_view()),
        outcome matches Err(kind) ==> kind.is_provider(),
{
    if status == 401 || status == 403 {
        return Err(ErrorKind::ProviderAuthFailed);
    }
    match ids {
        Some(ids) => Ok(ids),
        None => Err(ErrorKind::ProviderResponseInvalid),
    }
}

/// Selects the first of the listed articles; an empty list is the failure
/// `NoArticlesAvailable`.
pub fn select_article(ids: &Vec<String>) -> (outcome: Result<String, ErrorKind>)
    ensures
        text_outcome(outcome) == selection(ids.deep_view()),
        ids@.len() == 0 <==> outcome == Err::<String, ErrorKind>(ErrorKind::NoArticlesAvailable),
{
    if ids.len() > 0 {
        Ok(ids[0].clone())
    } else {
        Err(ErrorKind::NoArticlesAvailable)
    }
}

/// Judges a reply to the fetching call.
pub fn fetched(status: u16, article: Option<ArticleContent>) -> (outcome: Result<
    ArticleContent,
    ErrorKind,
>)
    ensures
        article_outcome(outcome) == retrieval(status, article.deep_view()),
{
    if status == 401 || status == 403 {
        return Err(ErrorKind::ProviderAuthFailed);
    }
    if status == 404 {
        return Err(ErrorKind::ArticleNotFound);
    }
    match article {
        Some(article) => Ok(article),
        None => Err(ErrorKind::ProviderResponseInvalid),
    }
}

} // verus!
