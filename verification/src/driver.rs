//! The pipeline's rule, executable: each function here returns the move that
//! the rule prescribes, and is proved to.
//!
//! The surroundings run the loop. They call `start`, carry out the action of
//! the move they get, report how it went with an event, call `step` with that
//! event, and so on until the action is `Finish` or `Fail`.

use vstd::prelude::*;
use crate::config::{Config, AUDIO_FILE};
use crate::content::{
    article_content_url, article_outcome, bearer, decode_article, decode_article_ids,
    decode_publication_id, fetched, listed, publication_articles_url, publication_id_url,
    resolved, select_article, ArticleContent,
};
use crate::error::{text_outcome, texts_outcome, ErrorKind, PipelineError, Step};
use crate::pipeline::{
    after_connection, after_insertion, after_listing, after_opening, after_resolution,
    after_retrieval, after_synthesis, after_table, begin, failing, finishing, next, reading,
    writing, Action, Event, Notice, Stage, Transition,
};
use crate::speech::{decode_audio_location, synthesis_body, synthesized, BODY_TYPE, SYNTHESIS_URL};
use crate::store::{CREATE_TABLE, INSERT_ARTICLE};

verus! {

/// Ends the run with a failure.
pub fn fail(kind: ErrorKind, step: Step) -> (transition: Transition)
    ensures
        transition@ == failing(kind, step),
{
    let error = PipelineError { kind, step };
    Transition { stage: Stage::Failed { error }, action: Action::Fail { error }, notice: None }
}

/// Starts a run: asks the platform for the id of the configured publication,
/// whose slug is not empty.
pub fn start(config: &Config) -> (transition: Transition)
    ensures
        transition@ == begin(config@),
        config@.publication_slug.len() > 0,
{
    Transition {
        stage: Stage::Resolving,
        action: Action::Get {
            url: publication_id_url(config.publication_slug()),
            authorization: bearer(config.content_credential()),
        },
        notice: None,
    }
}

/// Goes on from the outcome of the resolving call.
pub fn after_resolve(config: &Config, outcome: Result<String, ErrorKind>) -> (transition:
    Transition)
    ensures
        transition@ == after_resolution(config@, text_outcome(outcome)),
{
    match outcome {
        Ok(publication_id) => Transition {
            stage: Stage::Listing,
            action: Action::Get {
                url: publication_articles_url(publication_id.as_str()),
                authorization: bearer(config.content_credential()),
            },
            notice: None,
        },
        Err(kind) => fail(kind, Step::ResolvePublication),
    }
}

/// Goes on from the outcome of the listing call: selects the first article and
/// asks for it, or ends the run where there is none.
pub fn after_list(config: &Config, outcome: Result<Vec<String>, ErrorKind>) -> (transition:
    Transition)
    ensures
        transition@ == after_listing(config@, texts_outcome(outcome)),
        outcome matches Ok(ids) && ids@.len() == 0 ==> transition@ == failing(
            ErrorKind::NoArticlesAvailable,
            Step::ListArticles,
        ),
{
    match outcome {
        Ok(ids) => match select_article(&ids) {
            Ok(article_id) => {
                let url = article_content_url(article_id.as_str());
                Transition {
                    stage: Stage::Fetching { requested: article_id },
                    action: Action::Get { url, authorization: bearer(config.content_credential()) },
                    notice: None,
                }
            },
            Err(kind) => fail(kind, Step::ListArticles),
        },
        Err(kind) => fail(kind, Step::ListArticles),
    }
}

/// Goes on from the outcome of the fetching call: connects to the store, and
/// gives notice where the article's id is not the one that was asked for.
pub fn after_fetch(
    config: &Config,
    requested: String,
    outcome: Result<ArticleContent, ErrorKind>,
) -> (transition: Transition)
    ensures
        transition@ == after_retrieval(config@, requested@, article_outcome(outcome)),
{
    match outcome {
        Ok(article) => {
            let notice = if article.id == requested {
                None
            } else {
                Some(Notice::IdMismatch { requested, received: article.id.clone() })
            };
            Transition {
                stage: Stage::Connecting { article },
                action: Action::Connect { connection: config.store_connection().to_owned() },
                notice,
            }
        },
        Err(kind) => fail(kind, Step::FetchArticle),
    }
}

/// Goes on once the store is connected: has the table created unless it exists.
pub fn after_connect(article: ArticleContent) -> (transition: Transition)
    ensures
        transition@ == after_connection(article@),
{
    let parameters: Vec<String> = Vec::new();
    assert(parameters.deep_view() =~= Seq::<Seq<char>>::empty());
    Transition {
        stage: Stage::EnsuringTable { article },
        action: Action::Execute { statement: CREATE_TABLE.to_owned(), parameters },
        notice: None,
    }
}

/// Goes on once the table is there: has the article inserted, its id first and
/// its content second.
pub fn after_ensure(article: ArticleContent) -> (transition: Transition)
    ensures
        transition@ == after_table(article@),
{
    let mut parameters: Vec<String> = Vec::new();
    parameters.push(article.id.clone());
    parameters.push(article.content.clone());
    assert(parameters.deep_view() =~= seq![article.id@, article.content@]);
    Transition {
        stage: Stage::Inserting { article },
        action: Action::Execute { statement: INSERT_ARTICLE.to_owned(), parameters },
        notice: None,
    }
}

/// Goes on once the article is stored: sends `body` to the speech provider, or
/// ends the run where no body could be written.
pub fn after_insert(config: &Config, body: Option<String>) -> (transition: Transition)
    ensures
        transition@ == after_insertion(config@, body.deep_view()),
{
    match body {
        Some(body) => Transition {
            stage: Stage::Synthesizing,
            action: Action::Post {
                url: SYNTHESIS_URL.to_owned(),
                authorization: bearer(config.speech_credential()),
                media_type: BODY_TYPE.to_owned(),
                body,
            },
            notice: None,
        },
        None => fail(ErrorKind::Other, Step::Synthesize),
    }
}

/// Goes on from the outcome of the call to the speech provider: opens the
/// audio at the address that came back.
pub fn after_synthesize(outcome: Result<String, ErrorKind>) -> (transition: Transition)
    ensures
        transition@ == after_synthesis(text_outcome(outcome)),
{
    match outcome {
        Ok(location) => Transition {
            stage: Stage::OpeningAudio,
            action: Action::OpenStream { url: location },
            notice: None,
        },
        Err(kind) => fail(kind, Step::Synthesize),
    }
}

/// Goes on once the audio stream is open: has the audio file created.
pub fn after_open() -> (transition: Transition)
    ensures
        transition@ == after_opening(),
{
    Transition {
        stage: Stage::CreatingFile,
        action: Action::CreateFile { path: AUDIO_FILE.to_owned() },
        notice: None,
    }
}

/// Asks for the next chunk of the stream.
pub fn read_on() -> (transition: Transition)
    ensures
        transition@ == reading(),
{
    Transition { stage: Stage::ReadingChunk, action: Action::ReadChunk, notice: None }
}

/// Has a chunk written as it arrived.
pub fn write_out(bytes: Vec<u8>) -> (transition: Transition)
    ensures
        transition@ == writing(bytes@),
{
    Transition { stage: Stage::WritingChunk, action: Action::WriteChunk { bytes }, notice: None }
}

/// Ends the run with success.
pub fn finish() -> (transition: Transition)
    ensures
        transition@ == finishing(),
{
    Transition { stage: Stage::Finished, action: Action::Finish, notice: None }
}

/// Makes the move that the pipeline's rule prescribes for a stage and an event.
pub fn step(config: &Config, stage: Stage, event: Event) -> (transition: Transition)
    ensures
        transition@ == next(config@, stage@, event@),
{
    let attempt = stage.attempt();
    let breakdown = stage.breakdown();
    match stage {
        Stage::Finished => finish(),
        Stage::Failed { error } => fail(error.kind, error.step),
        Stage::Resolving => match event {
            Event::Failed => fail(breakdown, attempt),
            Event::Reply { status, body } => after_resolve(
                config,
                resolved(status, decode_publication_id(body.as_str())),
            ),
            _ => fail(ErrorKind::Other, attempt),
        },
        Stage::Listing => match event {
            Event::Failed => fail(breakdown, attempt),
            Event::Reply { status, body } => after_list(
                config,
                listed(status, decode_article_ids(body.as_str())),
            ),
            _ => fail(ErrorKind::Other, attempt),
        },
        Stage::Fetching { requested } => match event {
            Event::Failed => fail(breakdown, attempt),
            Event::Reply { status, body } => after_fetch(
                config,
                requested,
                fetched(status, decode_article(body.as_str())),
            ),
            _ => fail(ErrorKind::Other, attempt),
        },
        Stage::Connecting { article } => match event {
            Event::Failed => fail(breakdown, attempt),
            Event::Completed => after_connect(article),
            _ => fail(ErrorKind::Other, attempt),
        },
        Stage::EnsuringTable { article } => match event {
            Event::Failed => fail(breakdown, attempt),
            Event::Completed => after_ensure(article),
            _ => fail(ErrorKind::Other, attempt),
        },
        Stage::Inserting { article } => match event {
            Event::Failed => fail(breakdown, attempt),
            Event::Completed => after_insert(config, synthesis_body(article.content.as_str())),
            _ => fail(ErrorKind::Other, attempt),
        },
        Stage::Synthesizing => match event {
            Event::Failed => fail(breakdown, attempt),
            Event::Reply { status, body } => after_synthesize(
                synthesized(decode_audio_location(body.as_str())),
            ),
            _ => fail(ErrorKind::Other, attempt),
        },
        Stage::OpeningAudio => match event {
            Event::Failed => fail(breakdown, attempt),
            Event::Completed => after_open(),
            _ => fail(ErrorKind::Other, attempt),
        },
        Stage::CreatingFile => match event {
            Event::Failed => fail(breakdown, attempt),
            Event::Completed => read_on(),
            _ => fail(ErrorKind::Other, attempt),
        },
        Stage::ReadingChunk => match event {
            Event::Failed => fail(breakdown, attempt),
            Event::Chunk { bytes } => write_out(bytes),
            Event::EndOfStream => finish(),
            _ => fail(ErrorKind::Other, attempt),
        },
        Stage::WritingChunk => match event {
            Event::Failed => fail(breakdown, attempt),
            Event::Completed => read_on(),
            _ => fail(ErrorKind::Other, attempt),
        },
    }
}

} // verus!
