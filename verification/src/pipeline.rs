//! The pipeline as a machine: the stage a run is in, the action it asks its
//! surroundings to carry out, the event that reports how the action went, and
//! the rule that leads from a stage and an event to the next stage and action.
//!
//! A run goes through its stages in one order: resolve the publication, list
//! its articles, fetch the first, store it, ask for its audio, save the audio.
//! The first failure ends the run, and nothing that was done is taken back.

use vstd::prelude::*;
use crate::config::{ConfigView, AUDIO_FILE};
use crate::content::{
    article_content_url_text, article_ids_in, article_in, bearer_text, listing,
    publication_articles_url_text, publication_id_in, publication_id_url_text, resolution,
    retrieval, selection, ArticleContent, ArticleView,
};
use crate::error::{ErrorKind, PipelineError, Step};
use crate::json::json_parsed;
use crate::speech::{audio_location_in, synthesis, synthesis_body_text, BODY_TYPE, SYNTHESIS_URL};
use crate::store::{CREATE_TABLE, INSERT_ARTICLE};

verus! {

/// Where a run stands: what it is waiting for, and what it carries forward.
#[derive(Clone, Debug, PartialEq, Eq)]
pub enum Stage {
    /// Waiting for the publication's id.
    Resolving,
    /// Waiting for the ids of the publication's articles.
    Listing,
    /// Waiting for the article that was asked for under `requested`.
    Fetching { requested: String },
    /// Waiting for the connection to the store.
    Connecting { article: ArticleContent },
    /// Waiting for the table of articles to be there.
    EnsuringTable { article: ArticleContent },
    /// Waiting for the article to be inserted.
    Inserting { article: ArticleContent },
    /// Waiting for the address of the audio.
    Synthesizing,
    /// Waiting for the audio stream to open.
    OpeningAudio,
    /// Waiting for the audio file to be created.
    CreatingFile,
    /// Waiting for the next chunk of the stream, or its end.
    ReadingChunk,
    /// Waiting for a chunk to be written to the file.
    WritingChunk,
    /// The run is over: the audio is saved.
    Finished,
    /// The run is over: it failed.
    Failed { error: PipelineError },
}

/// What the surroundings report of the action they were asked to carry out.
#[derive(Clone, Debug, PartialEq, Eq)]
pub enum Event {
    /// A provider replied with this status and body.
    Reply { status: u16, body: String },
    /// The action was carried out and there is nothing to report.
    Completed,
    /// The stream delivered its next chunk.
    Chunk { bytes: Vec<u8> },
    /// The stream ended.
    EndOfStream,
    /// The action could not be carried out.
    Failed,
}

/// What a run asks its surroundings to do next.
#[derive(Clone, Debug, PartialEq, Eq)]
pub enum Action {
    /// Send a GET to `url` with this `Authorization` header.
    Get { url: String, authorization: String },
    /// Send a POST to `url` with this `Authorization` header and this body,
    /// whose media type is `media_type`.
    Post { url: String, authorization: String, media_type: String, body: String },
    /// Connect to the store.
    Connect { connection: String },
    /// Have the store execute a statement with these parameters.
    Execute { statement: String, parameters: Vec<String> },
    /// Send a GET to `url` and hold its body as a stream.
    OpenStream { url: String },
    /// Create the file, or empty it if it exists.
    CreateFile { path: String },
    /// Read the next chunk from the stream.
    ReadChunk,
    /// Write these bytes to the end of the file.
    WriteChunk { bytes: Vec<u8> },
    /// Stop: the run succeeded.
    Finish,
    /// Stop: the run failed with this error.
    Fail { error: PipelineError },
}

/// Something worth telling the operator that does not end the run.
#[derive(Clone, Debug, PartialEq, Eq)]
pub enum Notice {
    /// The platform returned an article under another id than was asked for.
    /// The run goes on with the id that was returned.
    IdMismatch { requested: String, received: String },
}

/// One move of a run: its next stage, the action to carry out, and a notice
/// where there is one.
#[derive(Clone, Debug, PartialEq, Eq)]
pub struct Transition {
    pub stage: Stage,
    pub action: Action,
    pub notice: Option<Notice>,
}

/// A stage as plain values.
pub ghost enum StageView {
    Resolving,
    Listing,
    Fetching { requested: Seq<char> },
    Connecting { article: ArticleView },
    EnsuringTable { article: ArticleView },
    Inserting { article: ArticleView },
    Synthesizing,
    OpeningAudio,
    CreatingFile,
    ReadingChunk,
    WritingChunk,
    Finished,
    Failed { error: PipelineError },
}

/// An event as plain values.
pub ghost enum EventView {
    Reply { status: u16, body: Seq<char> },
    Completed,
    Chunk { bytes: Seq<u8> },
    EndOfStream,
    Failed,
}

/// An action as plain values.
pub ghost enum ActionView {
    Get { url: Seq<char>, authorization: Seq<char> },
    Post { url: Seq<char>, authorization: Seq<char>, media_type: Seq<char>, body: Seq<char> },
    Connect { connection: Seq<char> },
    Execute { statement: Seq<char>, parameters: Seq<Seq<char>> },
    OpenStream { url: Seq<char> },
    CreateFile { path: Seq<char> },
    ReadChunk,
    WriteChunk { bytes: Seq<u8> },
    Finish,
    Fail { error: PipelineError },
}

/// A notice as plain values.
pub ghost enum NoticeView {
    IdMismatch { requested: Seq<char>, received: Seq<char> },
}

/// A move as plain values.
pub ghost struct TransitionView {
    pub stage: StageView,
    pub action: ActionView,
    pub notice: Option<NoticeView>,
}

impl View for Stage {
    type V = StageView;

    open spec fn view(&self) -> StageView {
        match self {
            Stage::Resolving => StageView::Resolving,
            Stage::Listing => StageView::Listing,
            Stage::Fetching { requested } => StageView::Fetching { requested: requested@ },
            Stage::Connecting { article } => StageView::Connecting { article: article@ },
            Stage::EnsuringTable { article } => StageView::EnsuringTable { article: article@ },
            Stage::Inserting { article } => StageView::Inserting { article: article@ },
            Stage::Synthesizing => StageView::Synthesizing,
            Stage::OpeningAudio => StageView::OpeningAudio,
            Stage::CreatingFile => StageView::CreatingFile,
            Stage::ReadingChunk => StageView::ReadingChunk,
            Stage::WritingChunk => StageView::WritingChunk,
            Stage::Finished => StageView::Finished,
            Stage::Failed { error } => StageView::Failed { error: *error },
        }
    }
}

impl View for Event {
    type V = EventView;

    open spec fn view(&self) -> EventView {
        match self {
            Event::Reply { status, body } => EventView::Reply { status: *status, body: body@ },
            Event::Completed => EventView::Completed,
            Event::Chunk { bytes } => EventView::Chunk { bytes: bytes@ },
            Event::EndOfStream => EventView::EndOfStream,
            Event::Failed => EventView::Failed,
        }
    }
}

impl View for Action {
    type V = ActionView;

    open spec fn view(&self) -> ActionView {
        match self {
            Action::Get { url, authorization } => ActionView::Get {
                url: url@,
                authorization: authorization@,
            },
            Action::Post { url, authorization, media_type, body } => ActionView::Post {
                url: url@,
                authorization: authorization@,
                media_type: media_type@,
                body: body@,
            },
            Action::Connect { connection } => ActionView::Connect { connection: connection@ },
            Action::Execute { statement, parameters } => ActionView::Execute {
                statement: statement@,
                parameters: parameters.deep_view(),
            },
            Action::OpenStream { url } => ActionView::OpenStream { url: url@ },
            Action::CreateFile { path } => ActionView::CreateFile { path: path@ },
            Action::ReadChunk => ActionView::ReadChunk,
            Action::WriteChunk { bytes } => ActionView::WriteChunk { bytes: bytes@ },
            Action::Finish => ActionView::Finish,
            Action::Fail { error } => ActionView::Fail { error: *error },
        }
    }
}

impl View for Notice {
    type V = NoticeView;

    open spec fn view(&self) -> NoticeView {
        match self {
            Notice::IdMismatch { requested, received } => NoticeView::IdMismatch {
                requested: requested@,
                received: received@,
            },
        }
    }
}

impl DeepView for Notice {
    type V = NoticeView;

    open spec fn deep_view(&self) -> NoticeView {
        self@
    }
}

impl View for Transition {
    type V = TransitionView;

    open spec fn view(&self) -> TransitionView {
        TransitionView {
            stage: self.stage@,
            action: self.action@,
            notice: self.notice.deep_view(),
        }
    }
}

impl StageView {
    /// Whether the run is over.
    pub open spec fn is_over(self) -> bool {
        self is Finished || self is Failed
    }

    /// Whether the event is one that this stage waits for: the report of how
    /// its action went. A provider replies or cannot be reached, the stream
    /// delivers a chunk, ends or breaks, and anything else is done or is not.
    /// A run that is over waits for nothing.
    pub open spec fn expects(self, event: EventView) -> bool {
        match self {
            StageView::Resolving | StageView::Listing | StageView::Fetching { .. }
            | StageView::Synthesizing => event is Reply || event is Failed,
            StageView::Connecting { .. } | StageView::EnsuringTable { .. }
            | StageView::Inserting { .. } | StageView::OpeningAudio | StageView::CreatingFile
            | StageView::WritingChunk => event is Completed || event is Failed,
            StageView::ReadingChunk => event is Chunk || event is EndOfStream || event is Failed,
            StageView::Finished | StageView::Failed { .. } => false,
        }
    }

    /// What is being attempted in this stage. Of a run that is over, the last
    /// thing that was.
    pub open spec fn attempt(self) -> Step {
        match self {
            StageView::Resolving => Step::ResolvePublication,
            StageView::Listing => Step::ListArticles,
            StageView::Fetching { .. } => Step::FetchArticle,
            StageView::Connecting { .. } => Step::ConnectStore,
            StageView::EnsuringTable { .. } => Step::EnsureTable,
            StageView::Inserting { .. } => Step::InsertArticle,
            StageView::Synthesizing => Step::Synthesize,
            StageView::OpeningAudio => Step::OpenAudio,
            StageView::CreatingFile => Step::CreateFile,
            StageView::ReadingChunk => Step::ReadChunk,
            StageView::WritingChunk => Step::WriteChunk,
            StageView::Finished => Step::ReadChunk,
            StageView::Failed { error } => error.step,
        }
    }

    /// The kind of failure that it is when the action of this stage cannot be
    /// carried out.
    pub open spec fn breakdown(self) -> ErrorKind {
        match self {
            StageView::Resolving => ErrorKind::ProviderUnavailable,
            StageView::Listing => ErrorKind::ProviderUnavailable,
            StageView::Fetching { .. } => ErrorKind::ProviderUnavailable,
            StageView::Connecting { .. } => ErrorKind::StoreUnavailable,
            StageView::EnsuringTable { .. } => ErrorKind::StoreSchemaError,
            StageView::Inserting { .. } => ErrorKind::StoreWriteFailed,
            StageView::Synthesizing => ErrorKind::ProviderUnavailable,
            StageView::OpeningAudio => ErrorKind::ProviderUnavailable,
            StageView::CreatingFile => ErrorKind::LocalWriteFailed,
            StageView::ReadingChunk => ErrorKind::DownloadFailed,
            StageView::WritingChunk => ErrorKind::LocalWriteFailed,
            StageView::Finished => ErrorKind::Other,
            StageView::Failed { error } => error.kind,
        }
    }
}

impl Stage {
    /// Whether the run is over.
    pub fn is_over(&self) -> (over: bool)
        ensures
            over == self@.is_over(),
    {
        match self {
            Stage::Finished => true,
            Stage::Failed { .. } => true,
            _ => false,
        }
    }

    /// Whether the event is one that this stage waits for.
    pub fn expects(&self, event: &Event) -> (expected: bool)
        ensures
            expected == self@.expects(event@),
    {
        match self {
            Stage::Resolving | Stage::Listing | Stage::Fetching { .. } | Stage::Synthesizing => {
                match event {
                    Event::Reply { .. } | Event::Failed => true,
                    _ => false,
                }
            },
            Stage::Connecting { .. } | Stage::EnsuringTable { .. } | Stage::Inserting { .. }
            | Stage::OpeningAudio | Stage::CreatingFile | Stage::WritingChunk => match event {
                Event::Completed | Event::Failed => true,
                _ => false,
            },
            Stage::ReadingChunk => match event {
                Event::Chunk { .. } | Event::EndOfStream | Event::Failed => true,
                _ => false,
            },
            Stage::Finished | Stage::Failed { .. } => false,
        }
    }

    /// What is being attempted in this stage.
    pub fn attempt(&self) -> (step: Step)
        ensures
            step == self@.attempt(),
    {
        match self {
            Stage::Resolving => Step::ResolvePublication,
            Stage::Listing => Step::ListArticles,
            Stage::Fetching { .. } => Step::FetchArticle,
            Stage::Connecting { .. } => Step::ConnectStore,
            Stage::EnsuringTable { .. } => Step::EnsureTable,
            Stage::Inserting { .. } => Step::InsertArticle,
            Stage::Synthesizing => Step::Synthesize,
            Stage::OpeningAudio => Step::OpenAudio,
            Stage::CreatingFile => Step::CreateFile,
            Stage::ReadingChunk => Step::ReadChunk,
            Stage::WritingChunk => Step::WriteChunk,
            Stage::Finished => Step::ReadChunk,
            Stage::Failed { error } => error.step,
        }
    }

    /// The kind of failure that it is when the action of this stage cannot be
    /// carried out.
    pub fn breakdown(&self) -> (kind: ErrorKind)
        ensures
            kind == self@.breakdown(),
    {
        match self {
            Stage::Resolving => ErrorKind::ProviderUnavailable,
            Stage::Listing => ErrorKind::ProviderUnavailable,
            Stage::Fetching { .. } => ErrorKind::ProviderUnavailable,
            Stage::Connecting { .. } => ErrorKind::StoreUnavailable,
            Stage::EnsuringTable { .. } => ErrorKind::StoreSchemaError,
            Stage::Inserting { .. } => ErrorKind::StoreWriteFailed,
            Stage::Synthesizing => ErrorKind::ProviderUnavailable,
            Stage::OpeningAudio => ErrorKind::ProviderUnavailable,
            Stage::CreatingFile => ErrorKind::LocalWriteFailed,
            Stage::ReadingChunk => ErrorKind::DownloadFailed,
            Stage::WritingChunk => ErrorKind::LocalWriteFailed,
            Stage::Finished => ErrorKind::Other,
            Stage::Failed { error } => error.kind,
        }
    }
}

/// The move that ends a run with a failure.
pub open spec fn failing(kind: ErrorKind, step: Step) -> TransitionView {
    let error = PipelineError { kind, step };
    TransitionView {
        stage: StageView::Failed { error },
        action: ActionView::Fail { error },
        notice: None,
    }
}

/// The first move of a run: ask the platform for the publication's id.
pub open spec fn begin(config: ConfigView) -> TransitionView {
    TransitionView {
        stage: StageView::Resolving,
        action: ActionView::Get {
            url: publication_id_url_text(config.publication_slug),
            authorization: bearer_text(config.content_credential),
        },
        notice: None,
    }
}

/// The move after the resolving call: with the publication's id, ask for its
/// articles.
pub open spec fn after_resolution(
    config: ConfigView,
    outcome: Result<Seq<char>, ErrorKind>,
) -> TransitionView {
    match outcome {
        Ok(publication_id) => TransitionView {
            stage: StageView::Listing,
            action: ActionView::Get {
                url: publication_articles_url_text(publication_id),
                authorization: bearer_text(config.content_credential),
            },
            notice: None,
        },
        Err(kind) => failing(kind, Step::ResolvePublication),
    }
}

/// The move after the listing call: ask for the first of the articles. A
/// list without articles ends the run.
pub open spec fn after_listing(
    config: ConfigView,
    outcome: Result<Seq<Seq<char>>, ErrorKind>,
) -> TransitionView {
    match outcome {
        Ok(ids) => match selection(ids) {
            Ok(article_id) => TransitionView {
                stage: StageView::Fetching { requested: article_id },
                action: ActionView::Get {
                    url: article_content_url_text(article_id),
                    authorization: bearer_text(config.content_credential),
                },
                notice: None,
            },
            Err(kind) => failing(kind, Step::ListArticles),
        },
        Err(kind) => failing(kind, Step::ListArticles),
    }
}

/// The move after the fetching call: connect to the store. Where the article
/// came under another id than was asked for, a notice says so.
pub open spec fn after_retrieval(
    config: ConfigView,
    requested: Seq<char>,
    outcome: Result<ArticleView, ErrorKind>,
) -> TransitionView {
    match outcome {
        Ok(article) => TransitionView {
            stage: StageView::Connecting { article },
            action: ActionView::Connect { connection: config.store_connection },
            notice: if article.id == requested {
                None
            } else {
                Some(NoticeView::IdMismatch { requested, received: article.id })
            },
        },
        Err(kind) => failing(kind, Step::FetchArticle),
    }
}

/// The move once the store is connected: make sure the table is there.
pub open spec fn after_connection(article: ArticleView) -> TransitionView {
    TransitionView {
        stage: StageView::EnsuringTable { article },
        action: ActionView::Execute { statement: CREATE_TABLE@, parameters: Seq::empty() },
        notice: None,
    }
}

/// The move once the table is there: insert the article.
pub open spec fn after_table(article: ArticleView) -> TransitionView {
    TransitionView {
        stage: StageView::Inserting { article },
        action: ActionView::Execute {
            statement: INSERT_ARTICLE@,
            parameters: seq![article.id, article.content],
        },
        notice: None,
    }
}

/// The move once the article is stored: ask for its text to be spoken. What
/// goes out is the body that was written for the text, or else the run ends.
pub open spec fn after_insertion(config: ConfigView, body: Option<Seq<char>>) -> TransitionView {
    match body {
        Some(body) => TransitionView {
            stage: StageView::Synthesizing,
            action: ActionView::Post {
                url: SYNTHESIS_URL@,
                authorization: bearer_text(config.speech_credential),
                media_type: BODY_TYPE@,
                body,
            },
            notice: None,
        },
        None => failing(ErrorKind::Other, Step::Synthesize),
    }
}

/// The move after the speech provider's reply: open the audio stream.
pub open spec fn after_synthesis(outcome: Result<Seq<char>, ErrorKind>) -> TransitionView {
    match outcome {
        Ok(location) => TransitionView {
            stage: StageView::OpeningAudio,
            action: ActionView::OpenStream { url: location },
            notice: None,
        },
        Err(kind) => failing(kind, Step::Synthesize),
    }
}

/// The move once the stream is open: create the audio file.
pub open spec fn after_opening() -> TransitionView {
    TransitionView {
        stage: StageView::CreatingFile,
        action: ActionView::CreateFile { path: AUDIO_FILE@ },
        notice: None,
    }
}

/// The move that asks for the next chunk.
pub open spec fn reading() -> TransitionView {
    TransitionView { stage: StageView::ReadingChunk, action: ActionView::ReadChunk, notice: None }
}

/// The move when a chunk has arrived: write it.
pub open spec fn writing(bytes: Seq<u8>) -> TransitionView {
    TransitionView {
        stage: StageView::WritingChunk,
        action: ActionView::WriteChunk { bytes },
        notice: None,
    }
}

/// The move when the stream has ended: the run is over.
pub open spec fn finishing() -> TransitionView {
    TransitionView { stage: StageView::Finished, action: ActionView::Finish, notice: None }
}

/// The rule of the pipeline: the move that a stage makes on an event.
///
/// A run that is over stays as it is and repeats its last action. In every
/// other stage, an action that could not be carried out ends the run with the
/// failure that belongs to the stage, an event that the stage waits for leads
/// on, and an event that it does not wait for ends the run with `Other`.
pub open spec fn next(config: ConfigView, stage: StageView, event: EventView) -> TransitionView {
    match (stage, event) {
        (StageView::Finished, _) => finishing(),
        (StageView::Failed { error }, _) => failing(error.kind, error.step),
        (_, EventView::Failed) => failing(stage.breakdown(), stage.attempt()),
        (StageView::Resolving, EventView::Reply { status, body }) => after_resolution(
            config,
            resolution(status, publication_id_in(json_parsed(body))),
        ),
        (StageView::Listing, EventView::Reply { status, body }) => after_listing(
            config,
            listing(status, article_ids_in(json_parsed(body))),
        ),
        (StageView::Fetching { requested }, EventView::Reply { status, body }) => after_retrieval(
            config,
            requested,
            retrieval(status, article_in(json_parsed(body))),
        ),
        (StageView::Connecting { article }, EventView::Completed) => after_connection(article),
        (StageView::EnsuringTable { article }, EventView::Completed) => after_table(article),
        (StageView::Inserting { article }, EventView::Completed) => after_insertion(
            config,
            synthesis_body_text(article.content),
        ),
        (StageView::Synthesizing, EventView::Reply { status, body }) => after_synthesis(
            synthesis(audio_location_in(json_parsed(body))),
        ),
        (StageView::OpeningAudio, EventView::Completed) => after_opening(),
        (StageView::CreatingFile, EventView::Completed) => reading(),
        (StageView::ReadingChunk, EventView::Chunk { bytes }) => writing(bytes),
        (StageView::ReadingChunk, EventView::EndOfStream) => finishing(),
        (StageView::WritingChunk, EventView::Completed) => reading(),
        _ => failing(ErrorKind::Other, stage.attempt()),
    }
}

} // verus!
