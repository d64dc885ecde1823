//! The ways a run can fail, and what the operator is told about a failure.

use vstd::prelude::*;
use vstd::string::StringExecFns;

verus! {

/// The kind of a failure.
#[derive(Clone, Copy, Debug, PartialEq, Eq, Structural)]
pub enum ErrorKind {
    /// The provider rejected the credential.
    ProviderAuthFailed,
    /// The provider could not be reached, or the connection broke.
    ProviderUnavailable,
    /// The provider answered, but not in the expected shape.
    ProviderResponseInvalid,
    /// The provider knows no article under the requested id.
    ArticleNotFound,
    /// The publication lists no article.
    NoArticlesAvailable,
    /// The store could not be reached.
    StoreUnavailable,
    /// The table of articles could not be created.
    StoreSchemaError,
    /// The article could not be inserted.
    StoreWriteFailed,
    /// The audio stream broke before its end.
    DownloadFailed,
    /// The audio file could not be created or written.
    LocalWriteFailed,
    /// A required configuration value is missing.
    ConfigMissing,
    /// Anything else; the step of the error says where it happened.
    Other,
}

/// The thing that was being attempted when a failure happened.
#[derive(Clone, Copy, Debug, PartialEq, Eq, Structural)]
pub enum Step {
    Configure,
    ResolvePublication,
    ListArticles,
    FetchArticle,
    ConnectStore,
    EnsureTable,
    InsertArticle,
    Synthesize,
    OpenAudio,
    CreateFile,
    ReadChunk,
    WriteChunk,
}

/// A failure: its kind, and the step that failed.
#[derive(Clone, Copy, Debug, PartialEq, Eq, Structural)]
pub struct PipelineError {
    pub kind: ErrorKind,
    pub step: Step,
}

impl ErrorKind {
    /// The three kinds that a call to a provider can fail with, whatever the call.
    pub open spec fn is_provider(self) -> bool {
        self == ErrorKind::ProviderAuthFailed || self == ErrorKind::ProviderUnavailable || self
            == ErrorKind::ProviderResponseInvalid
    }

    /// The kind in words.
    pub open spec fn meaning_text(self) -> Seq<char> {
        match self {
            ErrorKind::ProviderAuthFailed => "the provider rejected the credential"@,
            ErrorKind::ProviderUnavailable => "the provider could not be reached"@,
            ErrorKind::ProviderResponseInvalid => "the provider's response could not be decoded"@,
            ErrorKind::ArticleNotFound => "the provider has no such article"@,
            ErrorKind::NoArticlesAvailable => "the publication has no articles"@,
            ErrorKind::StoreUnavailable => "the store could not be reached"@,
            ErrorKind::StoreSchemaError => "the articles table could not be created"@,
            ErrorKind::StoreWriteFailed => "the article could not be written"@,
            ErrorKind::DownloadFailed => "the audio stream broke off"@,
            ErrorKind::LocalWriteFailed => "the audio file could not be written"@,
            ErrorKind::ConfigMissing => "a required value is missing"@,
            ErrorKind::Other => "unexpected failure"@,
        }
    }

    /// The kind in words.
    pub fn meaning(self) -> (text: &'static str)
        ensures
            text@ == self.meaning_text(),
    {
        match self {
            ErrorKind::ProviderAuthFailed => "the provider rejected the credential",
            ErrorKind::ProviderUnavailable => "the provider could not be reached",
            ErrorKind::ProviderResponseInvalid => "the provider's response could not be decoded",
            ErrorKind::ArticleNotFound => "the provider has no such article",
            ErrorKind::NoArticlesAvailable => "the publication has no articles",
            ErrorKind::StoreUnavailable => "the store could not be reached",
            ErrorKind::StoreSchemaError => "the articles table could not be created",
            ErrorKind::StoreWriteFailed => "the article could not be written",
            ErrorKind::DownloadFailed => "the audio stream broke off",
            ErrorKind::LocalWriteFailed => "the audio file could not be written",
            ErrorKind::ConfigMissing => "a required value is missing",
            ErrorKind::Other => "unexpected failure",
        }
    }
}

impl Step {
    /// The attempt in words.
    pub open spec fn attempt_text(self) -> Seq<char> {
        match self {
            Step::Configure => "reading the configuration"@,
            Step::ResolvePublication => "resolving the publication"@,
            Step::ListArticles => "listing the publication's articles"@,
            Step::FetchArticle => "fetching the article"@,
            Step::ConnectStore => "connecting to the store"@,
            Step::EnsureTable => "creating the articles table"@,
            Step::InsertArticle => "storing the article"@,
            Step::Synthesize => "requesting the audio"@,
            Step::OpenAudio => "opening the audio stream"@,
            Step::CreateFile => "creating the audio file"@,
            Step::ReadChunk => "reading the audio stream"@,
            Step::WriteChunk => "writing the audio file"@,
        }
    }

    /// The attempt in words.
    pub fn attempt(self) -> (text: &'static str)
        ensures
            text@ == self.attempt_text(),
    {
        match self {
            Step::Configure => "reading the configuration",
            Step::ResolvePublication => "resolving the publication",
            Step::ListArticles => "listing the publication's articles",
            Step::FetchArticle => "fetching the article",
            Step::ConnectStore => "connecting to the store",
            Step::EnsureTable => "creating the articles table",
            Step::InsertArticle => "storing the article",
            Step::Synthesize => "requesting the audio",
            Step::OpenAudio => "opening the audio stream",
            Step::CreateFile => "creating the audio file",
            Step::ReadChunk => "reading the audio stream",
            Step::WriteChunk => "writing the audio file",
        }
    }
}

impl PipelineError {
    /// The diagnostic message: what was attempted, then what went wrong.
    pub open spec fn message_text(self) -> Seq<char> {
        self.step.attempt_text() + ": "@ + self.kind.meaning_text()
    }

    /// The diagnostic message that the operator sees.
    pub fn message(&self) -> (text: String)
        ensures
            text@ == self.message_text(),
    {
        let mut text = self.step.attempt().to_owned();
        text.append(": ");
        text.append(self.kind.meaning());
        text
    }
}

/// A text or the kind of a failure, seen as a sequence of characters.
pub open spec fn text_outcome(outcome: Result<String, ErrorKind>) -> Result<Seq<char>, ErrorKind> {
    match outcome {
        Ok(text) => Ok(text@),
        Err(kind) => Err(kind),
    }
}

/// A list of texts or the kind of a failure, seen as sequences of characters.
pub open spec fn texts_outcome(outcome: Result<Vec<String>, ErrorKind>) -> Result<
    Seq<Seq<char>>,
    ErrorKind,
> {
    match outcome {
        Ok(texts) => Ok(texts.deep_view()),
        Err(kind) => Err(kind),
    }
}

} // verus!
