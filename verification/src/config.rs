//! The configuration of a run: made once, before the first step, and handed
//! to every step by reference.

use vstd::prelude::*;
use crate::error::{ErrorKind, PipelineError, Step};

verus! {

/// The environment variable that holds the content platform's credential.
pub const CONTENT_CREDENTIAL_VARIABLE: &'static str = "MEDIUM_API_KEY";

/// The environment variable that holds the speech provider's credential.
pub const SPEECH_CREDENTIAL_VARIABLE: &'static str = "OPENAI_API_KEY";

/// The environment variable that holds the store's connection string.
pub const STORE_CONNECTION_VARIABLE: &'static str = "DATABASE_URL";

/// The slug of the publication that a run reads, until the operator sets another.
pub const PUBLICATION_SLUG: &'static str = "your-publication-slug";

/// The file that a run writes the audio to, in the working directory.
pub const AUDIO_FILE: &'static str = "audiobook.mp3";

/// One of the values that a run cannot start without.
#[derive(Clone, Copy, Debug, PartialEq, Eq, Structural)]
pub enum Setting {
    ContentCredential,
    SpeechCredential,
    StoreConnection,
    PublicationSlug,
}

impl Setting {
    /// Where the operator sets the value: an environment variable for the three
    /// that are read from the environment, and the name of the slug.
    pub fn name(self) -> (name: &'static str)
        ensures
            name@ == match self {
                Setting::ContentCredential => CONTENT_CREDENTIAL_VARIABLE@,
                Setting::SpeechCredential => SPEECH_CREDENTIAL_VARIABLE@,
                Setting::StoreConnection => STORE_CONNECTION_VARIABLE@,
                Setting::PublicationSlug => "publication slug"@,
            },
    {
        match self {
            Setting::ContentCredential => CONTENT_CREDENTIAL_VARIABLE,
            Setting::SpeechCredential => SPEECH_CREDENTIAL_VARIABLE,
            Setting::StoreConnection => STORE_CONNECTION_VARIABLE,
            Setting::PublicationSlug => "publication slug",
        }
    }
}

/// The first value that is missing, in the order in which a run needs them: a
/// credential or connection string that was not given, or an empty slug.
pub open spec fn first_missing(
    content_credential: Option<Seq<char>>,
    speech_credential: Option<Seq<char>>,
    store_connection: Option<Seq<char>>,
    publication_slug: Seq<char>,
) -> Option<Setting> {
    if content_credential is None {
        Some(Setting::ContentCredential)
    } else if speech_credential is None {
        Some(Setting::SpeechCredential)
    } else if store_connection is None {
        Some(Setting::StoreConnection)
    } else if publication_slug.len() == 0 {
        Some(Setting::PublicationSlug)
    } else {
        None
    }
}

/// Finds the first value that is missing.
pub fn missing(
    content_credential: &Option<String>,
    speech_credential: &Option<String>,
    store_connection: &Option<String>,
    publication_slug: &str,
) -> (setting: Option<Setting>)
    ensures
        setting == first_missing(
            content_credential.deep_view(),
            speech_credential.deep_view(),
            store_connection.deep_view(),
            publication_slug@,
        ),
{
    if content_credential.is_none() {
        Some(Setting::ContentCredential)
    } else if speech_credential.is_none() {
        Some(Setting::SpeechCredential)
    } else if store_connection.is_none() {
        Some(Setting::StoreConnection)
    } else if publication_slug.is_empty() {
        Some(Setting::PublicationSlug)
    } else {
        None
    }
}

/// The configuration of a run. Its slug is never empty.
pub struct Config {
    content_credential: String,
    speech_credential: String,
    store_connection: String,
    publication_slug: String,
}

/// A configuration as four texts.
pub ghost struct ConfigView {
    pub content_credential: Seq<char>,
    pub speech_credential: Seq<char>,
    pub store_connection: Seq<char>,
    pub publication_slug: Seq<char>,
}

impl View for Config {
    type V = ConfigView;

    closed spec fn view(&self) -> ConfigView {
        ConfigView {
            content_credential: self.content_credential@,
            speech_credential: self.speech_credential@,
            store_connection: self.store_connection@,
            publication_slug: self.publication_slug@,
        }
    }
}

impl Config {
    #[verifier::type_invariant]
    spec fn slug_is_not_empty(self) -> bool {
        self.publication_slug@.len() > 0
    }

    /// Makes the configuration of the values that were found. It fails with
    /// `ConfigMissing` exactly when one of them is missing.
    pub fn new(
        content_credential: Option<String>,
        speech_credential: Option<String>,
        store_connection: Option<String>,
        publication_slug: String,
    ) -> (result: Result<Config, PipelineError>)
        ensures
            match result {
                Ok(config) => first_missing(
                    content_credential.deep_view(),
                    speech_credential.deep_view(),
                    store_connection.deep_view(),
                    publication_slug@,
                ) is None && config@ == (ConfigView {
                    content_credential: content_credential->Some_0@,
                    speech_credential: speech_credential->Some_0@,
                    store_connection: store_connection->Some_0@,
                    publication_slug: publication_slug@,
                }),
                Err(error) => first_missing(
                    content_credential.deep_view(),
                    speech_credential.deep_view(),
                    store_connection.deep_view(),
                    publication_slug@,
                ) is Some && error == (PipelineError {
                    kind: ErrorKind::ConfigMissing,
                    step: Step::Configure,
                }),
            },
    {
        let failure = PipelineError { kind: ErrorKind::ConfigMissing, step: Step::Configure };
        if publication_slug.as_str().is_empty() {
            return Err(failure);
        }
        match (content_credential, speech_credential, store_connection) {
            (Some(content_credential), Some(speech_credential), Some(store_connection)) => Ok(
                Config { content_credential, speech_credential, store_connection, publication_slug },
            ),
            _ => Err(failure),
        }
    }

    /// The credential for the content platform.
    pub fn content_credential(&self) -> (text: &str)
        ensures
            text@ == self@.content_credential,
    {
        self.content_credential.as_str()
    }

    /// The credential for the speech provider.
    pub fn speech_credential(&self) -> (text: &str)
        ensures
            text@ == self@.speech_credential,
    {
        self.speech_credential.as_str()
    }

    /// The connection string of the store.
    pub fn store_connection(&self) -> (text: &str)
        ensures
            text@ == self@.store_connection,
    {
        self.store_connection.as_str()
    }

    /// The slug of the publication, which is never empty.
    pub fn publication_slug(&self) -> (text: &str)
        ensures
            text@ == self@.publication_slug,
            text@.len() > 0,
    {
        proof {
            use_type_invariant(self);
        }
        self.publication_slug.as_str()
    }
}

} // verus!
