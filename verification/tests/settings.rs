use medium_to_audiobook::config::{
    missing, Config, Setting, AUDIO_FILE, CONTENT_CREDENTIAL_VARIABLE, PUBLICATION_SLUG,
    SPEECH_CREDENTIAL_VARIABLE, STORE_CONNECTION_VARIABLE,
};
use medium_to_audiobook::error::{ErrorKind, PipelineError, Step};

fn given(text: &str) -> Option<String> {
    Some(text.to_string())
}

#[test]
fn complete_configuration_is_accepted() {
    let config = Config::new(given("m"), given("o"), given("db"), "tech-blog".to_string());
    let config = match config {
        Ok(config) => config,
        Err(error) => panic!("unexpected {:?}", error),
    };
    assert_eq!(config.content_credential(), "m");
    assert_eq!(config.speech_credential(), "o");
    assert_eq!(config.store_connection(), "db");
    assert_eq!(config.publication_slug(), "tech-blog");
}

#[test]
fn empty_credential_counts_as_given() {
    let config = Config::new(given(""), given(""), given(""), "s".to_string());
    assert!(config.is_ok());
}

#[test]
fn missing_value_raises_config_missing() {
    let expected = PipelineError { kind: ErrorKind::ConfigMissing, step: Step::Configure };
    let slug = "tech-blog".to_string();
    assert_eq!(Config::new(None, given("o"), given("db"), slug.clone()).err(), Some(expected));
    assert_eq!(Config::new(given("m"), None, given("db"), slug.clone()).err(), Some(expected));
    assert_eq!(Config::new(given("m"), given("o"), None, slug.clone()).err(), Some(expected));
    assert_eq!(Config::new(None, None, None, slug).err(), Some(expected));
}

#[test]
fn empty_slug_raises_config_missing() {
    let expected = PipelineError { kind: ErrorKind::ConfigMissing, step: Step::Configure };
    assert_eq!(Config::new(given("m"), given("o"), given("db"), String::new()).err(), Some(expected));
}

#[test]
fn first_missing_value_is_named() {
    assert_eq!(missing(&None, &None, &None, ""), Some(Setting::ContentCredential));
    assert_eq!(missing(&given("m"), &None, &None, ""), Some(Setting::SpeechCredential));
    assert_eq!(missing(&given("m"), &given("o"), &None, ""), Some(Setting::StoreConnection));
    assert_eq!(missing(&given("m"), &given("o"), &given("db"), ""), Some(Setting::PublicationSlug));
    assert_eq!(missing(&given("m"), &given("o"), &given("db"), "s"), None);
    assert_eq!(missing(&given("m"), &None, &given("db"), "s"), Some(Setting::SpeechCredential));
}

#[test]
fn settings_are_named_by_their_variables() {
    assert_eq!(Setting::ContentCredential.name(), "MEDIUM_API_KEY");
    assert_eq!(Setting::SpeechCredential.name(), "OPENAI_API_KEY");
    assert_eq!(Setting::StoreConnection.name(), "DATABASE_URL");
    assert_eq!(Setting::PublicationSlug.name(), "publication slug");
    assert_eq!(CONTENT_CREDENTIAL_VARIABLE, "MEDIUM_API_KEY");
    assert_eq!(SPEECH_CREDENTIAL_VARIABLE, "OPENAI_API_KEY");
    assert_eq!(STORE_CONNECTION_VARIABLE, "DATABASE_URL");
    assert_eq!(PUBLICATION_SLUG, "your-publication-slug");
    assert_eq!(AUDIO_FILE, "audiobook.mp3");
}

#[test]
fn messages_name_the_attempt_and_the_kind() {
    let error = PipelineError { kind: ErrorKind::NoArticlesAvailable, step: Step::ListArticles };
    assert_eq!(
        error.message(),
        "listing the publication's articles: the publication has no articles"
    );
    let error = PipelineError { kind: ErrorKind::StoreUnavailable, step: Step::ConnectStore };
    assert_eq!(error.message(), "connecting to the store: the store could not be reached");
    let error = PipelineError { kind: ErrorKind::ConfigMissing, step: Step::Configure };
    assert_eq!(error.message(), "reading the configuration: a required value is missing");
    let error = PipelineError { kind: ErrorKind::Other, step: Step::WriteChunk };
    assert_eq!(error.message(), "writing the audio file: unexpected failure");
}

#[test]
fn every_kind_and_step_has_its_words() {
    let kinds = [
        (ErrorKind::ProviderAuthFailed, "the provider rejected the credential"),
        (ErrorKind::ProviderUnavailable, "the provider could not be reached"),
        (ErrorKind::ProviderResponseInvalid, "the provider's response could not be decoded"),
        (ErrorKind::ArticleNotFound, "the provider has no such article"),
        (ErrorKind::NoArticlesAvailable, "the publication has no articles"),
        (ErrorKind::StoreUnavailable, "the store could not be reached"),
        (ErrorKind::StoreSchemaError, "the articles table could not be created"),
        (ErrorKind::StoreWriteFailed, "the article could not be written"),
        (ErrorKind::DownloadFailed, "the audio stream broke off"),
        (ErrorKind::LocalWriteFailed, "the audio file could not be written"),
        (ErrorKind::ConfigMissing, "a required value is missing"),
        (ErrorKind::Other, "unexpected failure"),
    ];
    for (kind, words) in kinds {
        assert_eq!(kind.meaning(), words);
    }
    let steps = [
        (Step::Configure, "reading the configuration"),
        (Step::ResolvePublication, "resolving the publication"),
        (Step::ListArticles, "listing the publication's articles"),
        (Step::FetchArticle, "fetching the article"),
        (Step::ConnectStore, "connecting to the store"),
        (Step::EnsureTable, "creating the articles table"),
        (Step::InsertArticle, "storing the article"),
        (Step::Synthesize, "requesting the audio"),
        (Step::OpenAudio, "opening the audio stream"),
        (Step::CreateFile, "creating the audio file"),
        (Step::ReadChunk, "reading the audio stream"),
        (Step::WriteChunk, "writing the audio file"),
    ];
    for (step, words) in steps {
        assert_eq!(step.attempt(), words);
    }
}
