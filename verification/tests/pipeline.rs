use medium_to_audiobook::config::Config;
use medium_to_audiobook::content::ArticleContent;
use medium_to_audiobook::driver::{start, step};
use medium_to_audiobook::error::{ErrorKind, PipelineError, Step};
use medium_to_audiobook::pipeline::{Action, Event, Notice, Stage, Transition};
use medium_to_audiobook::report::{exit_status, response_log};

fn config() -> Config {
    Config::new(
        Some("content-key".to_string()),
        Some("speech-key".to_string()),
        Some("host=localhost user=postgres".to_string()),
        "tech-blog".to_string(),
    )
    .unwrap()
}

fn reply(status: u16, body: &str) -> Event {
    Event::Reply { status, body: body.to_string() }
}

fn failure(kind: ErrorKind, step: Step) -> Transition {
    let error = PipelineError { kind, step };
    Transition { stage: Stage::Failed { error }, action: Action::Fail { error }, notice: None }
}

fn article() -> ArticleContent {
    ArticleContent { id: "art_1".to_string(), content: "Hello world".to_string() }
}

#[test]
fn happy_path_from_slug_to_audio_file() {
    let config = config();

    let first = start(&config);
    assert_eq!(first.stage, Stage::Resolving);
    assert_eq!(
        first.action,
        Action::Get {
            url: "https://medium2.p.rapidapi.com/publication/id_for/tech-blog".to_string(),
            authorization: "Bearer content-key".to_string(),
        }
    );
    assert_eq!(first.notice, None);

    let listing = step(&config, first.stage, reply(200, "{\"publication_id\":\"pub_42\"}"));
    assert_eq!(listing.stage, Stage::Listing);
    assert_eq!(
        listing.action,
        Action::Get {
            url: "https://medium2.p.rapidapi.com/publication/pub_42/articles".to_string(),
            authorization: "Bearer content-key".to_string(),
        }
    );

    let fetching = step(
        &config,
        listing.stage,
        reply(200, "{\"publication_articles\":[\"art_1\",\"art_2\"]}"),
    );
    assert_eq!(fetching.stage, Stage::Fetching { requested: "art_1".to_string() });
    assert_eq!(
        fetching.action,
        Action::Get {
            url: "https://medium2.p.rapidapi.com/article/art_1/content".to_string(),
            authorization: "Bearer content-key".to_string(),
        }
    );

    let connecting = step(
        &config,
        fetching.stage,
        reply(200, "{\"id\":\"art_1\",\"content\":\"Hello world\"}"),
    );
    assert_eq!(connecting.stage, Stage::Connecting { article: article() });
    assert_eq!(
        connecting.action,
        Action::Connect { connection: "host=localhost user=postgres".to_string() }
    );
    assert_eq!(connecting.notice, None);

    let ensuring = step(&config, connecting.stage, Event::Completed);
    assert_eq!(ensuring.stage, Stage::EnsuringTable { article: article() });
    assert_eq!(
        ensuring.action,
        Action::Execute {
            statement: "CREATE TABLE IF NOT EXISTS articles (id TEXT PRIMARY KEY, content TEXT)"
                .to_string(),
            parameters: vec![],
        }
    );

    let inserting = step(&config, ensuring.stage, Event::Completed);
    assert_eq!(inserting.stage, Stage::Inserting { article: article() });
    assert_eq!(
        inserting.action,
        Action::Execute {
            statement:
                "INSERT INTO articles (id, content) VALUES ($1, $2) ON CONFLICT (id) DO NOTHING"
                    .to_string(),
            parameters: vec!["art_1".to_string(), "Hello world".to_string()],
        }
    );

    let synthesizing = step(&config, inserting.stage, Event::Completed);
    assert_eq!(synthesizing.stage, Stage::Synthesizing);
    assert_eq!(
        synthesizing.action,
        Action::Post {
            url: "https://api.openai.com/v1/audio/create".to_string(),
            authorization: "Bearer speech-key".to_string(),
            media_type: "application/json".to_string(),
            body: "{\"input\":\"Hello world\"}".to_string(),
        }
    );

    let opening = step(
        &config,
        synthesizing.stage,
        reply(200, "{\"audio_url\":\"https://cdn.example/audio123.mp3\"}"),
    );
    assert_eq!(opening.stage, Stage::OpeningAudio);
    assert_eq!(
        opening.action,
        Action::OpenStream { url: "https://cdn.example/audio123.mp3".to_string() }
    );

    let creating = step(&config, opening.stage, Event::Completed);
    assert_eq!(creating.stage, Stage::CreatingFile);
    assert_eq!(creating.action, Action::CreateFile { path: "audiobook.mp3".to_string() });

    let reading = step(&config, creating.stage, Event::Completed);
    assert_eq!(reading.stage, Stage::ReadingChunk);
    assert_eq!(reading.action, Action::ReadChunk);

    let writing = step(&config, reading.stage, Event::Chunk { bytes: vec![1, 2, 3] });
    assert_eq!(writing.stage, Stage::WritingChunk);
    assert_eq!(writing.action, Action::WriteChunk { bytes: vec![1, 2, 3] });

    let reading = step(&config, writing.stage, Event::Completed);
    assert_eq!(reading.stage, Stage::ReadingChunk);
    assert_eq!(reading.action, Action::ReadChunk);

    let done = step(&config, reading.stage, Event::EndOfStream);
    assert_eq!(done.stage, Stage::Finished);
    assert_eq!(done.action, Action::Finish);
    assert!(done.stage.is_over());
    assert_eq!(exit_status(&done.stage), Some(0));
}

#[test]
fn empty_article_list_raises_no_articles_available() {
    let config = config();
    let stopped = step(&config, Stage::Listing, reply(200, "{\"publication_articles\":[]}"));
    assert_eq!(stopped, failure(ErrorKind::NoArticlesAvailable, Step::ListArticles));
    assert_ne!(exit_status(&stopped.stage), Some(0));
    assert_eq!(exit_status(&stopped.stage), Some(1));

    // Whatever is reported afterwards, nothing is stored and no file is created.
    let mut stage = stopped.stage;
    for event in [
        Event::Completed,
        reply(200, "{\"id\":\"art_1\",\"content\":\"Hello world\"}"),
        Event::Chunk { bytes: vec![9] },
        Event::EndOfStream,
        Event::Failed,
    ] {
        let again = step(&config, stage, event);
        assert_eq!(again, failure(ErrorKind::NoArticlesAvailable, Step::ListArticles));
        stage = again.stage;
    }
}

#[test]
fn unreachable_store_raises_store_unavailable_before_synthesis() {
    let config = config();
    let stopped = step(&config, Stage::Connecting { article: article() }, Event::Failed);
    assert_eq!(stopped, failure(ErrorKind::StoreUnavailable, Step::ConnectStore));

    // The speech provider is never called: every later move is the same failure.
    let again = step(&config, stopped.stage, Event::Completed);
    assert_eq!(again, failure(ErrorKind::StoreUnavailable, Step::ConnectStore));
    let again = step(&config, again.stage, reply(200, "{\"audio_url\":\"https://x/y.mp3\"}"));
    assert_eq!(again, failure(ErrorKind::StoreUnavailable, Step::ConnectStore));
    assert_eq!(exit_status(&again.stage), Some(1));
}

#[test]
fn table_creation_failure_raises_store_schema_error() {
    let stopped = step(&config(), Stage::EnsuringTable { article: article() }, Event::Failed);
    assert_eq!(stopped, failure(ErrorKind::StoreSchemaError, Step::EnsureTable));
}

#[test]
fn insert_failure_raises_store_write_failed() {
    let stopped = step(&config(), Stage::Inserting { article: article() }, Event::Failed);
    assert_eq!(stopped, failure(ErrorKind::StoreWriteFailed, Step::InsertArticle));
}

#[test]
fn transport_failure_raises_provider_unavailable() {
    let config = config();
    assert_eq!(
        step(&config, Stage::Resolving, Event::Failed),
        failure(ErrorKind::ProviderUnavailable, Step::ResolvePublication)
    );
    assert_eq!(
        step(&config, Stage::Listing, Event::Failed),
        failure(ErrorKind::ProviderUnavailable, Step::ListArticles)
    );
    assert_eq!(
        step(&config, Stage::Fetching { requested: "art_1".to_string() }, Event::Failed),
        failure(ErrorKind::ProviderUnavailable, Step::FetchArticle)
    );
    assert_eq!(
        step(&config, Stage::Synthesizing, Event::Failed),
        failure(ErrorKind::ProviderUnavailable, Step::Synthesize)
    );
    assert_eq!(
        step(&config, Stage::OpeningAudio, Event::Failed),
        failure(ErrorKind::ProviderUnavailable, Step::OpenAudio)
    );
}

#[test]
fn rejected_credential_raises_provider_auth_failed() {
    let config = config();
    assert_eq!(
        step(&config, Stage::Resolving, reply(401, "{\"publication_id\":\"pub_42\"}")),
        failure(ErrorKind::ProviderAuthFailed, Step::ResolvePublication)
    );
    assert_eq!(
        step(&config, Stage::Listing, reply(403, "{\"publication_articles\":[\"art_1\"]}")),
        failure(ErrorKind::ProviderAuthFailed, Step::ListArticles)
    );
    assert_eq!(
        step(
            &config,
            Stage::Fetching { requested: "art_1".to_string() },
            reply(401, "{\"message\":\"no\"}")
        ),
        failure(ErrorKind::ProviderAuthFailed, Step::FetchArticle)
    );
}

#[test]
fn undecodable_reply_raises_provider_response_invalid() {
    let config = config();
    assert_eq!(
        step(&config, Stage::Resolving, reply(200, "<html>busy</html>")),
        failure(ErrorKind::ProviderResponseInvalid, Step::ResolvePublication)
    );
    assert_eq!(
        step(&config, Stage::Resolving, reply(200, "{\"publication\":\"pub_42\"}")),
        failure(ErrorKind::ProviderResponseInvalid, Step::ResolvePublication)
    );
    assert_eq!(
        step(&config, Stage::Listing, reply(200, "{\"publication_articles\":[\"art_1\",2]}")),
        failure(ErrorKind::ProviderResponseInvalid, Step::ListArticles)
    );
    assert_eq!(
        step(
            &config,
            Stage::Fetching { requested: "art_1".to_string() },
            reply(200, "{\"id\":\"art_1\"}")
        ),
        failure(ErrorKind::ProviderResponseInvalid, Step::FetchArticle)
    );
    assert_eq!(
        step(&config, Stage::Synthesizing, reply(200, "{\"error\":\"input too long\"}")),
        failure(ErrorKind::ProviderResponseInvalid, Step::Synthesize)
    );
}

#[test]
fn empty_publication_id_is_never_a_success() {
    let config = config();
    assert_eq!(
        step(&config, Stage::Resolving, reply(200, "{\"publication_id\":\"\"}")),
        failure(ErrorKind::ProviderResponseInvalid, Step::ResolvePublication)
    );
}

#[test]
fn unknown_article_raises_article_not_found() {
    let config = config();
    assert_eq!(
        step(
            &config,
            Stage::Fetching { requested: "art_1".to_string() },
            reply(404, "{\"message\":\"not found\"}")
        ),
        failure(ErrorKind::ArticleNotFound, Step::FetchArticle)
    );
}

#[test]
fn missing_status_matters_for_articles_only() {
    // For the resolving call a 404 says nothing by itself: the body decides.
    let config = config();
    let moved = step(&config, Stage::Resolving, reply(404, "{\"publication_id\":\"pub_42\"}"));
    assert_eq!(moved.stage, Stage::Listing);
}

#[test]
fn synthesis_reply_is_judged_by_its_body_alone() {
    let config = config();
    let moved = step(
        &config,
        Stage::Synthesizing,
        reply(401, "{\"audio_url\":\"https://cdn.example/a.mp3\"}"),
    );
    assert_eq!(moved.stage, Stage::OpeningAudio);
    assert_eq!(moved.action, Action::OpenStream { url: "https://cdn.example/a.mp3".to_string() });
}

#[test]
fn article_under_another_id_goes_on_with_a_notice() {
    let config = config();
    let moved = step(
        &config,
        Stage::Fetching { requested: "art_1".to_string() },
        reply(200, "{\"id\":\"art_9\",\"content\":\"Other text\"}"),
    );
    let received = ArticleContent { id: "art_9".to_string(), content: "Other text".to_string() };
    assert_eq!(moved.stage, Stage::Connecting { article: received.clone() });
    let notice = Notice::IdMismatch {
        requested: "art_1".to_string(),
        received: "art_9".to_string(),
    };
    assert_eq!(moved.notice, Some(notice.clone()));
    assert_eq!(notice.message(), "asked for article art_1 but received article art_9");

    // The store and the speech provider get the id and the text that came back.
    let ensuring = step(&config, moved.stage, Event::Completed);
    let inserting = step(&config, ensuring.stage, Event::Completed);
    assert_eq!(
        inserting.action,
        Action::Execute {
            statement:
                "INSERT INTO articles (id, content) VALUES ($1, $2) ON CONFLICT (id) DO NOTHING"
                    .to_string(),
            parameters: vec!["art_9".to_string(), "Other text".to_string()],
        }
    );
    let synthesizing = step(&config, inserting.stage, Event::Completed);
    assert!(matches!(
        synthesizing.action,
        Action::Post { body, .. } if body == "{\"input\":\"Other text\"}"
    ));
}

#[test]
fn unexpected_event_raises_other() {
    let config = config();
    assert_eq!(
        step(&config, Stage::Resolving, Event::Completed),
        failure(ErrorKind::Other, Step::ResolvePublication)
    );
    assert_eq!(
        step(&config, Stage::Connecting { article: article() }, Event::EndOfStream),
        failure(ErrorKind::Other, Step::ConnectStore)
    );
    assert_eq!(
        step(&config, Stage::ReadingChunk, Event::Completed),
        failure(ErrorKind::Other, Step::ReadChunk)
    );
    assert_eq!(
        step(&config, Stage::WritingChunk, Event::Chunk { bytes: vec![1] }),
        failure(ErrorKind::Other, Step::WriteChunk)
    );
}

#[test]
fn finished_run_stays_finished() {
    let config = config();
    for event in [Event::Completed, Event::Failed, Event::EndOfStream, reply(200, "{}")] {
        let again = step(&config, Stage::Finished, event);
        assert_eq!(again.stage, Stage::Finished);
        assert_eq!(again.action, Action::Finish);
    }
}

#[test]
fn later_failure_does_not_undo_the_store() {
    // The article is stored, then the speech provider cannot be reached: the run
    // fails there and asks for nothing that would take the row back.
    let config = config();
    let synthesizing = step(&config, Stage::Inserting { article: article() }, Event::Completed);
    assert_eq!(synthesizing.stage, Stage::Synthesizing);
    let stopped = step(&config, synthesizing.stage, Event::Failed);
    assert_eq!(stopped, failure(ErrorKind::ProviderUnavailable, Step::Synthesize));
}

#[test]
fn large_article_goes_through_whole() {
    let config = config();
    let text = "word ".repeat(200_000);
    let body = format!("{{\"id\":\"art_1\",\"content\":\"{}\"}}", text);
    let connecting = step(
        &config,
        Stage::Fetching { requested: "art_1".to_string() },
        reply(200, &body),
    );
    let ensuring = step(&config, connecting.stage, Event::Completed);
    let inserting = step(&config, ensuring.stage, Event::Completed);
    let synthesizing = step(&config, inserting.stage, Event::Completed);
    assert!(matches!(
        synthesizing.action,
        Action::Post { body, .. } if body == format!("{{\"input\":\"{}\"}}", text)
    ));
}

#[test]
fn raw_replies_of_the_platform_are_logged() {
    assert_eq!(
        response_log(&Stage::Resolving, &reply(200, "{\"publication_id\":\"pub_42\"}")),
        Some("Publication ID response: {\"publication_id\":\"pub_42\"}".to_string())
    );
    assert_eq!(
        response_log(&Stage::Listing, &reply(500, "oops")),
        Some("Publication articles response: oops".to_string())
    );
    assert_eq!(
        response_log(&Stage::Fetching { requested: "art_1".to_string() }, &reply(200, "")),
        Some("Article content response: ".to_string())
    );
    assert_eq!(response_log(&Stage::Synthesizing, &reply(200, "{}")), None);
    assert_eq!(response_log(&Stage::Resolving, &Event::Failed), None);
}

#[test]
fn exit_status_is_zero_only_after_success() {
    assert_eq!(exit_status(&Stage::Finished), Some(0));
    let error = PipelineError { kind: ErrorKind::DownloadFailed, step: Step::ReadChunk };
    assert_eq!(exit_status(&Stage::Failed { error }), Some(1));
    assert_eq!(exit_status(&Stage::ReadingChunk), None);
    assert_eq!(exit_status(&Stage::Resolving), None);
}

#[test]
fn stages_name_their_attempt_and_breakdown() {
    assert_eq!(Stage::Resolving.attempt(), Step::ResolvePublication);
    assert_eq!(Stage::Resolving.breakdown(), ErrorKind::ProviderUnavailable);
    assert_eq!(Stage::CreatingFile.attempt(), Step::CreateFile);
    assert_eq!(Stage::CreatingFile.breakdown(), ErrorKind::LocalWriteFailed);
    assert_eq!(Stage::ReadingChunk.breakdown(), ErrorKind::DownloadFailed);
    assert!(!Stage::ReadingChunk.is_over());
    let error = PipelineError { kind: ErrorKind::StoreWriteFailed, step: Step::InsertArticle };
    assert!(Stage::Failed { error }.is_over());
    assert_eq!(Stage::Failed { error }.attempt(), Step::InsertArticle);
    assert_eq!(Stage::Failed { error }.breakdown(), ErrorKind::StoreWriteFailed);
}

#[test]
fn stages_say_which_events_they_wait_for() {
    let fetching = Stage::Fetching { requested: "art_1".to_string() };
    for stage in [Stage::Resolving, Stage::Listing, fetching, Stage::Synthesizing] {
        assert!(stage.expects(&reply(200, "{}")));
        assert!(stage.expects(&Event::Failed));
        assert!(!stage.expects(&Event::Completed));
        assert!(!stage.expects(&Event::EndOfStream));
        assert!(!stage.expects(&Event::Chunk { bytes: vec![] }));
    }
    for stage in [
        Stage::Connecting { article: article() },
        Stage::EnsuringTable { article: article() },
        Stage::Inserting { article: article() },
        Stage::OpeningAudio,
        Stage::CreatingFile,
        Stage::WritingChunk,
    ] {
        assert!(stage.expects(&Event::Completed));
        assert!(stage.expects(&Event::Failed));
        assert!(!stage.expects(&reply(200, "{}")));
        assert!(!stage.expects(&Event::EndOfStream));
        assert!(!stage.expects(&Event::Chunk { bytes: vec![1] }));
    }
    assert!(Stage::ReadingChunk.expects(&Event::Chunk { bytes: vec![1] }));
    assert!(Stage::ReadingChunk.expects(&Event::EndOfStream));
    assert!(Stage::ReadingChunk.expects(&Event::Failed));
    assert!(!Stage::ReadingChunk.expects(&Event::Completed));
    assert!(!Stage::ReadingChunk.expects(&reply(200, "{}")));

    let error = PipelineError { kind: ErrorKind::DownloadFailed, step: Step::ReadChunk };
    for event in [Event::Completed, Event::Failed, Event::EndOfStream] {
        assert!(!Stage::Finished.expects(&event));
        assert!(!Stage::Failed { error }.expects(&event));
    }
}

#[test]
fn event_that_is_not_waited_for_always_raises_other() {
    let config = config();
    let stages = [
        Stage::Resolving,
        Stage::Listing,
        Stage::Fetching { requested: "art_1".to_string() },
        Stage::Connecting { article: article() },
        Stage::EnsuringTable { article: article() },
        Stage::Inserting { article: article() },
        Stage::Synthesizing,
        Stage::OpeningAudio,
        Stage::CreatingFile,
        Stage::ReadingChunk,
        Stage::WritingChunk,
    ];
    let events = [
        reply(200, "{\"publication_id\":\"pub_42\"}"),
        Event::Completed,
        Event::Chunk { bytes: vec![1] },
        Event::EndOfStream,
    ];
    for stage in stages {
        for event in events.clone() {
            if !stage.expects(&event) {
                let attempt = stage.attempt();
                let moved = step(&config, stage.clone(), event);
                assert_eq!(moved, failure(ErrorKind::Other, attempt));
            }
        }
    }
}
