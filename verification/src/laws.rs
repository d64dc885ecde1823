//! What holds of every run of the pipeline, proved of its rule.
//!
//! A run is the rule applied to one event after the other. The laws speak of
//! the actions that a run asks for and of the stage it ends in, whatever the
//! events are.

use vstd::prelude::*;
use crate::config::ConfigView;
use crate::content::{
    article_content_url_text, article_ids_in, bearer_text, listing, publication_articles_url_text,
    publication_id_in, resolution, ArticleView,
};
use crate::error::{ErrorKind, PipelineError, Step};
use crate::json::json_parsed;
use crate::pipeline::{failing, next, ActionView, EventView, StageView};
use crate::speech::synthesis_body_text;
use crate::store::{
    created, executed, persisted, persisted_article_is_found_again,
    persisting_again_changes_nothing, statements_persist, Table, CREATE_TABLE, INSERT_ARTICLE,
};

verus! {

// Runs.

/// The actions that a run asks for from `stage` on, one in answer to each event.
pub open spec fn actions(config: ConfigView, stage: StageView, events: Seq<EventView>) -> Seq<
    ActionView,
>
    decreases events.len(),
{
    if events.len() == 0 {
        Seq::empty()
    } else {
        let transition = next(config, stage, events[0]);
        seq![transition.action] + actions(config, transition.stage, events.drop_first())
    }
}

/// The stage that a run is in after the events, from `stage` on.
pub open spec fn stage_after(
    config: ConfigView,
    stage: StageView,
    events: Seq<EventView>,
) -> StageView
    decreases events.len(),
{
    if events.len() == 0 {
        stage
    } else {
        stage_after(config, next(config, stage, events[0]).stage, events.drop_first())
    }
}

/// Whether every one of the actions is `action`.
pub open spec fn all_are(actions: Seq<ActionView>, action: ActionView) -> bool {
    forall|i: int| 0 <= i < actions.len() ==> #[trigger] actions[i] == action
}

/// A run asks for one action in answer to each event.
pub proof fn one_action_for_each_event(
    config: ConfigView,
    stage: StageView,
    events: Seq<EventView>,
)
    ensures
        actions(config, stage, events).len() == events.len(),
    decreases events.len(),
{
    if events.len() > 0 {
        one_action_for_each_event(
            config,
            next(config, stage, events[0]).stage,
            events.drop_first(),
        );
    }
}

// How a run ends.

/// A run that has failed stays failed: whatever events follow, it stays in
/// the same stage and answers each with the same failure.
pub proof fn failure_is_final(config: ConfigView, error: PipelineError, events: Seq<EventView>)
    ensures
        stage_after(config, StageView::Failed { error }, events) == (StageView::Failed { error }),
        all_are(
            actions(config, StageView::Failed { error }, events),
            ActionView::Fail { error },
        ),
    decreases events.len(),
{
    if events.len() > 0 {
        failure_is_final(config, error, events.drop_first());
    }
}

/// A run that has succeeded stays so: whatever events follow, it asks for
/// nothing more.
pub proof fn success_is_final(config: ConfigView, events: Seq<EventView>)
    ensures
        stage_after(config, StageView::Finished, events) == StageView::Finished,
        all_are(actions(config, StageView::Finished, events), ActionView::Finish),
    decreases events.len(),
{
    if events.len() > 0 {
        success_is_final(config, events.drop_first());
    }
}

/// The action `Fail` and the stage `Failed` come together, with one error.
pub proof fn failure_is_announced(config: ConfigView, stage: StageView, event: EventView)
    ensures
        next(config, stage, event).action is Fail <==> next(config, stage, event).stage is Failed,
        next(config, stage, event).action is Fail ==> next(config, stage, event).action->error
            == next(config, stage, event).stage->error,
        next(config, stage, event).action is Finish <==> next(config, stage, event).stage
            is Finished,
{
}

/// The first failure stands: once a run has asked for `Fail`,
/// each later action is the same `Fail`.
pub proof fn first_failure_stands(
    config: ConfigView,
    stage: StageView,
    events: Seq<EventView>,
    first: int,
    later: int,
)
    requires
        0 <= first <= later < events.len(),
        actions(config, stage, events)[first] is Fail,
    ensures
        actions(config, stage, events)[later] == actions(config, stage, events)[first],
    decreases events.len(),
{
    let moved = next(config, stage, events[0]);
    let rest = actions(config, moved.stage, events.drop_first());
    one_action_for_each_event(config, moved.stage, events.drop_first());
    if first == 0 {
        failure_is_announced(config, stage, events[0]);
        failure_is_final(config, moved.stage->error, events.drop_first());
        if later > 0 {
            assert(actions(config, stage, events)[later] == rest[later - 1]);
        }
    } else {
        assert(actions(config, stage, events)[first] == rest[first - 1]);
        assert(actions(config, stage, events)[later] == rest[later - 1]);
        first_failure_stands(config, moved.stage, events.drop_first(), first - 1, later - 1);
    }
}

/// A move that fails ends the run: whatever follows, each action is the
/// failure of that move.
pub proof fn failing_move_ends_the_run(
    config: ConfigView,
    stage: StageView,
    event: EventView,
    rest: Seq<EventView>,
)
    requires
        next(config, stage, event).stage is Failed,
    ensures
        all_are(
            actions(config, stage, seq![event] + rest),
            ActionView::Fail { error: next(config, stage, event).stage->error },
        ),
{
    let events = seq![event] + rest;
    let error = next(config, stage, event).stage->error;
    assert(events.drop_first() =~= rest);
    failure_is_announced(config, stage, event);
    failure_is_final(config, error, rest);
    let tail = actions(config, StageView::Failed { error }, rest);
    assert forall|i: int| 0 <= i < actions(config, stage, events).len() implies #[trigger] actions(
        config,
        stage,
        events,
    )[i] == (ActionView::Fail { error }) by {
        if i > 0 {
            assert(actions(config, stage, events)[i] == tail[i - 1]);
        }
    }
}

/// When the action of a stage cannot be carried out, the run ends there with
/// the failure that belongs to the stage, and asks for nothing else whatever
/// follows. So a store that cannot be reached ends the run with
/// `StoreUnavailable`, and the speech provider is never called.
pub proof fn breakdown_ends_the_run(config: ConfigView, stage: StageView, rest: Seq<EventView>)
    requires
        !stage.is_over(),
    ensures
        all_are(
            actions(config, stage, seq![EventView::Failed] + rest),
            ActionView::Fail {
                error: PipelineError { kind: stage.breakdown(), step: stage.attempt() },
            },
        ),
        stage is Connecting ==> stage.breakdown() == ErrorKind::StoreUnavailable,
        stage is EnsuringTable ==> stage.breakdown() == ErrorKind::StoreSchemaError,
        stage is Inserting ==> stage.breakdown() == ErrorKind::StoreWriteFailed,
{
    failing_move_ends_the_run(config, stage, EventView::Failed, rest);
}

/// An event that is not waited for ends the run with `Other`, and an event
/// that is waited for never does, with one exception: when the article is
/// stored and no body can be written for the speech provider.
pub proof fn other_is_for_the_unexpected(config: ConfigView, stage: StageView, event: EventView)
    requires
        !stage.is_over(),
    ensures
        !stage.expects(event) ==> next(config, stage, event) == failing(
            ErrorKind::Other,
            stage.attempt(),
        ),
        stage.expects(event) && next(config, stage, event).stage is Failed && next(
            config,
            stage,
            event,
        ).stage->error.kind == ErrorKind::Other ==> stage is Inserting && event is Completed
            && synthesis_body_text(stage->Inserting_article.content) is None,
{
}

// The order of a run.

/// The place of a stage in the order of a run. Reading and writing the audio
/// take turns and share a place.
pub open spec fn place(stage: StageView) -> int {
    match stage {
        StageView::Resolving => 0,
        StageView::Listing => 1,
        StageView::Fetching { .. } => 2,
        StageView::Connecting { .. } => 3,
        StageView::EnsuringTable { .. } => 4,
        StageView::Inserting { .. } => 5,
        StageView::Synthesizing => 6,
        StageView::OpeningAudio => 7,
        StageView::CreatingFile => 8,
        StageView::ReadingChunk => 9,
        StageView::WritingChunk => 9,
        StageView::Finished => 10,
        StageView::Failed { .. } => 10,
    }
}

/// A run never goes back: each move leads to a stage that is no earlier in
/// the order, and a move that neither ends the run nor belongs to the
/// download leads to the very next stage.
pub proof fn stages_follow_the_order(config: ConfigView, stage: StageView, event: EventView)
    ensures
        place(next(config, stage, event).stage) >= place(stage),
        !next(config, stage, event).stage.is_over() && place(stage) < 9 ==> place(
            next(config, stage, event).stage,
        ) == place(stage) + 1,
        next(config, stage, event).stage is Finished ==> place(stage) >= 9,
{
}

/// A run never goes back, however long it goes on: the stage after any
/// events is no earlier in the order than the stage before them.
pub proof fn a_run_never_goes_back(config: ConfigView, stage: StageView, events: Seq<EventView>)
    ensures
        place(stage_after(config, stage, events)) >= place(stage),
    decreases events.len(),
{
    if events.len() > 0 {
        stages_follow_the_order(config, stage, events[0]);
        a_run_never_goes_back(config, next(config, stage, events[0]).stage, events.drop_first());
    }
}

/// Each action is asked for in one stage only, and in answer to one event
/// only: the store is not touched before the article is fetched, the speech
/// provider is not called before the article is inserted, the audio file is
/// not created before the stream is open, and nothing is written but a chunk
/// that has just arrived.
pub proof fn actions_keep_their_place(config: ConfigView, stage: StageView, event: EventView)
    ensures
        next(config, stage, event).action is Connect ==> stage is Fetching && event is Reply,
        next(config, stage, event).action is Execute ==> (stage is Connecting || stage
            is EnsuringTable) && event is Completed,
        next(config, stage, event).action is Execute && stage is Connecting ==> next(
            config,
            stage,
            event,
        ).action->statement == CREATE_TABLE@,
        next(config, stage, event).action is Execute && stage is EnsuringTable ==> next(
            config,
            stage,
            event,
        ).action->statement == INSERT_ARTICLE@,
        next(config, stage, event).action is Post ==> stage is Inserting && event is Completed,
        next(config, stage, event).action is OpenStream ==> stage is Synthesizing && event
            is Reply,
        next(config, stage, event).action is CreateFile ==> stage is OpeningAudio && event
            is Completed,
        next(config, stage, event).action is WriteChunk ==> stage is ReadingChunk && event
            == (EventView::Chunk { bytes: next(config, stage, event).action->bytes }),
{
}

/// The audio file is created before anything is written to it: in a run that
/// has not yet opened the audio stream, each write comes after the action that
/// creates the file.
pub proof fn file_is_created_before_it_is_written(
    config: ConfigView,
    stage: StageView,
    events: Seq<EventView>,
    at: int,
)
    requires
        place(stage) <= 7,
        0 <= at < events.len(),
        actions(config, stage, events)[at] is WriteChunk,
    ensures
        exists|earlier: int|
            0 <= earlier < at && (#[trigger] actions(config, stage, events)[earlier])
                is CreateFile,
    decreases events.len(),
{
    let moved = next(config, stage, events[0]);
    let rest = actions(config, moved.stage, events.drop_first());
    one_action_for_each_event(config, moved.stage, events.drop_first());
    actions_keep_their_place(config, stage, events[0]);
    stages_follow_the_order(config, stage, events[0]);
    if moved.action is CreateFile {
        assert(actions(config, stage, events)[0] is CreateFile);
    } else {
        if moved.stage is Failed {
            failure_is_final(config, moved.stage->error, events.drop_first());
        } else if moved.stage is Finished {
            success_is_final(config, events.drop_first());
        } else {
            assert(actions(config, stage, events)[at] == rest[at - 1]);
            file_is_created_before_it_is_written(
                config,
                moved.stage,
                events.drop_first(),
                at - 1,
            );
            let earlier = choose|earlier: int|
                0 <= earlier < at - 1 && (#[trigger] rest[earlier]) is CreateFile;
            assert(actions(config, stage, events)[earlier + 1] == rest[earlier]);
        }
    }
}

/// Whether an action has the store insert an article.
pub open spec fn inserts(action: ActionView) -> bool {
    action is Execute && action->statement == INSERT_ARTICLE@
}

/// The article is stored before the speech provider is called: in a run that
/// has not yet asked for the article to be inserted, the call comes after the
/// statement that inserts it.
pub proof fn article_is_stored_before_it_is_spoken(
    config: ConfigView,
    stage: StageView,
    events: Seq<EventView>,
    at: int,
)
    requires
        place(stage) <= 4,
        0 <= at < events.len(),
        actions(config, stage, events)[at] is Post,
    ensures
        exists|earlier: int|
            0 <= earlier < at && inserts(#[trigger] actions(config, stage, events)[earlier]),
    decreases events.len(),
{
    let moved = next(config, stage, events[0]);
    let rest = actions(config, moved.stage, events.drop_first());
    one_action_for_each_event(config, moved.stage, events.drop_first());
    actions_keep_their_place(config, stage, events[0]);
    stages_follow_the_order(config, stage, events[0]);
    if inserts(moved.action) {
        assert(actions(config, stage, events)[0] == moved.action);
    } else {
        if moved.stage is Failed {
            failure_is_final(config, moved.stage->error, events.drop_first());
        } else if moved.stage is Finished {
            success_is_final(config, events.drop_first());
        } else {
            assert(actions(config, stage, events)[at] == rest[at - 1]);
            article_is_stored_before_it_is_spoken(
                config,
                moved.stage,
                events.drop_first(),
                at - 1,
            );
            let earlier = choose|earlier: int|
                0 <= earlier < at - 1 && inserts(#[trigger] rest[earlier]);
            assert(actions(config, stage, events)[earlier + 1] == rest[earlier]);
        }
    }
}

/// Once the article is inserted, the speech provider is not called again: a
/// run that is past the insertion asks for no call.
pub proof fn no_speech_after_the_insertion(
    config: ConfigView,
    stage: StageView,
    events: Seq<EventView>,
    at: int,
)
    requires
        place(stage) >= 6,
        0 <= at < events.len(),
    ensures
        !(actions(config, stage, events)[at] is Post),
    decreases events.len(),
{
    let moved = next(config, stage, events[0]);
    let rest = actions(config, moved.stage, events.drop_first());
    actions_keep_their_place(config, stage, events[0]);
    stages_follow_the_order(config, stage, events[0]);
    if at > 0 {
        one_action_for_each_event(config, moved.stage, events.drop_first());
        assert(actions(config, stage, events)[at] == rest[at - 1]);
        no_speech_after_the_insertion(config, moved.stage, events.drop_first(), at - 1);
    }
}

/// Nothing is tried again: the speech provider is called at most once in a
/// run, whatever the events are.
pub proof fn speech_is_asked_for_once(
    config: ConfigView,
    stage: StageView,
    events: Seq<EventView>,
    first: int,
    later: int,
)
    requires
        0 <= first < later < events.len(),
        actions(config, stage, events)[first] is Post,
    ensures
        !(actions(config, stage, events)[later] is Post),
    decreases events.len(),
{
    let moved = next(config, stage, events[0]);
    let rest = actions(config, moved.stage, events.drop_first());
    one_action_for_each_event(config, moved.stage, events.drop_first());
    assert(actions(config, stage, events)[later] == rest[later - 1]);
    if first == 0 {
        actions_keep_their_place(config, stage, events[0]);
        stages_follow_the_order(config, stage, events[0]);
        no_speech_after_the_insertion(config, moved.stage, events.drop_first(), later - 1);
    } else {
        assert(actions(config, stage, events)[first] == rest[first - 1]);
        speech_is_asked_for_once(config, moved.stage, events.drop_first(), first - 1, later - 1);
    }
}

// The content platform.

/// Resolving ends in one of two ways, whatever the platform does: with an id
/// that is not empty, for whose articles the run then asks, or with one of the
/// provider's three failures. It never goes on with an empty id.
pub proof fn resolving_gives_an_id_or_a_provider_failure(config: ConfigView, event: EventView)
    requires
        StageView::Resolving.expects(event),
    ensures
        match next(config, StageView::Resolving, event).stage {
            StageView::Listing => exists|id: Seq<char>|
                id.len() > 0 && next(config, StageView::Resolving, event).action
                    == (ActionView::Get {
                    url: #[trigger] publication_articles_url_text(id),
                    authorization: bearer_text(config.content_credential),
                }),
            StageView::Failed { error } => error.kind.is_provider() && error.step
                == Step::ResolvePublication && next(config, StageView::Resolving, event).action
                == (ActionView::Fail { error }),
            _ => false,
        },
{
    let moved = next(config, StageView::Resolving, event);
    if moved.stage is Listing {
        let id = resolution(event->status, publication_id_in(json_parsed(event->body)))->Ok_0;
        assert(moved.action == ActionView::Get {
            url: publication_articles_url_text(id),
            authorization: bearer_text(config.content_credential),
        });
    }
}

/// The first of the articles that a reply to the listing call holds, where it
/// holds one.
pub open spec fn first_listed(event: EventView) -> Option<Seq<char>> {
    match event {
        EventView::Reply { status, body } => match listing(
            status,
            article_ids_in(json_parsed(body)),
        ) {
            Ok(ids) => if ids.len() > 0 {
                Some(ids[0])
            } else {
                None
            },
            Err(_) => None,
        },
        _ => None,
    }
}

/// Listing ends in one of two ways, whatever the platform does: with the
/// first of the listed articles, for which the run then asks, or with a
/// failure, which for an empty list is `NoArticlesAvailable` and otherwise
/// one of the provider's three.
pub proof fn listing_gives_an_article_or_a_failure(config: ConfigView, event: EventView)
    requires
        StageView::Listing.expects(event),
    ensures
        match next(config, StageView::Listing, event).stage {
            StageView::Fetching { requested } => next(config, StageView::Listing, event).action
                == (ActionView::Get {
                url: article_content_url_text(requested),
                authorization: bearer_text(config.content_credential),
            }) && event is Reply && listing(
                event->status,
                article_ids_in(json_parsed(event->body)),
            ) is Ok && first_listed(event) == Some(requested),
            StageView::Failed { error } => (error.kind.is_provider() || error.kind
                == ErrorKind::NoArticlesAvailable) && error.step == Step::ListArticles && next(
                config,
                StageView::Listing,
                event,
            ).action == (ActionView::Fail { error }),
            _ => false,
        },
{
}

/// Whether a reply to the listing call holds a list without articles.
pub open spec fn lists_nothing(status: u16, body: Seq<char>) -> bool {
    listing(status, article_ids_in(json_parsed(body))) == Ok::<Seq<Seq<char>>, ErrorKind>(
        Seq::empty(),
    )
}

/// A publication without articles ends the run with `NoArticlesAvailable`:
/// when the platform's reply to the listing call holds an empty list, the run
/// fails there and asks for nothing else whatever follows. Nothing is stored
/// and no audio file is created.
pub proof fn no_article_ends_the_run(
    config: ConfigView,
    status: u16,
    body: Seq<char>,
    rest: Seq<EventView>,
)
    ensures
        lists_nothing(status, body) ==> all_are(
            actions(config, StageView::Listing, seq![EventView::Reply { status, body }] + rest),
            ActionView::Fail {
                error: PipelineError {
                    kind: ErrorKind::NoArticlesAvailable,
                    step: Step::ListArticles,
                },
            },
        ),
{
    if lists_nothing(status, body) {
        failing_move_ends_the_run(
            config,
            StageView::Listing,
            EventView::Reply { status, body },
            rest,
        );
    }
}

// The store.

/// The table after the store has carried out an action of a run: a statement
/// does what the model of the store says, and no other action touches the table.
pub open spec fn table_after(table: Option<Table>, action: ActionView) -> Option<Table> {
    match action {
        ActionView::Execute { statement, parameters } => executed(table, statement, parameters),
        _ => table,
    }
}

/// The table after the store has carried out the actions, in their order.
pub open spec fn table_after_all(table: Option<Table>, actions: Seq<ActionView>) -> Option<Table>
    decreases actions.len(),
{
    if actions.len() == 0 {
        table
    } else {
        table_after_all(table_after(table, actions[0]), actions.drop_first())
    }
}

/// The actions that a run asks for while it stores an article: those in
/// answer to the store being connected and to the table being there.
pub open spec fn storing(config: ConfigView, article: ArticleView) -> Seq<ActionView> {
    actions(
        config,
        StageView::Connecting { article },
        seq![EventView::Completed, EventView::Completed],
    )
}

/// Storing an article persists it: once the store is connected and the table
/// is there, the run has sent the store exactly the two statements, and by the
/// model of the store the table is then the one in which the article is
/// persisted.
pub proof fn storing_persists_the_article(
    config: ConfigView,
    article: ArticleView,
    table: Option<Table>,
)
    ensures
        storing(config, article) == seq![
            ActionView::Execute { statement: CREATE_TABLE@, parameters: Seq::empty() },
            ActionView::Execute {
                statement: INSERT_ARTICLE@,
                parameters: seq![article.id, article.content],
            },
        ],
        table_after_all(table, storing(config, article)) == Some(persisted(table, article)),
{
    let events = seq![EventView::Completed, EventView::Completed];
    let insert = ActionView::Execute {
        statement: INSERT_ARTICLE@,
        parameters: seq![article.id, article.content],
    };
    let nothing = events.drop_first().drop_first();
    assert(actions(config, StageView::Inserting { article }, nothing) =~= Seq::empty());
    assert(actions(config, StageView::EnsuringTable { article }, events.drop_first()) =~= seq![
        insert,
    ]);
    statements_persist(table, article);
    let issued = storing(config, article);
    let stored = Some(persisted(table, article));
    assert(table_after_all(stored, issued.drop_first().drop_first()) == stored);
    assert(table_after_all(Some(created(table)), issued.drop_first()) == stored);
}

/// Storing is idempotent: when a run has stored an article, a run that stores
/// an article with the same id leaves the table as it is, whatever the content
/// of the second. There is one row for the id, and where none was there before
/// the first run it holds the content that the first run wrote.
pub proof fn storing_again_changes_nothing(
    config: ConfigView,
    first: ArticleView,
    second: ArticleView,
    table: Option<Table>,
)
    requires
        first.id == second.id,
    ensures
        table_after_all(table_after_all(table, storing(config, first)), storing(config, second))
            == table_after_all(table, storing(config, first)),
        table_after_all(table, storing(config, first)) matches Some(rows) && rows.contains_key(
            first.id,
        ) && (!created(table).contains_key(first.id) ==> rows[first.id] == first.content),
{
    storing_persists_the_article(config, first, table);
    storing_persists_the_article(config, second, Some(persisted(table, first)));
    persisting_again_changes_nothing(table, first, second);
}

/// What was stored is found again: when a run has stored an article where no
/// row had its id, the row under that id holds the article's content as the
/// platform returned it.
pub proof fn stored_article_is_found_again(
    config: ConfigView,
    article: ArticleView,
    table: Option<Table>,
)
    requires
        !created(table).contains_key(article.id),
    ensures
        table_after_all(table, storing(config, article)) matches Some(rows) && rows.contains_key(
            article.id,
        ) && rows[article.id] == article.content,
{
    storing_persists_the_article(config, article, table);
    persisted_article_is_found_again(table, article);
}

// The download.

/// The bytes that the actions have written to the audio file, in their order.
pub open spec fn written(actions: Seq<ActionView>) -> Seq<u8>
    decreases actions.len(),
{
    if actions.len() == 0 {
        Seq::empty()
    } else {
        let rest = written(actions.drop_first());
        match actions[0] {
            ActionView::WriteChunk { bytes } => bytes + rest,
            _ => rest,
        }
    }
}

/// The bytes that the stream has delivered to a run from `stage` on: those of
/// each chunk that arrived while the run was waiting for one, in their order.
pub open spec fn delivered(config: ConfigView, stage: StageView, events: Seq<EventView>) -> Seq<u8>
    decreases events.len(),
{
    if events.len() == 0 {
        Seq::empty()
    } else {
        let rest = delivered(config, next(config, stage, events[0]).stage, events.drop_first());
        match (stage, events[0]) {
            (StageView::ReadingChunk, EventView::Chunk { bytes }) => bytes + rest,
            _ => rest,
        }
    }
}

/// What a run writes to the audio file is what the stream delivered: the
/// bytes of each chunk that arrived, in the order of their arrival, none
/// dropped, none added, none changed.
pub proof fn written_is_delivered(config: ConfigView, stage: StageView, events: Seq<EventView>)
    ensures
        written(actions(config, stage, events)) == delivered(config, stage, events),
    decreases events.len(),
{
    if events.len() > 0 {
        let transition = next(config, stage, events[0]);
        let rest = actions(config, transition.stage, events.drop_first());
        written_is_delivered(config, transition.stage, events.drop_first());
        actions_keep_their_place(config, stage, events[0]);
        assert(actions(config, stage, events).drop_first() =~= rest);
    }
}

/// The chunks put end to end.
pub open spec fn joined(chunks: Seq<Seq<u8>>) -> Seq<u8>
    decreases chunks.len(),
{
    if chunks.len() == 0 {
        Seq::empty()
    } else {
        chunks[0] + joined(chunks.drop_first())
    }
}

/// The length of chunks put end to end is the sum of their lengths.
pub open spec fn total_length(chunks: Seq<Seq<u8>>) -> nat
    decreases chunks.len(),
{
    if chunks.len() == 0 {
        0
    } else {
        chunks[0].len() + total_length(chunks.drop_first())
    }
}

/// Chunks put end to end are as long as the chunks are together.
pub proof fn joined_has_the_total_length(chunks: Seq<Seq<u8>>)
    ensures
        joined(chunks).len() == total_length(chunks),
    decreases chunks.len(),
{
    if chunks.len() > 0 {
        joined_has_the_total_length(chunks.drop_first());
    }
}

/// The events of a download in which nothing goes wrong: each chunk arrives
/// and is written, then the stream ends.
pub open spec fn clean_download(chunks: Seq<Seq<u8>>) -> Seq<EventView>
    decreases chunks.len(),
{
    if chunks.len() == 0 {
        seq![EventView::EndOfStream]
    } else {
        seq![EventView::Chunk { bytes: chunks[0] }, EventView::Completed] + clean_download(
            chunks.drop_first(),
        )
    }
}

/// A download in which nothing goes wrong ends the run with success, and the
/// file then holds the chunks put end to end: as many bytes as the chunks
/// have together, each where the stream had it.
pub proof fn clean_download_writes_every_chunk(config: ConfigView, chunks: Seq<Seq<u8>>)
    ensures
        stage_after(config, StageView::ReadingChunk, clean_download(chunks))
            == StageView::Finished,
        written(actions(config, StageView::ReadingChunk, clean_download(chunks))) == joined(
            chunks,
        ),
    decreases chunks.len(),
{
    let stage = StageView::ReadingChunk;
    let events = clean_download(chunks);
    written_is_delivered(config, stage, events);
    if chunks.len() == 0 {
        assert(stage_after(config, StageView::Finished, events.drop_first())
            == StageView::Finished);
        assert(delivered(config, StageView::Finished, events.drop_first()) =~= Seq::<u8>::empty());
    } else {
        let tail = clean_download(chunks.drop_first());
        clean_download_writes_every_chunk(config, chunks.drop_first());
        written_is_delivered(config, stage, tail);
        assert(events.drop_first().drop_first() =~= tail);
        assert(stage_after(config, stage, events) == stage_after(
            config,
            StageView::WritingChunk,
            events.drop_first(),
        ));
        assert(delivered(config, stage, events) == chunks[0] + delivered(
            config,
            StageView::WritingChunk,
            events.drop_first(),
        ));
    }
}

/// The events of a download that breaks off: each chunk arrives and is
/// written, then the stream fails.
pub open spec fn broken_download(chunks: Seq<Seq<u8>>) -> Seq<EventView>
    decreases chunks.len(),
{
    if chunks.len() == 0 {
        seq![EventView::Failed]
    } else {
        seq![EventView::Chunk { bytes: chunks[0] }, EventView::Completed] + broken_download(
            chunks.drop_first(),
        )
    }
}

/// A download that breaks off ends the run with `DownloadFailed`, and the
/// file is left with the chunks that had arrived, put end to end: nothing is
/// taken back and nothing is added.
pub proof fn broken_download_keeps_what_was_written(config: ConfigView, chunks: Seq<Seq<u8>>)
    ensures
        stage_after(config, StageView::ReadingChunk, broken_download(chunks))
            == (StageView::Failed {
            error: PipelineError { kind: ErrorKind::DownloadFailed, step: Step::ReadChunk },
        }),
        written(actions(config, StageView::ReadingChunk, broken_download(chunks))) == joined(
            chunks,
        ),
    decreases chunks.len(),
{
    let stage = StageView::ReadingChunk;
    let events = broken_download(chunks);
    let error = PipelineError { kind: ErrorKind::DownloadFailed, step: Step::ReadChunk };
    written_is_delivered(config, stage, events);
    if chunks.len() == 0 {
        let failed = StageView::Failed { error };
        assert(stage_after(config, failed, events.drop_first()) == failed);
        assert(delivered(config, failed, events.drop_first()) =~= Seq::<u8>::empty());
    } else {
        let tail = broken_download(chunks.drop_first());
        broken_download_keeps_what_was_written(config, chunks.drop_first());
        written_is_delivered(config, stage, tail);
        assert(events.drop_first().drop_first() =~= tail);
        assert(stage_after(config, stage, events) == stage_after(
            config,
            StageView::WritingChunk,
            events.drop_first(),
        ));
        assert(delivered(config, stage, events) == chunks[0] + delivered(
            config,
            StageView::WritingChunk,
            events.drop_first(),
        ));
    }
}

} // verus!
