//! What the operator is told while a run goes on, and how the process ends.

use vstd::prelude::*;
use vstd::string::StringExecFns;
use crate::pipeline::{Event, EventView, Notice, NoticeView, Stage, StageView};

verus! {

/// What precedes the raw reply to the resolving call in the log.
pub const PUBLICATION_ID_LABEL: &'static str = "Publication ID response: ";

/// What precedes the raw reply to the listing call in the log.
pub const PUBLICATION_ARTICLES_LABEL: &'static str = "Publication articles response: ";

/// What precedes the raw reply to the fetching call in the log.
pub const ARTICLE_CONTENT_LABEL: &'static str = "Article content response: ";

/// The exit status of a run that succeeded.
pub const EXIT_SUCCESS: u8 = 0;

/// The exit status of a run that failed.
pub const EXIT_FAILURE: u8 = 1;

/// The line that goes to the log when an event arrives: for a reply of the
/// content platform its label and then the body as it came, for anything else
/// nothing.
pub open spec fn response_log_text(stage: StageView, event: EventView) -> Option<Seq<char>> {
    match (stage, event) {
        (StageView::Resolving, EventView::Reply { status, body }) => Some(
            PUBLICATION_ID_LABEL@ + body,
        ),
        (StageView::Listing, EventView::Reply { status, body }) => Some(
            PUBLICATION_ARTICLES_LABEL@ + body,
        ),
        (StageView::Fetching { requested }, EventView::Reply { status, body }) => Some(
            ARTICLE_CONTENT_LABEL@ + body,
        ),
        _ => None,
    }
}

/// Writes the line that goes to the log when an event arrives. It holds the
/// body as it came, whether or not the body can be decoded, so it is logged
/// before the event is handed to the pipeline.
pub fn response_log(stage: &Stage, event: &Event) -> (line: Option<String>)
    ensures
        line.deep_view() == response_log_text(stage@, event@),
{
    match event {
        Event::Reply { status, body } => {
            let label = match stage {
                Stage::Resolving => PUBLICATION_ID_LABEL,
                Stage::Listing => PUBLICATION_ARTICLES_LABEL,
                Stage::Fetching { .. } => ARTICLE_CONTENT_LABEL,
                _ => {
                    return None;
                },
            };
            let mut line = label.to_owned();
            line.append(body.as_str());
            Some(line)
        },
        _ => None,
    }
}

impl NoticeView {
    /// The notice in words.
    pub open spec fn message_text(self) -> Seq<char> {
        match self {
            NoticeView::IdMismatch { requested, received } => "asked for article "@ + requested
                + " but received article "@ + received,
        }
    }
}

impl Notice {
    /// The notice in words, for the operator.
    pub fn message(&self) -> (text: String)
        ensures
            text@ == self@.message_text(),
    {
        match self {
            Notice::IdMismatch { requested, received } => {
                let mut text = "asked for article ".to_owned();
                text.append(requested.as_str());
                text.append(" but received article ");
                text.append(received.as_str());
                text
            },
        }
    }
}

/// The exit status of the process: none while the run goes on, zero when it
/// has succeeded, and not zero when it has failed.
pub open spec fn exit_status_of(stage: StageView) -> Option<u8> {
    match stage {
        StageView::Finished => Some(EXIT_SUCCESS),
        StageView::Failed { .. } => Some(EXIT_FAILURE),
        _ => None,
    }
}

/// The exit status of the process for the stage that a run is in.
pub fn exit_status(stage: &Stage) -> (status: Option<u8>)
    ensures
        status == exit_status_of(stage@),
        status == Some(0u8) <==> stage@ is Finished,
{
    match stage {
        Stage::Finished => Some(EXIT_SUCCESS),
        Stage::Failed { .. } => Some(EXIT_FAILURE),
        _ => None,
    }
}

} // verus!
