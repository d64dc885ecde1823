//! One article from a content platform, stored, turned into speech and saved
//! as a local audio file: the decisions of that pipeline, verified.
//!
//! The library does no input or output. It is a machine: it says which action
//! comes next, and is told with an event how the action went. The program
//! around it carries the actions out. Every step of a run is made by
//! [`driver::step`], which is proved to follow the rule [`pipeline::next`];
//! what holds of every run is proved of that rule in [`laws`].
//!
//! - [`config`]: the values a run starts with.
//! - [`content`]: the calls to the content platform and the meaning of its replies.
//! - [`speech`]: the call to the speech provider and the meaning of its reply.
//! - [`store`]: the statements sent to the store, and a model of what they do.
//! - [`pipeline`]: stages, events and actions, and the rule that connects them.
//! - [`driver`]: the rule as executable code.
//! - [`laws`]: what holds of every run.
//! - [`report`]: what the operator is told, and how the process ends.
//! - [`error`]: the ways a run can fail.
//! - [`json`]: JSON documents, read and written with `serde_json`.

pub mod config;
pub mod content;
pub mod driver;
pub mod error;
pub mod json;
pub mod laws;
pub mod pipeline;
pub mod report;
pub mod speech;
pub mod store;
