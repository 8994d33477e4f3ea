//! Ingestion pipeline for uploaded PDF documents.
//!
//! A document is taken through upload, text extraction, enrichment and
//! persistence by a *run*, which reports its progress as a sequence of
//! events. A run is a state machine that does no outside work itself: it
//! asks for one action at a time and is handed the outcome, so that storage,
//! the enrichment service and the progress channel stay with the caller.
//!
//! - [`event`]: the progress events and their lifecycle states.
//! - [`document`]: the document record and the path of its bytes.
//! - [`pdf`]: text extraction.
//! - [`action`]: the actions of a run and their outcomes.
//! - [`machine`]: the transitions of a run, as a mathematical function.
//! - [`run`]: the executable run.
//! - [`trace`], [`store`]: what is proved of every run.
//! - [`service`]: the service facade.
//! - [`config`]: configuration rules.

pub mod action;
pub mod config;
pub mod document;
pub mod event;
pub mod machine;
pub mod pdf;
pub mod run;
pub mod service;
pub mod store;
pub mod trace;
