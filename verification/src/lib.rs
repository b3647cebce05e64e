//! Polls syndication feeds, finds the first article that has not been
//! delivered before, and decides step by step what has to be asked of the
//! outside world to enrich and deliver it exactly once.
//!
//! - [`config`]: the settings the process needs before it can start.
//! - [`directory`]: the flat list of feeds that a nested subscription list holds.
//! - [`article`]: the articles read out of a fetched feed document.
//! - [`message`]: the texts sent to the summarizer and to the channel.
//! - [`store`]: the statements run against the store, and a model of it.
//! - [`cycle`]: the polling cycle as a state machine.
//! - [`laws`]: what is proved of the cycle.

pub mod article;
pub mod config;
pub mod cycle;
pub mod directory;
pub mod laws;
pub mod message;
pub mod store;
