//! Issue reconciliation and notification state for a single local operator.
//!
//! Collectors report the issues they see as plain descriptions; the exact
//! text of a description is the issue's identity. The record store
//! remembers when the operator acknowledged an issue and when an alert last
//! fired for it. Each poll cycle classifies the collected issues against
//! the store, forgets what is no longer reported, and decides whether a
//! fresh alert is due.
//!
//! - [`state`]: the record store and acknowledgements.
//! - [`reconciler`]: classifying a poll's issues and pruning the store.
//! - [`notifier`]: deciding on alerts and wording them.
//! - [`laws`]: what holds across polls, acknowledgements and alerts.
//! - [`render`]: the page that shows the issues.
//! - [`server`]: what the presentation server answers.
//! - [`check`], [`github`], [`launchdarkly`]: the collectors.
//! - [`json`], [`time`], [`text`]: documents, timestamps and text.
//!
//! Nothing here reads a clock, a file or the network: every function takes
//! the current time and what was read as arguments.

pub mod check;
pub mod github;
pub mod json;
pub mod launchdarkly;
pub mod laws;
pub mod notifier;
pub mod reconciler;
pub mod render;
pub mod server;
pub mod state;
pub mod text;
pub mod time;
