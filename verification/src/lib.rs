//! Webhook event dispatch and command templating.
//!
//! A delivery (one inbound webhook notification) is matched against an
//! immutable configuration tree of command templates; the matching sections
//! are resolved, prefixed with the shared `common` template, and rendered by
//! substituting the delivery's fields for the recognized placeholders. The
//! resulting commands are handed to an execution backend by the caller.

pub mod config;
pub mod delivery;
pub mod handler;
pub mod render;
