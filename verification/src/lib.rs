//! Verified core of a terminal dispatcher for GitHub Actions workflows:
//! the state of every panel, the decisions taken on keys and actions, the
//! reading of workflow definitions and of `gh` replies.

pub mod text;
pub mod model;
pub mod input;
pub mod yaml;
pub mod json;
pub mod gh;
pub mod action;
pub mod components;
pub mod app;
pub mod laws;
pub mod dispatch_laws;
