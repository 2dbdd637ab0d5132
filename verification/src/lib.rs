//! A verified controller for a two-mode (sign-in / sign-up) login form.
//!
//! The library derives the view mode from the page URL's query string,
//! classifies a user-supplied identifier as an email address or a username,
//! computes a single precedence-ordered validation error, builds the JSON
//! credential request, and models the busy/disabled control state around
//! the asynchronous submission.

pub mod classify;
pub mod submit;
pub mod validate;
pub mod view;
