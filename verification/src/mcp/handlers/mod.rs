//! Handlers of assistant requests.

pub mod popup;
