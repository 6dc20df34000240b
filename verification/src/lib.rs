//! Reconciles a list of requested tracks against a remote music catalog.
//!
//! The library holds every decision of the run as verified functions on plain
//! values: which HTTP requests are made, how the catalog's replies are read,
//! and how the run moves from one track to the next. Sending the requests and
//! touching the file system is left to the program around it.

pub mod json;
pub mod track;
pub mod request;
pub mod auth;
pub mod search;
pub mod playlist;
pub mod run;
