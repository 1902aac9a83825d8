//! Command logic of a desktop document viewer's native backend.
//!
//! The front-end asks the backend to pick files through native dialogs, to
//! read and write whole files, and to report the file the application was
//! launched with. This crate holds the decisions behind those commands as
//! functions from plain values to plain values; the caller performs the
//! dialogs and the filesystem calls.

pub mod headers;
pub mod json;
pub mod text;
pub mod launch;
pub mod dialog;
pub mod files;
pub mod raw_write;
