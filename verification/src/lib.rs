//! Conversion of uploaded HTML documents to PDF: the decisions of the
//! upload, stage, render and deliver pipeline, with the guarantees that the
//! service rests on stated as contracts.

pub mod command;
pub mod config;
pub mod guarantees;
pub mod http;
pub mod ident;
pub mod job;
pub mod layout;
pub mod process;
pub mod trace;
pub mod upload;
