//! Migration of semi-structured project documentation (tasks, sprints, user
//! stories, components and architecture decision records written in markdown)
//! into typed records, with the settings and vocabulary around it.
//!
//! Each document kind has a grammar module that turns text into records; the
//! `migration` module counts, previews or hands records to a store, and
//! renders the report. File access and the store itself belong to the caller.
use vstd::prelude::*;

pub mod text;
pub mod markdown;
pub mod ids;
pub mod models;
pub mod vocab;
pub mod tasks;
pub mod components;
pub mod adrs;
pub mod sprints;
pub mod stories;
pub mod migration;
pub mod laws;
pub mod config;
pub mod logging;
pub mod embeddings;

verus! {

/// The version of the library.
pub fn get_version() -> (r: &'static str)
    ensures
        r@ == "0.1.0"@,
{
    "0.1.0"
}

pub fn core_init_message() {
}

pub fn errors_init_message() {
}

pub fn validation_init_message() {
}

pub fn export_init_message() {
}

pub fn services_init_message() {
}

pub fn utils_init_message() {
}

} // verus!
