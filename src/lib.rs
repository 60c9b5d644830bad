//! Indexes the top-level definitions of Agda modules rendered to HTML.
//!
//! `module` extracts the definitions of one document, with `role` telling
//! their kinds apart and `links` resolving the targets of their anchors.
//! `pipeline` processes one file and collects the results of many. `docset`
//! lays out a documentation bundle and its search index, and `bundle` decides
//! the steps of writing one; `plain` and `json` shape the other listings.

pub mod bundle;
pub mod cmdline;
pub mod docset;
pub mod json;
pub mod links;
pub mod module;
pub mod pipeline;
pub mod plain;
pub mod role;
