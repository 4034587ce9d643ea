//! Audit-report layout and tail-read library.
//!
//! Two independent, stateless components:
//! - `report`: turns a pre-aggregated audit summary into a single page of
//!   positioned text blocks, with hard caps on ranked entries and event rows
//!   and a fixed bottom margin.
//! - `tail`: the incremental-read protocol over a growing log file, modelled
//!   as a pure function from (content, offset) to (new text, new length).

pub mod report;
pub mod tail;
pub mod text;
