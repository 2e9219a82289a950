//! The records and cases of the assistant, and how its answers are made.

pub mod advise;
pub mod chat;
pub mod cleanup;
pub mod drafts;
pub mod endpoints;
pub mod evidence;
pub mod execution;
pub mod labels;
pub mod laws;
pub mod legal;
pub mod models;
pub mod normalize;
pub mod packet;
pub mod perf;
pub mod prompts;
pub mod questions;
pub mod rank;
pub mod record_answer;
pub mod records;
pub mod review;
pub mod sanitize;
pub mod segments;
pub mod structured;
pub mod template;
