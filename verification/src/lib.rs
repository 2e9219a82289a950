//! Logic of a local school-record assistant.

pub mod drace;
pub mod engine;
pub mod json;
pub mod lists;
pub mod platform;
pub mod sorting;
pub mod strs;
pub mod text;
pub mod texts;
