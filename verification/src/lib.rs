//! Archiving of favourited posts: the record model, text rendering, storage
//! plans and the incremental fetch pass.

pub mod args;
pub mod commands;
pub mod config;
pub mod html;
pub mod storage;
pub mod text;
