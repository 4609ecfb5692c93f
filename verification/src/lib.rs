//! Unified view of hosted and locally cloned git repositories.

pub mod app;
pub mod config;
pub mod git;
pub mod github;
pub mod help;
pub mod input;
pub mod local;
pub mod merge;
pub mod order;
pub mod refresh;
pub mod repo;
pub mod sort;
pub mod tasks;
pub mod text;
pub mod ui;
pub mod url;
