//! Compilation database generation for multi-workspace C and C++ projects.

pub mod config;
pub mod database;
pub mod entries;
pub mod includes;
pub mod lists;
pub mod options;
pub mod paths;
pub mod patterns;
pub mod targets;
pub mod walk;
