pub mod text;
pub mod git;
pub mod group;
pub mod paths;
pub mod render;
pub mod report;
pub mod workspace;
pub mod routing;
pub mod analytics;
pub mod cli;
pub mod commands;
pub mod config;
