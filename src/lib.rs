pub mod builder;
pub mod clean;
pub mod cli;
pub mod compose;
pub mod config;
pub mod deps;
pub mod driver;
pub mod error;
pub mod locator;
pub mod paths;
pub mod pipeline;
pub mod platforms;
pub mod post_build;
pub mod repo;
pub mod toolchain;
