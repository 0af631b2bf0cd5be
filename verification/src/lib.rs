pub mod cli;
pub mod config;
pub mod fetch;
pub mod kv;
pub mod launch;
pub mod orchestrate;
pub mod project;
pub mod secrets;
