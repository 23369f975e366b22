pub mod lang;
pub mod laws;
pub mod config;
pub mod engine;
pub mod logfmt;
pub mod parser;
pub mod printer;
pub mod runner;
pub mod text;
