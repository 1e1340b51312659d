//! The matching and throttling engine of a keyword-notification bot: users
//! subscribe to patterns, and a message that one of their patterns finds
//! earns them a mention, at most once per cooldown interval and channel.

pub mod command;
pub mod config;
pub mod cooldown;
pub mod grep;
pub mod handler;
pub mod json;
pub mod mention;
pub mod message;
pub mod model;
pub mod pattern;
pub mod seqs;
pub mod store;
pub mod text;
