//! A keyboard-driven task tracker: tasks grouped into topics, kept in a
//! relational store, and edited through a small modal state machine.

pub mod app;
pub mod clock;
pub mod events;
pub mod homepage;
pub mod laws;
pub mod machine;
pub mod model;
pub mod operations;
pub mod seq_lemmas;
pub mod store;
pub mod tables;
pub mod text;
