//! The bot that maintains the notes: its keyboards, its commands, and what it
//! does with a message.

pub mod commands;
pub mod keyboards;
pub mod messages;
