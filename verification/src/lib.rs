//! Core logic of the CheerUp services: a model of the tables of the REST
//! API with their laws, the dispatch decisions of the two bots, and the
//! rendering of their pages.

pub mod bot;
pub mod buttons;
pub mod callbacks;
pub mod catalog;
pub mod client;
pub mod error;
pub mod locale;
pub mod manager;
pub mod messages;
pub mod note;
pub mod reply;
pub mod stats;
pub mod store;
pub mod templates;
pub mod text;
pub mod user;
pub mod utils;
