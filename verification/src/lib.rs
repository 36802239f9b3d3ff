//! Fates List API: the models, the rules that requests must pass and the
//! answers built from them.

pub mod appeals;
pub mod auth;
pub mod bot_actions;
pub mod bot_checks;
pub mod commands;
pub mod converters;
pub mod decimals;
pub mod docs;
pub mod enums;
pub mod errors;
pub mod gateway;
pub mod imports;
pub mod ipc;
pub mod links;
pub mod models;
pub mod notifs;
pub mod packs;
pub mod profiles;
pub mod records;
pub mod resources;
pub mod reviews;
pub mod route_docs;
pub mod servers;
pub mod stats;
pub mod text;
pub mod votes;
