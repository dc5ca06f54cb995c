//! The verified core of a Discord bot: a logger that renders each event twice from one
//! template, as a styled terminal line and as a plain file line, and the rules by which
//! the bot's commands read what they are given.

pub mod clock;
pub mod color;
pub mod embed;
pub mod escape;
pub mod fields;
pub mod format;
pub mod laws;
pub mod level;
pub mod logger;
pub mod permissions;
pub mod purge;
pub mod render;
pub mod template;
pub mod text;
pub mod urls;
