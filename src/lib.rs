//! Avion: the verified core of a community economy bot.
pub mod decimal;
pub mod executor;
pub mod ledger;
pub mod give;
pub mod timestamp;
pub mod avatar;
pub mod xkcd;
