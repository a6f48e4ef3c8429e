pub mod cartridge;
pub mod classify;
pub mod error;
pub mod inventory;
pub mod local;
pub mod parser;
pub mod plan;
pub mod remote;
pub mod strutil;
