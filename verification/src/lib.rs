//! Core library for a BitTorrent tracker communication tool.

pub mod bencode;
pub mod cli;
pub mod client;
pub mod config;
pub mod encoding;
pub mod engine;
pub mod error;
pub mod network;
pub mod proxy;
pub mod strings;
pub mod text;
pub mod torrent;
pub mod tracker;
