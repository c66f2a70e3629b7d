//! Core of a small self-hosted music server: flat-file record stores for the
//! song catalog, the user credentials and the address whitelist, and the
//! decisions of a byte-range file server.

pub mod auth;
pub mod data;
pub mod decimal;
pub mod json;
pub mod metadata;
pub mod pages;
pub mod passwords;
pub mod range;
pub mod response;
pub mod rewrite;
pub mod route;
pub mod rows;
pub mod serve;
pub mod songs;
pub mod text;
pub mod upload;
pub mod whitelist;
