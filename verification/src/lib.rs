//! Verified core of the Comet media host: file naming, metadata cleanup,
//! pagination, upload accounting and the request decisions of the HTTP layer.

pub mod text;
pub mod paths;
pub mod metadata;
pub mod jwt;
pub mod models;
pub mod auth;
pub mod files;
pub mod upload;
pub mod storage;
pub mod settings;
pub mod ws;
pub mod sharex;
pub mod content;
