pub mod config;
pub mod download;
pub mod files;
pub mod storage;
pub mod text;
