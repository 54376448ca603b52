//! Media library core: models, query building and decoding for the SQLite
//! catalogue, scan bookkeeping and thumbnail naming.

pub mod text;
pub mod models;
pub mod sqlite;
pub mod decode;
pub mod repository;
pub mod statements;
pub mod schema;
pub mod connection;
pub mod checksum;
pub mod file_scanner;
pub mod thumbnail_generator;
pub mod tag_tree;
