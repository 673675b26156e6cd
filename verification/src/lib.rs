//! Bulk import of the CNPJ open-data extracts: classification of the files of
//! an archive, decoding and mapping of their rows, batching, the plan of
//! statements around a bulk load, and the record of what was imported.

pub mod text;
pub mod tipo_de_arquivo;
pub mod cli;
pub mod config;
pub mod number;
pub mod date;
pub mod decimal;
pub mod row;
pub mod models;
pub mod mapper;
pub mod database;
pub mod batch;
pub mod import;
pub mod archive;
pub mod tracker;
