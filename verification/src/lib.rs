pub mod text;
pub mod models;
pub mod numbers;
pub mod service;
pub mod ext_chrono;
pub mod sorting;
pub mod stratz;
pub mod ext_url;
pub mod brooch;
pub mod callbacks;
pub mod ext_regex;
pub mod ext_rand;
pub mod ext_hash;
pub mod ext_parse_datetime;
pub mod roll;
pub mod diario;
pub mod args;
pub mod oracle;
pub mod commands;
pub mod images;
