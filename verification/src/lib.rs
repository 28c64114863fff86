//! Crawl a web novel from a configured site and assemble it into one ordered
//! document tree: declarative extraction rules, the parser built on them, the
//! decisions of the network layer and of the crawl, and the documents that are
//! written to disk.

pub mod config;
pub mod crawler;
pub mod dom;
pub mod epub;
pub mod extractor;
pub mod text;
