//! A personal trading-card collection and the response cache that sits in
//! front of the catalog provider.
pub mod cache;
pub mod card;
pub mod client;
pub mod document;
pub mod freshness;
pub mod product;
pub mod report;
pub mod selection;
pub mod text;
