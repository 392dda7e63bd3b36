pub mod text;
pub mod filter;
pub mod address;
pub mod resolve;
pub mod dataset;
pub mod graph;
pub mod export;
pub mod window;
