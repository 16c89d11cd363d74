pub mod body;
pub mod buffer;
pub mod builtin;
pub mod catalog;
pub mod client;
pub mod clock;
pub mod decimal;
pub mod download;
pub mod edit;
pub mod envelope;
pub mod error;
pub mod fresh;
pub mod json;
pub mod preload;
pub mod range;
pub mod resolve;
pub mod select;
pub mod store;
pub mod stream;
pub mod text;
