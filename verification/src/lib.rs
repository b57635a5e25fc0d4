pub mod client;
pub mod decode;
pub mod display;
pub mod errors;
pub mod json;
pub mod laws;
pub mod text;
pub mod types;
