pub mod alerts;
pub mod cache;
pub mod error;
pub mod explain;
pub mod price;
pub mod signal;
pub mod source;
pub mod symbol;
pub mod text;
