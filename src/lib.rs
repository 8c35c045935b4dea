//! Response normalization and rendering for an online-judge tool server:
//! error classification, markdown rendering of the backend's records,
//! bounded output, and the request rules of each tool.

pub mod text;
pub mod models;
pub mod convert;
pub mod error;
pub mod client;
pub mod tools;
pub mod origin;
pub mod laws;
