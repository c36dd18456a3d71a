//! Error-page backend for a reverse proxy: classifies a failed request from its
//! headers, picks the error artifact through a fallback cascade, renders it and
//! composes the response.

pub mod decimal;
pub mod classify;
pub mod assets;
pub mod render;
pub mod respond;
pub mod laws;
pub mod env;
