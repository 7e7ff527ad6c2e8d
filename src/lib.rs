//! Ingestion and retrieval of uploaded raster images: validation, naming,
//! URL resolution and the records handed to storage.
pub mod text;
pub mod error;
pub mod url;
pub mod model;
pub mod service;
pub mod ingest;
pub mod http;
