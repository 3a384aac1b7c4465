//! Verified core of a text-embedding adapter: the registry of supported
//! embedding models and their vector widths, the embedding model object, and
//! the pairing of a batch of documents with the vectors computed for them.
//!
//! The library computes on plain values. Loading a model and running it are
//! left to the caller, who asks the backend what the library's requests say
//! and hands the answer back.

pub mod client;
pub mod embedding;
pub mod model;
pub mod registry;

pub use client::Client;
pub use embedding::{pair_documents, Embedding, EmbeddingError};
pub use model::{EmbedRequest, EmbeddingModel, LoadRequest, ModelInfo};
pub use registry::{fetch_model_ndims, FastembedModel};
