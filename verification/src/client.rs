//! The client: a stateless factory of embedding model objects.

use vstd::prelude::*;
use crate::model::EmbeddingModel;
use crate::registry::{fetch_model_ndims, model_ndims, FastembedModel};

verus! {

/// A factory of embedding model objects. It holds no state.
#[derive(Clone, Copy, Debug)]
pub struct Client;

impl Client {
    /// Creates a client.
    pub fn new() -> (client: Self)
        ensures
            client == Client,
    {
        Client
    }

    /// The model object for `model`, with the width that the registry gives
    /// for it.
    pub fn embedding_model(&self, model: &FastembedModel) -> (embedding_model: EmbeddingModel)
        ensures
            embedding_model@.model == *model,
            embedding_model@.ndims == model_ndims(*model),
    {
        let ndims = fetch_model_ndims(model);
        EmbeddingModel::new(model, ndims)
    }
}

impl Default for Client {
    fn default() -> (client: Self)
        ensures
            client == Client,
    {
        Client::new()
    }
}

} // verus!
