//! The embedding model object: which model it stands for, how wide its
//! vectors are declared to be, what it asks of the embedding backend, and what
//! it makes of the backend's answer.

use vstd::prelude::*;
use crate::embedding::{
    backend_view, batch_outcome, is_paired, pair_documents, paired, response_view, texts_of,
    Embedding, EmbeddingError, EmbeddingView,
};
use crate::registry::FastembedModel;

verus! {

/// What a caller declares about a model of their own.
#[derive(Clone, Copy, Debug)]
pub struct ModelInfo {
    /// The identifier under which the model goes.
    pub model: FastembedModel,
    /// The vector width that the caller's description of the model gives.
    pub dim: usize,
}

/// What the backend is asked for when a supported model is loaded.
#[derive(Clone, Copy, Debug)]
pub struct LoadRequest {
    /// The model to load.
    pub model_name: FastembedModel,
    /// Whether the backend reports the progress of a download.
    pub show_download_progress: bool,
}

/// What the backend is asked to compute for one batch.
#[derive(Clone, Debug)]
pub struct EmbedRequest {
    /// The texts to embed, in the order in which the vectors are expected.
    pub texts: Vec<String>,
    /// How many texts the backend takes at a time; `None` leaves it to the
    /// backend.
    pub batch_size: Option<usize>,
}

/// An embedding model: its identifier and its declared vector width.
#[derive(Clone, Copy, Debug)]
pub struct EmbeddingModel {
    /// The identifier of the model.
    pub model: FastembedModel,
    ndims: usize,
}

/// The mathematical content of an [`EmbeddingModel`].
pub ghost struct EmbeddingModelView {
    pub model: FastembedModel,
    pub ndims: nat,
}

impl View for EmbeddingModel {
    type V = EmbeddingModelView;

    closed spec fn view(&self) -> EmbeddingModelView {
        EmbeddingModelView { model: self.model, ndims: self.ndims as nat }
    }
}

impl EmbeddingModel {
    /// The most documents that one request to the model may carry. Splitting a
    /// longer list is the caller's part; nothing here enforces the limit.
    pub const MAX_DOCUMENTS: usize = 1024;

    /// The model object for a supported model, with the given vector width.
    pub fn new(model: &FastembedModel, ndims: usize) -> (embedding_model: Self)
        ensures
            embedding_model@.model == *model,
            embedding_model@.ndims == ndims,
    {
        EmbeddingModel { model: *model, ndims }
    }

    /// The model object for a model of the caller's own. The width is the
    /// caller's `ndims`, taken on trust: nothing compares it with
    /// `model_info.dim` or with what the model really produces.
    pub fn new_from_user_defined(ndims: usize, model_info: &ModelInfo) -> (embedding_model: Self)
        ensures
            embedding_model@.model == model_info.model,
            embedding_model@.ndims == ndims,
    {
        EmbeddingModel { model: model_info.model, ndims }
    }

    /// The declared vector width.
    pub fn ndims(&self) -> (ndims: usize)
        ensures
            ndims == self@.ndims,
    {
        self.ndims
    }

    /// The request that loads a supported model: that model, with download
    /// progress shown; everything else is left to the backend's defaults.
    pub fn load_request(model: &FastembedModel) -> (request: LoadRequest)
        ensures
            request.model_name == *model,
            request.show_download_progress,
    {
        LoadRequest { model_name: *model, show_download_progress: true }
    }

    /// The request for a batch of documents: every document, unchanged and in
    /// order, with the backend's own batch size.
    pub fn embed_request(&self, documents: &Vec<String>) -> (request: EmbedRequest)
        ensures
            texts_of(request.texts@) == texts_of(documents@),
            request.batch_size is None,
    {
        let mut texts: Vec<String> = Vec::new();
        for i in 0..documents.len()
            invariant
                texts@.len() == i,
                forall|j: int| 0 <= j < i ==> texts@[j]@ == documents@[j]@,
        {
            texts.push(documents[i].clone());
        }
        assert(texts_of(texts@) =~= texts_of(documents@));
        EmbedRequest { texts, batch_size: None }
    }

    /// Turns the backend's answer for a batch into the batch's result. A
    /// success pairs each document with its vector; a failure becomes a
    /// provider error with the backend's message, and no embedding at all.
    /// The vectors are not measured against the declared width.
    pub fn embed_texts<T>(
        &self,
        documents: Vec<String>,
        backend: Result<Vec<Vec<T>>, String>,
    ) -> (response: Result<Vec<Embedding<T>>, EmbeddingError>)
        ensures
            response_view(response) == batch_outcome(
                texts_of(documents@),
                backend_view(backend),
            ),
            match backend {
                Ok(vectors) => response is Ok && is_paired(
                    response->Ok_0@,
                    documents@,
                    vectors@,
                ),
                Err(message) => response is Err && response->Err_0@ == message@,
            },
    {
        match backend {
            Ok(vectors) => Ok(pair_documents(documents, vectors)),
            Err(message) => Err(EmbeddingError::ProviderError(message)),
        }
    }
}

/// A batch without documents yields no embeddings, whatever vectors the
/// backend returns for it.
pub proof fn lemma_empty_batch<T>(vectors: Seq<Seq<T>>)
    ensures
        batch_outcome(Seq::<Seq<char>>::empty(), Ok::<Seq<Seq<T>>, Seq<char>>(vectors)) == Ok::<
            Seq<EmbeddingView<T>>,
            Seq<char>,
        >(Seq::empty()),
{
    assert(paired(Seq::<Seq<char>>::empty(), vectors) =~= Seq::empty());
}

/// When the backend returns one vector for each document, each as wide as
/// `model` declares, the batch yields exactly one embedding for each document,
/// in the order of the documents: the embedding at a position holds the
/// document and the vector of that position, and the vector has the declared
/// width.
pub proof fn lemma_full_batch<T>(
    model: EmbeddingModel,
    documents: Seq<Seq<char>>,
    vectors: Seq<Seq<T>>,
)
    requires
        vectors.len() == documents.len(),
        forall|i: int| 0 <= i < vectors.len() ==> (#[trigger] vectors[i]).len() == model@.ndims,
    ensures
        batch_outcome(documents, Ok::<Seq<Seq<T>>, Seq<char>>(vectors)) == Ok::<
            Seq<EmbeddingView<T>>,
            Seq<char>,
        >(paired(documents, vectors)),
        paired(documents, vectors).len() == documents.len(),
        forall|i: int|
            0 <= i < documents.len() ==> (#[trigger] paired(documents, vectors)[i]).document
                == documents[i] && paired(documents, vectors)[i].vec == vectors[i] && paired(
                documents,
                vectors,
            )[i].vec.len() == model@.ndims,
{
}

/// When the backend fails, the batch yields an error that carries the
/// backend's message, and no embedding. The message is not empty unless the
/// backend's own message is.
pub proof fn lemma_backend_failure<T>(documents: Seq<Seq<char>>, message: Seq<char>)
    ensures
        batch_outcome::<T>(documents, Err(message)) == Err::<Seq<EmbeddingView<T>>, Seq<char>>(
            message,
        ),
        message.len() > 0 ==> batch_outcome::<T>(documents, Err(message))->Err_0.len() > 0,
{
}

} // verus!
