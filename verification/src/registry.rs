//! The model registry: which embedding models are supported, and how wide the
//! vectors are that each of them produces.

use vstd::prelude::*;

verus! {

/// The supported embedding models.
#[derive(Clone, Copy, Debug, PartialEq, Eq, Hash, Structural)]
pub enum FastembedModel {
    /// sentence-transformers/all-MiniLM-L6-v2
    AllMiniLML6V2,
    /// Quantized sentence-transformers/all-MiniLM-L6-v2
    AllMiniLML6V2Q,
    /// sentence-transformers/all-MiniLM-L12-v2
    AllMiniLML12V2,
    /// Quantized sentence-transformers/all-MiniLM-L12-v2
    AllMiniLML12V2Q,
    /// BAAI/bge-base-en-v1.5
    BGEBaseENV15,
    /// Quantized BAAI/bge-base-en-v1.5
    BGEBaseENV15Q,
    /// BAAI/bge-large-en-v1.5
    BGELargeENV15,
    /// Quantized BAAI/bge-large-en-v1.5
    BGELargeENV15Q,
    /// BAAI/bge-small-en-v1.5
    BGESmallENV15,
    /// Quantized BAAI/bge-small-en-v1.5
    BGESmallENV15Q,
    /// nomic-ai/nomic-embed-text-v1
    NomicEmbedTextV1,
    /// nomic-ai/nomic-embed-text-v1.5
    NomicEmbedTextV15,
    /// Quantized nomic-ai/nomic-embed-text-v1.5
    NomicEmbedTextV15Q,
    /// sentence-transformers/paraphrase-multilingual-MiniLM-L12-v2
    ParaphraseMLMiniLML12V2,
    /// Quantized sentence-transformers/paraphrase-multilingual-MiniLM-L12-v2
    ParaphraseMLMiniLML12V2Q,
    /// sentence-transformers/paraphrase-multilingual-mpnet-base-v2
    ParaphraseMLMpnetBaseV2,
    /// BAAI/bge-small-zh-v1.5
    BGESmallZHV15,
    /// intfloat/multilingual-e5-small
    MultilingualE5Small,
    /// intfloat/multilingual-e5-base
    MultilingualE5Base,
    /// intfloat/multilingual-e5-large
    MultilingualE5Large,
    /// mixedbread-ai/mxbai-embed-large-v1
    MxbaiEmbedLargeV1,
    /// Quantized mixedbread-ai/mxbai-embed-large-v1
    MxbaiEmbedLargeV1Q,
    /// Alibaba-NLP/gte-base-en-v1.5
    GTEBaseENV15,
    /// Quantized Alibaba-NLP/gte-base-en-v1.5
    GTEBaseENV15Q,
    /// Alibaba-NLP/gte-large-en-v1.5
    GTELargeENV15,
    /// Quantized Alibaba-NLP/gte-large-en-v1.5
    GTELargeENV15Q,
    /// Qdrant/clip-ViT-B-32-text
    ClipVitB32,
    /// jinaai/jina-embeddings-v2-base-code
    JinaEmbeddingsV2BaseCode,
}

/// The width of the vectors that `model` produces, model by model, as each
/// model's card gives it.
pub open spec fn model_ndims(model: FastembedModel) -> nat {
    match model {
        FastembedModel::AllMiniLML6V2 => 384,
        FastembedModel::AllMiniLML6V2Q => 384,
        FastembedModel::AllMiniLML12V2 => 384,
        FastembedModel::AllMiniLML12V2Q => 384,
        FastembedModel::BGEBaseENV15 => 768,
        FastembedModel::BGEBaseENV15Q => 768,
        FastembedModel::BGELargeENV15 => 1024,
        FastembedModel::BGELargeENV15Q => 1024,
        FastembedModel::BGESmallENV15 => 384,
        FastembedModel::BGESmallENV15Q => 384,
        FastembedModel::NomicEmbedTextV1 => 768,
        FastembedModel::NomicEmbedTextV15 => 768,
        FastembedModel::NomicEmbedTextV15Q => 768,
        FastembedModel::ParaphraseMLMiniLML12V2 => 384,
        FastembedModel::ParaphraseMLMiniLML12V2Q => 384,
        FastembedModel::ParaphraseMLMpnetBaseV2 => 768,
        FastembedModel::BGESmallZHV15 => 512,
        FastembedModel::MultilingualE5Small => 384,
        FastembedModel::MultilingualE5Base => 768,
        FastembedModel::MultilingualE5Large => 1024,
        FastembedModel::MxbaiEmbedLargeV1 => 1024,
        FastembedModel::MxbaiEmbedLargeV1Q => 1024,
        FastembedModel::GTEBaseENV15 => 768,
        FastembedModel::GTEBaseENV15Q => 768,
        FastembedModel::GTELargeENV15 => 1024,
        FastembedModel::GTELargeENV15Q => 1024,
        FastembedModel::ClipVitB32 => 512,
        FastembedModel::JinaEmbeddingsV2BaseCode => 768,
    }
}

/// Whether `n` is one of the four vector widths that occur in the registry.
pub open spec fn is_registry_width(n: nat) -> bool {
    n == 384 || n == 512 || n == 768 || n == 1024
}

/// Looks up the width of the vectors that `model` produces. The models are
/// taken in four groups, one for each width.
pub fn fetch_model_ndims(model: &FastembedModel) -> (ndims: usize)
    ensures
        ndims == model_ndims(*model),
        is_registry_width(ndims as nat),
{
    match model {
        FastembedModel::AllMiniLML6V2
        | FastembedModel::AllMiniLML6V2Q
        | FastembedModel::AllMiniLML12V2
        | FastembedModel::AllMiniLML12V2Q
        | FastembedModel::BGESmallENV15
        | FastembedModel::BGESmallENV15Q
        | FastembedModel::ParaphraseMLMiniLML12V2Q
        | FastembedModel::ParaphraseMLMiniLML12V2
        | FastembedModel::MultilingualE5Small => 384,
        FastembedModel::BGESmallZHV15 | FastembedModel::ClipVitB32 => 512,
        FastembedModel::BGEBaseENV15
        | FastembedModel::BGEBaseENV15Q
        | FastembedModel::NomicEmbedTextV1
        | FastembedModel::NomicEmbedTextV15
        | FastembedModel::NomicEmbedTextV15Q
        | FastembedModel::ParaphraseMLMpnetBaseV2
        | FastembedModel::MultilingualE5Base
        | FastembedModel::GTEBaseENV15
        | FastembedModel::GTEBaseENV15Q
        | FastembedModel::JinaEmbeddingsV2BaseCode => 768,
        FastembedModel::BGELargeENV15
        | FastembedModel::BGELargeENV15Q
        | FastembedModel::MultilingualE5Large
        | FastembedModel::MxbaiEmbedLargeV1
        | FastembedModel::MxbaiEmbedLargeV1Q
        | FastembedModel::GTELargeENV15
        | FastembedModel::GTELargeENV15Q => 1024,
    }
}

/// Every model has one of the widths 384, 512, 768 and 1024, none has width
/// zero, and each of the four is the width of some model.
pub proof fn lemma_registry_widths(model: FastembedModel)
    ensures
        is_registry_width(model_ndims(model)),
        model_ndims(model) > 0,
        forall|n: nat|
            is_registry_width(n) ==> exists|other: FastembedModel| #[trigger]
                model_ndims(other) == n,
{
    assert(model_ndims(FastembedModel::AllMiniLML6V2) == 384);
    assert(model_ndims(FastembedModel::ClipVitB32) == 512);
    assert(model_ndims(FastembedModel::BGEBaseENV15) == 768);
    assert(model_ndims(FastembedModel::BGELargeENV15) == 1024);
}

} // verus!
