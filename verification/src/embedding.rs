//! Embedding results: pairing the documents of a batch with the vectors that
//! the embedding backend computed for them.

use vstd::prelude::*;

verus! {

/// A document together with the vector computed for it. The numbers are
/// carried as they come, whatever their type `T`.
#[derive(Clone, Debug)]
pub struct Embedding<T> {
    /// The document that was embedded.
    pub document: String,
    /// The embedding vector.
    pub vec: Vec<T>,
}

/// The mathematical content of an [`Embedding`].
pub ghost struct EmbeddingView<T> {
    pub document: Seq<char>,
    pub vec: Seq<T>,
}

impl<T> View for Embedding<T> {
    type V = EmbeddingView<T>;

    open spec fn view(&self) -> EmbeddingView<T> {
        EmbeddingView { document: self.document@, vec: self.vec@ }
    }
}

/// The texts of a list of documents.
pub open spec fn texts_of(documents: Seq<String>) -> Seq<Seq<char>> {
    documents.map_values(|document: String| document@)
}

/// The rows of a list of vectors.
pub open spec fn rows_of<T>(vectors: Seq<Vec<T>>) -> Seq<Seq<T>> {
    vectors.map_values(|row: Vec<T>| row@)
}

/// The contents of a list of embeddings.
pub open spec fn embeddings_of<T>(list: Seq<Embedding<T>>) -> Seq<EmbeddingView<T>> {
    list.map_values(|embedding: Embedding<T>| embedding@)
}

/// The number of pairs that two lists of these lengths give.
pub open spec fn paired_len(documents: nat, vectors: nat) -> nat {
    if documents <= vectors {
        documents
    } else {
        vectors
    }
}

/// Documents and vectors paired position by position, as far as both reach.
pub open spec fn paired<T>(documents: Seq<Seq<char>>, vectors: Seq<Seq<T>>) -> Seq<
    EmbeddingView<T>,
> {
    Seq::new(
        paired_len(documents.len(), vectors.len()),
        |i: int| EmbeddingView { document: documents[i], vec: vectors[i] },
    )
}

/// Whether `list` holds `documents` and `vectors` paired position by position,
/// as far as both reach: the same as `paired`, said of the values themselves.
pub open spec fn is_paired<T>(
    list: Seq<Embedding<T>>,
    documents: Seq<String>,
    vectors: Seq<Vec<T>>,
) -> bool {
    &&& list.len() == paired_len(documents.len(), vectors.len())
    &&& forall|i: int|
        0 <= i < list.len() ==> (#[trigger] list[i]).document@ == documents[i]@ && list[i].vec@
            == vectors[i]@
}

/// Pairs each document with the vector at the same position. Where one list
/// is longer than the other, what is beyond the shorter one is dropped.
pub fn pair_documents<T>(documents: Vec<String>, vectors: Vec<Vec<T>>) -> (list: Vec<Embedding<T>>)
    ensures
        embeddings_of(list@) == paired(texts_of(documents@), rows_of(vectors@)),
        is_paired(list@, documents@, vectors@),
{
    let mut documents = documents;
    let mut vectors = vectors;
    let ghost all_documents = documents@;
    let ghost all_vectors = vectors@;
    let n: usize = if documents.len() <= vectors.len() {
        documents.len()
    } else {
        vectors.len()
    };
    let mut list: Vec<Embedding<T>> = Vec::new();
    for i in 0..n
        invariant
            n == paired_len(all_documents.len(), all_vectors.len()),
            documents@.len() == all_documents.len(),
            vectors@.len() == all_vectors.len(),
            forall|j: int| i <= j < n ==> documents@[j] == all_documents[j],
            forall|j: int| i <= j < n ==> vectors@[j] == all_vectors[j],
            list@.len() == i,
            forall|j: int|
                0 <= j < i ==> (#[trigger] list@[j])@ == paired(
                    texts_of(all_documents),
                    rows_of(all_vectors),
                )[j],
    {
        let mut document = String::new();
        let mut vec: Vec<T> = Vec::new();
        core::mem::swap(&mut document, &mut documents[i]);
        core::mem::swap(&mut vec, &mut vectors[i]);
        list.push(Embedding { document, vec });
    }
    assert(embeddings_of(list@) =~= paired(texts_of(all_documents), rows_of(all_vectors)));
    list
}

/// Why a batch produced no embeddings.
#[derive(Debug)]
pub enum EmbeddingError {
    /// The embedding backend failed; the text is the backend's own message.
    ProviderError(String),
}

impl View for EmbeddingError {
    type V = Seq<char>;

    /// The message that the error carries.
    open spec fn view(&self) -> Seq<char> {
        match self {
            EmbeddingError::ProviderError(message) => message@,
        }
    }
}

impl EmbeddingError {
    /// The message that the error carries.
    pub fn message(&self) -> (text: String)
        ensures
            text@ == self@,
    {
        match self {
            EmbeddingError::ProviderError(message) => message.clone(),
        }
    }
}

/// What a batch of `documents` yields once the backend has answered with
/// `backend`: its vectors paired with the documents, or its failure.
pub open spec fn batch_outcome<T>(
    documents: Seq<Seq<char>>,
    backend: Result<Seq<Seq<T>>, Seq<char>>,
) -> Result<Seq<EmbeddingView<T>>, Seq<char>> {
    match backend {
        Ok(vectors) => Ok(paired(documents, vectors)),
        Err(message) => Err(message),
    }
}

/// The mathematical content of a backend's answer.
pub open spec fn backend_view<T>(backend: Result<Vec<Vec<T>>, String>) -> Result<
    Seq<Seq<T>>,
    Seq<char>,
> {
    match backend {
        Ok(vectors) => Ok(rows_of(vectors@)),
        Err(message) => Err(message@),
    }
}

/// The mathematical content of a batch's result.
pub open spec fn response_view<T>(response: Result<Vec<Embedding<T>>, EmbeddingError>) -> Result<
    Seq<EmbeddingView<T>>,
    Seq<char>,
> {
    match response {
        Ok(list) => Ok(embeddings_of(list@)),
        Err(error) => Err(error@),
    }
}

} // verus!
