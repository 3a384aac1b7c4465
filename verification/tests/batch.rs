use rig_fastembed::{
    pair_documents, Client, Embedding, EmbeddingError, EmbeddingModel, FastembedModel,
};

fn documents(texts: &[&str]) -> Vec<String> {
    texts.iter().map(|text| text.to_string()).collect()
}

fn small_model() -> EmbeddingModel {
    Client::new().embedding_model(&FastembedModel::AllMiniLML6V2)
}

#[test]
fn request_holds_every_document_in_order() {
    let batch = documents(&["Hello, world!", "", "Goodbye, world!"]);
    let request = small_model().embed_request(&batch);
    assert_eq!(request.texts, batch);
    assert_eq!(request.batch_size, None);
}

#[test]
fn request_for_no_documents_is_empty() {
    let request = small_model().embed_request(&Vec::new());
    assert!(request.texts.is_empty());
    assert_eq!(request.batch_size, None);
}

#[test]
fn request_is_not_split_at_the_document_limit() {
    let batch: Vec<String> = (0..EmbeddingModel::MAX_DOCUMENTS + 1)
        .map(|i| format!("doc{}", i))
        .collect();
    let request = small_model().embed_request(&batch);
    assert_eq!(request.texts.len(), 1025);
    assert_eq!(request.texts, batch);
}

#[test]
fn empty_batch_gives_no_embeddings() {
    let answer: Result<Vec<Vec<f64>>, String> = Ok(Vec::new());
    let embeddings = small_model().embed_texts(Vec::new(), answer).unwrap();
    assert!(embeddings.is_empty());
}

#[test]
fn two_documents_give_two_embeddings_in_order() {
    let model = small_model();
    assert_eq!(model.ndims(), 384);
    let batch = documents(&["Hello, world!", "Goodbye, world!"]);
    let first: Vec<f64> = (0..384).map(|i| i as f64).collect();
    let second: Vec<f64> = (0..384).map(|i| -(i as f64)).collect();
    let answer: Result<Vec<Vec<f64>>, String> = Ok(vec![first.clone(), second.clone()]);

    let embeddings = model.embed_texts(batch, answer).unwrap();

    assert_eq!(embeddings.len(), 2);
    assert_eq!(embeddings[0].document, "Hello, world!");
    assert_eq!(embeddings[1].document, "Goodbye, world!");
    assert_eq!(embeddings[0].vec.len(), 384);
    assert_eq!(embeddings[1].vec.len(), 384);
    assert_eq!(embeddings[0].vec, first);
    assert_eq!(embeddings[1].vec, second);
}

#[test]
fn one_embedding_for_each_document() {
    let model = Client::new().embedding_model(&FastembedModel::ClipVitB32);
    let texts: Vec<String> = (0..5).map(|i| format!("document {}", i)).collect();
    let vectors: Vec<Vec<f32>> = (0..5).map(|i| vec![i as f32; 512]).collect();

    let embeddings = model.embed_texts(texts.clone(), Ok(vectors.clone())).unwrap();

    assert_eq!(embeddings.len(), texts.len());
    for (i, embedding) in embeddings.iter().enumerate() {
        assert_eq!(embedding.document, texts[i]);
        assert_eq!(embedding.vec, vectors[i]);
        assert_eq!(embedding.vec.len(), model.ndims());
    }
}

#[test]
fn backend_failure_becomes_a_provider_error() {
    let batch = documents(&["Hello, world!", "Goodbye, world!"]);
    let answer: Result<Vec<Vec<f64>>, String> = Err("Failed to encode the batch.".to_string());

    let result = small_model().embed_texts(batch, answer);

    match result {
        Err(EmbeddingError::ProviderError(message)) => {
            assert_eq!(message, "Failed to encode the batch.");
            assert!(!message.is_empty());
        }
        Ok(embeddings) => panic!("{} embeddings from a failed backend", embeddings.len()),
    }
}

#[test]
fn error_message_is_the_backend_message() {
    let error = EmbeddingError::ProviderError("model not loaded".to_string());
    assert_eq!(error.message(), "model not loaded");
    let answer: Result<Vec<Vec<u8>>, String> = Err(String::new());
    let error = small_model().embed_texts(Vec::new(), answer).unwrap_err();
    assert_eq!(error.message(), "");
}

#[test]
fn surplus_documents_get_no_embedding() {
    let batch = documents(&["a", "b", "c"]);
    let answer: Result<Vec<Vec<i32>>, String> = Ok(vec![vec![1, 2], vec![3, 4]]);
    let embeddings = small_model().embed_texts(batch, answer).unwrap();
    assert_eq!(embeddings.len(), 2);
    assert_eq!(embeddings[0].document, "a");
    assert_eq!(embeddings[0].vec, vec![1, 2]);
    assert_eq!(embeddings[1].document, "b");
    assert_eq!(embeddings[1].vec, vec![3, 4]);
}

#[test]
fn surplus_vectors_are_dropped() {
    let batch = documents(&["a"]);
    let answer: Result<Vec<Vec<i32>>, String> = Ok(vec![vec![1], vec![2], vec![3]]);
    let embeddings = small_model().embed_texts(batch, answer).unwrap();
    assert_eq!(embeddings.len(), 1);
    assert_eq!(embeddings[0].document, "a");
    assert_eq!(embeddings[0].vec, vec![1]);
}

#[test]
fn vectors_of_another_width_pass_unchecked() {
    let model = small_model();
    let batch = documents(&["short", "long"]);
    let answer: Result<Vec<Vec<f64>>, String> = Ok(vec![vec![0.5], vec![1.0, 2.0, 3.0]]);
    let embeddings = model.embed_texts(batch, answer).unwrap();
    assert_eq!(embeddings.len(), 2);
    assert_eq!(embeddings[0].vec, vec![0.5]);
    assert_eq!(embeddings[1].vec, vec![1.0, 2.0, 3.0]);
    assert_ne!(embeddings[0].vec.len(), model.ndims());
}

#[test]
fn empty_and_repeated_documents_are_kept() {
    let batch = documents(&["", "same", "same", ""]);
    let answer: Result<Vec<Vec<u8>>, String> = Ok(vec![vec![0], vec![1], vec![2], vec![3]]);
    let embeddings = small_model().embed_texts(batch, answer).unwrap();
    let got: Vec<(&str, u8)> = embeddings
        .iter()
        .map(|embedding| (embedding.document.as_str(), embedding.vec[0]))
        .collect();
    assert_eq!(got, vec![("", 0), ("same", 1), ("same", 2), ("", 3)]);
}

#[test]
fn pairing_goes_position_by_position() {
    let list: Vec<Embedding<u16>> = pair_documents(
        documents(&["x", "y", "z"]),
        vec![vec![10, 11], vec![], vec![30]],
    );
    assert_eq!(list.len(), 3);
    assert_eq!(list[0].document, "x");
    assert_eq!(list[0].vec, vec![10, 11]);
    assert_eq!(list[1].document, "y");
    assert!(list[1].vec.is_empty());
    assert_eq!(list[2].document, "z");
    assert_eq!(list[2].vec, vec![30]);
}

#[test]
fn pairing_nothing_gives_nothing() {
    let list: Vec<Embedding<u16>> = pair_documents(Vec::new(), vec![vec![1]]);
    assert!(list.is_empty());
    let list: Vec<Embedding<u16>> = pair_documents(documents(&["x"]), Vec::new());
    assert!(list.is_empty());
}

#[test]
fn a_full_request_is_paired_whole() {
    let texts: Vec<String> = (0..EmbeddingModel::MAX_DOCUMENTS)
        .map(|i| format!("doc{}", i))
        .collect();
    let vectors: Vec<Vec<usize>> = (0..EmbeddingModel::MAX_DOCUMENTS).map(|i| vec![i]).collect();
    let embeddings = small_model().embed_texts(texts, Ok(vectors)).unwrap();
    assert_eq!(embeddings.len(), 1024);
    for (i, embedding) in embeddings.iter().enumerate() {
        assert_eq!(embedding.document, format!("doc{}", i));
        assert_eq!(embedding.vec, vec![i]);
    }
}
