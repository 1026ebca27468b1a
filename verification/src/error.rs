//! The errors of the library.

use vstd::prelude::*;

use crate::text::enclosed;

verus! {

/// Why an embedding was refused or failed.
#[derive(Debug, PartialEq, Eq)]
pub enum EmbedderError {
    /// No embedder is there to be called.
    EmbedderUnavailable { model: String, reason: String },
    /// The input cannot be embedded.
    InvalidConfig { field: String, value: String, reason: String },
    /// The model was called and failed.
    EmbeddingFailed { model: String, source: String },
}

/// What an [`EmbedderError`] says.
pub enum EmbedderErrorView {
    EmbedderUnavailable { model: Seq<char>, reason: Seq<char> },
    InvalidConfig { field: Seq<char>, value: Seq<char>, reason: Seq<char> },
    EmbeddingFailed { model: Seq<char>, source: Seq<char> },
}

impl View for EmbedderError {
    type V = EmbedderErrorView;

    open spec fn view(&self) -> EmbedderErrorView {
        match *self {
            EmbedderError::EmbedderUnavailable { model, reason } =>
                EmbedderErrorView::EmbedderUnavailable { model: model@, reason: reason@ },
            EmbedderError::InvalidConfig { field, value, reason } =>
                EmbedderErrorView::InvalidConfig { field: field@, value: value@, reason: reason@ },
            EmbedderError::EmbeddingFailed { model, source } => EmbedderErrorView::EmbeddingFailed {
                model: model@,
                source: source@,
            },
        }
    }
}

/// Why documents cannot be reranked.
#[derive(Debug, PartialEq, Eq)]
pub enum RerankerError {
    /// No reranker is there to be called.
    RerankerUnavailable { model: String },
}

/// Why a semantic search, or the warming of its indices, failed.
#[derive(Debug, PartialEq, Eq)]
pub enum SemanticError {
    /// The vector index could not be opened.
    OpenVectorIndex { path: String, cause: String },
    /// There is no graph file.
    AnnNotFound { path: String },
    /// The graph could not be loaded.
    OpenAnn { cause: String },
    /// The graph could not be compared with the vector index.
    ValidateAnn { cause: String },
    /// The graph was built over other rows than the vector index holds.
    StaleAnn { path: String },
    /// The index files of an embedder are not both there.
    AssetsMissing { embedder_id: String, vector_path: String, ann_path: String },
    /// The approximate search itself failed.
    SearchFailed { cause: String },
}

/// What a [`SemanticError`] says.
pub enum SemanticErrorView {
    OpenVectorIndex { path: Seq<char>, cause: Seq<char> },
    AnnNotFound { path: Seq<char> },
    OpenAnn { cause: Seq<char> },
    ValidateAnn { cause: Seq<char> },
    StaleAnn { path: Seq<char> },
    AssetsMissing { embedder_id: Seq<char>, vector_path: Seq<char>, ann_path: Seq<char> },
    SearchFailed { cause: Seq<char> },
}

impl View for SemanticError {
    type V = SemanticErrorView;

    open spec fn view(&self) -> SemanticErrorView {
        match *self {
            SemanticError::OpenVectorIndex { path, cause } => SemanticErrorView::OpenVectorIndex {
                path: path@,
                cause: cause@,
            },
            SemanticError::AnnNotFound { path } => SemanticErrorView::AnnNotFound { path: path@ },
            SemanticError::OpenAnn { cause } => SemanticErrorView::OpenAnn { cause: cause@ },
            SemanticError::ValidateAnn { cause } => SemanticErrorView::ValidateAnn {
                cause: cause@,
            },
            SemanticError::StaleAnn { path } => SemanticErrorView::StaleAnn { path: path@ },
            SemanticError::AssetsMissing { embedder_id, vector_path, ann_path } =>
                SemanticErrorView::AssetsMissing {
                embedder_id: embedder_id@,
                vector_path: vector_path@,
                ann_path: ann_path@,
            },
            SemanticError::SearchFailed { cause } => SemanticErrorView::SearchFailed {
                cause: cause@,
            },
        }
    }
}

impl SemanticErrorView {
    /// The message of the error. What kept the vector index from opening is no
    /// part of it: it stands behind the message, as its cause.
    pub open spec fn text(self) -> Seq<char> {
        match self {
            SemanticErrorView::OpenVectorIndex { path, .. } =>
                "open semantic vector index failed: "@ + path,
            SemanticErrorView::AnnNotFound { path } => "HNSW index not found at "@ + path,
            SemanticErrorView::OpenAnn { cause } => "open HNSW index failed: "@ + cause,
            SemanticErrorView::ValidateAnn { cause } => "validate HNSW index failed: "@ + cause,
            SemanticErrorView::StaleAnn { path } => "HNSW index at "@ + path
                + " is stale for current semantic index"@,
            SemanticErrorView::AssetsMissing { embedder_id, vector_path, ann_path } =>
                "semantic assets missing for "@ + embedder_id + " (expected "@ + vector_path + ", "@
                + ann_path + ")"@,
            SemanticErrorView::SearchFailed { cause } =>
                "frankensearch approximate search failed: "@ + cause,
        }
    }
}

impl SemanticError {
    /// The message of the error.
    pub fn message(&self) -> (text: String)
        ensures
            text@ == self@.text(),
    {
        proof {
            reveal_strlit("");
        }
        match self {
            SemanticError::OpenVectorIndex { path, .. } => enclosed(
                "open semantic vector index failed: ",
                path.as_str(),
                "",
            ),
            SemanticError::AnnNotFound { path } => enclosed(
                "HNSW index not found at ",
                path.as_str(),
                "",
            ),
            SemanticError::OpenAnn { cause } => enclosed(
                "open HNSW index failed: ",
                cause.as_str(),
                "",
            ),
            SemanticError::ValidateAnn { cause } => enclosed(
                "validate HNSW index failed: ",
                cause.as_str(),
                "",
            ),
            SemanticError::StaleAnn { path } => enclosed(
                "HNSW index at ",
                path.as_str(),
                " is stale for current semantic index",
            ),
            SemanticError::AssetsMissing { embedder_id, vector_path, ann_path } => {
                let mut text = enclosed(
                    "semantic assets missing for ",
                    embedder_id.as_str(),
                    " (expected ",
                );
                text.append(vector_path.as_str());
                text.append(", ");
                text.append(ann_path.as_str());
                text.append(")");
                text
            },
            SemanticError::SearchFailed { cause } => enclosed(
                "frankensearch approximate search failed: ",
                cause.as_str(),
                "",
            ),
        }
    }
}

/// What each error reads as: its message names the file, the cause or the embedder
/// that the error holds. Of a vector index that did not open it names the file
/// alone.
pub proof fn message_tells_what_the_error_holds(error: SemanticError, text: String)
    requires
        call_ensures(SemanticError::message, (&error,), text),
    ensures
        match error {
            SemanticError::OpenVectorIndex { path, .. } => text@
                == "open semantic vector index failed: "@ + path@,
            SemanticError::AnnNotFound { path } => text@ == "HNSW index not found at "@ + path@,
            SemanticError::OpenAnn { cause } => text@ == "open HNSW index failed: "@ + cause@,
            SemanticError::ValidateAnn { cause } => text@ == "validate HNSW index failed: "@
                + cause@,
            SemanticError::StaleAnn { path } => text@ == "HNSW index at "@ + path@
                + " is stale for current semantic index"@,
            SemanticError::AssetsMissing { embedder_id, vector_path, ann_path } => text@
                == "semantic assets missing for "@ + embedder_id@ + " (expected "@ + vector_path@
                + ", "@ + ann_path@ + ")"@,
            SemanticError::SearchFailed { cause } => text@
                == "frankensearch approximate search failed: "@ + cause@,
        },
{
}

/// Two errors that say the same hold the same texts in the same places.
pub proof fn errors_say_what_they_hold(a: EmbedderError, b: EmbedderError)
    requires
        a@ == b@,
    ensures
        match (a, b) {
            (
                EmbedderError::EmbedderUnavailable { model, reason },
                EmbedderError::EmbedderUnavailable { model: other, reason: why },
            ) => model@ == other@ && reason@ == why@,
            (
                EmbedderError::InvalidConfig { field, value, reason },
                EmbedderError::InvalidConfig { field: other, value: held, reason: why },
            ) => field@ == other@ && value@ == held@ && reason@ == why@,
            (
                EmbedderError::EmbeddingFailed { model, source },
                EmbedderError::EmbeddingFailed { model: other, source: why },
            ) => model@ == other@ && source@ == why@,
            _ => false,
        },
{
}

} // verus!
