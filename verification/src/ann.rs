//! The indices of `frankensearch-index` that a semantic search runs on, and the
//! calls that the library makes on them.

use std::sync::Arc;

use frankensearch_index::{HnswIndex, VectorIndex};

use vstd::prelude::*;

verus! {

/// `std::path::PathBuf`, carried as it is.
#[verifier::external_type_specification]
#[verifier::external_body]
pub struct ExPathBuf(std::path::PathBuf);

/// `frankensearch_index::VectorIndex`: the vectors of a semantic index, row by
/// row, read from a memory-mapped file.
#[verifier::external_type_specification]
#[verifier::external_body]
pub struct ExVectorIndex(frankensearch_index::VectorIndex);

/// `frankensearch_index::HnswIndex`: the graph for approximate search over the
/// rows of a vector index.
#[verifier::external_type_specification]
#[verifier::external_body]
pub struct ExHnswIndex(frankensearch_index::HnswIndex);

/// The number of components of the vectors in a vector index.
pub uninterp spec fn vector_dimension(index: VectorIndex) -> nat;

/// The number of components of the vectors that a graph was built over.
pub uninterp spec fn ann_dimension(index: HnswIndex) -> nat;

/// `HnswIndex::matches_vector_index`: whether the graph was built over the rows
/// of `vectors`.
///
/// Vectors of another dimension never match, and asking is then no error.
/// Beyond that the answer compares the document ids of the graph with the rows
/// that are live in the mapped file at the time of the call; the file may
/// change, so nothing is claimed of that comparison.
#[verifier::external_body]
pub(crate) fn ann_matches(ann: &HnswIndex, vectors: &VectorIndex) -> (answer: Result<bool, String>)
    ensures
        ann_dimension(*ann) != vector_dimension(*vectors) ==> answer is Ok && !answer->Ok_0,
{
    ann.matches_vector_index(vectors).map_err(|error| error.to_string())
}

/// `VectorIndex::dimension`: the number of components of its vectors.
#[verifier::external_body]
fn dimension_of_vectors(index: &VectorIndex) -> (dimension: usize)
    ensures
        dimension == vector_dimension(*index),
{
    index.dimension()
}

/// `HnswIndex::dimension`: the number of components of the vectors that the graph
/// was built over.
#[verifier::external_body]
fn dimension_of_ann(index: &HnswIndex) -> (dimension: usize)
    ensures
        dimension == ann_dimension(*index),
{
    index.dimension()
}

/// Whether a graph and a vector index are about vectors of one dimension. A graph
/// for which they are not cannot match the vector index.
pub fn same_dimension(ann: &HnswIndex, vectors: &VectorIndex) -> (same: bool)
    ensures
        same == (ann_dimension(*ann) == vector_dimension(*vectors)),
{
    dimension_of_ann(ann) == dimension_of_vectors(vectors)
}

/// Whether the comparison of a graph with a vector index may give this answer.
pub closed spec fn may_answer(
    ann: HnswIndex,
    vectors: VectorIndex,
    answer: Result<bool, String>,
) -> bool {
    call_ensures(ann_matches, (&ann, &vectors), answer)
}

/// Puts a question to two indices; the answer is one that the question allows.
fn ask<F: Fn(&HnswIndex, &VectorIndex) -> Result<bool, String>>(
    question: F,
    ann: &HnswIndex,
    vectors: &VectorIndex,
) -> (answer: Result<bool, String>)
    requires
        call_requires(question, (ann, vectors)),
    ensures
        call_ensures(question, (ann, vectors), answer),
{
    question(ann, vectors)
}

/// Compares a graph with a vector index.
pub(crate) fn compare(ann: &HnswIndex, vectors: &VectorIndex) -> (answer: Result<bool, String>)
    ensures
        call_ensures(ann_matches, (ann, vectors), answer),
        may_answer(*ann, *vectors, answer),
        ann_dimension(*ann) != vector_dimension(*vectors) ==> answer is Ok && !answer->Ok_0,
{
    ask(ann_matches, ann, vectors)
}

/// `frankensearch_index::HNSW_DEFAULT_EF_SEARCH`, the beam width of a query that
/// asks for no other: 100.
#[verifier::external_body]
pub(crate) fn default_ef_search() -> (ef: usize)
    ensures
        ef == 100,
{
    frankensearch_index::HNSW_DEFAULT_EF_SEARCH
}

/// A vector index and the graph that was found to match it.
#[derive(Debug)]
pub struct SemanticIndexPair {
    pub vector_index: Arc<VectorIndex>,
    pub ann_index: Arc<HnswIndex>,
}

impl SemanticIndexPair {
    /// The vectors of the two halves have the same number of components.
    pub open spec fn of_one_dimension(self) -> bool {
        ann_dimension(*self.ann_index) == vector_dimension(*self.vector_index)
    }

    /// That the two match is an answer that their comparison may give.
    pub open spec fn found_to_match(self) -> bool {
        may_answer(*self.ann_index, *self.vector_index, Ok(true))
    }
}

/// `std::sync::Arc::clone`: another pointer to the same pair.
#[verifier::external_body]
pub(crate) fn share(pair: &Arc<SemanticIndexPair>) -> (shared: Arc<SemanticIndexPair>)
    ensures
        shared == *pair,
{
    Arc::clone(pair)
}

/// Whatever the comparison of a graph with a vector index may answer, the outside
/// comparison of these two answered: none is made up, whatever their dimension.
pub(crate) proof fn answers_come_from_the_outside_comparison(
    ann: &HnswIndex,
    vectors: &VectorIndex,
    answer: Result<bool, String>,
)
    requires
        may_answer(*ann, *vectors, answer),
    ensures
        call_ensures(ann_matches, (ann, vectors), answer),
{
}

/// A pair found to match is one of which the outside comparison said so.
pub(crate) proof fn matching_pairs_were_compared(pair: SemanticIndexPair)
    requires
        pair.found_to_match(),
    ensures
        call_ensures(ann_matches, (&*pair.ann_index, &*pair.vector_index), Ok(true)),
        ann_dimension(*pair.ann_index) == vector_dimension(*pair.vector_index),
{
}

/// A graph that is not of one dimension with a vector index is never found to match
/// it.
pub(crate) proof fn other_dimensions_never_match(
    ann: &HnswIndex,
    vectors: &VectorIndex,
    same: bool,
    answer: Result<bool, String>,
)
    requires
        call_ensures(same_dimension, (ann, vectors), same),
        call_ensures(ann_matches, (ann, vectors), answer),
    ensures
        !same ==> answer is Ok && !answer->Ok_0,
        same == (ann_dimension(*ann) == vector_dimension(*vectors)),
{
}

} // verus!
