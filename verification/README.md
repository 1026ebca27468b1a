# model_daemon

The decisions behind a search daemon that loads its models lazily, verified with
Verus.

- `src/` is the library. It says which embedder and reranker are in use, when a
  model has to be loaded and what stands in when that fails, which semantic index
  pairs are open, how wide an approximate search has to be, and how its hits are
  ranked. Where a file has to be read or a model to be run, a method answers with a
  step to take, and is called again with what came of it.
- `app/` takes those steps: it holds the locks, opens the index files, runs the
  models and converts scores between floating point and their bits.
- `tests/` run the library, with the indices of `frankensearch-index`.

Trusted are the calls into `frankensearch-index` and of `Arc::clone`, all in
`src/ann.rs`.
