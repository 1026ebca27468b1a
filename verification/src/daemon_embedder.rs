//! An embedder whose work is done by a daemon.
//!
//! The embedder checks the input and numbers the requests; its caller hands each
//! request to the daemon and brings back the reply.

use vstd::prelude::*;

use crate::error::{EmbedderError, EmbedderErrorView};
use crate::text::decimal;

verus! {

/// How an embedder works.
#[derive(Clone, Copy, Debug, PartialEq, Eq, Structural)]
pub enum ModelCategory {
    HashEmbedder,
    StaticEmbedder,
    TransformerEmbedder,
}

/// Where an embedder stands between speed and quality.
#[derive(Clone, Copy, Debug, PartialEq, Eq, Structural)]
pub enum ModelTier {
    Fast,
    Quality,
}

/// The id that goes with the request of a given number.
pub open spec fn request_id_text(number: u64) -> Seq<char> {
    "daemon-embed-"@ + crate::text::decimal_digits(number as nat)
}

/// The number of the request after the one of a given number: numbers start
/// over once they are used up.
pub open spec fn next_number(number: u64) -> u64 {
    if number == u64::MAX {
        0
    } else {
        (number + 1) as u64
    }
}

/// The error for a text that is empty.
pub open spec fn empty_text(reason: Seq<char>) -> EmbedderErrorView {
    EmbedderErrorView::InvalidConfig { field: "input_text"@, value: "(empty)"@, reason }
}

/// What a [`DaemonMiniLmEmbedder`] holds: the daemon, and the number of the next
/// request.
pub struct DaemonState<D> {
    pub daemon: D,
    pub next_request: u64,
}

impl<D> DaemonState<D> {
    /// The state once a request was made.
    pub open spec fn requested(self) -> Self {
        DaemonState { next_request: next_number(self.next_request), ..self }
    }
}

/// A request to embed one text.
#[derive(Debug)]
pub struct DaemonCall<'a, D> {
    pub daemon: &'a D,
    pub text: &'a str,
    pub request_id: String,
}

/// A request to embed several texts.
#[derive(Debug)]
pub struct DaemonBatchCall<'a, D> {
    pub daemon: &'a D,
    pub texts: &'a [&'a str],
    pub request_id: String,
}

/// What to do with a batch of texts.
#[derive(Debug)]
pub enum BatchStep<'a, D> {
    /// Nothing: there are no texts, and so no embeddings.
    Nothing,
    /// Make this request, and answer with the reply.
    Call(DaemonBatchCall<'a, D>),
}

/// The MiniLM embedder that a daemon runs.
#[derive(Debug)]
pub struct DaemonMiniLmEmbedder<D> {
    daemon: D,
    request_counter: u64,
}

impl<D> View for DaemonMiniLmEmbedder<D> {
    type V = DaemonState<D>;

    closed spec fn view(&self) -> DaemonState<D> {
        DaemonState { daemon: self.daemon, next_request: self.request_counter }
    }
}

impl<D> DaemonMiniLmEmbedder<D> {
    /// An embedder that asks the given daemon; its requests are numbered from
    /// one.
    pub fn new(daemon: D) -> (embedder: Self)
        ensures
            embedder@ == (DaemonState { daemon, next_request: 1 }),
    {
        DaemonMiniLmEmbedder { daemon, request_counter: 1 }
    }

    /// The id of the next request.
    pub fn next_request_id(&mut self) -> (id: String)
        ensures
            id@ == request_id_text(old(self)@.next_request),
            final(self)@ == old(self)@.requested(),
    {
        let number: u64 = self.request_counter;
        self.request_counter = if number == u64::MAX {
            0
        } else {
            number + 1
        };
        let mut id = "daemon-embed-".to_owned();
        let digits = decimal(number);
        id.append(digits.as_str());
        id
    }

    /// Embeds a text: the request to make of the daemon. An empty text is
    /// refused, and then no request is made.
    pub fn embed_sync<'a>(&'a mut self, text: &'a str) -> (call: Result<
        DaemonCall<'a, D>,
        EmbedderError,
    >)
        ensures
            text@.len() == 0 ==> {
                &&& final(self)@ == old(self)@
                &&& call matches Err(error)
                &&& error@ == empty_text("empty text"@)
            },
            text@.len() > 0 ==> {
                &&& final(self)@ == old(self)@.requested()
                &&& call matches Ok(request)
                &&& *request.daemon == old(self)@.daemon
                &&& request.text@ == text@
                &&& request.request_id@ == request_id_text(old(self)@.next_request)
            },
    {
        if text.is_empty() {
            return Err(
                EmbedderError::InvalidConfig {
                    field: "input_text".to_owned(),
                    value: "(empty)".to_owned(),
                    reason: "empty text".to_owned(),
                },
            );
        }
        let request_id = self.next_request_id();
        Ok(DaemonCall { daemon: &self.daemon, text, request_id })
    }

    /// Embeds a batch of texts: the request to make of the daemon. A batch with
    /// an empty text is refused; for no texts, and for a refused batch, no
    /// request is made.
    pub fn embed_batch_sync<'a>(&'a mut self, texts: &'a [&'a str]) -> (step: Result<
        BatchStep<'a, D>,
        EmbedderError,
    >)
        ensures
            (exists|i: int| 0 <= i < texts@.len() && (#[trigger] texts@[i])@.len() == 0) ==> {
                &&& final(self)@ == old(self)@
                &&& step matches Err(error)
                &&& error@ == empty_text("empty text in batch"@)
            },
            texts@.len() == 0 ==> {
                &&& final(self)@ == old(self)@
                &&& step matches Ok(BatchStep::Nothing)
            },
            texts@.len() > 0 && (forall|i: int|
                0 <= i < texts@.len() ==> (#[trigger] texts@[i])@.len() > 0) ==> {
                &&& final(self)@ == old(self)@.requested()
                &&& step matches Ok(BatchStep::Call(request))
                &&& *request.daemon == old(self)@.daemon
                &&& request.texts@ == texts@
                &&& request.request_id@ == request_id_text(old(self)@.next_request)
            },
    {
        let mut i: usize = 0;
        while i < texts.len()
            invariant
                i <= texts.len(),
                self@ == old(self)@,
                forall|k: int| 0 <= k < i ==> (#[trigger] texts@[k])@.len() > 0,
            decreases texts.len() - i,
        {
            if texts[i].is_empty() {
                return Err(
                    EmbedderError::InvalidConfig {
                        field: "input_text".to_owned(),
                        value: "(empty)".to_owned(),
                        reason: "empty text in batch".to_owned(),
                    },
                );
            }
            i += 1;
        }
        if texts.len() == 0 {
            return Ok(BatchStep::Nothing);
        }
        let request_id = self.next_request_id();
        Ok(BatchStep::Call(DaemonBatchCall { daemon: &self.daemon, texts, request_id }))
    }

    /// What the reply of the daemon to a request comes to: its result as it is,
    /// and its error as a failure of this model.
    pub fn answer<T>(&self, reply: Result<T, String>) -> (answer: Result<T, EmbedderError>)
        ensures
            match reply {
                Ok(result) => answer == Ok::<T, EmbedderError>(result),
                Err(cause) => answer matches Err(error) && error@
                    == (EmbedderErrorView::EmbeddingFailed {
                    model: "minilm-384"@,
                    source: cause@,
                }),
            },
    {
        match reply {
            Ok(result) => Ok(result),
            Err(cause) => Err(
                EmbedderError::EmbeddingFailed { model: self.id().to_owned(), source: cause },
            ),
        }
    }

    /// The dimension of the embeddings.
    pub fn dimension(&self) -> (dimension: usize)
        ensures
            dimension == 384,
    {
        384
    }

    /// The id of the embedder.
    pub fn id(&self) -> (id: &str)
        ensures
            id@ == "minilm-384"@,
    {
        "minilm-384"
    }

    /// The name of the model.
    pub fn model_name(&self) -> (name: &str)
        ensures
            name@ == "all-minilm-l6-v2-daemon"@,
    {
        "all-minilm-l6-v2-daemon"
    }

    /// Whether the embeddings carry meaning.
    pub fn is_semantic(&self) -> (semantic: bool)
        ensures
            semantic,
    {
        true
    }

    /// How the embedder works.
    pub fn category(&self) -> (category: ModelCategory)
        ensures
            category == ModelCategory::TransformerEmbedder,
    {
        ModelCategory::TransformerEmbedder
    }

    /// Where the embedder stands between speed and quality.
    pub fn tier(&self) -> (tier: ModelTier)
        ensures
            tier == ModelTier::Quality,
    {
        ModelTier::Quality
    }
}

/// The number of the request made after `count` others, the first of which has
/// the number `first`.
pub open spec fn number_after(first: u64, count: nat) -> u64
    decreases count,
{
    if count == 0 {
        first
    } else {
        next_number(number_after(first, (count - 1) as nat))
    }
}

/// Requests of different numbers have different ids.
pub proof fn request_ids_identify_requests(a: u64, b: u64)
    requires
        request_id_text(a) == request_id_text(b),
    ensures
        a == b,
{
    let prefix = "daemon-embed-"@;
    let x = crate::text::decimal_digits(a as nat);
    let y = crate::text::decimal_digits(b as nat);
    assert((prefix + x).skip(prefix.len() as int) =~= x);
    assert((prefix + y).skip(prefix.len() as int) =~= y);
    crate::text::decimal_digits_are_injective(a as nat, b as nat);
}

/// No two of the requests of an embedder have the same id, unless so many were
/// made in between that the numbers started over.
pub proof fn request_ids_do_not_repeat(first: u64, i: nat, j: nat)
    requires
        i < j,
        j - i <= u64::MAX,
    ensures
        request_id_text(number_after(first, i)) != request_id_text(number_after(first, j)),
{
    if request_id_text(number_after(first, i)) == request_id_text(number_after(first, j)) {
        request_ids_identify_requests(number_after(first, i), number_after(first, j));
        number_after_counts(first, i);
        number_after_counts(first, j);
        let m: int = u64::MAX + 1;
        let p: int = (first + i) / m;
        let q: int = (first + j) / m;
        assert(first + i == m * p + number_after(first, i)) by {
            vstd::arithmetic::div_mod::lemma_fundamental_div_mod(first + i, m);
        }
        assert(first + j == m * q + number_after(first, j)) by {
            vstd::arithmetic::div_mod::lemma_fundamental_div_mod(first + j, m);
        }
        assert(j - i == m * (q - p)) by (nonlinear_arith)
            requires
                first + i == m * p + number_after(first, i),
                first + j == m * q + number_after(first, j),
                number_after(first, i) == number_after(first, j),
        ;
        assert(false) by (nonlinear_arith)
            requires
                0 < j - i < m,
                j - i == m * (q - p),
        ;
    }
}

proof fn number_after_counts(first: u64, count: nat)
    ensures
        number_after(first, count) == (first + count) % (u64::MAX + 1),
    decreases count,
{
    if count > 0 {
        number_after_counts(first, (count - 1) as nat);
    }
}

/// A new embedder begins with request number one, and asks the daemon it was made
/// with.
pub proof fn requests_are_numbered_from_one<'a, D>(
    daemon: D,
    embedder: &'a mut DaemonMiniLmEmbedder<D>,
    number: String,
    id: String,
)
    requires
        call_ensures(DaemonMiniLmEmbedder::<D>::new, (daemon,), *old(embedder)),
        call_ensures(decimal, (1,), number),
        call_ensures(DaemonMiniLmEmbedder::<D>::next_request_id, (embedder,), id),
    ensures
        id@ == "daemon-embed-"@ + number@,
        final(embedder)@.daemon == daemon,
        final(embedder)@.next_request == 2,
{
}

/// Each request id is made of a fixed text and the number of the request in decimal,
/// and the number behind it is the next one: one more, or zero behind the last.
pub proof fn request_ids_count_up<D>(
    embedder: &mut DaemonMiniLmEmbedder<D>,
    later: &mut DaemonMiniLmEmbedder<D>,
    number: String,
    next: String,
    id: String,
    next_id: String,
)
    requires
        call_ensures(decimal, (old(embedder)@.next_request,), number),
        call_ensures(DaemonMiniLmEmbedder::<D>::next_request_id, (embedder,), id),
        *old(later) == *final(embedder),
        call_ensures(decimal, (old(later)@.next_request,), next),
        call_ensures(DaemonMiniLmEmbedder::<D>::next_request_id, (later,), next_id),
    ensures
        id@ == "daemon-embed-"@ + number@,
        next_id@ == "daemon-embed-"@ + next@,
        old(embedder)@.next_request < u64::MAX ==> old(later)@.next_request == old(
            embedder,
        )@.next_request + 1,
        old(embedder)@.next_request == u64::MAX ==> old(later)@.next_request == 0,
        id@ != next_id@,
        final(later)@.daemon == old(embedder)@.daemon,
{
    if id@ == next_id@ {
        request_ids_identify_requests(old(embedder)@.next_request, old(later)@.next_request);
    }
}

/// A request for one text is refused if and only if the text is empty, and then
/// takes no number. Else it goes to the daemon with the text as it is, under the id
/// that was next, which is then used up.
pub proof fn embedding_makes_one_request<'a, D>(
    embedder: &'a mut DaemonMiniLmEmbedder<D>,
    text: &'a str,
    call: Result<DaemonCall<'a, D>, EmbedderError>,
    twin: &mut DaemonMiniLmEmbedder<D>,
    id: String,
)
    requires
        call_ensures(DaemonMiniLmEmbedder::<D>::embed_sync, (embedder, text), call),
        *old(twin) == *old(embedder),
        call_ensures(DaemonMiniLmEmbedder::<D>::next_request_id, (twin,), id),
    ensures
        call is Err <==> text@.len() == 0,
        call is Err ==> final(embedder)@ == old(embedder)@,
        call matches Err(error) ==> {
            &&& error matches EmbedderError::InvalidConfig { field, value, reason }
            &&& field@ == "input_text"@
            &&& value@ == "(empty)"@
            &&& reason@ == "empty text"@
        },
        call matches Ok(request) ==> {
            &&& *request.daemon == old(embedder)@.daemon
            &&& request.text@ == text@
            &&& request.request_id@ == id@
            &&& final(embedder)@ == final(twin)@
        },
{
}

/// A batch is refused if and only if one of its texts is empty, and takes no number
/// then, nor where it holds no text. Else it goes to the daemon as one request, with
/// the texts as they are, under the id that was next, which is then used up.
pub proof fn embedding_a_batch_makes_one_request<'a, D>(
    embedder: &'a mut DaemonMiniLmEmbedder<D>,
    texts: &'a [&'a str],
    step: Result<BatchStep<'a, D>, EmbedderError>,
    twin: &mut DaemonMiniLmEmbedder<D>,
    id: String,
)
    requires
        call_ensures(DaemonMiniLmEmbedder::<D>::embed_batch_sync, (embedder, texts), step),
        *old(twin) == *old(embedder),
        call_ensures(DaemonMiniLmEmbedder::<D>::next_request_id, (twin,), id),
    ensures
        step is Err <==> exists|i: int|
            0 <= i < texts@.len() && (#[trigger] texts@[i])@.len() == 0,
        step matches Err(error) ==> {
            &&& error matches EmbedderError::InvalidConfig { field, value, reason }
            &&& field@ == "input_text"@
            &&& value@ == "(empty)"@
            &&& reason@ == "empty text in batch"@
        },
        step matches Ok(BatchStep::Nothing) <==> texts@.len() == 0,
        step matches Ok(BatchStep::Call(request)) ==> {
            &&& *request.daemon == old(embedder)@.daemon
            &&& request.texts@ == texts@
            &&& request.request_id@ == id@
            &&& final(embedder)@ == final(twin)@
        },
        step matches Ok(BatchStep::Call(_)) || final(embedder)@ == old(embedder)@,
{
    if !(exists|i: int| 0 <= i < texts@.len() && (#[trigger] texts@[i])@.len() == 0) {
        assert(forall|i: int| 0 <= i < texts@.len() ==> (#[trigger] texts@[i])@.len() > 0);
    }
}

/// A reply is handed on as it is, and a failure with its cause, as one of the model
/// that goes by the embedder's id.
pub proof fn replies_are_handed_on<D, T>(
    embedder: &DaemonMiniLmEmbedder<D>,
    reply: Result<T, String>,
    answer: Result<T, EmbedderError>,
    id: &str,
)
    requires
        call_ensures(DaemonMiniLmEmbedder::<D>::answer::<T>, (embedder, reply), answer),
        call_ensures(DaemonMiniLmEmbedder::<D>::id, (embedder,), id),
    ensures
        match reply {
            Ok(result) => answer == Ok::<T, EmbedderError>(result),
            Err(cause) => answer matches Err(EmbedderError::EmbeddingFailed { model, source })
                && model@ == id@ && source@ == cause@,
        },
{
}

/// Every text and every batch of texts can be handed in, whatever the number of the
/// next request.
pub proof fn embedder_takes_every_text<'a, D, T>(
    embedder: &'a mut DaemonMiniLmEmbedder<D>,
    text: &'a str,
    texts: &'a [&'a str],
    reply: Result<T, String>,
)
    ensures
        call_requires(DaemonMiniLmEmbedder::<D>::next_request_id, (embedder,)),
        call_requires(DaemonMiniLmEmbedder::<D>::embed_sync, (embedder, text)),
        call_requires(DaemonMiniLmEmbedder::<D>::embed_batch_sync, (embedder, texts)),
        call_requires(DaemonMiniLmEmbedder::<D>::answer::<T>, (&*old(embedder), reply)),
{
}

} // verus!
