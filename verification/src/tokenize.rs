//! Conversion of text to token ids: what the engine is told, and what is
//! made of its answer.
//!
//! The engine fills as many slots of the destination buffer as it produces
//! ids and leaves the others as they were. The buffer starts out as zeros, so
//! what comes back may end in zeros that are padding; they are not trimmed
//! here. Where the buffer has fewer slots than the text has ids, the ids that
//! do not fit are lost without a signal: see `CapacityPolicy`.

use rayon::iter::{IntoParallelIterator, ParallelIterator};
use vstd::prelude::*;
use vstd::string::StringSliceAdditionalSpecFns;
use vstd::utf8::encode_utf8;
use crate::capacity::{CapacityPolicy, DEFAULT_CEILING};
use crate::marshal::{
    no_nul, nul_terminated, saturate, saturated, to_native_bytes, NATIVE_INT_MAX,
};
use crate::model::{Model, ModelWrapper};

verus! {

/// The last argument of the engine's conversion function. It is passed on as
/// it is; what it selects is the engine's business.
pub const ALGORITHM_SELECTOR: i32 = 3;

/// A conversion that is ready to be made. The fields are the arguments of the
/// engine's conversion function, in its order: the model, the text and its
/// length in bytes, the buffer that receives the ids and its number of
/// slots, and the selector.
///
/// The call borrows the model's handle, so the handle cannot be released
/// while the call exists.
#[derive(Debug)]
pub struct ConvertCall<'a> {
    pub model: &'a ModelWrapper,
    pub text: Vec<u8>,
    pub text_len: i32,
    pub destination: Vec<i32>,
    pub capacity: i32,
    pub selector: i32,
}

/// The arguments of a conversion as plain mathematical values.
pub struct ConvertArgs {
    pub model: Model,
    pub text: Seq<u8>,
    pub text_len: int,
    pub destination: Seq<i32>,
    pub capacity: int,
    pub selector: int,
}

impl<'a> View for ConvertCall<'a> {
    type V = ConvertArgs;

    open spec fn view(&self) -> ConvertArgs {
        ConvertArgs {
            model: self.model@,
            text: self.text@,
            text_len: self.text_len as int,
            destination: self.destination@,
            capacity: self.capacity as int,
            selector: self.selector as int,
        }
    }
}

/// A buffer of `slots` slots in which nothing has been written yet.
pub open spec fn blank(slots: nat) -> Seq<i32> {
    Seq::new(slots, |i: int| 0i32)
}

/// The arguments with which text of the given bytes is converted by the
/// given model under the given policy.
pub open spec fn convert_args(model: Model, bytes: Seq<u8>, policy: CapacityPolicy) -> ConvertArgs {
    ConvertArgs {
        model,
        text: nul_terminated(bytes),
        text_len: saturated(bytes.len()),
        destination: blank(policy.slots(bytes.len())),
        capacity: saturated(policy.slots(bytes.len())),
        selector: ALGORITHM_SELECTOR as int,
    }
}

/// What has to happen to convert a text.
#[derive(Debug)]
pub enum Tokenization<'a> {
    /// The text is empty and so is its list of ids. The engine is not
    /// called.
    Empty,
    /// The engine has to be called with these arguments; what it leaves in
    /// `destination` is the result.
    Call(ConvertCall<'a>),
}

/// A `Tokenization` as plain mathematical values.
pub enum TokenizationView {
    Empty,
    Call(ConvertArgs),
}

impl<'a> View for Tokenization<'a> {
    type V = TokenizationView;

    open spec fn view(&self) -> TokenizationView {
        match self {
            Tokenization::Empty => TokenizationView::Empty,
            Tokenization::Call(call) => TokenizationView::Call(call@),
        }
    }
}

impl TokenizationView {
    /// The ids that the conversion yields, given what the destination
    /// buffer holds now.
    pub open spec fn ids(self) -> Seq<i32> {
        match self {
            TokenizationView::Empty => Seq::empty(),
            TokenizationView::Call(args) => args.destination,
        }
    }
}

/// What has to happen to convert text of the given bytes.
pub open spec fn tokenization(model: Model, bytes: Seq<u8>, policy: CapacityPolicy) -> TokenizationView {
    if bytes.len() == 0 {
        TokenizationView::Empty
    } else {
        TokenizationView::Call(convert_args(model, bytes, policy))
    }
}

/// The engine is called for every text but the empty one, whose ids are
/// known without it: there are none.
pub proof fn lemma_empty_text_needs_no_call(model: Model, bytes: Seq<u8>, policy: CapacityPolicy)
    ensures
        tokenization(model, bytes, policy) is Empty <==> bytes.len() == 0,
        bytes.len() == 0 ==> tokenization(model, bytes, policy).ids() == Seq::<i32>::empty(),
{
}

/// What the engine is told is within its own limits, whatever the text:
/// neither the length nor the capacity is negative or above the native
/// maximum, the capacity is no more than the buffer really has and no more
/// than the length, and the text is read up to the first NUL at most.
pub proof fn lemma_convert_args_in_bounds(model: Model, bytes: Seq<u8>, policy: CapacityPolicy)
    requires
        no_nul(bytes),
    ensures
        ({
            let args = convert_args(model, bytes, policy);
            &&& 0 <= args.capacity <= args.text_len <= NATIVE_INT_MAX
            &&& args.capacity <= args.destination.len() <= bytes.len()
            &&& args.text_len <= bytes.len()
            &&& args.text.len() == bytes.len() + 1
            &&& args.text[bytes.len() as int] == 0u8
            &&& forall|i: int| 0 <= i < bytes.len() ==> args.text[i] == bytes[i] && args.text[i] != 0u8
        }),
{
}

/// Under a policy that covers the text, the buffer has a slot for every
/// byte, so an engine that produces at most one id per byte loses none; the
/// engine is then told as many slots as bytes.
pub proof fn lemma_covered_text_gets_slot_per_byte(
    model: Model,
    bytes: Seq<u8>,
    policy: CapacityPolicy,
)
    requires
        policy.covers(bytes.len()),
    ensures
        convert_args(model, bytes, policy).destination.len() == bytes.len(),
        convert_args(model, bytes, policy).capacity == convert_args(model, bytes, policy).text_len,
{
}

impl<'a> Tokenization<'a> {
    /// Ends the conversion and hands out its ids: none for an empty text,
    /// otherwise the whole destination buffer as the engine left it, padding
    /// included.
    pub fn complete(self) -> (ids: Vec<i32>)
        ensures
            ids@ == self@.ids(),
            self is Empty ==> ids@.len() == 0,
    {
        match self {
            Tokenization::Empty => Vec::new(),
            Tokenization::Call(call) => call.destination,
        }
    }
}

/// Prepares the conversion of `source` with a buffer sized by `policy`.
///
/// A text with a NUL byte in it cannot be told to the engine; callers rule
/// it out with `is_native_text`.
pub fn text_to_ids_with<'a>(
    model_wrapper: &'a ModelWrapper,
    source: &str,
    policy: CapacityPolicy,
) -> (step: Tokenization<'a>)
    requires
        no_nul(source.spec_bytes()),
    ensures
        step@ == tokenization(model_wrapper@, source.spec_bytes(), policy),
        step is Empty <==> source.spec_bytes().len() == 0,
{
    let byte_len = source.as_bytes().len();
    if byte_len == 0 {
        return Tokenization::Empty;
    }
    let slots = policy.capacity(byte_len);
    let destination = vec![0i32; slots];
    assert(destination@ =~= blank(slots as nat));
    let call = ConvertCall {
        model: model_wrapper,
        text: to_native_bytes(source),
        text_len: saturate(byte_len),
        destination,
        capacity: saturate(slots),
        selector: ALGORITHM_SELECTOR,
    };
    Tokenization::Call(call)
}

/// Prepares the conversion of `source` under the default policy.
pub fn text_to_ids<'a>(model_wrapper: &'a ModelWrapper, source: &str) -> (step: Tokenization<'a>)
    requires
        no_nul(source.spec_bytes()),
    ensures
        step@ == tokenization(
            model_wrapper@,
            source.spec_bytes(),
            CapacityPolicy::Ceiling(DEFAULT_CEILING),
        ),
        step is Empty <==> source.spec_bytes().len() == 0,
{
    text_to_ids_with(model_wrapper, source, CapacityPolicy::default())
}

/// Whether every text of a batch can be told to the engine.
pub open spec fn all_native(sources: Seq<String>) -> bool {
    forall|i: int| 0 <= i < sources.len() ==> no_nul(encode_utf8(#[trigger] sources[i]@))
}

/// Whether `steps` holds, in the order of the texts, what has to happen to
/// convert each text of `sources`: for each the same as if it had been
/// prepared alone.
pub open spec fn tokenizations(
    steps: Seq<Tokenization<'_>>,
    model: Model,
    sources: Seq<String>,
    policy: CapacityPolicy,
) -> bool {
    &&& steps.len() == sources.len()
    &&& forall|i: int|
        0 <= i < sources.len() ==> (#[trigger] steps[i])@ == tokenization(
            model,
            encode_utf8(sources[i]@),
            policy,
        )
}

/// No text of a batch bears on what is prepared for another: wherever the
/// same text stands, in the same batch or in another, the same is prepared
/// for it.
pub proof fn lemma_batch_entries_independent(
    steps_a: Seq<Tokenization<'_>>,
    sources_a: Seq<String>,
    i: int,
    steps_b: Seq<Tokenization<'_>>,
    sources_b: Seq<String>,
    j: int,
    model: Model,
    policy: CapacityPolicy,
)
    requires
        tokenizations(steps_a, model, sources_a, policy),
        tokenizations(steps_b, model, sources_b, policy),
        0 <= i < sources_a.len(),
        0 <= j < sources_b.len(),
        sources_a[i]@ == sources_b[j]@,
    ensures
        steps_a[i]@ == steps_b[j]@,
{
}

/// Runs `text_to_ids_with` on every text of `sources` through `rayon`:
/// `into_par_iter` on the vector, `map`, and `collect` into a vector.
///
/// Trusted: that the vector which `rayon` collects has one entry for each
/// text, in the order of the texts, and that each entry is what the mapped
/// function returned for that text. `rayon` documents that collecting a
/// parallel iterator over a vector gives the vector that a sequential
/// iterator would give; the mapped function is verified, and what it
/// returns is stated here as its own contract states it. The work runs on
/// the thread pool that is current when this is called.
#[verifier::external_body]
fn par_text_to_ids_with<'a>(
    model_wrapper: &'a ModelWrapper,
    sources: Vec<String>,
    policy: CapacityPolicy,
) -> (steps: Vec<Tokenization<'a>>)
    requires
        all_native(sources@),
    ensures
        tokenizations(steps@, model_wrapper@, sources@, policy),
{
    sources.into_par_iter().map(|source| text_to_ids_with(model_wrapper, &source, policy)).collect()
}

/// Prepares the conversion of every text of `sources`, in parallel, with
/// buffers sized by `policy`. The entries come in the order of the texts, and
/// each is what `text_to_ids_with` prepares for its text alone.
pub fn texts_to_ids_with<'a>(
    model_wrapper: &'a ModelWrapper,
    sources: Vec<String>,
    policy: CapacityPolicy,
) -> (steps: Vec<Tokenization<'a>>)
    requires
        all_native(sources@),
    ensures
        tokenizations(steps@, model_wrapper@, sources@, policy),
{
    par_text_to_ids_with(model_wrapper, sources, policy)
}

/// Prepares the conversion of every text of `sources`, in parallel, under
/// the default policy.
pub fn texts_to_ids<'a>(model_wrapper: &'a ModelWrapper, sources: Vec<String>) -> (steps: Vec<
    Tokenization<'a>,
>)
    requires
        all_native(sources@),
    ensures
        tokenizations(steps@, model_wrapper@, sources@, CapacityPolicy::Ceiling(DEFAULT_CEILING)),
{
    texts_to_ids_with(model_wrapper, sources, CapacityPolicy::default())
}

} // verus!
