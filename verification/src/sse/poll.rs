//! What one poll of a server-sent-event stream yields, and what the
//! translators hand back for it.

use vstd::prelude::*;
use crate::common::{ApiError, ResponseEvent, SpecApiError, SpecResponseEvent, TokenUsage, outcome_view, outcomes_view};

verus! {

/// The outcome of waiting for the next server-sent event.
#[derive(Debug, Clone, PartialEq, Eq)]
pub enum SsePoll {
    /// An event arrived, with its event name and data.
    Event { event: String, data: String },
    /// The byte stream failed; the text describes the failure.
    StreamError(String),
    /// The stream ended.
    Closed,
    /// No event arrived within the idle timeout.
    IdleTimeout,
}

pub enum SpecSsePoll {
    Event { event: Seq<char>, data: Seq<char> },
    StreamError(Seq<char>),
    Closed,
    IdleTimeout,
}

impl View for SsePoll {
    type V = SpecSsePoll;

    open spec fn view(&self) -> SpecSsePoll {
        match self {
            SsePoll::Event { event, data } => SpecSsePoll::Event { event: event@, data: data@ },
            SsePoll::StreamError(m) => SpecSsePoll::StreamError(m@),
            SsePoll::Closed => SpecSsePoll::Closed,
            SsePoll::IdleTimeout => SpecSsePoll::IdleTimeout,
        }
    }
}

/// What to send downstream after one poll, and whether the stream is over.
#[derive(Debug, Clone, PartialEq, Eq)]
pub struct SseStep {
    pub outcomes: Vec<Result<ResponseEvent, ApiError>>,
    pub finished: bool,
}


/// One streamed outcome, as the contracts see it.
pub type SpecOutcome = Result<SpecResponseEvent, SpecApiError>;

/// The token usage reported on completion: the input and output counts, and
/// their sum (wrapping on overflow).
pub open spec fn usage_of(input_tokens: i64, output_tokens: i64) -> TokenUsage {
    TokenUsage {
        input_tokens,
        cached_input_tokens: 0,
        output_tokens,
        reasoning_output_tokens: 0,
        total_tokens: input_tokens.wrapping_add(output_tokens),
    }
}

/// The token usage reported on completion.
pub fn usage(input_tokens: i64, output_tokens: i64) -> (u: TokenUsage)
    ensures
        u == usage_of(input_tokens, output_tokens),
{
    TokenUsage {
        input_tokens,
        cached_input_tokens: 0,
        output_tokens,
        reasoning_output_tokens: 0,
        total_tokens: input_tokens.wrapping_add(output_tokens),
    }
}

/// No outcomes.
pub fn nothing() -> (v: Vec<Result<ResponseEvent, ApiError>>)
    ensures
        outcomes_view(v@) == Seq::<SpecOutcome>::empty(),
{
    let v = Vec::new();
    assert(outcomes_view(v@) =~= Seq::<SpecOutcome>::empty());
    v
}

/// A single outcome.
pub fn one(o: Result<ResponseEvent, ApiError>) -> (v: Vec<Result<ResponseEvent, ApiError>>)
    ensures
        outcomes_view(v@) == seq![outcome_view(o)],
{
    let ghost g = outcome_view(o);
    let v = vec![o];
    assert(outcomes_view(v@) =~= seq![g]);
    v
}

/// Two outcomes, in order.
pub fn two(a: Result<ResponseEvent, ApiError>, b: Result<ResponseEvent, ApiError>) -> (v: Vec<Result<ResponseEvent, ApiError>>)
    ensures
        outcomes_view(v@) == seq![outcome_view(a), outcome_view(b)],
{
    let ghost ga = outcome_view(a);
    let ghost gb = outcome_view(b);
    let v = vec![a, b];
    assert(outcomes_view(v@) =~= seq![ga, gb]);
    v
}

/// Appends `more` to `out`.
pub fn extend(out: &mut Vec<Result<ResponseEvent, ApiError>>, more: Vec<Result<ResponseEvent, ApiError>>)
    ensures
        outcomes_view(final(out)@) == outcomes_view(old(out)@) + outcomes_view(more@),
{
    let ghost a = out@;
    let ghost b = more@;
    let mut more = more;
    out.append(&mut more);
    assert(outcomes_view(out@) =~= outcomes_view(a) + outcomes_view(b));
}

} // verus!
