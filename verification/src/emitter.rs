//! The range emitter: translates enter/exit/event callbacks into profiler
//! primitives.
//!
//! Three primitives exist: a range begin carrying a label (`push`), a range
//! end (`pop`), and an instant marker carrying a text (`mark`). The profiler
//! is fire-and-forget: no result of a primitive is consulted. The emitter
//! keeps a trace of every call it has issued, in order, which is also its
//! mathematical view; the adapter's contracts and tests are stated over that
//! trace.

use vstd::prelude::*;

use crate::registry::nul_free;

verus! {

/// One profiler primitive, as it appears in specifications: the label and
/// text are sequences of characters.
pub enum ProfOp {
    /// Begin a range labeled with the given string.
    RangePush(Seq<char>),
    /// End the most recently begun range on the calling thread.
    RangePop,
    /// An instant marker carrying the given text.
    Mark(Seq<char>),
}

/// One profiler primitive, as issued: the executable counterpart of
/// [`ProfOp`].
#[derive(Debug, Clone, PartialEq, Eq)]
pub enum ProfilerCall {
    /// Begin a range labeled with the given string.
    RangePush(String),
    /// End the most recently begun range on the calling thread.
    RangePop,
    /// An instant marker carrying the given text.
    Mark(String),
}

impl View for ProfilerCall {
    type V = ProfOp;

    open spec fn view(&self) -> ProfOp {
        match self {
            ProfilerCall::RangePush(label) => ProfOp::RangePush(label@),
            ProfilerCall::RangePop => ProfOp::RangePop,
            ProfilerCall::Mark(text) => ProfOp::Mark(text@),
        }
    }
}

/// Relies on `nvtx::__private::_range_push` (what the crate's `range_push!`
/// macro expands to): begins a profiler range labeled with the string. The
/// call builds a C string from the label and panics on an interior NUL
/// character, so NUL-free input is required; its numeric result (the nesting
/// level) is not consulted.
#[verifier::external_body]
fn nvtx_range_push(label: &str)
    requires
        nul_free(label@),
{
    nvtx::__private::_range_push(label);
}

/// Relies on `nvtx::__private::_range_pop` (what the crate's `range_pop!`
/// macro expands to): ends the most recently begun range on the calling
/// thread. Takes no arguments and cannot panic; its numeric result is not
/// consulted.
#[verifier::external_body]
fn nvtx_range_pop() {
    nvtx::__private::_range_pop();
}

/// Relies on `nvtx::__private::_mark` (what the crate's `mark!` macro
/// expands to): emits an instant profiler marker carrying the text. The call
/// builds a C string from the text and panics on an interior NUL character,
/// so NUL-free input is required.
#[verifier::external_body]
fn nvtx_mark(text: &str)
    requires
        nul_free(text@),
{
    nvtx::__private::_mark(text);
}

/// Issues profiler primitives and keeps the trace of everything issued.
pub struct RangeEmitter {
    calls: Vec<ProfilerCall>,
}

impl View for RangeEmitter {
    type V = Seq<ProfOp>;

    closed spec fn view(&self) -> Seq<ProfOp> {
        self.calls@.map_values(|c: ProfilerCall| c@)
    }
}

impl RangeEmitter {
    /// A fresh emitter with an empty trace.
    pub fn new() -> (e: Self)
        ensures
            e@ == Seq::<ProfOp>::empty(),
    {
        let e = RangeEmitter { calls: Vec::new() };
        proof {
            assert(e@ =~= Seq::<ProfOp>::empty());
        }
        e
    }

    /// Begins a profiler range labeled `label`.
    pub fn push(&mut self, label: &str)
        requires
            nul_free(label@),
        ensures
            final(self)@ == old(self)@.push(ProfOp::RangePush(label@)),
    {
        let ghost prior = self@;
        nvtx_range_push(label);
        self.calls.push(ProfilerCall::RangePush(label.to_owned()));
        proof {
            assert(self@ =~= prior.push(ProfOp::RangePush(label@)));
        }
    }

    /// Ends the most recently begun range on the calling thread.
    pub fn pop(&mut self)
        ensures
            final(self)@ == old(self)@.push(ProfOp::RangePop),
    {
        let ghost prior = self@;
        nvtx_range_pop();
        self.calls.push(ProfilerCall::RangePop);
        proof {
            assert(self@ =~= prior.push(ProfOp::RangePop));
        }
    }

    /// Emits an instant marker carrying `text`.
    pub fn mark(&mut self, text: &str)
        requires
            nul_free(text@),
        ensures
            final(self)@ == old(self)@.push(ProfOp::Mark(text@)),
    {
        let ghost prior = self@;
        nvtx_mark(text);
        self.calls.push(ProfilerCall::Mark(text.to_owned()));
        proof {
            assert(self@ =~= prior.push(ProfOp::Mark(text@)));
        }
    }

    /// The trace of every primitive issued so far, oldest first.
    pub fn calls(&self) -> (c: &Vec<ProfilerCall>)
        ensures
            c@.map_values(|x: ProfilerCall| x@) == self@,
    {
        &self.calls
    }
}

} // verus!
