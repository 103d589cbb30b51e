//! The protocol of one call from the guest.
//!
//! A call arrives as an operation and a list of guest words. The bridge
//! decodes the words, decides whether the host implementation is to be
//! invoked and with what, and encodes what comes back. The invocation itself
//! is the caller's: `begin_call` says what to do, `finish_call` turns the
//! native result into the words that the guest receives.
use crate::abi::{
    decode, encode, native_from, native_types_of, spec_encode, word_types_of, NativeType,
    NativeValue, ReturnType, Word,
};
use crate::ops::{spec_param_words, spec_return_words, Operation};
use crate::resolve::{
    resolve_context, resolve_memory, Errno, HostState, InstanceView, MemoryRegion, ERRNO_INVAL,
    ERRNO_NOSYS, ERRNO_SUCCESS,
};
use vstd::prelude::*;

verus! {

/// The descriptor that conventionally stands for standard output.
pub const STDOUT_FD: u32 = 1;

/// The descriptor that conventionally stands for standard error.
pub const STDERR_FD: u32 = 2;

/// The native arguments that the words carry for the operation, if the words
/// have the word types of the operation's signature: each word decoded at
/// the native type of the parameter in its position.
pub open spec fn spec_decode_arguments(op: Operation, words: Seq<Word>) -> Option<
    Seq<NativeValue>,
> {
    if word_types_of(words) == spec_param_words(op) {
        Some(Seq::new(words.len(), |i: int| native_from(op.spec_params()[i], words[i].value())))
    } else {
        None
    }
}

/// Decodes the words of a call as the native arguments of the operation, in
/// order. Fails exactly when the words do not have the word types of the
/// operation's signature.
pub fn decode_arguments(op: Operation, words: &Vec<Word>) -> (r: Option<Vec<NativeValue>>)
    ensures
        r.is_some() == spec_decode_arguments(op, words@).is_some(),
        r matches Some(args) ==> Some(args@) == spec_decode_arguments(op, words@),
{
    let params: Vec<NativeType> = op.params();
    if words.len() != params.len() {
        assert(word_types_of(words@).len() != spec_param_words(op).len());
        return None;
    }
    let mut args: Vec<NativeValue> = Vec::new();
    let mut i: usize = 0;
    while i < words.len()
        invariant
            i <= words.len(),
            words.len() == params.len(),
            params@ == op.spec_params(),
            args@.len() == i,
            forall|j: int|
                0 <= j < i ==> words@[j].spec_word_type() == params@[j].spec_word_type(),
            forall|j: int| 0 <= j < i ==> args@[j] == native_from(params@[j], words@[j].value()),
        decreases words.len() - i,
    {
        match decode(params[i], words[i]) {
            Some(x) => {
                args.push(x);
            },
            None => {
                assert(word_types_of(words@)[i as int] != spec_param_words(op)[i as int]);
                return None;
            },
        }
        i = i + 1;
    }
    assert(word_types_of(words@) =~= spec_param_words(op));
    assert(args@ =~= spec_decode_arguments(op, words@).unwrap());
    Some(args)
}

/// What the host does with a write to standard error.
#[derive(Clone, Copy, Debug, PartialEq, Eq, Structural)]
pub enum StderrPolicy {
    /// The write goes to standard output.
    ToStdout,
    /// The write goes where the guest sent it.
    Keep,
}

impl Default for StderrPolicy {
    /// The policy of a host that is told nothing else: writes to standard
    /// error go to standard output.
    fn default() -> (policy: Self)
        ensures
            policy == StderrPolicy::ToStdout,
    {
        StderrPolicy::ToStdout
    }
}

/// Whether the call is a write to standard error that the policy sends to
/// standard output.
pub open spec fn spec_redirects(
    policy: StderrPolicy,
    op: Operation,
    args: Seq<NativeValue>,
) -> bool {
    &&& policy == StderrPolicy::ToStdout
    &&& op == Operation::FdWrite
    &&& args.len() > 0
    &&& args[0] == NativeValue::U32(STDERR_FD)
}

/// The arguments with which the operation is dispatched: those of the call,
/// but that a write to standard error goes to standard output where the
/// policy says so.
pub open spec fn spec_rewrite(
    policy: StderrPolicy,
    op: Operation,
    args: Seq<NativeValue>,
) -> Seq<NativeValue> {
    if spec_redirects(policy, op, args) {
        args.update(0, NativeValue::U32(STDOUT_FD))
    } else {
        args
    }
}

/// Rewrites the arguments of a call before dispatch: under the policy
/// `ToStdout` a write to standard error is sent to standard output; every
/// other call, and every call under the policy `Keep`, is left as it is. The
/// second result says whether the call was redirected.
pub fn rewrite_arguments(policy: StderrPolicy, op: Operation, args: Vec<NativeValue>) -> (r: (
    Vec<NativeValue>,
    bool,
))
    ensures
        r.0@ == spec_rewrite(policy, op, args@),
        r.1 == spec_redirects(policy, op, args@),
{
    let mut args = args;
    match policy {
        StderrPolicy::Keep => {
            return (args, false);
        },
        StderrPolicy::ToStdout => {},
    }
    match op {
        Operation::FdWrite => {
            if args.len() > 0 {
                match args[0] {
                    NativeValue::U32(fd) => {
                        if fd == STDERR_FD {
                            args.set(0, NativeValue::U32(STDOUT_FD));
                            return (args, true);
                        }
                    },
                    _ => {},
                }
            }
        },
        _ => {},
    }
    (args, false)
}

/// Why a call ends without an invocation.
#[derive(Clone, Copy, Debug, PartialEq, Eq, Structural)]
pub enum Reason {
    /// No host implementation is wired to the operation.
    NotSupported,
    /// The operation needs the capability context and the instance carries
    /// none.
    MissingContext,
    /// The operation needs the guest's memory and the instance exports none
    /// under the name `memory`.
    MissingMemory,
}

/// What is decided of a call before anything is invoked.
#[derive(Clone, Copy, Debug, PartialEq, Eq, Structural)]
pub enum Verdict {
    /// The call ends with this signal.
    Reject(Errno, Reason),
    /// The host implementation is invoked.
    Proceed,
}

/// The verdict on a call of `op` from an instance seen as `view`. An
/// operation that is not wired is not supported, whatever the instance has.
/// A wired operation that needs the capability context is rejected with
/// "invalid argument" when the instance carries none; failing that, one that
/// needs the guest's memory is rejected with the same signal when the
/// instance exports none. Every other call proceeds.
pub open spec fn spec_verdict(op: Operation, view: InstanceView) -> Verdict {
    if !op.spec_is_wired() {
        Verdict::Reject(ERRNO_NOSYS, Reason::NotSupported)
    } else if op.spec_needs_context() && !view.has_context() {
        Verdict::Reject(ERRNO_INVAL, Reason::MissingContext)
    } else if op.spec_needs_memory() && view.memory().is_none() {
        Verdict::Reject(ERRNO_INVAL, Reason::MissingMemory)
    } else {
        Verdict::Proceed
    }
}

/// Whether a call of `op` looks up the host state of its instance: a wired
/// operation that needs the capability context does, and no other.
pub open spec fn spec_reads_host_state(op: Operation) -> bool {
    op.spec_is_wired() && op.spec_needs_context()
}

/// Whether a call of `op` looks up the memory export of its instance: a
/// wired operation that needs the guest's memory does, unless it needs the
/// capability context too and the host state holds none. For an operation
/// that does not look up the host state, `host_state` may be anything.
pub open spec fn spec_reads_memory_export(op: Operation, host_state: HostState) -> bool {
    &&& op.spec_is_wired()
    &&& op.spec_needs_memory()
    &&& (op.spec_needs_context() ==> host_state == HostState::Capability)
}

/// Whether a call of `op` looks up the host state of its instance.
pub fn reads_host_state(op: Operation) -> (b: bool)
    ensures
        b == spec_reads_host_state(op),
{
    op.is_wired() && op.needs_context()
}

/// Whether a call of `op` looks up the memory export of its instance, given
/// the host state that was found.
pub fn reads_memory_export(op: Operation, host_state: HostState) -> (b: bool)
    ensures
        b == spec_reads_memory_export(op, host_state),
{
    if !op.is_wired() || !op.needs_memory() {
        return false;
    }
    if !op.needs_context() {
        return true;
    }
    match host_state {
        HostState::Capability => true,
        HostState::Foreign => false,
    }
}

/// An invocation of a host implementation, ready to be made.
#[derive(Clone, Debug, PartialEq, Eq)]
pub struct HostCall {
    /// The operation to invoke.
    pub op: Operation,
    /// The native arguments, in order.
    pub args: Vec<NativeValue>,
    /// Whether the implementation is handed the capability context.
    pub with_context: bool,
    /// The guest's memory as resolved for this call, if the implementation
    /// is handed it.
    pub memory: Option<MemoryRegion>,
    /// Whether the call was a write to standard error that now goes to
    /// standard output.
    pub redirected: bool,
}

/// What the caller of `begin_call` is to do next.
#[derive(Clone, Debug, PartialEq, Eq)]
pub enum Step {
    /// Return this signal to the guest; invoke nothing.
    Reject { signal: Errno, reason: Reason },
    /// Invoke the host implementation as described.
    Invoke(HostCall),
}

/// Whether `step` is what the protocol prescribes for a call of `op` with the
/// decoded arguments `args` from an instance seen as `view`, under the given
/// policy for writes to standard error.
pub open spec fn step_is_prescribed(
    step: Step,
    op: Operation,
    args: Seq<NativeValue>,
    view: InstanceView,
    policy: StderrPolicy,
) -> bool {
    match spec_verdict(op, view) {
        Verdict::Reject(signal, reason) => step == (Step::Reject { signal, reason }),
        Verdict::Proceed => {
            &&& step matches Step::Invoke(call)
            &&& call.op == op
            &&& call.args@ == spec_rewrite(policy, op, args)
            &&& call.redirected == spec_redirects(policy, op, args)
            &&& call.with_context == op.spec_needs_context()
            &&& call.memory == (if op.spec_needs_memory() {
                view.memory()
            } else {
                None
            })
        },
    }
}

/// Decides what becomes of a call of `op` with the guest words `words` from
/// an instance seen as `view`.
///
/// The result is `None` exactly when the words do not have the word types of
/// the operation's signature. Otherwise the step is the one that
/// `step_is_prescribed` describes: a rejection with "not supported" for an
/// operation that is not wired, a rejection with "invalid argument" for a
/// wired operation whose context or memory is missing (the context is looked
/// up first), and else the invocation with the decoded arguments, rewritten
/// as the policy says.
///
/// Of the view the call reads no more than `reads_host_state` and
/// `reads_memory_export` say: a part that is not read may hold anything.
pub fn begin_call(
    op: Operation,
    words: &Vec<Word>,
    view: &InstanceView,
    policy: StderrPolicy,
) -> (r: Option<Step>)
    ensures
        r.is_some() == spec_decode_arguments(op, words@).is_some(),
        r matches Some(step) ==> step_is_prescribed(
            step,
            op,
            spec_decode_arguments(op, words@).unwrap(),
            *view,
            policy,
        ),
{
    let args = match decode_arguments(op, words) {
        Some(args) => args,
        None => {
            return None;
        },
    };
    if !op.is_wired() {
        return Some(Step::Reject { signal: ERRNO_NOSYS, reason: Reason::NotSupported });
    }
    let (args, redirected) = rewrite_arguments(policy, op, args);
    let with_context = op.needs_context();
    if with_context {
        match resolve_context(view) {
            Ok(_) => {},
            Err(signal) => {
                return Some(Step::Reject { signal, reason: Reason::MissingContext });
            },
        }
    }
    let mut memory: Option<MemoryRegion> = None;
    if op.needs_memory() {
        match resolve_memory(view) {
            Ok(region) => {
                memory = Some(region);
            },
            Err(signal) => {
                return Some(Step::Reject { signal, reason: Reason::MissingMemory });
            },
        }
    }
    Some(Step::Invoke(HostCall { op, args, with_context, memory, redirected }))
}

/// What a host implementation hands back: nothing, or one scalar.
#[derive(Clone, Copy, Debug, PartialEq, Eq, Structural)]
pub enum NativeResult {
    /// Nothing.
    Unit,
    /// One scalar.
    Value(NativeValue),
}

impl NativeResult {
    /// The return type that this result is of.
    pub open spec fn spec_return_type(self) -> ReturnType {
        match self {
            NativeResult::Unit => ReturnType::Unit,
            NativeResult::Value(x) => ReturnType::Value(x.spec_native_type()),
        }
    }

    /// The return type that this result is of.
    pub fn return_type(self) -> (t: ReturnType)
        ensures
            t == self.spec_return_type(),
    {
        match self {
            NativeResult::Unit => ReturnType::Unit,
            NativeResult::Value(x) => ReturnType::Value(x.native_type()),
        }
    }

    /// The signal that the result reports, if it reports a failure: a result
    /// that is an error signal other than success.
    pub open spec fn spec_failure(self) -> Option<Errno> {
        match self {
            NativeResult::Value(NativeValue::U16(signal)) => if signal != ERRNO_SUCCESS {
                Some(signal)
            } else {
                None
            },
            _ => None,
        }
    }
}

/// The guest words that carry a native result: none for no result, the
/// encoded scalar otherwise.
pub open spec fn spec_encode_result(result: NativeResult) -> Seq<Word> {
    match result {
        NativeResult::Unit => Seq::<Word>::empty(),
        NativeResult::Value(x) => seq![spec_encode(x)],
    }
}

/// Encodes a native result as the guest words that carry it.
pub fn encode_result(result: NativeResult) -> (words: Vec<Word>)
    ensures
        words@ == spec_encode_result(result),
        word_types_of(words@) == result.spec_return_type().spec_word_types(),
{
    let mut words: Vec<Word> = Vec::new();
    match result {
        NativeResult::Unit => {},
        NativeResult::Value(x) => {
            words.push(encode(x));
        },
    }
    assert(word_types_of(words@) =~= result.spec_return_type().spec_word_types());
    words
}

/// The end of a call: the words that the guest receives, and the signal to
/// put on record if the call failed.
#[derive(Clone, Debug, PartialEq, Eq)]
pub struct Reply {
    /// The words that the guest receives.
    pub words: Vec<Word>,
    /// The signal of a failed call; `None` for a call that succeeded or has
    /// no result.
    pub failure: Option<Errno>,
}

/// Ends a call of `op` whose outcome is `result`: the result of the host
/// implementation, or the signal of a rejection. The result is `None`
/// exactly when `result` is not of the operation's result type. Otherwise
/// the guest receives the encoded result, unchanged whatever the signal is.
pub fn finish_call(op: Operation, result: NativeResult) -> (r: Option<Reply>)
    ensures
        r.is_some() == (result.spec_return_type() == op.spec_result()),
        r matches Some(reply) ==> {
            &&& reply.words@ == spec_encode_result(result)
            &&& word_types_of(reply.words@) == spec_return_words(op)
            &&& reply.failure == result.spec_failure()
        },
{
    if result.return_type() != op.result() {
        return None;
    }
    let failure = match result {
        NativeResult::Value(NativeValue::U16(signal)) => if signal != ERRNO_SUCCESS {
            Some(signal)
        } else {
            None
        },
        _ => None,
    };
    Some(Reply { words: encode_result(result), failure })
}

/// The reply to a call that was rejected with `signal`: the guest receives
/// the signal as one 32-bit word, as it would from a host implementation
/// that failed with it.
pub fn reject_reply(signal: Errno) -> (reply: Reply)
    ensures
        reply.words@ == seq![Word::W32(signal as i32)],
        reply.words@ == spec_encode_result(NativeResult::Value(NativeValue::U16(signal))),
        reply.failure == (if signal != ERRNO_SUCCESS {
            Some(signal)
        } else {
            None
        }),
{
    let words = encode_result(NativeResult::Value(NativeValue::U16(signal)));
    let failure = if signal != ERRNO_SUCCESS {
        Some(signal)
    } else {
        None
    };
    Reply { words, failure }
}

/// The signature that is synthesized for an operation is the one that the
/// protocol of a call goes by. The words of a call are decoded exactly when
/// their types are the parameter words of the signature, to as many native
/// arguments of the declared types; and the words that carry a result of the
/// operation's result type have the result words of the signature.
pub proof fn lemma_signature_matches_protocol(
    op: Operation,
    words: Seq<Word>,
    result: NativeResult,
)
    ensures
        spec_decode_arguments(op, words).is_some() <==> word_types_of(words) == spec_param_words(
            op,
        ),
        spec_decode_arguments(op, words) matches Some(args) ==> {
            &&& args.len() == spec_param_words(op).len()
            &&& native_types_of(args) == op.spec_params()
        },
        result.spec_return_type() == op.spec_result() ==> word_types_of(
            spec_encode_result(result),
        ) == spec_return_words(op),
{
    if spec_decode_arguments(op, words).is_some() {
        let args = spec_decode_arguments(op, words).unwrap();
        assert(word_types_of(words).len() == spec_param_words(op).len());
        assert(native_types_of(args) =~= op.spec_params());
    }
    if result.spec_return_type() == op.spec_result() {
        assert(word_types_of(spec_encode_result(result)) =~= spec_return_words(op));
    }
}

/// Under the policy `ToStdout`, a write to descriptor 2 is dispatched as a
/// write to descriptor 1 with every other argument as it came; a write to any
/// other descriptor, and a call of any other operation, is dispatched as it
/// came. Under the policy `Keep` every call is dispatched as it came.
pub proof fn lemma_stderr_goes_to_stdout(op: Operation, args: Seq<NativeValue>)
    ensures
        spec_rewrite(StderrPolicy::ToStdout, op, args).len() == args.len(),
        (op == Operation::FdWrite && args.len() > 0 && args[0] == NativeValue::U32(2))
            ==> spec_rewrite(StderrPolicy::ToStdout, op, args)[0] == NativeValue::U32(1),
        forall|i: int|
            0 < i < args.len() ==> spec_rewrite(StderrPolicy::ToStdout, op, args)[i] == args[i],
        !(op == Operation::FdWrite && args.len() > 0 && args[0] == NativeValue::U32(2))
            ==> spec_rewrite(StderrPolicy::ToStdout, op, args) == args,
        spec_rewrite(StderrPolicy::Keep, op, args) == args,
{
}

/// An operation that is not wired is rejected with "not supported" whatever
/// the instance has, and so whatever the arguments are: the verdict does not
/// look at them.
pub proof fn lemma_unwired_is_not_supported(op: Operation, view: InstanceView)
    requires
        !op.spec_is_wired(),
    ensures
        spec_verdict(op, view) == Verdict::Reject(ERRNO_NOSYS, Reason::NotSupported),
{
}

/// A call is rejected with one of two signals. Every operation that can be
/// rejected returns an error signal, so that a rejection always has a reply.
pub proof fn lemma_rejection_has_reply(op: Operation, view: InstanceView)
    ensures
        spec_verdict(op, view) matches Verdict::Reject(signal, _) ==> {
            &&& signal == ERRNO_NOSYS || signal == ERRNO_INVAL
            &&& op.spec_result() == ReturnType::Value(NativeType::U16)
        },
{
}

/// A call touches no more of its instance than it needs. Two views that
/// agree on what a call of `op` looks up lead to the same verdict and the
/// same step: an operation that is not wired, or needs neither context nor
/// memory, is decided whatever the instance has, and the memory of an
/// instance whose context is missing is never looked at.
pub proof fn lemma_call_reads_what_it_needs(
    op: Operation,
    a: InstanceView,
    b: InstanceView,
    step: Step,
    args: Seq<NativeValue>,
    policy: StderrPolicy,
)
    requires
        spec_reads_host_state(op) ==> a.host_state == b.host_state,
        spec_reads_memory_export(op, a.host_state) ==> a.memory_export == b.memory_export,
    ensures
        spec_verdict(op, a) == spec_verdict(op, b),
        step_is_prescribed(step, op, args, a, policy) == step_is_prescribed(
            step,
            op,
            args,
            b,
            policy,
        ),
{
}

/// The operations that do without the capability context are invoked on an
/// instance that carries none, as long as the instance has the memory that
/// they need.
pub proof fn lemma_context_is_not_asked_for(op: Operation, view: InstanceView)
    requires
        op == Operation::ClockResGet || op == Operation::ClockTimeGet || op
            == Operation::PollOneoff || op == Operation::RandomGet || op == Operation::SchedYield
            || op == Operation::ProcExit,
        op.spec_needs_memory() ==> view.memory().is_some(),
    ensures
        !spec_reads_host_state(op),
        spec_verdict(op, view) == Verdict::Proceed,
{
}

} // verus!
