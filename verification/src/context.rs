//! The steps by which the capability context of a new instance is built.
//!
//! The context is configured with the inherited standard streams, the
//! argument list and the environment list. Then, for each pre-opened
//! directory in the order given, the directory's handle is duplicated and
//! the duplicate registered under the directory's guest path. At last the
//! context is finalized. The first step that fails ends the assembly with a
//! resource error; no instance is made.
//!
//! Taking the steps is the caller's part. What step comes next, and what
//! error a failure becomes, is decided here.
use vstd::prelude::*;
use vstd::string::*;

verus! {

/// A failure to build an instance, for want of a resource.
#[derive(Clone, Debug, PartialEq, Eq)]
pub struct ResourceError {
    /// What went wrong.
    pub message: String,
}

/// One step of the assembly of a capability context.
#[derive(Clone, Copy, Debug, PartialEq, Eq, Structural)]
pub enum ContextStep {
    /// Start a context with the inherited standard streams, the argument
    /// list and the environment list.
    Configure,
    /// Duplicate the handle of the pre-opened directory with this index and
    /// register the duplicate under the directory's guest path.
    Preopen(usize),
    /// Finalize the context.
    Build,
    /// Nothing is left to do.
    Done,
}

/// The step at position `k` of an assembly with `pairs` pre-opened
/// directories: the configuration, then one step for each directory in the
/// order given, then the finalization.
pub open spec fn step_at(k: nat, pairs: nat) -> ContextStep {
    if k == 0 {
        ContextStep::Configure
    } else if k <= pairs {
        ContextStep::Preopen((k - 1) as usize)
    } else if k == pairs + 1 {
        ContextStep::Build
    } else {
        ContextStep::Done
    }
}

/// The step that follows `step` when `step` has succeeded.
pub open spec fn spec_next_step(step: ContextStep, pairs: nat) -> ContextStep {
    match step {
        ContextStep::Configure => if pairs > 0 {
            ContextStep::Preopen(0)
        } else {
            ContextStep::Build
        },
        ContextStep::Preopen(i) => if i + 1 < pairs {
            ContextStep::Preopen((i + 1) as usize)
        } else {
            ContextStep::Build
        },
        ContextStep::Build => ContextStep::Done,
        ContextStep::Done => ContextStep::Done,
    }
}

/// The text that opens the message of a failure to duplicate a directory's
/// handle.
pub open spec fn duplicate_failure_prefix() -> Seq<char> {
    "couldn't clone an instance handle to pre-opened dir: "@
}

/// The text that opens the message of any other failure of the assembly.
pub open spec fn assembly_failure_prefix() -> Seq<char> {
    "couldn't assemble WASI context object: "@
}

/// The message of the resource error that a failure of `step` becomes: it
/// says what could not be done, then gives the detail of the failure as it
/// came.
pub open spec fn spec_failure_message(step: ContextStep, detail: Seq<char>) -> Seq<char> {
    match step {
        ContextStep::Preopen(_) => duplicate_failure_prefix() + detail,
        _ => assembly_failure_prefix() + detail,
    }
}

/// The first step of an assembly.
pub fn first_step() -> (step: ContextStep)
    ensures
        step == ContextStep::Configure,
{
    ContextStep::Configure
}

/// The resource error that a failure of `step` becomes.
pub fn step_failure(step: ContextStep, detail: &str) -> (error: ResourceError)
    ensures
        error.message@ == spec_failure_message(step, detail@),
{
    let message = match step {
        ContextStep::Preopen(_) => String::from_str(
            "couldn't clone an instance handle to pre-opened dir: ",
        ).concat(detail),
        _ => String::from_str("couldn't assemble WASI context object: ").concat(detail),
    };
    ResourceError { message }
}

/// Decides what follows a step of an assembly with `pairs` pre-opened
/// directories. After a step that succeeded comes the next step. A step that
/// failed, with the detail given, ends the assembly with the resource error
/// for that step.
pub fn advance(step: ContextStep, pairs: usize, outcome: Result<(), String>) -> (r: Result<
    ContextStep,
    ResourceError,
>)
    ensures
        r.is_ok() == outcome.is_ok(),
        outcome.is_ok() ==> r == Ok::<ContextStep, ResourceError>(
            spec_next_step(step, pairs as nat),
        ),
        outcome matches Err(detail) ==> r.unwrap_err().message@ == spec_failure_message(
            step,
            detail@,
        ),
{
    match outcome {
        Ok(_) => {
            let next = match step {
                ContextStep::Configure => if pairs > 0 {
                    ContextStep::Preopen(0)
                } else {
                    ContextStep::Build
                },
                ContextStep::Preopen(i) => if i < pairs && i + 1 < pairs {
                    ContextStep::Preopen(i + 1)
                } else {
                    ContextStep::Build
                },
                ContextStep::Build => ContextStep::Done,
                ContextStep::Done => ContextStep::Done,
            };
            Ok(next)
        },
        Err(detail) => Err(step_failure(step, detail.as_str())),
    }
}

/// An assembly in which every step succeeds takes its steps in order: the
/// configuration, one step for each pre-opened directory in the order given,
/// the finalization, and then nothing more. Each directory gets its own
/// step, whatever its guest path is: two directories with one path are
/// duplicated one after the other, each once.
pub proof fn lemma_steps_in_order(k: nat, pairs: nat)
    requires
        pairs <= usize::MAX,
    ensures
        spec_next_step(step_at(k, pairs), pairs) == step_at(k + 1, pairs),
        forall|i: nat| i < pairs ==> #[trigger] step_at(i + 1, pairs) == ContextStep::Preopen(
            i as usize,
        ),
        step_at(pairs + 1, pairs) == ContextStep::Build,
        step_at(pairs + 2, pairs) == ContextStep::Done,
{
}

} // verus!
