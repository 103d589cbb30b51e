//! The calling signature that a guest sees for each operation: the ordered
//! word types of its parameters and of its results.
use crate::abi::{NativeType, WordType};
use crate::ops::{spec_param_words, spec_return_words, Operation};
use vstd::prelude::*;

verus! {

/// The calling signature of an operation as the guest sees it.
#[derive(Clone, Debug, PartialEq, Eq)]
pub struct GuestSignature {
    /// Word types of the parameters, in order.
    pub params: Vec<WordType>,
    /// Word types of the results, in order.
    pub results: Vec<WordType>,
}

/// The word types of the operation's parameters: one word for each native
/// parameter, in the declared order.
pub fn param_words(op: Operation) -> (v: Vec<WordType>)
    ensures
        v@ == spec_param_words(op),
{
    let params: Vec<NativeType> = op.params();
    let mut v: Vec<WordType> = Vec::new();
    let mut i: usize = 0;
    while i < params.len()
        invariant
            i <= params.len(),
            params@ == op.spec_params(),
            v@.len() == i,
            forall|j: int| 0 <= j < i ==> v@[j] == params@[j].spec_word_type(),
        decreases params.len() - i,
    {
        v.push(params[i].word_type());
        i = i + 1;
    }
    assert(v@ =~= spec_param_words(op));
    v
}

/// The word types of the operation's results: none for an operation without
/// a result, one word otherwise.
pub fn return_words(op: Operation) -> (v: Vec<WordType>)
    ensures
        v@ == spec_return_words(op),
{
    op.result().word_types()
}

/// The calling signature of an operation as the guest sees it.
pub fn guest_signature(op: Operation) -> (sig: GuestSignature)
    ensures
        sig.params@ == spec_param_words(op),
        sig.results@ == spec_return_words(op),
{
    GuestSignature { params: param_words(op), results: return_words(op) }
}

/// A signature has one parameter word for each native parameter, and at most
/// one result word.
pub proof fn lemma_signature_shape(op: Operation)
    ensures
        spec_param_words(op).len() == op.spec_params().len(),
        forall|i: int|
            0 <= i < op.spec_params().len() ==> #[trigger] spec_param_words(op)[i]
                == op.spec_params()[i].spec_word_type(),
        spec_return_words(op).len() == (if op == Operation::ProcExit {
            0nat
        } else {
            1nat
        }),
        op != Operation::ProcExit ==> spec_return_words(op)[0] == WordType::I32,
{
}

} // verus!
