//! Assembly of the module that exposes the operations to a guest.
//!
//! For each operation, in the order of registration, the assembler
//! synthesizes the calling signature in the code generator's vocabulary,
//! records it in the module, declares a function of that signature and
//! exports the function under the namespace prefix followed by the
//! operation's name. Every call starts from a fresh module: nothing is shared
//! between two assemblies.
use crate::abi::WordType;
use crate::ops::{
    all_operations, lemma_index_round_trip, lemma_names_distinct, registration_order,
    spec_param_words, spec_return_words, Operation, OPERATION_COUNT,
};
use crate::signature::{param_words, return_words};
use cranelift_codegen::ir::{Signature, Type};
use cranelift_codegen::isa::CallConv;
use vstd::prelude::*;
use vstd::string::*;
use wasmtime_environ::Module;

verus! {

/// A value type of the code generator, `cranelift_codegen::ir::Type`.
#[verifier::external_type_specification]
#[verifier::external_body]
pub struct ExType(Type);

/// A calling convention of the code generator,
/// `cranelift_codegen::isa::CallConv`.
#[verifier::external_type_specification]
#[verifier::external_body]
pub struct ExCallConv(CallConv);

/// A function signature of the code generator,
/// `cranelift_codegen::ir::Signature`.
#[verifier::external_type_specification]
#[verifier::external_body]
pub struct ExSignature(Signature);

/// A module definition, `wasmtime_environ::Module`.
#[verifier::external_type_specification]
#[verifier::external_body]
pub struct ExModule(Module);

/// What `cranelift_codegen::ir::Type::int` returns for a number of bits.
pub uninterp spec fn int_type_of(bits: u16) -> Option<Type>;

/// The value types of a signature's parameters, in order.
pub uninterp spec fn signature_params(sig: Signature) -> Seq<Type>;

/// The value types of a signature's results, in order.
pub uninterp spec fn signature_returns(sig: Signature) -> Seq<Type>;

/// The calling convention that a signature was made with.
pub uninterp spec fn signature_call_conv(sig: Signature) -> CallConv;

/// The signatures that a module holds, in the order of their indices.
pub uninterp spec fn module_signatures(module: Module) -> Seq<Signature>;

/// The functions that a module declares, in the order of their indices:
/// for each function the index of its signature.
pub uninterp spec fn module_functions(module: Module) -> Seq<int>;

/// The functions that a module exports: for each exported name the index of
/// the function.
pub uninterp spec fn module_exports(module: Module) -> Map<Seq<char>, int>;

/// `Type::int`: the integer type of the given width. There is one for the
/// widths 8, 16, 32, 64 and 128 and for no other.
#[verifier::external_body]
fn int_type(bits: u16) -> (r: Option<Type>)
    ensures
        r == int_type_of(bits),
        r.is_some() <==> (bits == 8 || bits == 16 || bits == 32 || bits == 64 || bits == 128),
{
    Type::int(bits)
}

/// `Signature::new`: a signature without parameters and results, of the
/// given calling convention.
#[verifier::external_body]
fn new_signature(call_conv: CallConv) -> (sig: Signature)
    ensures
        signature_params(sig) == Seq::<Type>::empty(),
        signature_returns(sig) == Seq::<Type>::empty(),
        signature_call_conv(sig) == call_conv,
{
    Signature::new(call_conv)
}

/// `AbiParam::new`, appended to the parameters of a signature: one more
/// ordinary parameter of the given type, after those that are there.
#[verifier::external_body]
fn push_param(sig: &mut Signature, ty: Type)
    ensures
        signature_params(*final(sig)) == signature_params(*old(sig)).push(ty),
        signature_returns(*final(sig)) == signature_returns(*old(sig)),
        signature_call_conv(*final(sig)) == signature_call_conv(*old(sig)),
{
    sig.params.push(cranelift_codegen::ir::AbiParam::new(ty));
}

/// `AbiParam::new`, appended to the results of a signature: one more
/// ordinary result of the given type, after those that are there.
#[verifier::external_body]
fn push_return(sig: &mut Signature, ty: Type)
    ensures
        signature_params(*final(sig)) == signature_params(*old(sig)),
        signature_returns(*final(sig)) == signature_returns(*old(sig)).push(ty),
        signature_call_conv(*final(sig)) == signature_call_conv(*old(sig)),
{
    sig.returns.push(cranelift_codegen::ir::AbiParam::new(ty));
}

/// `wasmtime_environ::translate_signature`: the signature with one parameter
/// more, of the pointer type, in front of the others. It carries the
/// instance's handle. Results and calling convention stay.
#[verifier::external_body]
fn with_instance_handle(sig: Signature, pointer_type: Type) -> (r: Signature)
    ensures
        signature_params(r) == seq![pointer_type] + signature_params(sig),
        signature_returns(r) == signature_returns(sig),
        signature_call_conv(r) == signature_call_conv(sig),
{
    wasmtime_environ::translate_signature(sig, pointer_type)
}

/// `Module::new`: a module that holds no signature, declares no function and
/// exports nothing.
#[verifier::external_body]
fn new_module() -> (fresh: Module)
    ensures
        module_signatures(fresh) == Seq::<Signature>::empty(),
        module_functions(fresh) == Seq::<int>::empty(),
        module_exports(fresh).dom() == Set::<Seq<char>>::empty(),
{
    Module::new()
}

/// `PrimaryMap::push` on the module's signatures: the signature is added
/// after those that are there, and its index, which is returned, is the
/// number of signatures that were there.
#[verifier::external_body]
fn push_signature(module: &mut Module, sig: Signature) -> (index: u32)
    requires
        module_signatures(*old(module)).len() < u32::MAX,
    ensures
        index == module_signatures(*old(module)).len(),
        module_signatures(*final(module)) == module_signatures(*old(module)).push(sig),
        module_functions(*final(module)) == module_functions(*old(module)),
        module_exports(*final(module)) == module_exports(*old(module)),
{
    module.signatures.push(sig).as_u32()
}

/// `PrimaryMap::push` on the module's functions: a function of the signature
/// with the given index is declared after those that are there, and its
/// index, which is returned, is the number of functions that were there.
#[verifier::external_body]
fn push_function(module: &mut Module, signature: u32) -> (index: u32)
    requires
        signature < u32::MAX,
        module_functions(*old(module)).len() < u32::MAX,
    ensures
        index == module_functions(*old(module)).len(),
        module_signatures(*final(module)) == module_signatures(*old(module)),
        module_functions(*final(module)) == module_functions(*old(module)).push(signature as int),
        module_exports(*final(module)) == module_exports(*old(module)),
{
    module.functions.push(cranelift_wasm::SignatureIndex::from_u32(signature)).as_u32()
}

/// `IndexMap::insert` on the module's exports: the name now stands for the
/// function with the given index, whatever it stood for before, and every
/// other name stands for what it stood for.
#[verifier::external_body]
fn insert_export(module: &mut Module, name: String, function: u32)
    requires
        function < u32::MAX,
    ensures
        module_signatures(*final(module)) == module_signatures(*old(module)),
        module_functions(*final(module)) == module_functions(*old(module)),
        module_exports(*final(module)) == module_exports(*old(module)).insert(
            name@,
            function as int,
        ),
{
    module.exports.insert(
        name,
        wasmtime_environ::Export::Function(cranelift_wasm::FuncIndex::from_u32(function)),
    );
}

/// A module that holds no signature, declares no function and exports
/// nothing: what an assembly starts from.
pub fn empty_module() -> (module: Module)
    ensures
        module_signatures(module) == Seq::<Signature>::empty(),
        module_functions(module) == Seq::<int>::empty(),
        module_exports(module) == Map::<Seq<char>, int>::empty(),
{
    let module = new_module();
    assert(module_exports(module) =~= Map::<Seq<char>, int>::empty());
    module
}

/// The code generator's type for a guest word: its integer type of the
/// word's width.
pub open spec fn spec_codegen_type(word: WordType) -> Type {
    int_type_of(word.bits() as u16).unwrap()
}

/// The code generator's types for a sequence of guest words, in order.
pub open spec fn spec_codegen_types(words: Seq<WordType>) -> Seq<Type> {
    words.map_values(|w: WordType| spec_codegen_type(w))
}

/// The code generator's type for a guest word.
pub fn codegen_type(word: WordType) -> (ty: Type)
    ensures
        ty == spec_codegen_type(word),
{
    int_type(word.bit_width()).unwrap()
}

/// Whether `sig` is the signature under which the code generator calls the
/// operation: a first parameter of the pointer's width for the instance's
/// handle, then one parameter for each parameter word of the operation, in
/// order; one result for each result word; and the given calling convention.
pub open spec fn is_signature_of(
    sig: Signature,
    op: Operation,
    pointer: WordType,
    call_conv: CallConv,
) -> bool {
    &&& signature_params(sig) == seq![spec_codegen_type(pointer)] + spec_codegen_types(
        spec_param_words(op),
    )
    &&& signature_returns(sig) == spec_codegen_types(spec_return_words(op))
    &&& signature_call_conv(sig) == call_conv
}

/// Synthesizes the signature under which the code generator calls the
/// operation, for a host whose pointers have the width of `pointer`.
pub fn synthesize_signature(op: Operation, pointer: WordType, call_conv: CallConv) -> (sig:
    Signature)
    ensures
        is_signature_of(sig, op, pointer, call_conv),
{
    let params: Vec<WordType> = param_words(op);
    let results: Vec<WordType> = return_words(op);
    let mut sig = new_signature(call_conv);
    let mut i: usize = 0;
    while i < params.len()
        invariant
            i <= params.len(),
            signature_params(sig) == spec_codegen_types(params@.take(i as int)),
            signature_returns(sig) == Seq::<Type>::empty(),
            signature_call_conv(sig) == call_conv,
        decreases params.len() - i,
    {
        push_param(&mut sig, codegen_type(params[i]));
        assert(spec_codegen_types(params@.take(i as int + 1)) =~= spec_codegen_types(
            params@.take(i as int),
        ).push(spec_codegen_type(params@[i as int])));
        i = i + 1;
    }
    assert(params@.take(params.len() as int) =~= params@);
    let mut j: usize = 0;
    while j < results.len()
        invariant
            j <= results.len(),
            signature_params(sig) == spec_codegen_types(params@),
            signature_returns(sig) == spec_codegen_types(results@.take(j as int)),
            signature_call_conv(sig) == call_conv,
        decreases results.len() - j,
    {
        push_return(&mut sig, codegen_type(results[j]));
        assert(spec_codegen_types(results@.take(j as int + 1)) =~= spec_codegen_types(
            results@.take(j as int),
        ).push(spec_codegen_type(results@[j as int])));
        j = j + 1;
    }
    assert(results@.take(results.len() as int) =~= results@);
    with_instance_handle(sig, codegen_type(pointer))
}

/// The name under which an operation is exported: the namespace prefix
/// followed by the operation's name.
pub open spec fn spec_export_name(prefix: Seq<char>, op: Operation) -> Seq<char> {
    prefix + op.spec_name()
}

/// The name under which an operation is exported.
pub fn export_name(prefix: &str, op: Operation) -> (name: String)
    ensures
        name@ == spec_export_name(prefix@, op),
{
    String::from_str(prefix).concat(op.name())
}

/// Registers one operation with a module: its signature is added to the
/// module's signatures, a function of that signature is declared, and the
/// function is exported under the prefix followed by the operation's name.
/// Returns the index of the function, which is the number of functions that
/// the module declared before.
pub fn register_operation(
    module: &mut Module,
    prefix: &str,
    op: Operation,
    pointer: WordType,
    call_conv: CallConv,
) -> (function: u32)
    requires
        module_signatures(*old(module)).len() < u32::MAX,
        module_functions(*old(module)).len() < u32::MAX,
    ensures
        function == module_functions(*old(module)).len(),
        module_signatures(*final(module)).len() == module_signatures(*old(module)).len() + 1,
        module_signatures(*final(module)).drop_last() == module_signatures(*old(module)),
        is_signature_of(module_signatures(*final(module)).last(), op, pointer, call_conv),
        module_functions(*final(module)) == module_functions(*old(module)).push(
            module_signatures(*old(module)).len() as int,
        ),
        module_exports(*final(module)) == module_exports(*old(module)).insert(
            spec_export_name(prefix@, op),
            function as int,
        ),
{
    let sig = synthesize_signature(op, pointer, call_conv);
    let signature = push_signature(module, sig);
    let function = push_function(module, signature);
    insert_export(module, export_name(prefix, op), function);
    assert(module_signatures(*module).drop_last() =~= module_signatures(*old(module)));
    function
}

/// The exports of a module that was assembled from the first `count`
/// operations of the order of registration: each operation's export name
/// stands for the operation's index. Where two operations have the same
/// export name, the name stands for the later one.
pub open spec fn spec_exports(prefix: Seq<char>, count: nat) -> Map<Seq<char>, int>
    decreases count,
{
    if count == 0 {
        Map::empty()
    } else {
        let last = (count - 1) as nat;
        spec_exports(prefix, last).insert(
            spec_export_name(prefix, registration_order()[last as int]),
            last as int,
        )
    }
}

/// Whether `module` holds exactly what the assembler registers for the first
/// `count` operations of the order of registration, in that order: for the
/// operation at index `i` the signature at index `i`, the function at index
/// `i` with that signature, and the export of that function.
pub open spec fn holds_operations(
    module: Module,
    prefix: Seq<char>,
    pointer: WordType,
    call_conv: CallConv,
    count: nat,
) -> bool {
    &&& module_signatures(module).len() == count
    &&& forall|i: int|
        0 <= i < count ==> is_signature_of(
            #[trigger] module_signatures(module)[i],
            registration_order()[i],
            pointer,
            call_conv,
        )
    &&& module_functions(module) == Seq::new(count, |i: int| i)
    &&& module_exports(module) == spec_exports(prefix, count)
}

/// Assembles the module that exposes every operation to a guest, for a host
/// whose pointers have the width of `pointer`. The module is new: it holds
/// what is registered here and nothing else. The function with index `i` is
/// the operation at index `i` of the order of registration.
pub fn assemble_module(prefix: &str, pointer: WordType, call_conv: CallConv) -> (module: Module)
    ensures
        holds_operations(module, prefix@, pointer, call_conv, OPERATION_COUNT as nat),
{
    let ops: Vec<Operation> = all_operations();
    let mut module = empty_module();
    assert(module_functions(module) =~= Seq::new(0, |i: int| i));
    let mut k: usize = 0;
    while k < ops.len()
        invariant
            k <= ops.len(),
            ops@ == registration_order(),
            ops.len() == OPERATION_COUNT,
            holds_operations(module, prefix@, pointer, call_conv, k as nat),
        decreases ops.len() - k,
    {
        let ghost before = module;
        register_operation(&mut module, prefix, ops[k], pointer, call_conv);
        proof {
            assert forall|i: int| 0 <= i < k + 1 implies is_signature_of(
                #[trigger] module_signatures(module)[i],
                registration_order()[i],
                pointer,
                call_conv,
            ) by {
                if i < k {
                    assert(module_signatures(module)[i] == module_signatures(before)[i]);
                }
            }
            assert(module_functions(module) =~= Seq::new((k + 1) as nat, |i: int| i));
        }
        k = k + 1;
    }
    module
}

/// Two operations are never exported under the same name, whatever the
/// prefix is.
pub proof fn lemma_export_names_distinct(prefix: Seq<char>, a: Operation, b: Operation)
    requires
        a != b,
    ensures
        spec_export_name(prefix, a) != spec_export_name(prefix, b),
{
    lemma_names_distinct(a, b);
    let na = spec_export_name(prefix, a);
    let nb = spec_export_name(prefix, b);
    assert(na.subrange(prefix.len() as int, na.len() as int) =~= a.spec_name());
    assert(nb.subrange(prefix.len() as int, nb.len() as int) =~= b.spec_name());
}

proof fn lemma_exports_up_to(prefix: Seq<char>, count: nat)
    requires
        count <= OPERATION_COUNT,
    ensures
        forall|i: int|
            0 <= i < count ==> {
                let name = #[trigger] spec_export_name(prefix, registration_order()[i]);
                &&& spec_exports(prefix, count).dom().contains(name)
                &&& spec_exports(prefix, count)[name] == i
            },
        forall|name: Seq<char>| #[trigger]
            spec_exports(prefix, count).dom().contains(name) ==> exists|i: int|
                0 <= i < count && name == spec_export_name(prefix, registration_order()[i]),
    decreases count,
{
    if count > 0 {
        let last = (count - 1) as nat;
        lemma_exports_up_to(prefix, last);
        let added = spec_export_name(prefix, registration_order()[last as int]);
        assert forall|i: int| 0 <= i < count implies {
            let name = #[trigger] spec_export_name(prefix, registration_order()[i]);
            &&& spec_exports(prefix, count).dom().contains(name)
            &&& spec_exports(prefix, count)[name] == i
        } by {
            if i < last {
                assert(registration_order()[i].spec_index() == i);
                assert(registration_order()[last as int].spec_index() == last);
                lemma_export_names_distinct(
                    prefix,
                    registration_order()[i],
                    registration_order()[last as int],
                );
            }
        }
        assert forall|name: Seq<char>| #[trigger]
            spec_exports(prefix, count).dom().contains(name) implies exists|i: int|
            0 <= i < count && name == spec_export_name(prefix, registration_order()[i]) by {
            if name == added {
                assert(name == spec_export_name(prefix, registration_order()[last as int]));
            } else {
                assert(spec_exports(prefix, last).dom().contains(name));
                let i = choose|i: int|
                    0 <= i < last && name == spec_export_name(prefix, registration_order()[i]);
                assert(0 <= i < count && name == spec_export_name(
                    prefix,
                    registration_order()[i],
                ));
            }
        }
    }
}

/// In an assembled module every operation has exactly one export: its export
/// name stands for the function whose index is the operation's index, and no
/// other name is exported.
pub proof fn lemma_every_operation_is_exported(prefix: Seq<char>)
    ensures
        forall|op: Operation|
            {
                let name = #[trigger] spec_export_name(prefix, op);
                &&& spec_exports(prefix, OPERATION_COUNT as nat).dom().contains(name)
                &&& spec_exports(prefix, OPERATION_COUNT as nat)[name] == op.spec_index()
            },
        forall|name: Seq<char>| #[trigger]
            spec_exports(prefix, OPERATION_COUNT as nat).dom().contains(name) ==> exists|
                op: Operation,
            |
                name == spec_export_name(prefix, op),
{
    lemma_exports_up_to(prefix, OPERATION_COUNT as nat);
    assert forall|op: Operation|
        {
            let name = #[trigger] spec_export_name(prefix, op);
            &&& spec_exports(prefix, OPERATION_COUNT as nat).dom().contains(name)
            &&& spec_exports(prefix, OPERATION_COUNT as nat)[name] == op.spec_index()
        } by {
        lemma_index_round_trip(op);
        assert(spec_export_name(prefix, op) == spec_export_name(
            prefix,
            registration_order()[op.spec_index()],
        ));
    }
    assert forall|name: Seq<char>| #[trigger]
        spec_exports(prefix, OPERATION_COUNT as nat).dom().contains(name) implies exists|
        op: Operation,
    |
        name == spec_export_name(prefix, op) by {
        let i = choose|i: int|
            0 <= i < OPERATION_COUNT && name == spec_export_name(prefix, registration_order()[i]);
        assert(name == spec_export_name(prefix, registration_order()[i]));
    }
}

} // verus!
