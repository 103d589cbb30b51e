//! Conversion between native scalar values and guest words.
//!
//! A guest passes and receives nothing but 32-bit and 64-bit integer words.
//! Every native scalar that crosses the boundary is carried by exactly one
//! word: scalars of at most 32 bits by a 32-bit word, 64-bit scalars by a
//! 64-bit word. The conversion keeps the low bits of the value and never
//! fails.
use vstd::prelude::*;

verus! {

/// Two to the power 8.
pub open spec fn pow8() -> int {
    0x100
}

/// Two to the power 16.
pub open spec fn pow16() -> int {
    0x1_0000
}

/// Two to the power 32.
pub open spec fn pow32() -> int {
    0x1_0000_0000
}

/// Two to the power 64.
pub open spec fn pow64() -> int {
    0x1_0000_0000_0000_0000
}

/// The representative of `n` modulo `modulus` that lies in
/// `[0, modulus)`: what an unsigned integer of that width holds.
pub open spec fn unsigned_wrap(n: int, modulus: int) -> int {
    n % modulus
}

/// The representative of `n` modulo `modulus` that lies in
/// `[-modulus / 2, modulus / 2)`: what a signed integer of that width holds.
pub open spec fn signed_wrap(n: int, modulus: int) -> int {
    let m = n % modulus;
    if 2 * m >= modulus {
        m - modulus
    } else {
        m
    }
}

/// The type of one guest word.
#[derive(Clone, Copy, Debug, PartialEq, Eq, Structural)]
pub enum WordType {
    /// A 32-bit integer word.
    I32,
    /// A 64-bit integer word.
    I64,
}

impl WordType {
    /// Number of bits in a word of this type.
    pub open spec fn bits(self) -> int {
        match self {
            WordType::I32 => 32,
            WordType::I64 => 64,
        }
    }

    /// Number of bits in a word of this type.
    pub fn bit_width(self) -> (n: u16)
        ensures
            n == self.bits(),
    {
        match self {
            WordType::I32 => 32,
            WordType::I64 => 64,
        }
    }
}

/// One guest word together with its type.
#[derive(Clone, Copy, Debug, PartialEq, Eq, Structural)]
pub enum Word {
    /// A 32-bit word.
    W32(i32),
    /// A 64-bit word.
    W64(i64),
}

impl Word {
    /// The type of this word.
    pub open spec fn spec_word_type(self) -> WordType {
        match self {
            Word::W32(_) => WordType::I32,
            Word::W64(_) => WordType::I64,
        }
    }

    /// The integer that this word holds.
    pub open spec fn value(self) -> int {
        match self {
            Word::W32(w) => w as int,
            Word::W64(w) => w as int,
        }
    }

    /// The type of this word.
    pub fn word_type(self) -> (t: WordType)
        ensures
            t == self.spec_word_type(),
    {
        match self {
            Word::W32(_) => WordType::I32,
            Word::W64(_) => WordType::I64,
        }
    }
}

/// The word types of a sequence of words, in order.
pub open spec fn word_types_of(words: Seq<Word>) -> Seq<WordType> {
    words.map_values(|w: Word| w.spec_word_type())
}

/// The native scalar types that can cross the boundary.
#[derive(Clone, Copy, Debug, PartialEq, Eq, Structural)]
pub enum NativeType {
    I8,
    I16,
    I32,
    U8,
    U16,
    U32,
    I64,
    U64,
}

impl NativeType {
    /// The type of the guest word that carries a value of this native type:
    /// a 32-bit word for every type of at most 32 bits, a 64-bit word for
    /// the 64-bit types.
    pub open spec fn spec_word_type(self) -> WordType {
        match self {
            NativeType::I64 | NativeType::U64 => WordType::I64,
            _ => WordType::I32,
        }
    }

    /// The type of the guest word that carries a value of this native type.
    pub fn word_type(self) -> (t: WordType)
        ensures
            t == self.spec_word_type(),
    {
        match self {
            NativeType::I64 | NativeType::U64 => WordType::I64,
            _ => WordType::I32,
        }
    }
}

/// A native scalar value together with its type.
#[derive(Clone, Copy, Debug, PartialEq, Eq, Structural)]
pub enum NativeValue {
    I8(i8),
    I16(i16),
    I32(i32),
    U8(u8),
    U16(u16),
    U32(u32),
    I64(i64),
    U64(u64),
}

impl NativeValue {
    /// The native type of this value.
    pub open spec fn spec_native_type(self) -> NativeType {
        match self {
            NativeValue::I8(_) => NativeType::I8,
            NativeValue::I16(_) => NativeType::I16,
            NativeValue::I32(_) => NativeType::I32,
            NativeValue::U8(_) => NativeType::U8,
            NativeValue::U16(_) => NativeType::U16,
            NativeValue::U32(_) => NativeType::U32,
            NativeValue::I64(_) => NativeType::I64,
            NativeValue::U64(_) => NativeType::U64,
        }
    }

    /// The integer that this value holds.
    pub open spec fn value(self) -> int {
        match self {
            NativeValue::I8(x) => x as int,
            NativeValue::I16(x) => x as int,
            NativeValue::I32(x) => x as int,
            NativeValue::U8(x) => x as int,
            NativeValue::U16(x) => x as int,
            NativeValue::U32(x) => x as int,
            NativeValue::I64(x) => x as int,
            NativeValue::U64(x) => x as int,
        }
    }

    /// The native type of this value.
    pub fn native_type(self) -> (t: NativeType)
        ensures
            t == self.spec_native_type(),
    {
        match self {
            NativeValue::I8(_) => NativeType::I8,
            NativeValue::I16(_) => NativeType::I16,
            NativeValue::I32(_) => NativeType::I32,
            NativeValue::U8(_) => NativeType::U8,
            NativeValue::U16(_) => NativeType::U16,
            NativeValue::U32(_) => NativeType::U32,
            NativeValue::I64(_) => NativeType::I64,
            NativeValue::U64(_) => NativeType::U64,
        }
    }
}

/// The native types of a sequence of values, in order.
pub open spec fn native_types_of(values: Seq<NativeValue>) -> Seq<NativeType> {
    values.map_values(|v: NativeValue| v.spec_native_type())
}

/// What a native result is made of: nothing, or one scalar.
#[derive(Clone, Copy, Debug, PartialEq, Eq, Structural)]
pub enum ReturnType {
    /// The operation returns nothing.
    Unit,
    /// The operation returns one scalar of the given type.
    Value(NativeType),
}

impl ReturnType {
    /// The guest words that carry a result of this type: none for the unit
    /// result, one word for a scalar.
    pub open spec fn spec_word_types(self) -> Seq<WordType> {
        match self {
            ReturnType::Unit => Seq::<WordType>::empty(),
            ReturnType::Value(t) => seq![t.spec_word_type()],
        }
    }

    /// The guest words that carry a result of this type.
    pub fn word_types(self) -> (v: Vec<WordType>)
        ensures
            v@ == self.spec_word_types(),
    {
        let mut v: Vec<WordType> = Vec::new();
        match self {
            ReturnType::Unit => {},
            ReturnType::Value(t) => {
                v.push(t.word_type());
            },
        }
        v
    }
}

/// The word that carries `x` to the guest: a 32-bit word holding `x` modulo
/// two to the power 32 for the types of at most 32 bits, a 64-bit word
/// holding `x` modulo two to the power 64 for the 64-bit types.
pub open spec fn spec_encode(x: NativeValue) -> Word {
    match x.spec_native_type().spec_word_type() {
        WordType::I32 => Word::W32(signed_wrap(x.value(), pow32()) as i32),
        WordType::I64 => Word::W64(signed_wrap(x.value(), pow64()) as i64),
    }
}

/// The native value of type `ty` that holds the integer `n` cut down to the
/// width of `ty`.
pub open spec fn native_from(ty: NativeType, n: int) -> NativeValue {
    match ty {
        NativeType::I8 => NativeValue::I8(signed_wrap(n, pow8()) as i8),
        NativeType::I16 => NativeValue::I16(signed_wrap(n, pow16()) as i16),
        NativeType::I32 => NativeValue::I32(signed_wrap(n, pow32()) as i32),
        NativeType::U8 => NativeValue::U8(unsigned_wrap(n, pow8()) as u8),
        NativeType::U16 => NativeValue::U16(unsigned_wrap(n, pow16()) as u16),
        NativeType::U32 => NativeValue::U32(unsigned_wrap(n, pow32()) as u32),
        NativeType::I64 => NativeValue::I64(signed_wrap(n, pow64()) as i64),
        NativeType::U64 => NativeValue::U64(unsigned_wrap(n, pow64()) as u64),
    }
}

/// The native value of type `ty` that the word `w` carries, if `w` has the
/// word type of `ty`: the low bits of the word, read at the width and
/// signedness of `ty`.
pub open spec fn spec_decode(ty: NativeType, w: Word) -> Option<NativeValue> {
    if w.spec_word_type() == ty.spec_word_type() {
        Some(native_from(ty, w.value()))
    } else {
        None
    }
}

/// Encodes a native value as the guest word that carries it.
pub fn encode(x: NativeValue) -> (w: Word)
    ensures
        w == spec_encode(x),
        w.spec_word_type() == x.spec_native_type().spec_word_type(),
{
    match x {
        NativeValue::I8(v) => Word::W32(<i8 as AbiRet>::convert(v)),
        NativeValue::I16(v) => Word::W32(<i16 as AbiRet>::convert(v)),
        NativeValue::I32(v) => Word::W32(<i32 as AbiRet>::convert(v)),
        NativeValue::U8(v) => Word::W32(<u8 as AbiRet>::convert(v)),
        NativeValue::U16(v) => Word::W32(<u16 as AbiRet>::convert(v)),
        NativeValue::U32(v) => Word::W32(<u32 as AbiRet>::convert(v)),
        NativeValue::I64(v) => Word::W64(<i64 as AbiRet>::convert(v)),
        NativeValue::U64(v) => Word::W64(<u64 as AbiRet>::convert(v)),
    }
}

/// Decodes a guest word as a native value of type `ty`. Fails exactly when
/// the word does not have the word type of `ty`.
pub fn decode(ty: NativeType, w: Word) -> (x: Option<NativeValue>)
    ensures
        x == spec_decode(ty, w),
        x.is_some() <==> w.spec_word_type() == ty.spec_word_type(),
        x matches Some(v) ==> v.spec_native_type() == ty,
{
    match (ty, w) {
        (NativeType::I8, Word::W32(a)) => Some(NativeValue::I8(<i8 as AbiParam>::convert(a))),
        (NativeType::I16, Word::W32(a)) => Some(NativeValue::I16(<i16 as AbiParam>::convert(a))),
        (NativeType::I32, Word::W32(a)) => Some(NativeValue::I32(<i32 as AbiParam>::convert(a))),
        (NativeType::U8, Word::W32(a)) => Some(NativeValue::U8(<u8 as AbiParam>::convert(a))),
        (NativeType::U16, Word::W32(a)) => Some(NativeValue::U16(<u16 as AbiParam>::convert(a))),
        (NativeType::U32, Word::W32(a)) => Some(NativeValue::U32(<u32 as AbiParam>::convert(a))),
        (NativeType::I64, Word::W64(a)) => Some(NativeValue::I64(<i64 as AbiParam>::convert(a))),
        (NativeType::U64, Word::W64(a)) => Some(NativeValue::U64(<u64 as AbiParam>::convert(a))),
        _ => None,
    }
}

/// A native type that can be returned to the guest.
pub trait AbiRet: Sized {
    /// The guest-side form of a value of this type.
    type Abi;

    /// The guest-side form of `self`.
    spec fn encoded(self) -> Self::Abi;

    /// The types of the guest words that carry a value of this type.
    spec fn return_words() -> Seq<WordType>;

    /// Converts a native result to its guest-side form.
    fn convert(self) -> (r: Self::Abi)
        ensures
            r == self.encoded(),
    ;

    /// The types of the guest words that carry a value of this type.
    fn codegen_tys() -> (v: Vec<WordType>)
        ensures
            v@ == Self::return_words(),
    ;
}

/// A native type that can be received from the guest.
pub trait AbiParam: Sized {
    /// The guest-side form of a value of this type.
    type Abi;

    /// The native value that the guest-side form `arg` carries.
    spec fn decoded(arg: Self::Abi) -> Self;

    /// The type of the guest word that carries a value of this type.
    spec fn param_word() -> WordType;

    /// Converts the guest-side form of an argument to its native value.
    fn convert(arg: Self::Abi) -> (r: Self)
        ensures
            r == Self::decoded(arg),
    ;

    /// The type of the guest word that carries a value of this type.
    fn codegen_ty() -> (t: WordType)
        ensures
            t == Self::param_word(),
    ;
}

fn one_word(t: WordType) -> (v: Vec<WordType>)
    ensures
        v@ == seq![t],
{
    let mut v: Vec<WordType> = Vec::new();
    v.push(t);
    v
}

impl AbiRet for i8 {
    type Abi = i32;

    open spec fn encoded(self) -> i32 {
        signed_wrap(self as int, pow32()) as i32
    }

    open spec fn return_words() -> Seq<WordType> {
        seq![WordType::I32]
    }

    fn convert(self) -> (r: i32) {
        self as i32
    }

    fn codegen_tys() -> (v: Vec<WordType>) {
        one_word(WordType::I32)
    }
}

impl AbiParam for i8 {
    type Abi = i32;

    open spec fn decoded(arg: i32) -> i8 {
        signed_wrap(arg as int, pow8()) as i8
    }

    open spec fn param_word() -> WordType {
        WordType::I32
    }

    fn convert(arg: i32) -> (r: i8) {
        let r: i8 = #[verifier::truncate] (arg as i8);
        assert(r == (if arg % 0x100 >= 0x80 {
            arg % 0x100 - 0x100
        } else {
            (arg % 0x100) as int
        })) by (bit_vector)
            requires
                r == arg as i8,
        ;
        r
    }

    fn codegen_ty() -> (t: WordType) {
        WordType::I32
    }
}

impl AbiRet for i16 {
    type Abi = i32;

    open spec fn encoded(self) -> i32 {
        signed_wrap(self as int, pow32()) as i32
    }

    open spec fn return_words() -> Seq<WordType> {
        seq![WordType::I32]
    }

    fn convert(self) -> (r: i32) {
        self as i32
    }

    fn codegen_tys() -> (v: Vec<WordType>) {
        one_word(WordType::I32)
    }
}

impl AbiParam for i16 {
    type Abi = i32;

    open spec fn decoded(arg: i32) -> i16 {
        signed_wrap(arg as int, pow16()) as i16
    }

    open spec fn param_word() -> WordType {
        WordType::I32
    }

    fn convert(arg: i32) -> (r: i16) {
        let r: i16 = #[verifier::truncate] (arg as i16);
        assert(r == (if arg % 0x1_0000 >= 0x8000 {
            arg % 0x1_0000 - 0x1_0000
        } else {
            (arg % 0x1_0000) as int
        })) by (bit_vector)
            requires
                r == arg as i16,
        ;
        r
    }

    fn codegen_ty() -> (t: WordType) {
        WordType::I32
    }
}

impl AbiRet for i32 {
    type Abi = i32;

    open spec fn encoded(self) -> i32 {
        signed_wrap(self as int, pow32()) as i32
    }

    open spec fn return_words() -> Seq<WordType> {
        seq![WordType::I32]
    }

    fn convert(self) -> (r: i32) {
        self
    }

    fn codegen_tys() -> (v: Vec<WordType>) {
        one_word(WordType::I32)
    }
}

impl AbiParam for i32 {
    type Abi = i32;

    open spec fn decoded(arg: i32) -> i32 {
        signed_wrap(arg as int, pow32()) as i32
    }

    open spec fn param_word() -> WordType {
        WordType::I32
    }

    fn convert(arg: i32) -> (r: i32) {
        arg
    }

    fn codegen_ty() -> (t: WordType) {
        WordType::I32
    }
}

impl AbiRet for u8 {
    type Abi = i32;

    open spec fn encoded(self) -> i32 {
        signed_wrap(self as int, pow32()) as i32
    }

    open spec fn return_words() -> Seq<WordType> {
        seq![WordType::I32]
    }

    fn convert(self) -> (r: i32) {
        self as i32
    }

    fn codegen_tys() -> (v: Vec<WordType>) {
        one_word(WordType::I32)
    }
}

impl AbiParam for u8 {
    type Abi = i32;

    open spec fn decoded(arg: i32) -> u8 {
        unsigned_wrap(arg as int, pow8()) as u8
    }

    open spec fn param_word() -> WordType {
        WordType::I32
    }

    fn convert(arg: i32) -> (r: u8) {
        let r: u8 = #[verifier::truncate] (arg as u8);
        assert(r == arg % 0x100) by (bit_vector)
            requires
                r == arg as u8,
        ;
        r
    }

    fn codegen_ty() -> (t: WordType) {
        WordType::I32
    }
}

impl AbiRet for u16 {
    type Abi = i32;

    open spec fn encoded(self) -> i32 {
        signed_wrap(self as int, pow32()) as i32
    }

    open spec fn return_words() -> Seq<WordType> {
        seq![WordType::I32]
    }

    fn convert(self) -> (r: i32) {
        self as i32
    }

    fn codegen_tys() -> (v: Vec<WordType>) {
        one_word(WordType::I32)
    }
}

impl AbiParam for u16 {
    type Abi = i32;

    open spec fn decoded(arg: i32) -> u16 {
        unsigned_wrap(arg as int, pow16()) as u16
    }

    open spec fn param_word() -> WordType {
        WordType::I32
    }

    fn convert(arg: i32) -> (r: u16) {
        let r: u16 = #[verifier::truncate] (arg as u16);
        assert(r == arg % 0x1_0000) by (bit_vector)
            requires
                r == arg as u16,
        ;
        r
    }

    fn codegen_ty() -> (t: WordType) {
        WordType::I32
    }
}

impl AbiRet for u32 {
    type Abi = i32;

    open spec fn encoded(self) -> i32 {
        signed_wrap(self as int, pow32()) as i32
    }

    open spec fn return_words() -> Seq<WordType> {
        seq![WordType::I32]
    }

    fn convert(self) -> (r: i32) {
        let r: i32 = #[verifier::truncate] (self as i32);
        assert(r == (if self >= 0x8000_0000u32 {
            self - 0x1_0000_0000
        } else {
            self as int
        })) by (bit_vector)
            requires
                r == self as i32,
        ;
        r
    }

    fn codegen_tys() -> (v: Vec<WordType>) {
        one_word(WordType::I32)
    }
}

impl AbiParam for u32 {
    type Abi = i32;

    open spec fn decoded(arg: i32) -> u32 {
        unsigned_wrap(arg as int, pow32()) as u32
    }

    open spec fn param_word() -> WordType {
        WordType::I32
    }

    fn convert(arg: i32) -> (r: u32) {
        let r: u32 = #[verifier::truncate] (arg as u32);
        assert(r == (if arg < 0i32 {
            arg + 0x1_0000_0000
        } else {
            arg as int
        })) by (bit_vector)
            requires
                r == arg as u32,
        ;
        r
    }

    fn codegen_ty() -> (t: WordType) {
        WordType::I32
    }
}

impl AbiRet for i64 {
    type Abi = i64;

    open spec fn encoded(self) -> i64 {
        signed_wrap(self as int, pow64()) as i64
    }

    open spec fn return_words() -> Seq<WordType> {
        seq![WordType::I64]
    }

    fn convert(self) -> (r: i64) {
        self
    }

    fn codegen_tys() -> (v: Vec<WordType>) {
        one_word(WordType::I64)
    }
}

impl AbiParam for i64 {
    type Abi = i64;

    open spec fn decoded(arg: i64) -> i64 {
        signed_wrap(arg as int, pow64()) as i64
    }

    open spec fn param_word() -> WordType {
        WordType::I64
    }

    fn convert(arg: i64) -> (r: i64) {
        arg
    }

    fn codegen_ty() -> (t: WordType) {
        WordType::I64
    }
}

impl AbiRet for u64 {
    type Abi = i64;

    open spec fn encoded(self) -> i64 {
        signed_wrap(self as int, pow64()) as i64
    }

    open spec fn return_words() -> Seq<WordType> {
        seq![WordType::I64]
    }

    fn convert(self) -> (r: i64) {
        let r: i64 = #[verifier::truncate] (self as i64);
        assert(r == (if self >= 0x8000_0000_0000_0000u64 {
            self - 0x1_0000_0000_0000_0000
        } else {
            self as int
        })) by (bit_vector)
            requires
                r == self as i64,
        ;
        r
    }

    fn codegen_tys() -> (v: Vec<WordType>) {
        one_word(WordType::I64)
    }
}

impl AbiParam for u64 {
    type Abi = i64;

    open spec fn decoded(arg: i64) -> u64 {
        unsigned_wrap(arg as int, pow64()) as u64
    }

    open spec fn param_word() -> WordType {
        WordType::I64
    }

    fn convert(arg: i64) -> (r: u64) {
        let r: u64 = #[verifier::truncate] (arg as u64);
        assert(r == (if arg < 0i64 {
            arg + 0x1_0000_0000_0000_0000
        } else {
            arg as int
        })) by (bit_vector)
            requires
                r == arg as u64,
        ;
        r
    }

    fn codegen_ty() -> (t: WordType) {
        WordType::I64
    }
}

impl AbiRet for () {
    type Abi = ();

    open spec fn encoded(self) -> () {
        ()
    }

    open spec fn return_words() -> Seq<WordType> {
        Seq::<WordType>::empty()
    }

    fn convert(self) -> (r: ()) {
    }

    fn codegen_tys() -> (v: Vec<WordType>) {
        Vec::new()
    }
}

/// Decoding undoes encoding: a native value that is encoded as a guest word
/// and decoded again at its own type comes back unchanged, for every value
/// of every supported type, the least and the greatest included.
pub proof fn lemma_decode_encode(x: NativeValue)
    ensures
        spec_decode(x.spec_native_type(), spec_encode(x)) == Some(x),
{
}

/// The round trip of `lemma_decode_encode`, stated for each scalar type on
/// its own conversions: what `AbiRet` encodes, `AbiParam` decodes to the
/// value that was encoded.
pub proof fn lemma_scalar_round_trip()
    ensures
        forall|x: i8| <i8 as AbiParam>::decoded(#[trigger] <i8 as AbiRet>::encoded(x)) == x,
        forall|x: i16| <i16 as AbiParam>::decoded(#[trigger] <i16 as AbiRet>::encoded(x)) == x,
        forall|x: i32| <i32 as AbiParam>::decoded(#[trigger] <i32 as AbiRet>::encoded(x)) == x,
        forall|x: u8| <u8 as AbiParam>::decoded(#[trigger] <u8 as AbiRet>::encoded(x)) == x,
        forall|x: u16| <u16 as AbiParam>::decoded(#[trigger] <u16 as AbiRet>::encoded(x)) == x,
        forall|x: u32| <u32 as AbiParam>::decoded(#[trigger] <u32 as AbiRet>::encoded(x)) == x,
        forall|x: i64| <i64 as AbiParam>::decoded(#[trigger] <i64 as AbiRet>::encoded(x)) == x,
        forall|x: u64| <u64 as AbiParam>::decoded(#[trigger] <u64 as AbiRet>::encoded(x)) == x,
{
}

/// The word type that a scalar type declares through `AbiParam` is the one
/// that `NativeType::spec_word_type` gives for the same type, and the words
/// that it declares through `AbiRet` are the ones that
/// `ReturnType::spec_word_types` gives.
pub proof fn lemma_trait_word_types()
    ensures
        <i8 as AbiParam>::param_word() == NativeType::I8.spec_word_type(),
        <i16 as AbiParam>::param_word() == NativeType::I16.spec_word_type(),
        <i32 as AbiParam>::param_word() == NativeType::I32.spec_word_type(),
        <u8 as AbiParam>::param_word() == NativeType::U8.spec_word_type(),
        <u16 as AbiParam>::param_word() == NativeType::U16.spec_word_type(),
        <u32 as AbiParam>::param_word() == NativeType::U32.spec_word_type(),
        <i64 as AbiParam>::param_word() == NativeType::I64.spec_word_type(),
        <u64 as AbiParam>::param_word() == NativeType::U64.spec_word_type(),
        <i8 as AbiRet>::return_words() == ReturnType::Value(NativeType::I8).spec_word_types(),
        <i16 as AbiRet>::return_words() == ReturnType::Value(NativeType::I16).spec_word_types(),
        <i32 as AbiRet>::return_words() == ReturnType::Value(NativeType::I32).spec_word_types(),
        <u8 as AbiRet>::return_words() == ReturnType::Value(NativeType::U8).spec_word_types(),
        <u16 as AbiRet>::return_words() == ReturnType::Value(NativeType::U16).spec_word_types(),
        <u32 as AbiRet>::return_words() == ReturnType::Value(NativeType::U32).spec_word_types(),
        <i64 as AbiRet>::return_words() == ReturnType::Value(NativeType::I64).spec_word_types(),
        <u64 as AbiRet>::return_words() == ReturnType::Value(NativeType::U64).spec_word_types(),
        <() as AbiRet>::return_words() == ReturnType::Unit.spec_word_types(),
{
}

} // verus!
