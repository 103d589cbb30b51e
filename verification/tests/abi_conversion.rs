use wasi_bridge::abi::{
    decode, encode, AbiParam, AbiRet, NativeType, NativeValue, ReturnType, Word, WordType,
};

fn round_trip(x: NativeValue) {
    let w = encode(x);
    assert_eq!(w.word_type(), x.native_type().word_type());
    assert_eq!(decode(x.native_type(), w), Some(x));
}

#[test]
fn round_trip_at_the_bounds_of_every_type() {
    for x in [i8::MIN, -1, 0, 1, i8::MAX] {
        round_trip(NativeValue::I8(x));
    }
    for x in [i16::MIN, -1, 0, 1, i16::MAX] {
        round_trip(NativeValue::I16(x));
    }
    for x in [i32::MIN, -1, 0, 1, i32::MAX] {
        round_trip(NativeValue::I32(x));
    }
    for x in [u8::MIN, 1, 127, 128, u8::MAX] {
        round_trip(NativeValue::U8(x));
    }
    for x in [u16::MIN, 1, 0x7fff, 0x8000, u16::MAX] {
        round_trip(NativeValue::U16(x));
    }
    for x in [u32::MIN, 1, 0x7fff_ffff, 0x8000_0000, u32::MAX] {
        round_trip(NativeValue::U32(x));
    }
    for x in [i64::MIN, -1, 0, 1, i64::MAX] {
        round_trip(NativeValue::I64(x));
    }
    for x in [u64::MIN, 1, 0x7fff_ffff_ffff_ffff, 0x8000_0000_0000_0000, u64::MAX] {
        round_trip(NativeValue::U64(x));
    }
}

#[test]
fn round_trip_over_all_small_values() {
    for x in i8::MIN..=i8::MAX {
        round_trip(NativeValue::I8(x));
    }
    for x in u8::MIN..=u8::MAX {
        round_trip(NativeValue::U8(x));
    }
    for x in i16::MIN..=i16::MAX {
        round_trip(NativeValue::I16(x));
    }
    for x in u16::MIN..=u16::MAX {
        round_trip(NativeValue::U16(x));
    }
}

#[test]
fn encode_gives_the_exact_word() {
    assert_eq!(encode(NativeValue::I8(-128)), Word::W32(-128));
    assert_eq!(encode(NativeValue::I16(-32768)), Word::W32(-32768));
    assert_eq!(encode(NativeValue::I32(i32::MIN)), Word::W32(i32::MIN));
    assert_eq!(encode(NativeValue::U8(255)), Word::W32(255));
    assert_eq!(encode(NativeValue::U16(65535)), Word::W32(65535));
    assert_eq!(encode(NativeValue::U32(u32::MAX)), Word::W32(-1));
    assert_eq!(encode(NativeValue::U32(0x8000_0000)), Word::W32(i32::MIN));
    assert_eq!(encode(NativeValue::U32(0x7fff_ffff)), Word::W32(i32::MAX));
    assert_eq!(encode(NativeValue::I64(i64::MIN)), Word::W64(i64::MIN));
    assert_eq!(encode(NativeValue::U64(u64::MAX)), Word::W64(-1));
    assert_eq!(encode(NativeValue::U64(0x8000_0000_0000_0000)), Word::W64(i64::MIN));
}

#[test]
fn decode_keeps_the_low_bits() {
    assert_eq!(decode(NativeType::U8, Word::W32(-1)), Some(NativeValue::U8(255)));
    assert_eq!(decode(NativeType::U8, Word::W32(0x1234)), Some(NativeValue::U8(0x34)));
    assert_eq!(decode(NativeType::I8, Word::W32(0x1ff)), Some(NativeValue::I8(-1)));
    assert_eq!(decode(NativeType::I8, Word::W32(0x80)), Some(NativeValue::I8(-128)));
    assert_eq!(decode(NativeType::U16, Word::W32(-1)), Some(NativeValue::U16(65535)));
    assert_eq!(decode(NativeType::I16, Word::W32(0x18000)), Some(NativeValue::I16(-32768)));
    assert_eq!(decode(NativeType::U32, Word::W32(-1)), Some(NativeValue::U32(u32::MAX)));
    assert_eq!(decode(NativeType::U32, Word::W32(i32::MIN)), Some(NativeValue::U32(0x8000_0000)));
    assert_eq!(decode(NativeType::I32, Word::W32(-7)), Some(NativeValue::I32(-7)));
    assert_eq!(decode(NativeType::U64, Word::W64(-1)), Some(NativeValue::U64(u64::MAX)));
    assert_eq!(decode(NativeType::I64, Word::W64(i64::MIN)), Some(NativeValue::I64(i64::MIN)));
}

#[test]
fn decode_refuses_a_word_of_the_other_width() {
    for ty in [
        NativeType::I8,
        NativeType::I16,
        NativeType::I32,
        NativeType::U8,
        NativeType::U16,
        NativeType::U32,
    ] {
        assert_eq!(decode(ty, Word::W64(0)), None);
        assert!(decode(ty, Word::W32(0)).is_some());
    }
    for ty in [NativeType::I64, NativeType::U64] {
        assert_eq!(decode(ty, Word::W32(0)), None);
        assert!(decode(ty, Word::W64(0)).is_some());
    }
}

#[test]
fn word_type_by_native_type() {
    assert_eq!(NativeType::I8.word_type(), WordType::I32);
    assert_eq!(NativeType::I16.word_type(), WordType::I32);
    assert_eq!(NativeType::I32.word_type(), WordType::I32);
    assert_eq!(NativeType::U8.word_type(), WordType::I32);
    assert_eq!(NativeType::U16.word_type(), WordType::I32);
    assert_eq!(NativeType::U32.word_type(), WordType::I32);
    assert_eq!(NativeType::I64.word_type(), WordType::I64);
    assert_eq!(NativeType::U64.word_type(), WordType::I64);
    assert_eq!(WordType::I32.bit_width(), 32);
    assert_eq!(WordType::I64.bit_width(), 64);
    assert_eq!(Word::W32(3).word_type(), WordType::I32);
    assert_eq!(Word::W64(3).word_type(), WordType::I64);
}

#[test]
fn result_words_by_return_type() {
    assert_eq!(ReturnType::Unit.word_types(), Vec::<WordType>::new());
    assert_eq!(ReturnType::Value(NativeType::U16).word_types(), vec![WordType::I32]);
    assert_eq!(ReturnType::Value(NativeType::U64).word_types(), vec![WordType::I64]);
}

#[test]
fn scalar_traits_convert_as_the_values_do() {
    assert_eq!(<u8 as AbiRet>::convert(255), 255i32);
    assert_eq!(<u8 as AbiParam>::convert(-1), 255u8);
    assert_eq!(<i8 as AbiRet>::convert(-128), -128i32);
    assert_eq!(<i8 as AbiParam>::convert(0x17f), 127i8);
    assert_eq!(<u16 as AbiRet>::convert(65535), 65535i32);
    assert_eq!(<u16 as AbiParam>::convert(0x1_0001), 1u16);
    assert_eq!(<i16 as AbiRet>::convert(-2), -2i32);
    assert_eq!(<i16 as AbiParam>::convert(0xffff), -1i16);
    assert_eq!(<i32 as AbiRet>::convert(i32::MIN), i32::MIN);
    assert_eq!(<i32 as AbiParam>::convert(i32::MAX), i32::MAX);
    assert_eq!(<u32 as AbiRet>::convert(u32::MAX), -1i32);
    assert_eq!(<u32 as AbiParam>::convert(-1), u32::MAX);
    assert_eq!(<i64 as AbiRet>::convert(i64::MIN), i64::MIN);
    assert_eq!(<i64 as AbiParam>::convert(i64::MAX), i64::MAX);
    assert_eq!(<u64 as AbiRet>::convert(u64::MAX), -1i64);
    assert_eq!(<u64 as AbiParam>::convert(i64::MIN), 0x8000_0000_0000_0000u64);
    assert_eq!(<() as AbiRet>::convert(()), ());
}

#[test]
fn scalar_traits_name_their_words() {
    assert_eq!(<i8 as AbiParam>::codegen_ty(), WordType::I32);
    assert_eq!(<i16 as AbiParam>::codegen_ty(), WordType::I32);
    assert_eq!(<i32 as AbiParam>::codegen_ty(), WordType::I32);
    assert_eq!(<u8 as AbiParam>::codegen_ty(), WordType::I32);
    assert_eq!(<u16 as AbiParam>::codegen_ty(), WordType::I32);
    assert_eq!(<u32 as AbiParam>::codegen_ty(), WordType::I32);
    assert_eq!(<i64 as AbiParam>::codegen_ty(), WordType::I64);
    assert_eq!(<u64 as AbiParam>::codegen_ty(), WordType::I64);
    assert_eq!(<u16 as AbiRet>::codegen_tys(), vec![WordType::I32]);
    assert_eq!(<u64 as AbiRet>::codegen_tys(), vec![WordType::I64]);
    assert_eq!(<i64 as AbiRet>::codegen_tys(), vec![WordType::I64]);
    assert_eq!(<() as AbiRet>::codegen_tys(), Vec::<WordType>::new());
}
