//! Big-endian assembly of 16-bit register words into typed values.
//!
//! IEEE-754 values are carried as their bit patterns: the 32-bit pattern of a
//! binary32 number as a `u32`, the 64-bit pattern of a binary64 number as a `u64`.

use vstd::prelude::*;
use crate::catalog::ModbusType;

verus! {

/// The two bytes of a register word, high byte first.
pub open spec fn word_bytes(word: u16) -> Seq<u8> {
    seq![(word / 256) as u8, (word % 256) as u8]
}

/// The bytes of a run of register words: each word's bytes in turn, high byte first.
pub open spec fn be_bytes(words: Seq<u16>) -> Seq<u8>
    decreases words.len(),
{
    if words.len() == 0 {
        Seq::empty()
    } else {
        be_bytes(words.drop_last()) + word_bytes(words.last())
    }
}

/// The number that a byte buffer holds when read big-endian.
pub open spec fn be_value(bytes: Seq<u8>) -> nat
    decreases bytes.len(),
{
    if bytes.len() == 0 {
        0
    } else {
        be_value(bytes.drop_last()) * 256 + bytes.last() as nat
    }
}

/// The number that a run of register words holds: its bytes read big-endian.
pub open spec fn words_value(words: Seq<u16>) -> nat {
    be_value(be_bytes(words))
}

/// The big-endian split of `value` into `count` register words.
pub open spec fn encode_words(value: nat, count: nat) -> Seq<u16>
    decreases count,
{
    if count == 0 {
        Seq::empty()
    } else {
        encode_words(value / 65536, (count - 1) as nat).push((value % 65536) as u16)
    }
}

/// The number of values that `count` register words can hold.
pub open spec fn word_limit(count: nat) -> nat
    decreases count,
{
    if count == 0 {
        1
    } else {
        65536 * word_limit((count - 1) as nat)
    }
}

/// A decoded register group. The two IEEE-754 kinds hold the number's bit pattern.
#[derive(Clone, Copy, Debug, PartialEq, Eq, Structural)]
pub enum Value {
    U16(u16),
    F32(u32),
    F64(u64),
}

/// What `decode` yields for a register group of the given type.
pub open spec fn decoded(value_type: ModbusType, words: Seq<u16>) -> Value {
    match value_type {
        ModbusType::U16 => Value::U16(words[0]),
        ModbusType::F32 => Value::F32(words_value(words) as u32),
        ModbusType::F64 => Value::F64(words_value(words) as u64),
    }
}

/// Appending one word shifts the value by sixteen bits and adds the word.
pub proof fn lemma_words_value_push(words: Seq<u16>, word: u16)
    ensures
        words_value(words.push(word)) == words_value(words) * 65536 + word as nat,
{
    let hi: u8 = (word / 256) as u8;
    let lo: u8 = (word % 256) as u8;
    let base = be_bytes(words);
    let all = be_bytes(words.push(word));
    assert(words.push(word).drop_last() =~= words);
    assert(words.push(word).last() == word);
    assert(all == base + word_bytes(word));
    assert(all =~= base.push(hi).push(lo));
    assert(base.push(hi).push(lo).drop_last() =~= base.push(hi));
    assert(base.push(hi).drop_last() =~= base);
    assert(be_value(base.push(hi)) == be_value(base) * 256 + hi as nat);
    assert(be_value(all) == be_value(base.push(hi)) * 256 + lo as nat);
    assert(hi as nat * 256 + lo as nat == word as nat);
    assert((be_value(base) * 256 + hi as nat) * 256 + lo as nat == be_value(base) * 65536
        + word as nat) by (nonlinear_arith)
        requires
            hi as nat * 256 + lo as nat == word as nat,
    ;
}

/// Round trip: splitting a number into `count` big-endian words and decoding
/// those words gives the number back, whenever the number fits in `count` words.
pub proof fn lemma_decode_inverts_encode(value: nat, count: nat)
    requires
        value < word_limit(count),
    ensures
        encode_words(value, count).len() == count,
        words_value(encode_words(value, count)) == value,
    decreases count,
{
    if count == 0 {
        assert(be_bytes(encode_words(value, count)) =~= Seq::<u8>::empty());
    } else {
        let rest = (count - 1) as nat;
        assert(value / 65536 < word_limit(rest)) by (nonlinear_arith)
            requires
                value < 65536 * word_limit(rest),
        ;
        lemma_decode_inverts_encode(value / 65536, rest);
        lemma_words_value_push(encode_words(value / 65536, rest), (value % 65536) as u16);
        assert((value / 65536) * 65536 + value % 65536 == value) by (nonlinear_arith);
    }
}

/// Round trip the other way: decoding a run of words and splitting the number
/// into as many words gives the same words back.
pub proof fn lemma_encode_inverts_decode(words: Seq<u16>)
    ensures
        encode_words(words_value(words), words.len()) == words,
    decreases words.len(),
{
    if words.len() == 0 {
        assert(encode_words(words_value(words), words.len()) =~= words);
    } else {
        let front = words.drop_last();
        let last = words.last();
        lemma_encode_inverts_decode(front);
        lemma_words_value_push(front, last);
        assert(front.push(last) =~= words);
        let v = words_value(words);
        assert(v == words_value(front) * 65536 + last as nat);
        assert(v / 65536 == words_value(front) && v % 65536 == last as nat) by (nonlinear_arith)
            requires
                v == words_value(front) * 65536 + last as nat,
                last < 65536,
        ;
    }
}

/// Round trip for the 32-bit pattern of a binary32 number.
pub proof fn lemma_f32_round_trip(bits: u32)
    ensures
        encode_words(bits as nat, 2).len() == 2,
        decoded(ModbusType::F32, encode_words(bits as nat, 2)) == Value::F32(bits),
{
    lemma_word_limits();
    lemma_decode_inverts_encode(bits as nat, 2);
}

/// Round trip for the 64-bit pattern of a binary64 number.
pub proof fn lemma_f64_round_trip(bits: u64)
    ensures
        encode_words(bits as nat, 4).len() == 4,
        decoded(ModbusType::F64, encode_words(bits as nat, 4)) == Value::F64(bits),
{
    lemma_word_limits();
    lemma_decode_inverts_encode(bits as nat, 4);
}

/// A single word decodes to itself, whatever it holds.
pub proof fn lemma_u16_unchanged(word: u16)
    ensures
        decoded(ModbusType::U16, seq![word]) == Value::U16(word),
        encode_words(word as nat, 1) == seq![word],
        words_value(seq![word]) == word as nat,
{
    assert(encode_words(word as nat, 1) =~= seq![word]) by {
        reveal_with_fuel(encode_words, 2);
    }
    assert(Seq::<u16>::empty().push(word) =~= seq![word]);
    lemma_words_value_push(Seq::<u16>::empty(), word);
    assert(be_bytes(Seq::<u16>::empty()) =~= Seq::<u8>::empty());
}

/// The limits of one, two and four words.
pub proof fn lemma_word_limits()
    ensures
        word_limit(0) == 1,
        word_limit(1) == 0x1_0000,
        word_limit(2) == 0x1_0000_0000,
        word_limit(4) == 0x1_0000_0000_0000_0000,
{
    reveal_with_fuel(word_limit, 5);
}

/// Decodes an unsigned 16-bit value: the single word as it stands.
pub fn decode_u16(data: &[u16]) -> (value: u16)
    requires
        data@.len() == 1,
    ensures
        value == data@[0],
        value as nat == words_value(data@),
{
    proof {
        assert(data@ =~= seq![data@[0]]);
        lemma_u16_unchanged(data@[0]);
    }
    data[0]
}

/// Two words hold the first word shifted by sixteen bits, plus the second.
pub proof fn lemma_two_words_value(words: Seq<u16>)
    requires
        words.len() == 2,
    ensures
        words_value(words) == words[0] as nat * 65536 + words[1] as nat,
        words_value(words) <= u32::MAX,
{
    let one = seq![words[0]];
    lemma_u16_unchanged(words[0]);
    lemma_words_value_push(one, words[1]);
    assert(one.push(words[1]) =~= words);
}

/// Four words hold each word shifted by sixteen bits more than the next.
pub proof fn lemma_four_words_value(words: Seq<u16>)
    requires
        words.len() == 4,
    ensures
        words_value(words) == ((words[0] as nat * 65536 + words[1] as nat) * 65536
            + words[2] as nat) * 65536 + words[3] as nat,
        words_value(words) <= u64::MAX,
{
    let one = seq![words[0]];
    let two = one.push(words[1]);
    let three = two.push(words[2]);
    lemma_u16_unchanged(words[0]);
    lemma_words_value_push(one, words[1]);
    lemma_words_value_push(two, words[2]);
    lemma_words_value_push(three, words[3]);
    assert(three.push(words[3]) =~= words);
}

/// Decodes the bit pattern of a binary32 number from two words, the first word
/// holding the high half.
pub fn decode_f32(data: &[u16]) -> (bits: u32)
    requires
        data@.len() == 2,
    ensures
        bits as nat == words_value(data@),
        bits == data@[0] as nat * 65536 + data@[1] as nat,
{
    proof {
        lemma_two_words_value(data@);
    }
    let high: u32 = data[0] as u32;
    let low: u32 = data[1] as u32;
    high * 65536 + low
}

/// Decodes the bit pattern of a binary64 number from four words, the first word
/// holding the highest quarter.
pub fn decode_f64(data: &[u16]) -> (bits: u64)
    requires
        data@.len() == 4,
    ensures
        bits as nat == words_value(data@),
        bits == ((data@[0] as nat * 65536 + data@[1] as nat) * 65536 + data@[2] as nat) * 65536
            + data@[3] as nat,
{
    proof {
        lemma_four_words_value(data@);
    }
    let a: u64 = data[0] as u64;
    let b: u64 = data[1] as u64;
    let c: u64 = data[2] as u64;
    let d: u64 = data[3] as u64;
    ((a * 65536 + b) * 65536 + c) * 65536 + d
}

/// Decodes a register group of the given type: a single word as it stands, two
/// or four words as the bit pattern that their bytes make, high byte first.
pub fn decode(value_type: ModbusType, data: &[u16]) -> (value: Value)
    requires
        data@.len() == value_type.word_count(),
    ensures
        value == decoded(value_type, data@),
        (match value {
            Value::U16(word) => value_type == ModbusType::U16 && word == data@[0],
            Value::F32(bits) => value_type == ModbusType::F32 && bits == data@[0] as nat * 65536
                + data@[1] as nat,
            Value::F64(bits) => value_type == ModbusType::F64 && bits == ((data@[0] as nat * 65536
                + data@[1] as nat) * 65536 + data@[2] as nat) * 65536 + data@[3] as nat,
        }),
{
    match value_type {
        ModbusType::U16 => Value::U16(decode_u16(data)),
        ModbusType::F32 => Value::F32(decode_f32(data)),
        ModbusType::F64 => Value::F64(decode_f64(data)),
    }
}

} // verus!
