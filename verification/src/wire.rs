//! Primitive postcard fields: base-128 varints, length-prefixed byte
//! sequences and UTF-8 strings. Each field is written and read by postcard
//! itself; this module states, over byte sequences, what postcard produces
//! and accepts, and proves that every field reads back what was written.

use vstd::prelude::*;
use vstd::utf8::*;

verus! {

/// The postcard varint of `v`: seven bits per byte, least significant group
/// first, the high bit set on every byte but the last.
pub open spec fn varint(v: nat) -> Seq<u8>
    decreases v,
{
    if v < 128 {
        seq![v as u8]
    } else {
        seq![(v % 128 + 128) as u8] + varint(v / 128)
    }
}

/// What postcard's varint reader takes from the front of `s`, reading at most
/// `max_len` bytes, with the last allowed byte at most `last_max`: the value
/// and the bytes after it, or `None` where the reader fails.
pub open spec fn varint_take(s: Seq<u8>, max_len: nat, last_max: nat) -> Option<(nat, Seq<u8>)>
    decreases max_len,
{
    if max_len == 0 || s.len() == 0 {
        None
    } else if s[0] < 128 {
        if max_len == 1 && s[0] > last_max {
            None
        } else {
            Some((s[0] as nat, s.drop_first()))
        }
    } else {
        match varint_take(s.drop_first(), (max_len - 1) as nat, last_max) {
            None => None,
            Some((v, rest)) => Some((((s[0] - 128) + 128 * v) as nat, rest)),
        }
    }
}

/// A `u32` as postcard reads it (at most five bytes).
pub open spec fn take_u32(s: Seq<u8>) -> Option<(u32, Seq<u8>)> {
    match varint_take(s, 5, 15) {
        None => None,
        Some((v, rest)) => Some((v as u32, rest)),
    }
}

/// A `u64` as postcard reads it (at most ten bytes).
pub open spec fn take_u64(s: Seq<u8>) -> Option<(u64, Seq<u8>)> {
    match varint_take(s, 10, 1) {
        None => None,
        Some((v, rest)) => Some((v as u64, rest)),
    }
}

/// A `usize` as postcard reads it: as a `u64` on a 64-bit target, as a `u32`
/// on a 32-bit one.
pub open spec fn take_usize(s: Seq<u8>) -> Option<(usize, Seq<u8>)> {
    let r = if usize::BITS == 64 {
        varint_take(s, 10, 1)
    } else {
        varint_take(s, 5, 15)
    };
    match r {
        None => None,
        Some((v, rest)) => Some((v as usize, rest)),
    }
}

/// A byte sequence as postcard writes it: its length as a varint, then the bytes.
pub open spec fn bytes_field(b: Seq<u8>) -> Seq<u8> {
    varint(b.len()) + b
}

/// A byte sequence as postcard reads it.
pub open spec fn take_bytes_field(s: Seq<u8>) -> Option<(Seq<u8>, Seq<u8>)> {
    match take_usize(s) {
        None => None,
        Some((n, rest)) => if n <= rest.len() {
            Some((rest.take(n as int), rest.skip(n as int)))
        } else {
            None
        },
    }
}

/// A string as postcard writes it: the length of its UTF-8 encoding, then the encoding.
pub open spec fn str_field(s: Seq<char>) -> Seq<u8> {
    bytes_field(encode_utf8(s))
}

/// A string as postcard reads it: a byte field that must be valid UTF-8.
pub open spec fn take_str_field(s: Seq<u8>) -> Option<(Seq<char>, Seq<u8>)> {
    match take_bytes_field(s) {
        None => None,
        Some((b, rest)) => if valid_utf8(b) {
            Some((decode_utf8(b), rest))
        } else {
            None
        },
    }
}

/// The largest value (plus one) that a varint of at most `max_len` bytes,
/// whose last byte is at most `last_max`, can carry.
pub open spec fn varint_bound(max_len: nat, last_max: nat) -> nat
    decreases max_len,
{
    if max_len <= 1 {
        last_max + 1
    } else {
        128 * varint_bound((max_len - 1) as nat, last_max)
    }
}

proof fn lemma_varint_take_varint(v: nat, max_len: nat, last_max: nat, rest: Seq<u8>)
    requires
        1 <= max_len,
        last_max < 128,
        v < varint_bound(max_len, last_max),
    ensures
        varint_take(varint(v) + rest, max_len, last_max) == Some((v, rest)),
    decreases max_len,
{
    let s = varint(v) + rest;
    if v < 128 {
        assert(s[0] == v);
        assert(s.drop_first() =~= rest);
    } else {
        assert(max_len > 1);
        let b = varint_bound((max_len - 1) as nat, last_max);
        assert(v / 128 < b) by (nonlinear_arith)
            requires v < 128 * b;
        lemma_varint_take_varint(v / 128, (max_len - 1) as nat, last_max, rest);
        assert(s[0] == v % 128 + 128);
        assert(s.drop_first() =~= varint(v / 128) + rest);
        assert(v % 128 + 128 * (v / 128) == v) by (nonlinear_arith);
    }
}

proof fn lemma_varint_len(v: nat, max_len: nat, last_max: nat)
    requires
        1 <= max_len,
        last_max < 128,
        v < varint_bound(max_len, last_max),
    ensures
        1 <= varint(v).len() <= max_len,
    decreases max_len,
{
    if v >= 128 {
        let b = varint_bound((max_len - 1) as nat, last_max);
        assert(v / 128 < b) by (nonlinear_arith)
            requires v < 128 * b, b >= 1;
        lemma_varint_len(v / 128, (max_len - 1) as nat, last_max);
    }
}

/// The varint of a `u64` takes between one and ten bytes.
pub proof fn lemma_u64_varint_len(v: u64)
    ensures
        1 <= varint(v as nat).len() <= 10,
{
    reveal_with_fuel(varint_bound, 10);
    assert(varint_bound(10, 1) == 0x1_0000_0000_0000_0000);
    lemma_varint_len(v as nat, 10, 1);
}

/// The varint of a `u32` takes between one and five bytes.
pub proof fn lemma_u32_varint_len(v: u32)
    ensures
        1 <= varint(v as nat).len() <= 5,
{
    reveal_with_fuel(varint_bound, 5);
    assert(varint_bound(5, 15) == 0x1_0000_0000);
    lemma_varint_len(v as nat, 5, 15);
}

/// Every `u64` reads back from its varint, and the bytes after it are left as they were.
pub proof fn lemma_u64_roundtrip(v: u64, rest: Seq<u8>)
    ensures
        take_u64(varint(v as nat) + rest) == Some((v, rest)),
{
    reveal_with_fuel(varint_bound, 10);
    assert(varint_bound(10, 1) == 0x1_0000_0000_0000_0000);
    lemma_varint_take_varint(v as nat, 10, 1, rest);
}

/// Every `u32` reads back from its varint, and the bytes after it are left as they were.
pub proof fn lemma_u32_roundtrip(v: u32, rest: Seq<u8>)
    ensures
        take_u32(varint(v as nat) + rest) == Some((v, rest)),
{
    reveal_with_fuel(varint_bound, 5);
    assert(varint_bound(5, 15) == 0x1_0000_0000);
    lemma_varint_take_varint(v as nat, 5, 15, rest);
}

/// Every `usize` reads back from its varint, and the bytes after it are left as they were.
pub proof fn lemma_usize_roundtrip(v: usize, rest: Seq<u8>)
    ensures
        take_usize(varint(v as nat) + rest) == Some((v, rest)),
{
    reveal_with_fuel(varint_bound, 10);
    assert(varint_bound(10, 1) == 0x1_0000_0000_0000_0000);
    assert(varint_bound(5, 15) == 0x1_0000_0000);
    if usize::BITS == 64 {
        lemma_varint_take_varint(v as nat, 10, 1, rest);
    } else {
        lemma_varint_take_varint(v as nat, 5, 15, rest);
    }
}

/// A byte sequence that a slice can hold reads back from its field.
pub proof fn lemma_bytes_roundtrip(b: Seq<u8>, rest: Seq<u8>)
    requires
        b.len() <= usize::MAX,
    ensures
        take_bytes_field(bytes_field(b) + rest) == Some((b, rest)),
{
    lemma_usize_roundtrip(b.len() as usize, b + rest);
    assert(bytes_field(b) + rest =~= varint(b.len()) + (b + rest));
    assert((b + rest).take(b.len() as int) =~= b);
    assert((b + rest).skip(b.len() as int) =~= rest);
}

/// A string whose encoding a slice can hold reads back from its field.
pub proof fn lemma_str_roundtrip(s: Seq<char>, rest: Seq<u8>)
    requires
        encode_utf8(s).len() <= usize::MAX,
    ensures
        take_str_field(str_field(s) + rest) == Some((s, rest)),
{
    lemma_bytes_roundtrip(encode_utf8(s), rest);
    encode_utf8_valid_utf8(s);
    encode_utf8_decode_utf8(s);
}

/// The value that a parse gives, without the bytes left after it.
pub open spec fn value_of<V>(p: Option<(V, Seq<u8>)>) -> Option<V> {
    match p {
        None => None,
        Some((v, _)) => Some(v),
    }
}

/// An optional value, by its view.
pub open spec fn viewed<T: View>(r: Option<T>) -> Option<T::V> {
    match r {
        None => None,
        Some(v) => Some(v@),
    }
}

/// The tag of an enum variant as postcard reads it: a `u32` below `count`.
pub open spec fn take_tag(s: Seq<u8>, count: u32) -> Option<(u32, Seq<u8>)> {
    match take_u32(s) {
        None => None,
        Some((t, rest)) => if t < count {
            Some((t, rest))
        } else {
            None
        },
    }
}

/// The model of what a reader returned: the value read, by its view, and
/// the bytes left after it.
pub open spec fn taken<T: View>(r: Option<(T, &[u8])>) -> Option<(T::V, Seq<u8>)> {
    match r {
        None => None,
        Some((v, rest)) => Some((v@, rest@)),
    }
}

/// `postcard::to_stdvec` on a `u32`. postcard's serializer pushes the
/// varint of the integer, and its `Vec` output flavor never fails, so the
/// bytes are exactly the varint.
#[verifier::external_body]
pub(crate) fn write_u32(v: u32) -> (out: Vec<u8>)
    ensures
        out@ == varint(v as nat),
{
    postcard::to_stdvec(&v).unwrap_or_default()
}

/// `postcard::to_stdvec` on a `u64`: the varint of the integer, as for `u32`.
#[verifier::external_body]
pub(crate) fn write_u64(v: u64) -> (out: Vec<u8>)
    ensures
        out@ == varint(v as nat),
{
    postcard::to_stdvec(&v).unwrap_or_default()
}

/// `postcard::to_stdvec` on a byte slice: serde writes a slice as a sequence,
/// which postcard frames with the varint of its length, then each `u8` as one byte.
#[verifier::external_body]
pub(crate) fn write_bytes(b: &[u8]) -> (out: Vec<u8>)
    ensures
        out@ == bytes_field(b@),
{
    postcard::to_stdvec(b).unwrap_or_default()
}

/// `postcard::to_stdvec` on a string slice: the varint of its length in
/// bytes, then its UTF-8 bytes.
#[verifier::external_body]
pub(crate) fn write_str(s: &str) -> (out: Vec<u8>)
    ensures
        out@ == str_field(s@),
{
    postcard::to_stdvec(s).unwrap_or_default()
}

/// `postcard::take_from_bytes::<u32>`: reads a varint of at most five bytes
/// whose fifth byte is at most 15, and returns the bytes after it.
#[verifier::external_body]
pub(crate) fn read_u32(bytes: &[u8]) -> (r: Option<(u32, &[u8])>)
    ensures
        taken(r) == take_u32(bytes@),
{
    postcard::take_from_bytes::<u32>(bytes).ok()
}

/// `postcard::take_from_bytes::<u64>`: reads a varint of at most ten bytes
/// whose tenth byte is at most 1, and returns the bytes after it.
#[verifier::external_body]
pub(crate) fn read_u64(bytes: &[u8]) -> (r: Option<(u64, &[u8])>)
    ensures
        taken(r) == take_u64(bytes@),
{
    postcard::take_from_bytes::<u64>(bytes).ok()
}

/// `postcard::take_from_bytes::<Vec<u8>>`: reads a `usize` length, then that
/// many bytes, one per element, failing where fewer remain.
#[verifier::external_body]
pub(crate) fn read_bytes(bytes: &[u8]) -> (r: Option<(Vec<u8>, &[u8])>)
    ensures
        taken(r) == take_bytes_field(bytes@),
{
    postcard::take_from_bytes::<Vec<u8>>(bytes).ok()
}

/// `postcard::take_from_bytes::<String>`: reads a `usize` length, then that
/// many bytes, which must be valid UTF-8.
#[verifier::external_body]
pub(crate) fn read_string(bytes: &[u8]) -> (r: Option<(String, &[u8])>)
    ensures
        taken(r) == take_str_field(bytes@),
{
    postcard::take_from_bytes::<String>(bytes).ok()
}

} // verus!
