//! Length-prefixed little-endian record codec used by the storage records.
//!
//! Integers are fixed-width little-endian; a byte string is its length as a
//! four-byte little-endian number followed by its bytes; a text string is the
//! byte string of its UTF-8 encoding.
use vstd::prelude::*;
use vstd::utf8::*;

use crate::le::{le_bytes, le_value, lemma_le_bytes_len, lemma_le_bytes_of_value, lemma_le_roundtrip, lemma_le_value_bound, lemma_pow256_values, pow256, push_le, read_le};

verus! {

broadcast use {vstd::utf8::encode_utf8_valid_utf8, vstd::utf8::encode_utf8_decode_utf8, vstd::utf8::decode_utf8_encode_utf8};

/// Upper bound on one encoded text field, in bytes.
pub const MAX_CODEC_STRING_BYTES: usize = 1048576;

/// Upper bound on one encoded payload field, in bytes.
pub const MAX_CODEC_PAYLOAD_BYTES: usize = 16777216;

/// The encoding of one byte.
pub open spec fn enc_u8(v: u8) -> Seq<u8> {
    seq![v]
}

/// The encoding of a two-byte number.
pub open spec fn enc_u16(v: u16) -> Seq<u8> {
    le_bytes(v as nat, 2)
}

/// The encoding of a four-byte number.
pub open spec fn enc_u32(v: u32) -> Seq<u8> {
    le_bytes(v as nat, 4)
}

/// The encoding of an eight-byte number.
pub open spec fn enc_u64(v: u64) -> Seq<u8> {
    le_bytes(v as nat, 8)
}

/// The encoding of a byte string: its length, then its bytes.
pub open spec fn enc_bytes(b: Seq<u8>) -> Seq<u8> {
    le_bytes(b.len(), 4) + b
}

/// The encoding of a text string: the byte string of its UTF-8 form.
pub open spec fn enc_string(s: Seq<char>) -> Seq<u8> {
    enc_bytes(encode_utf8(s))
}

/// Whether a byte string of this length can be written under `maximum`.
pub open spec fn bytes_fit(b: Seq<u8>, maximum: nat) -> bool {
    b.len() <= maximum && b.len() <= u32::MAX
}

/// Whether a text string can be written as one text field.
pub open spec fn string_fits(s: Seq<char>) -> bool {
    bytes_fit(encode_utf8(s), MAX_CODEC_STRING_BYTES as nat)
}

/// Reading a fixed-width number of `k` bytes off the front of `s`.
pub open spec fn take_le(s: Seq<u8>, k: nat) -> Option<(nat, Seq<u8>)> {
    if s.len() < k {
        None
    } else {
        Some((le_value(s.take(k as int)), s.skip(k as int)))
    }
}

/// Reading a byte string of at most `maximum` bytes off the front of `s`.
pub open spec fn take_bytes(s: Seq<u8>, maximum: nat) -> Option<(Seq<u8>, Seq<u8>)> {
    match take_le(s, 4) {
        None => None,
        Some((n, rest)) => if n > maximum || rest.len() < n {
            None
        } else {
            Some((rest.take(n as int), rest.skip(n as int)))
        },
    }
}

/// Reading a text string off the front of `s`.
pub open spec fn take_string(s: Seq<u8>) -> Option<(Seq<char>, Seq<u8>)> {
    match take_bytes(s, MAX_CODEC_STRING_BYTES as nat) {
        None => None,
        Some((b, rest)) => if valid_utf8(b) {
            Some((decode_utf8(b), rest))
        } else {
            None
        },
    }
}

/// Reading `k` little-endian bytes off the encoding of `v` gives `v` back
/// and leaves what follows untouched.
pub proof fn lemma_take_le_enc(v: nat, k: nat, rest: Seq<u8>)
    requires
        v < pow256(k),
    ensures
        take_le(le_bytes(v, k) + rest, k) == Some((v, rest)),
{
    lemma_le_bytes_len(v, k);
    lemma_le_roundtrip(v, k);
    let s = le_bytes(v, k) + rest;
    assert(s.take(k as int) =~= le_bytes(v, k));
    assert(s.skip(k as int) =~= rest);
}

/// What `take_le` reads is the encoding of the value it returns, followed
/// by the rest.
pub proof fn lemma_take_le_sound(s: Seq<u8>, k: nat)
    requires
        take_le(s, k) is Some,
    ensures
        s == le_bytes(take_le(s, k).unwrap().0, k) + take_le(s, k).unwrap().1,
        take_le(s, k).unwrap().0 < pow256(k),
{
    let piece = s.take(k as int);
    lemma_le_bytes_of_value(piece);
    lemma_le_value_bound(piece);
    assert(s =~= piece + s.skip(k as int));
}

/// Reading a byte string off its encoding gives it back and leaves what
/// follows untouched.
pub proof fn lemma_take_bytes_enc(b: Seq<u8>, maximum: nat, rest: Seq<u8>)
    requires
        bytes_fit(b, maximum),
    ensures
        take_bytes(enc_bytes(b) + rest, maximum) == Some((b, rest)),
{
    lemma_pow256_values();
    let s = enc_bytes(b) + rest;
    assert(s =~= le_bytes(b.len(), 4) + (b + rest));
    lemma_take_le_enc(b.len(), 4, b + rest);
    assert((b + rest).take(b.len() as int) =~= b);
    assert((b + rest).skip(b.len() as int) =~= rest);
}

/// What `take_bytes` reads is the encoding of the byte string it returns,
/// followed by the rest.
pub proof fn lemma_take_bytes_sound(s: Seq<u8>, maximum: nat)
    requires
        take_bytes(s, maximum) is Some,
    ensures
        s == enc_bytes(take_bytes(s, maximum).unwrap().0) + take_bytes(s, maximum).unwrap().1,
        bytes_fit(take_bytes(s, maximum).unwrap().0, maximum),
{
    lemma_take_le_sound(s, 4);
    lemma_pow256_values();
    let (n, rest) = take_le(s, 4).unwrap();
    let b = rest.take(n as int);
    assert(rest =~= b + rest.skip(n as int));
    assert(s =~= (le_bytes(b.len(), 4) + b) + rest.skip(n as int));
}

/// Reading a text field off its encoding gives the text back and leaves
/// what follows untouched.
pub proof fn lemma_take_string_enc(c: Seq<char>, rest: Seq<u8>)
    requires
        string_fits(c),
    ensures
        take_string(enc_string(c) + rest) == Some((c, rest)),
{
    lemma_take_bytes_enc(encode_utf8(c), MAX_CODEC_STRING_BYTES as nat, rest);
}

/// What `take_string` reads is the encoding of the text it returns,
/// followed by the rest.
pub proof fn lemma_take_string_sound(s: Seq<u8>)
    requires
        take_string(s) is Some,
    ensures
        s == enc_string(take_string(s).unwrap().0) + take_string(s).unwrap().1,
        string_fits(take_string(s).unwrap().0),
{
    lemma_take_bytes_sound(s, MAX_CODEC_STRING_BYTES as nat);
}

/// Converts bytes to a `String` when they are valid UTF-8.
///
/// Calls `String::from_utf8`, whose documentation states that it fails
/// exactly when the bytes are not valid UTF-8 and otherwise holds the
/// characters those bytes encode.
#[verifier::external_body]
pub(crate) fn utf8_string(bytes: Vec<u8>) -> (res: Option<String>)
    ensures
        res is Some <==> valid_utf8(bytes@),
        res matches Some(s) ==> s@ == decode_utf8(bytes@),
{
    String::from_utf8(bytes).ok()
}

/// Appends fields to a growing record.
pub struct Encoder {
    bytes: Vec<u8>,
}

impl View for Encoder {
    type V = Seq<u8>;

    closed spec fn view(&self) -> Seq<u8> {
        self.bytes@
    }
}

/// The message given when a field is over its size limit.
pub open spec fn over_limit_message(label: Seq<char>) -> Seq<char> {
    label + " exceeds the storage record limit"@
}

impl Encoder {
    /// An empty record.
    pub fn new() -> (e: Self)
        ensures
            e@ == Seq::<u8>::empty(),
    {
        Encoder { bytes: Vec::new() }
    }

    /// Appends bytes as they are.
    pub fn raw(&mut self, bytes: &[u8])
        ensures
            final(self)@ == old(self)@ + bytes@,
    {
        self.bytes.extend_from_slice(bytes);
    }

    /// Appends one byte.
    pub fn u8(&mut self, value: u8)
        ensures
            final(self)@ == old(self)@ + enc_u8(value),
    {
        self.bytes.push(value);
    }

    /// Appends a little-endian 16-bit number.
    pub fn u16(&mut self, value: u16)
        ensures
            final(self)@ == old(self)@ + enc_u16(value),
    {
        push_le(&mut self.bytes, value as u64, 2);
    }

    /// Appends a little-endian 32-bit number.
    pub fn u32(&mut self, value: u32)
        ensures
            final(self)@ == old(self)@ + enc_u32(value),
    {
        push_le(&mut self.bytes, value as u64, 4);
    }

    /// Appends a little-endian 64-bit number.
    pub fn u64(&mut self, value: u64)
        ensures
            final(self)@ == old(self)@ + enc_u64(value),
    {
        push_le(&mut self.bytes, value, 8);
    }

    /// Appends a length-prefixed byte string of at most `maximum` bytes.
    pub fn bytes(&mut self, bytes: &[u8], maximum: usize, label: &str) -> (res: Result<(), String>)
        ensures
            bytes_fit(bytes@, maximum as nat) ==> res is Ok && final(self)@ == old(self)@
                + enc_bytes(bytes@),
            !bytes_fit(bytes@, maximum as nat) ==> (res matches Err(m) && m@ == over_limit_message(label@)
                && final(self)@ == old(self)@),
    {
        let length = bytes.len();
        if length > maximum || length > 0xffff_ffff {
            let mut message = String::from_str(label);
            message.append(" exceeds the storage record limit");
            return Err(message);
        }
        push_le(&mut self.bytes, length as u64, 4);
        self.bytes.extend_from_slice(bytes);
        assert(final(self)@ =~= old(self)@ + enc_bytes(bytes@));
        Ok(())
    }

    /// Appends a text field.
    pub fn string(&mut self, value: &str, label: &str) -> (res: Result<(), String>)
        ensures
            string_fits(value@) ==> res is Ok && final(self)@ == old(self)@ + enc_string(value@),
            !string_fits(value@) ==> (res matches Err(m) && m@ == over_limit_message(label@)
                && final(self)@ == old(self)@),
    {
        self.bytes(value.as_bytes(), MAX_CODEC_STRING_BYTES, label)
    }

    /// The bytes written so far.
    pub fn finish(self) -> (bytes: Vec<u8>)
        ensures
            bytes@ == self@,
    {
        self.bytes
    }
}

/// Reads fields off the front of a record.
pub struct Decoder<'a> {
    bytes: &'a [u8],
    position: usize,
}

impl<'a> Decoder<'a> {
    #[verifier::type_invariant]
    spec fn position_in_bounds(self) -> bool {
        self.position <= self.bytes@.len()
    }

    /// The bytes not yet read.
    pub closed spec fn rest(self) -> Seq<u8> {
        self.bytes@.subrange(self.position as int, self.bytes@.len() as int)
    }

    /// Reads `bytes` from the start.
    pub fn new(bytes: &'a [u8]) -> (d: Self)
        ensures
            d.rest() == bytes@,
    {
        let d = Decoder { bytes, position: 0 };
        assert(d.rest() =~= bytes@);
        d
    }

    /// Reads `length` bytes.
    pub fn take(&mut self, length: usize, label: &str) -> (res: Result<&'a [u8], String>)
        ensures
            length <= old(self).rest().len() ==> (res matches Ok(b) && b@ == old(self).rest().take(
                length as int,
            ) && final(self).rest() == old(self).rest().skip(length as int)),
            length > old(self).rest().len() ==> res is Err && final(self).rest() == old(
                self,
            ).rest(),
    {
        proof {
            use_type_invariant(&*self);
        }
        let total = self.bytes.len();
        if length > total - self.position {
            let mut message = String::from_str(label);
            if length > usize::MAX - self.position {
                message.append(" length overflows record bounds");
            } else {
                message.append(" is truncated");
            }
            return Err(message);
        }
        let end = self.position + length;
        let result = &self.bytes[self.position..end];
        let ghost old_rest = self.rest();
        self.position = end;
        assert(result@ =~= old_rest.take(length as int));
        assert(self.rest() =~= old_rest.skip(length as int));
        Ok(result)
    }

    /// Reads bytes that must equal `expected`.
    pub fn raw(&mut self, expected: &[u8]) -> (res: Result<(), String>)
        ensures
            res is Ok <==> expected@.len() <= old(self).rest().len() && old(self).rest().take(
                expected@.len() as int,
            ) == expected@,
            res is Ok ==> final(self).rest() == old(self).rest().skip(expected@.len() as int),
    {
        let actual = self.take(expected.len(), "record magic")?;
        if !bytes_equal(actual, expected) {
            return Err(String::from_str("unsupported event record codec"));
        }
        Ok(())
    }

    fn fixed(&mut self, width: usize, label: &str) -> (res: Result<u64, String>)
        requires
            width <= 8,
        ensures
            take_le(old(self).rest(), width as nat) matches Some((v, r)) ==> res matches Ok(x)
                && x == v && final(self).rest() == r,
            take_le(old(self).rest(), width as nat) is None ==> res is Err,
    {
        let piece = self.take(width, label)?;
        assert(piece@.subrange(0, width as int) =~= piece@);
        Ok(read_le(piece, 0, width))
    }

    /// Reads one byte.
    pub fn u8(&mut self) -> (res: Result<u8, String>)
        ensures
            take_le(old(self).rest(), 1) matches Some((v, r)) ==> res matches Ok(x) && x == v
                && final(self).rest() == r,
            take_le(old(self).rest(), 1) is None ==> res is Err,
    {
        let v = self.fixed(1, "u8")?;
        proof {
            lemma_pow256_values();
            lemma_le_value_bound(old(self).rest().take(1));
        }
        Ok(v as u8)
    }

    /// Reads a little-endian 16-bit number.
    pub fn u16(&mut self) -> (res: Result<u16, String>)
        ensures
            take_le(old(self).rest(), 2) matches Some((v, r)) ==> res matches Ok(x) && x == v
                && final(self).rest() == r,
            take_le(old(self).rest(), 2) is None ==> res is Err,
    {
        let v = self.fixed(2, "u16")?;
        proof {
            lemma_pow256_values();
            lemma_le_value_bound(old(self).rest().take(2));
        }
        Ok(v as u16)
    }

    /// Reads a little-endian 32-bit number.
    pub fn u32(&mut self) -> (res: Result<u32, String>)
        ensures
            take_le(old(self).rest(), 4) matches Some((v, r)) ==> res matches Ok(x) && x == v
                && final(self).rest() == r,
            take_le(old(self).rest(), 4) is None ==> res is Err,
    {
        let v = self.fixed(4, "u32")?;
        proof {
            lemma_pow256_values();
            lemma_le_value_bound(old(self).rest().take(4));
        }
        Ok(v as u32)
    }

    /// Reads a little-endian 64-bit number.
    pub fn u64(&mut self) -> (res: Result<u64, String>)
        ensures
            take_le(old(self).rest(), 8) matches Some((v, r)) ==> res matches Ok(x) && x == v
                && final(self).rest() == r,
            take_le(old(self).rest(), 8) is None ==> res is Err,
    {
        self.fixed(8, "u64")
    }

    /// Reads a length-prefixed byte string of at most `maximum` bytes.
    pub fn bytes(&mut self, maximum: usize, label: &str) -> (res: Result<Vec<u8>, String>)
        ensures
            take_bytes(old(self).rest(), maximum as nat) matches Some((b, r)) ==> res matches Ok(
                v,
            ) && v@ == b && final(self).rest() == r,
            take_bytes(old(self).rest(), maximum as nat) is None ==> res is Err,
    {
        let length = self.u32()? as usize;
        if length > maximum {
            let mut message = String::from_str(label);
            message.append(" exceeds the storage record limit");
            return Err(message);
        }
        let piece = self.take(length, label)?;
        let mut owned: Vec<u8> = Vec::new();
        owned.extend_from_slice(piece);
        assert(owned@ =~= piece@);
        Ok(owned)
    }

    /// Reads a UTF-8 text field.
    pub fn string(&mut self, label: &str) -> (res: Result<String, String>)
        ensures
            take_string(old(self).rest()) matches Some((c, r)) ==> res matches Ok(s) && s@ == c
                && final(self).rest() == r,
            take_string(old(self).rest()) is None ==> res is Err,
    {
        let bytes = self.bytes(MAX_CODEC_STRING_BYTES, label)?;
        match utf8_string(bytes) {
            Some(s) => Ok(s),
            None => {
                let mut message = String::from_str(label);
                message.append(" is not valid UTF-8");
                Err(message)
            },
        }
    }

    /// Succeeds exactly when every byte has been read.
    pub fn finish(self) -> (res: Result<(), String>)
        ensures
            res is Ok <==> self.rest().len() == 0,
    {
        proof {
            use_type_invariant(&self);
        }
        if self.position == self.bytes.len() {
            Ok(())
        } else {
            Err(String::from_str("event record has trailing bytes"))
        }
    }
}

/// Compares two byte slices element by element.
pub fn bytes_equal(a: &[u8], b: &[u8]) -> (eq: bool)
    ensures
        eq <==> a@ == b@,
{
    if a.len() != b.len() {
        return false;
    }
    let mut i: usize = 0;
    while i < a.len()
        invariant
            i <= a@.len(),
            a@.len() == b@.len(),
            forall|j: int| 0 <= j < i ==> a@[j] == b@[j],
        decreases a@.len() - i,
    {
        if a[i] != b[i] {
            return false;
        }
        i = i + 1;
    }
    assert(a@ =~= b@);
    true
}

} // verus!
