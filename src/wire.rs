use vstd::prelude::*;
use crate::error::DecodeError;
use vstd::utf8::{decode_utf8, encode_utf8, valid_utf8};

verus! {

/// A cursor over a byte string: what is left to read is `self@`.
pub struct Reader {
    bytes: Vec<u8>,
    pos: usize,
}

impl View for Reader {
    type V = Seq<u8>;

    closed spec fn view(&self) -> Seq<u8> {
        self.bytes@.subrange(self.pos as int, self.bytes@.len() as int)
    }
}

impl Reader {
    pub closed spec fn wf(&self) -> bool {
        self.pos <= self.bytes@.len()
    }

    pub fn new(bytes: Vec<u8>) -> (r: Reader)
        ensures
            r.wf(),
            r@ == bytes@,
    {
        let r = Reader { bytes, pos: 0 };
        assert(r@ =~= r.bytes@);
        r
    }

    pub fn remaining(&self) -> (n: usize)
        requires
            self.wf(),
        ensures
            n == self@.len(),
    {
        self.bytes.len() - self.pos
    }
}

/// Big-endian bytes of a 16-bit value.
pub open spec fn be_u16(v: u16) -> Seq<u8> {
    seq![(v >> 8u16) as u8, v as u8]
}

/// Big-endian bytes of a 32-bit value.
pub open spec fn be_u32(v: u32) -> Seq<u8> {
    seq![(v >> 24u32) as u8, (v >> 16u32) as u8, (v >> 8u32) as u8, v as u8]
}

/// Big-endian bytes of a 64-bit value.
pub open spec fn be_u64(v: u64) -> Seq<u8> {
    seq![
        (v >> 56u64) as u8,
        (v >> 48u64) as u8,
        (v >> 40u64) as u8,
        (v >> 32u64) as u8,
        (v >> 24u64) as u8,
        (v >> 16u64) as u8,
        (v >> 8u64) as u8,
        v as u8,
    ]
}

/// The 16-bit value whose big-endian bytes start `b`.
pub open spec fn u16_of(b: Seq<u8>) -> u16 {
    ((b[0] as u16) << 8u16) | (b[1] as u16)
}

/// The 32-bit value whose big-endian bytes start `b`.
pub open spec fn u32_of(b: Seq<u8>) -> u32 {
    ((b[0] as u32) << 24u32) | ((b[1] as u32) << 16u32) | ((b[2] as u32) << 8u32) | (b[3] as u32)
}

/// The 64-bit value whose big-endian bytes start `b`.
pub open spec fn u64_of(b: Seq<u8>) -> u64 {
    ((b[0] as u64) << 56u64) | ((b[1] as u64) << 48u64) | ((b[2] as u64) << 40u64) | ((b[3]
        as u64) << 32u64) | ((b[4] as u64) << 24u64) | ((b[5] as u64) << 16u64) | ((b[6] as u64)
        << 8u64) | (b[7] as u64)
}

/// The signed value with the two's-complement bits of `u`.
pub open spec fn signed32(u: u32) -> i32 {
    if u <= 0x7fff_ffff {
        u as i32
    } else {
        (u - 0x1_0000_0000) as i32
    }
}

/// The two's-complement bits of `v`.
pub open spec fn unsigned32(v: i32) -> u32 {
    if v >= 0 {
        v as u32
    } else {
        (v + 0x1_0000_0000) as u32
    }
}

/// The signed value with the two's-complement bits of `u`.
pub open spec fn signed64(u: u64) -> i64 {
    if u <= 0x7fff_ffff_ffff_ffff {
        u as i64
    } else {
        (u - 0x1_0000_0000_0000_0000) as i64
    }
}

/// The two's-complement bits of `v`.
pub open spec fn unsigned64(v: i64) -> u64 {
    if v >= 0 {
        v as u64
    } else {
        (v + 0x1_0000_0000_0000_0000) as u64
    }
}

fn i32_from_bits(u: u32) -> (r: i32)
    ensures
        r == signed32(u),
{
    if u <= 0x7fff_ffff {
        u as i32
    } else {
        ((u - 0x8000_0000) as i32) - 0x7fff_ffff - 1
    }
}

fn i32_to_bits(v: i32) -> (r: u32)
    ensures
        r == unsigned32(v),
{
    if v >= 0 {
        v as u32
    } else {
        ((v + 0x7fff_ffff + 1) as u32) + 0x8000_0000
    }
}

fn i64_from_bits(u: u64) -> (r: i64)
    ensures
        r == signed64(u),
{
    if u <= 0x7fff_ffff_ffff_ffff {
        u as i64
    } else {
        ((u - 0x8000_0000_0000_0000) as i64) - 0x7fff_ffff_ffff_ffff - 1
    }
}

fn i64_to_bits(v: i64) -> (r: u64)
    ensures
        r == unsigned64(v),
{
    if v >= 0 {
        v as u64
    } else {
        ((v + 0x7fff_ffff_ffff_ffff + 1) as u64) + 0x8000_0000_0000_0000
    }
}

/// A fixed-width value `v` read from the first `n` bytes of `b`, and the bytes after them.
pub open spec fn parse_fixed<T>(b: Seq<u8>, n: nat, v: T) -> Result<(T, Seq<u8>), DecodeError> {
    if b.len() >= n {
        Ok((v, b.subrange(n as int, b.len() as int)))
    } else {
        Err(DecodeError::Truncated)
    }
}

pub open spec fn parse_u8(b: Seq<u8>) -> Result<(u8, Seq<u8>), DecodeError> {
    parse_fixed(b, 1, b[0])
}

pub open spec fn parse_u16(b: Seq<u8>) -> Result<(u16, Seq<u8>), DecodeError> {
    parse_fixed(b, 2, u16_of(b))
}

pub open spec fn parse_u32(b: Seq<u8>) -> Result<(u32, Seq<u8>), DecodeError> {
    parse_fixed(b, 4, u32_of(b))
}

pub open spec fn parse_i32(b: Seq<u8>) -> Result<(i32, Seq<u8>), DecodeError> {
    parse_fixed(b, 4, signed32(u32_of(b)))
}

pub open spec fn parse_u64(b: Seq<u8>) -> Result<(u64, Seq<u8>), DecodeError> {
    parse_fixed(b, 8, u64_of(b))
}

pub open spec fn parse_i64(b: Seq<u8>) -> Result<(i64, Seq<u8>), DecodeError> {
    parse_fixed(b, 8, signed64(u64_of(b)))
}

/// A length-prefixed UTF-8 string: a 4-byte byte count, then that many bytes.
pub open spec fn parse_string(b: Seq<u8>) -> Result<(Seq<char>, Seq<u8>), DecodeError> {
    match parse_u32(b) {
        Ok((n, rest)) => if rest.len() < n {
            Err(DecodeError::Truncated)
        } else if !valid_utf8(rest.subrange(0, n as int)) {
            Err(DecodeError::InvalidUtf8)
        } else {
            Ok(
                (
                    decode_utf8(rest.subrange(0, n as int)),
                    rest.subrange(n as int, rest.len() as int),
                ),
            )
        },
        Err(e) => Err(e),
    }
}

/// The wire form of a string: its UTF-8 byte count, then its UTF-8 bytes.
pub open spec fn string_bytes(s: Seq<char>) -> Seq<u8> {
    be_u32(encode_utf8(s).len() as u32) + encode_utf8(s)
}

/// A value that has a mathematical model on the wire.
pub trait WireModel {
    type Model;

    spec fn model(&self) -> Self::Model;
}

/// A type read from the wire, with its grammar as a spec function.
pub trait Decode: WireModel + Sized {
    /// The value at the front of `b` and the bytes after it, or why there is none.
    spec fn parse(b: Seq<u8>) -> Result<(Self::Model, Seq<u8>), DecodeError>;

    fn decode(r: &mut Reader) -> (res: Result<Self, DecodeError>)
        requires
            old(r).wf(),
        ensures
            final(r).wf(),
            match Self::parse(old(r)@) {
                Ok((m, rest)) => res is Ok && res->Ok_0.model() == m && final(r)@ == rest,
                Err(e) => res == Err::<Self, DecodeError>(e),
            },
    ;
}

/// A type written to the wire.
pub trait Encode: WireModel {
    /// The value fits its wire form (lengths and counts fit their prefixes).
    spec fn encodable(m: Self::Model) -> bool;

    spec fn encoding(m: Self::Model) -> Seq<u8>;

    fn encode(&self, out: &mut Vec<u8>)
        requires
            Self::encodable(self.model()),
        ensures
            final(out)@ == old(out)@ + Self::encoding(self.model()),
    ;
}

/// A type both written and read, whose reading undoes its writing.
pub trait Codec: Decode + Encode {
    proof fn lemma_round_trip(m: Self::Model, rest: Seq<u8>)
        requires
            Self::encodable(m),
        ensures
            Self::parse(Self::encoding(m) + rest) == Ok::<(Self::Model, Seq<u8>), DecodeError>(
                (m, rest),
            ),
    ;
}

impl Reader {
    pub fn read_u8(&mut self) -> (res: Result<u8, DecodeError>)
        requires
            old(self).wf(),
        ensures
            final(self).wf(),
            match parse_u8(old(self)@) {
                Ok((v, rest)) => res == Ok::<u8, DecodeError>(v) && final(self)@ == rest,
                Err(e) => res == Err::<u8, DecodeError>(e),
            },
    {
        if self.bytes.len() - self.pos < 1 {
            return Err(DecodeError::Truncated);
        }
        let b = self.bytes[self.pos];
        self.pos = self.pos + 1;
        assert(self@ =~= old(self)@.subrange(1, old(self)@.len() as int));
        Ok(b)
    }

    pub fn read_u16(&mut self) -> (res: Result<u16, DecodeError>)
        requires
            old(self).wf(),
        ensures
            final(self).wf(),
            match parse_u16(old(self)@) {
                Ok((v, rest)) => res == Ok::<u16, DecodeError>(v) && final(self)@ == rest,
                Err(e) => res == Err::<u16, DecodeError>(e),
            },
    {
        if self.bytes.len() - self.pos < 2 {
            return Err(DecodeError::Truncated);
        }
        let p = self.pos;
        let v = ((self.bytes[p] as u16) << 8u16) | (self.bytes[p + 1] as u16);
        self.pos = p + 2;
        assert(self@ =~= old(self)@.subrange(2, old(self)@.len() as int));
        Ok(v)
    }

    pub fn read_u32(&mut self) -> (res: Result<u32, DecodeError>)
        requires
            old(self).wf(),
        ensures
            final(self).wf(),
            match parse_u32(old(self)@) {
                Ok((v, rest)) => res == Ok::<u32, DecodeError>(v) && final(self)@ == rest,
                Err(e) => res == Err::<u32, DecodeError>(e),
            },
    {
        if self.bytes.len() - self.pos < 4 {
            return Err(DecodeError::Truncated);
        }
        let p = self.pos;
        let v = ((self.bytes[p] as u32) << 24u32) | ((self.bytes[p + 1] as u32) << 16u32) | ((
        self.bytes[p + 2] as u32) << 8u32) | (self.bytes[p + 3] as u32);
        self.pos = p + 4;
        assert(self@ =~= old(self)@.subrange(4, old(self)@.len() as int));
        Ok(v)
    }

    pub fn read_u64(&mut self) -> (res: Result<u64, DecodeError>)
        requires
            old(self).wf(),
        ensures
            final(self).wf(),
            match parse_u64(old(self)@) {
                Ok((v, rest)) => res == Ok::<u64, DecodeError>(v) && final(self)@ == rest,
                Err(e) => res == Err::<u64, DecodeError>(e),
            },
    {
        if self.bytes.len() - self.pos < 8 {
            return Err(DecodeError::Truncated);
        }
        let p = self.pos;
        let v = ((self.bytes[p] as u64) << 56u64) | ((self.bytes[p + 1] as u64) << 48u64) | ((
        self.bytes[p + 2] as u64) << 40u64) | ((self.bytes[p + 3] as u64) << 32u64) | ((self.bytes[p
            + 4] as u64) << 24u64) | ((self.bytes[p + 5] as u64) << 16u64) | ((self.bytes[p + 6]
            as u64) << 8u64) | (self.bytes[p + 7] as u64);
        self.pos = p + 8;
        assert(self@ =~= old(self)@.subrange(8, old(self)@.len() as int));
        Ok(v)
    }

    /// Passes over the next `n` bytes.
    pub fn skip(&mut self, n: usize) -> (res: Result<(), DecodeError>)
        requires
            old(self).wf(),
        ensures
            final(self).wf(),
            old(self)@.len() >= n ==> res is Ok && final(self)@ == old(self)@.subrange(
                n as int,
                old(self)@.len() as int,
            ),
            old(self)@.len() < n ==> res == Err::<(), DecodeError>(DecodeError::Truncated),
    {
        if self.bytes.len() - self.pos < n {
            return Err(DecodeError::Truncated);
        }
        self.pos = self.pos + n;
        assert(self@ =~= old(self)@.subrange(n as int, old(self)@.len() as int));
        Ok(())
    }

    /// Takes the next `n` bytes.
    pub fn read_bytes(&mut self, n: usize) -> (res: Result<Vec<u8>, DecodeError>)
        requires
            old(self).wf(),
        ensures
            final(self).wf(),
            old(self)@.len() >= n ==> res is Ok && res->Ok_0@ == old(self)@.subrange(0, n as int)
                && final(self)@ == old(self)@.subrange(n as int, old(self)@.len() as int),
            old(self)@.len() < n ==> res == Err::<Vec<u8>, DecodeError>(DecodeError::Truncated),
    {
        if self.bytes.len() - self.pos < n {
            return Err(DecodeError::Truncated);
        }
        let len = self.bytes.len();
        let mut out: Vec<u8> = Vec::new();
        let mut i: usize = 0;
        while i < n
            invariant
                self.wf(),
                len == self.bytes@.len(),
                self.pos == old(self).pos,
                self.bytes@ == old(self).bytes@,
                self.bytes@.len() - self.pos >= n,
                i <= n,
                out@ == old(self)@.subrange(0, i as int),
            decreases n - i,
        {
            out.push(self.bytes[self.pos + i]);
            i = i + 1;
            assert(out@ =~= old(self)@.subrange(0, i as int));
        }
        self.pos = self.pos + n;
        assert(self@ =~= old(self)@.subrange(n as int, old(self)@.len() as int));
        Ok(out)
    }
}

/// Relies on `String::from_utf8`: it accepts exactly the valid UTF-8 byte strings, and the
/// string it returns holds the characters they encode.
#[verifier::external_body]
pub(crate) fn string_from_utf8(bytes: Vec<u8>) -> (r: Option<String>)
    ensures
        r is Some <==> valid_utf8(bytes@),
        r matches Some(s) ==> s@ == decode_utf8(bytes@),
{
    String::from_utf8(bytes).ok()
}

fn push_all(out: &mut Vec<u8>, b: &[u8])
    ensures
        final(out)@ == old(out)@ + b@,
{
    let mut i: usize = 0;
    while i < b.len()
        invariant
            i <= b@.len(),
            out@ == old(out)@ + b@.subrange(0, i as int),
        decreases b@.len() - i,
    {
        out.push(b[i]);
        i = i + 1;
        assert(out@ =~= old(out)@ + b@.subrange(0, i as int));
    }
    assert(b@.subrange(0, b@.len() as int) =~= b@);
}

pub fn write_u16(out: &mut Vec<u8>, v: u16)
    ensures
        final(out)@ == old(out)@ + be_u16(v),
{
    out.push((v >> 8u16) as u8);
    out.push(v as u8);
    assert(out@ =~= old(out)@ + be_u16(v));
}

pub fn write_u32(out: &mut Vec<u8>, v: u32)
    ensures
        final(out)@ == old(out)@ + be_u32(v),
{
    out.push((v >> 24u32) as u8);
    out.push((v >> 16u32) as u8);
    out.push((v >> 8u32) as u8);
    out.push(v as u8);
    assert(out@ =~= old(out)@ + be_u32(v));
}

pub fn write_u64(out: &mut Vec<u8>, v: u64)
    ensures
        final(out)@ == old(out)@ + be_u64(v),
{
    out.push((v >> 56u64) as u8);
    out.push((v >> 48u64) as u8);
    out.push((v >> 40u64) as u8);
    out.push((v >> 32u64) as u8);
    out.push((v >> 24u64) as u8);
    out.push((v >> 16u64) as u8);
    out.push((v >> 8u64) as u8);
    out.push(v as u8);
    assert(out@ =~= old(out)@ + be_u64(v));
}


pub proof fn lemma_u16_bytes(v: u16)
    by (bit_vector)
    ensures
        ((((v >> 8u16) as u8) as u16) << 8u16) | ((v as u8) as u16) == v,
{
}

pub proof fn lemma_u32_bytes(v: u32)
    by (bit_vector)
    ensures
        ((((v >> 24u32) as u8) as u32) << 24u32) | ((((v >> 16u32) as u8) as u32) << 16u32) | ((((v
            >> 8u32) as u8) as u32) << 8u32) | ((v as u8) as u32) == v,
{
}

pub proof fn lemma_u64_bytes(v: u64)
    by (bit_vector)
    ensures
        ((((v >> 56u64) as u8) as u64) << 56u64) | ((((v >> 48u64) as u8) as u64) << 48u64) | ((((v
            >> 40u64) as u8) as u64) << 40u64) | ((((v >> 32u64) as u8) as u64) << 32u64) | ((((v
            >> 24u64) as u8) as u64) << 24u64) | ((((v >> 16u64) as u8) as u64) << 16u64) | ((((v
            >> 8u64) as u8) as u64) << 8u64) | ((v as u8) as u64) == v,
{
}

pub proof fn lemma_skip_prefix(a: Seq<u8>, rest: Seq<u8>)
    ensures
        (a + rest).subrange(a.len() as int, (a + rest).len() as int) == rest,
        (a + rest).subrange(0, a.len() as int) == a,
{
    assert((a + rest).subrange(a.len() as int, (a + rest).len() as int) =~= rest);
    assert((a + rest).subrange(0, a.len() as int) =~= a);
}

impl WireModel for u8 {
    type Model = u8;

    open spec fn model(&self) -> u8 {
        *self
    }
}

impl Decode for u8 {
    open spec fn parse(b: Seq<u8>) -> Result<(u8, Seq<u8>), DecodeError> {
        parse_u8(b)
    }

    fn decode(r: &mut Reader) -> (res: Result<u8, DecodeError>) {
        r.read_u8()
    }
}

impl Encode for u8 {
    open spec fn encodable(m: u8) -> bool {
        true
    }

    open spec fn encoding(m: u8) -> Seq<u8> {
        seq![m]
    }

    fn encode(&self, out: &mut Vec<u8>) {
        out.push(*self);
    }
}

impl Codec for u8 {
    proof fn lemma_round_trip(m: u8, rest: Seq<u8>) {
        lemma_skip_prefix(seq![m], rest);
    }
}

impl WireModel for u16 {
    type Model = u16;

    open spec fn model(&self) -> u16 {
        *self
    }
}

impl Decode for u16 {
    open spec fn parse(b: Seq<u8>) -> Result<(u16, Seq<u8>), DecodeError> {
        parse_u16(b)
    }

    fn decode(r: &mut Reader) -> (res: Result<u16, DecodeError>) {
        r.read_u16()
    }
}

impl Encode for u16 {
    open spec fn encodable(m: u16) -> bool {
        true
    }

    open spec fn encoding(m: u16) -> Seq<u8> {
        be_u16(m)
    }

    fn encode(&self, out: &mut Vec<u8>) {
        write_u16(out, *self);
    }
}

impl Codec for u16 {
    proof fn lemma_round_trip(m: u16, rest: Seq<u8>) {
        lemma_skip_prefix(be_u16(m), rest);
        lemma_u16_bytes(m);
    }
}

impl WireModel for u32 {
    type Model = u32;

    open spec fn model(&self) -> u32 {
        *self
    }
}

impl Decode for u32 {
    open spec fn parse(b: Seq<u8>) -> Result<(u32, Seq<u8>), DecodeError> {
        parse_u32(b)
    }

    fn decode(r: &mut Reader) -> (res: Result<u32, DecodeError>) {
        r.read_u32()
    }
}

impl Encode for u32 {
    open spec fn encodable(m: u32) -> bool {
        true
    }

    open spec fn encoding(m: u32) -> Seq<u8> {
        be_u32(m)
    }

    fn encode(&self, out: &mut Vec<u8>) {
        write_u32(out, *self);
    }
}

impl Codec for u32 {
    proof fn lemma_round_trip(m: u32, rest: Seq<u8>) {
        lemma_skip_prefix(be_u32(m), rest);
        lemma_u32_bytes(m);
    }
}

impl WireModel for i32 {
    type Model = i32;

    open spec fn model(&self) -> i32 {
        *self
    }
}

impl Decode for i32 {
    open spec fn parse(b: Seq<u8>) -> Result<(i32, Seq<u8>), DecodeError> {
        parse_i32(b)
    }

    fn decode(r: &mut Reader) -> (res: Result<i32, DecodeError>) {
        let ghost b = r@;
        match r.read_u32() {
            Ok(v) => {
                let x = i32_from_bits(v);
                assert(<i32 as Decode>::parse(b) == parse_i32(b));
                Ok(x)
            },
            Err(e) => Err(e),
        }
    }
}

impl Encode for i32 {
    open spec fn encodable(m: i32) -> bool {
        true
    }

    open spec fn encoding(m: i32) -> Seq<u8> {
        be_u32(unsigned32(m))
    }

    fn encode(&self, out: &mut Vec<u8>) {
        write_u32(out, i32_to_bits(*self));
    }
}

impl Codec for i32 {
    proof fn lemma_round_trip(m: i32, rest: Seq<u8>) {
        lemma_skip_prefix(be_u32(unsigned32(m)), rest);
        lemma_u32_bytes(unsigned32(m));
    }
}

impl WireModel for u64 {
    type Model = u64;

    open spec fn model(&self) -> u64 {
        *self
    }
}

impl Decode for u64 {
    open spec fn parse(b: Seq<u8>) -> Result<(u64, Seq<u8>), DecodeError> {
        parse_u64(b)
    }

    fn decode(r: &mut Reader) -> (res: Result<u64, DecodeError>) {
        r.read_u64()
    }
}

impl Encode for u64 {
    open spec fn encodable(m: u64) -> bool {
        true
    }

    open spec fn encoding(m: u64) -> Seq<u8> {
        be_u64(m)
    }

    fn encode(&self, out: &mut Vec<u8>) {
        write_u64(out, *self);
    }
}

impl Codec for u64 {
    proof fn lemma_round_trip(m: u64, rest: Seq<u8>) {
        lemma_skip_prefix(be_u64(m), rest);
        lemma_u64_bytes(m);
    }
}

impl WireModel for i64 {
    type Model = i64;

    open spec fn model(&self) -> i64 {
        *self
    }
}

impl Decode for i64 {
    open spec fn parse(b: Seq<u8>) -> Result<(i64, Seq<u8>), DecodeError> {
        parse_i64(b)
    }

    fn decode(r: &mut Reader) -> (res: Result<i64, DecodeError>) {
        match r.read_u64() {
            Ok(v) => Ok(i64_from_bits(v)),
            Err(e) => Err(e),
        }
    }
}

impl Encode for i64 {
    open spec fn encodable(m: i64) -> bool {
        true
    }

    open spec fn encoding(m: i64) -> Seq<u8> {
        be_u64(unsigned64(m))
    }

    fn encode(&self, out: &mut Vec<u8>) {
        write_u64(out, i64_to_bits(*self));
    }
}

impl Codec for i64 {
    proof fn lemma_round_trip(m: i64, rest: Seq<u8>) {
        lemma_skip_prefix(be_u64(unsigned64(m)), rest);
        lemma_u64_bytes(unsigned64(m));
    }
}


impl WireModel for String {
    type Model = Seq<char>;

    open spec fn model(&self) -> Seq<char> {
        self@
    }
}

impl Decode for String {
    open spec fn parse(b: Seq<u8>) -> Result<(Seq<char>, Seq<u8>), DecodeError> {
        parse_string(b)
    }

    fn decode(r: &mut Reader) -> (res: Result<String, DecodeError>) {
        let n = match r.read_u32() {
            Ok(n) => n,
            Err(e) => return Err(e),
        };
        let bytes = match r.read_bytes(n as usize) {
            Ok(b) => b,
            Err(e) => return Err(e),
        };
        match string_from_utf8(bytes) {
            Some(s) => Ok(s),
            None => Err(DecodeError::InvalidUtf8),
        }
    }
}

/// Writes `s` in its wire form.
pub fn write_str(out: &mut Vec<u8>, s: &str)
    requires
        encode_utf8(s@).len() <= u32::MAX,
    ensures
        final(out)@ == old(out)@ + string_bytes(s@),
{
    let b = s.as_bytes();
    write_u32(out, b.len() as u32);
    push_all(out, b);
    assert(out@ =~= old(out)@ + string_bytes(s@));
}

impl Encode for String {
    open spec fn encodable(m: Seq<char>) -> bool {
        encode_utf8(m).len() <= u32::MAX
    }

    open spec fn encoding(m: Seq<char>) -> Seq<u8> {
        string_bytes(m)
    }

    fn encode(&self, out: &mut Vec<u8>) {
        write_str(out, self.as_str());
    }
}

impl<'a> WireModel for &'a str {
    type Model = Seq<char>;

    open spec fn model(&self) -> Seq<char> {
        (*self)@
    }
}

impl<'a> Encode for &'a str {
    open spec fn encodable(m: Seq<char>) -> bool {
        encode_utf8(m).len() <= u32::MAX
    }

    open spec fn encoding(m: Seq<char>) -> Seq<u8> {
        string_bytes(m)
    }

    fn encode(&self, out: &mut Vec<u8>) {
        write_str(out, *self);
    }
}

impl Codec for String {
    proof fn lemma_round_trip(m: Seq<char>, rest: Seq<u8>) {
        let e = encode_utf8(m);
        let n = e.len() as u32;
        vstd::utf8::encode_utf8_valid_utf8(m);
        vstd::utf8::encode_utf8_decode_utf8(m);
        assert(string_bytes(m) + rest =~= be_u32(n) + (e + rest));
        lemma_skip_prefix(be_u32(n), e + rest);
        lemma_u32_bytes(n);
        lemma_skip_prefix(e, rest);
    }
}

/// `n` values of `T`, one after another.
pub open spec fn parse_items<T: Decode>(b: Seq<u8>, n: nat) -> Result<
    (Seq<T::Model>, Seq<u8>),
    DecodeError,
>
    decreases n,
{
    if n == 0 {
        Ok((Seq::empty(), b))
    } else {
        match T::parse(b) {
            Ok((m, r)) => match parse_items::<T>(r, (n - 1) as nat) {
                Ok((ms, r2)) => Ok((seq![m] + ms, r2)),
                Err(e) => Err(e),
            },
            Err(e) => Err(e),
        }
    }
}

/// The wire form of values, one after another.
pub open spec fn encode_items<T: Encode>(ms: Seq<T::Model>) -> Seq<u8>
    decreases ms.len(),
{
    if ms.len() == 0 {
        Seq::empty()
    } else {
        T::encoding(ms[0]) + encode_items::<T>(ms.drop_first())
    }
}

/// `res` with `acc` put before the values it holds.
pub open spec fn prepend_items<M>(
    acc: Seq<M>,
    res: Result<(Seq<M>, Seq<u8>), DecodeError>,
) -> Result<(Seq<M>, Seq<u8>), DecodeError> {
    match res {
        Ok((ms, r)) => Ok((acc + ms, r)),
        Err(e) => Err(e),
    }
}

proof fn lemma_encode_items_push<T: Encode>(ms: Seq<T::Model>, m: T::Model)
    ensures
        encode_items::<T>(ms.push(m)) == encode_items::<T>(ms) + T::encoding(m),
    decreases ms.len(),
{
    if ms.len() == 0 {
        assert(ms.push(m).drop_first() =~= Seq::<T::Model>::empty());
        assert(encode_items::<T>(Seq::<T::Model>::empty()) == Seq::<u8>::empty());
        assert(ms.push(m)[0] == m);
        assert(encode_items::<T>(ms) == Seq::<u8>::empty());
        assert(encode_items::<T>(ms.push(m)) =~= T::encoding(m) + Seq::<u8>::empty());
        assert(encode_items::<T>(ms.push(m)) =~= T::encoding(m));
    } else {
        assert(ms.push(m).drop_first() =~= ms.drop_first().push(m));
        lemma_encode_items_push::<T>(ms.drop_first(), m);
        assert(encode_items::<T>(ms.push(m)) =~= encode_items::<T>(ms) + T::encoding(m));
    }
}

proof fn lemma_items_round_trip<T: Codec>(ms: Seq<T::Model>, rest: Seq<u8>)
    requires
        forall|i: int| 0 <= i < ms.len() ==> T::encodable(#[trigger] ms[i]),
    ensures
        parse_items::<T>(encode_items::<T>(ms) + rest, ms.len()) == Ok::<
            (Seq<T::Model>, Seq<u8>),
            DecodeError,
        >((ms, rest)),
    decreases ms.len(),
{
    if ms.len() == 0 {
        assert(encode_items::<T>(ms) + rest =~= rest);
        assert(ms =~= Seq::<T::Model>::empty());
    } else {
        let tail = ms.drop_first();
        assert forall|i: int| 0 <= i < tail.len() implies T::encodable(#[trigger] tail[i]) by {
            assert(tail[i] == ms[i + 1]);
        }
        lemma_items_round_trip::<T>(tail, rest);
        assert(T::encodable(ms[0]));
        T::lemma_round_trip(ms[0], encode_items::<T>(tail) + rest);
        assert(encode_items::<T>(ms) + rest =~= T::encoding(ms[0]) + (encode_items::<T>(tail)
            + rest));
        assert(seq![ms[0]] + tail =~= ms);
    }
}

impl<T: WireModel> WireModel for Vec<T> {
    type Model = Seq<T::Model>;

    open spec fn model(&self) -> Seq<T::Model> {
        self@.map_values(|x: T| x.model())
    }
}

impl<T: Decode> Decode for Vec<T> {
    /// A 4-byte signed count, then that many values; a negative count is an error.
    open spec fn parse(b: Seq<u8>) -> Result<(Seq<T::Model>, Seq<u8>), DecodeError> {
        match parse_i32(b) {
            Ok((n, rest)) => if n < 0 {
                Err(DecodeError::NegativeCount)
            } else {
                parse_items::<T>(rest, n as nat)
            },
            Err(e) => Err(e),
        }
    }

    fn decode(r: &mut Reader) -> (res: Result<Vec<T>, DecodeError>) {
        let count = match i32::decode(r) {
            Ok(c) => c,
            Err(e) => return Err(e),
        };
        if count < 0 {
            return Err(DecodeError::NegativeCount);
        }
        read_items::<T>(r, count as usize)
    }
}

/// Reads `n` values of `T`, one after another.
pub fn read_items<T: Decode>(r: &mut Reader, n: usize) -> (res: Result<Vec<T>, DecodeError>)
    requires
        old(r).wf(),
    ensures
        final(r).wf(),
        match parse_items::<T>(old(r)@, n as nat) {
            Ok((ms, rest)) => res is Ok && res->Ok_0.model() == ms && final(r)@ == rest,
            Err(e) => res == Err::<Vec<T>, DecodeError>(e),
        },
{
    let ghost start = r@;
    let mut items: Vec<T> = Vec::new();
    let mut i: usize = 0;
    while i < n
        invariant
            r.wf(),
            i <= n,
            start == old(r)@,
            parse_items::<T>(start, n as nat) == prepend_items(
                items@.map_values(|x: T| x.model()),
                parse_items::<T>(r@, (n - i) as nat),
            ),
        decreases n - i,
    {
        let ghost cur = r@;
        let ghost acc = items@.map_values(|x: T| x.model());
        let x = match T::decode(r) {
            Ok(x) => x,
            Err(e) => {
                assert(parse_items::<T>(cur, (n - i) as nat) == Err::<
                    (Seq<T::Model>, Seq<u8>),
                    DecodeError,
                >(e));
                return Err(e);
            },
        };
        proof {
            let (m, r1) = T::parse(cur)->Ok_0;
            assert(x.model() == m);
            assert(items@.push(x).map_values(|x: T| x.model()) =~= acc.push(m));
            match parse_items::<T>(r1, (n - i - 1) as nat) {
                Ok((ms, r2)) => {
                    assert(acc + (seq![m] + ms) =~= acc.push(m) + ms);
                },
                Err(e) => {},
            }
        }
        items.push(x);
        i = i + 1;
    }
    proof {
        assert(items@.map_values(|x: T| x.model()) + Seq::<T::Model>::empty() =~= items@.map_values(
            |x: T| x.model(),
        ));
    }
    Ok(items)
}

impl<T: Encode> Encode for Vec<T> {
    open spec fn encodable(m: Seq<T::Model>) -> bool {
        m.len() <= i32::MAX && forall|i: int| 0 <= i < m.len() ==> T::encodable(#[trigger] m[i])
    }

    open spec fn encoding(m: Seq<T::Model>) -> Seq<u8> {
        be_u32(m.len() as u32) + encode_items::<T>(m)
    }

    fn encode(&self, out: &mut Vec<u8>) {
        let ghost ms = self.model();
        write_u32(out, self.len() as u32);
        let ghost base = out@;
        let mut i: usize = 0;
        while i < self.len()
            invariant
                i <= self@.len(),
                ms == self.model(),
                Self::encodable(ms),
                out@ == base + encode_items::<T>(ms.subrange(0, i as int)),
            decreases self@.len() - i,
        {
            assert(T::encodable(ms[i as int]));
            self[i].encode(out);
            proof {
                lemma_encode_items_push::<T>(ms.subrange(0, i as int), ms[i as int]);
                assert(ms.subrange(0, i as int).push(ms[i as int]) =~= ms.subrange(0, i + 1));
            }
            i = i + 1;
        }
        assert(ms.subrange(0, i as int) =~= ms);
    }
}

impl<T: Codec> Codec for Vec<T> {
    proof fn lemma_round_trip(m: Seq<T::Model>, rest: Seq<u8>) {
        let n = m.len() as u32;
        assert(n as i32 == m.len());
        lemma_u32_bytes(n);
        assert(Self::encoding(m) + rest =~= be_u32(n) + (encode_items::<T>(m) + rest));
        lemma_skip_prefix(be_u32(n), encode_items::<T>(m) + rest);
        lemma_items_round_trip::<T>(m, rest);
    }
}

impl<A: WireModel, B: WireModel> WireModel for (A, B) {
    type Model = (A::Model, B::Model);

    open spec fn model(&self) -> (A::Model, B::Model) {
        (self.0.model(), self.1.model())
    }
}

impl<A: Decode, B: Decode> Decode for (A, B) {
    /// An `A`, then a `B`.
    open spec fn parse(b: Seq<u8>) -> Result<((A::Model, B::Model), Seq<u8>), DecodeError> {
        match A::parse(b) {
            Ok((x, r)) => match B::parse(r) {
                Ok((y, r2)) => Ok(((x, y), r2)),
                Err(e) => Err(e),
            },
            Err(e) => Err(e),
        }
    }

    fn decode(r: &mut Reader) -> (res: Result<(A, B), DecodeError>) {
        let x = match A::decode(r) {
            Ok(x) => x,
            Err(e) => return Err(e),
        };
        let y = match B::decode(r) {
            Ok(y) => y,
            Err(e) => return Err(e),
        };
        Ok((x, y))
    }
}

impl<A: Encode, B: Encode> Encode for (A, B) {
    open spec fn encodable(m: (A::Model, B::Model)) -> bool {
        A::encodable(m.0) && B::encodable(m.1)
    }

    open spec fn encoding(m: (A::Model, B::Model)) -> Seq<u8> {
        A::encoding(m.0) + B::encoding(m.1)
    }

    fn encode(&self, out: &mut Vec<u8>) {
        self.0.encode(out);
        self.1.encode(out);
        assert(out@ =~= old(out)@ + Self::encoding(self.model()));
    }
}

impl<A: Codec, B: Codec> Codec for (A, B) {
    proof fn lemma_round_trip(m: (A::Model, B::Model), rest: Seq<u8>) {
        assert(Self::encoding(m) + rest =~= A::encoding(m.0) + (B::encoding(m.1) + rest));
        A::lemma_round_trip(m.0, B::encoding(m.1) + rest);
        B::lemma_round_trip(m.1, rest);
    }
}

impl WireModel for () {
    type Model = ();

    open spec fn model(&self) -> () {
        ()
    }
}

impl Decode for () {
    /// Nothing: no bytes are read.
    open spec fn parse(b: Seq<u8>) -> Result<((), Seq<u8>), DecodeError> {
        Ok(((), b))
    }

    fn decode(r: &mut Reader) -> (res: Result<(), DecodeError>) {
        Ok(())
    }
}

impl Encode for () {
    open spec fn encodable(m: ()) -> bool {
        true
    }

    open spec fn encoding(m: ()) -> Seq<u8> {
        Seq::empty()
    }

    fn encode(&self, out: &mut Vec<u8>) {
        assert(out@ =~= old(out)@ + Seq::<u8>::empty());
    }
}

impl Codec for () {
    proof fn lemma_round_trip(m: (), rest: Seq<u8>) {
        assert(Seq::<u8>::empty() + rest =~= rest);
    }
}

/// A sequence whose declared count is negative is a decode error, whatever follows the
/// count; it is never read as an empty sequence.
pub proof fn lemma_negative_count_rejected<T: Decode>(count: i32, rest: Seq<u8>)
    requires
        count < 0,
    ensures
        <Vec<T> as Decode>::parse(be_u32(unsigned32(count)) + rest) == Err::<
            (Seq<T::Model>, Seq<u8>),
            DecodeError,
        >(DecodeError::NegativeCount),
{
    lemma_skip_prefix(be_u32(unsigned32(count)), rest);
    lemma_u32_bytes(unsigned32(count));
}

/// `b` read as a whole `T`: every byte belongs to the value.
pub open spec fn parse_exact<T: Decode>(b: Seq<u8>) -> Result<T::Model, DecodeError> {
    match T::parse(b) {
        Ok((m, rest)) => if rest.len() == 0 {
            Ok(m)
        } else {
            Err(DecodeError::TrailingBytes)
        },
        Err(e) => Err(e),
    }
}

/// Decodes `bytes`, which must hold exactly one `T`.
pub fn decode_exact<T: Decode>(bytes: Vec<u8>) -> (r: Result<T, DecodeError>)
    ensures
        match parse_exact::<T>(bytes@) {
            Ok(m) => r is Ok && r->Ok_0.model() == m,
            Err(e) => r == Err::<T, DecodeError>(e),
        },
{
    let mut reader = Reader::new(bytes);
    match T::decode(&mut reader) {
        Ok(v) => if reader.remaining() == 0 {
            Ok(v)
        } else {
            Err(DecodeError::TrailingBytes)
        },
        Err(e) => Err(e),
    }
}

} // verus!
