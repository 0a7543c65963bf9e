use vstd::prelude::*;
use vstd::string::StringSliceAdditionalSpecFns;
use vstd::utf8::{
    encode_utf8, encode_utf8_valid_utf8, is_char_boundary, is_char_boundary_start_end_of_seq, valid_utf8,
    valid_utf8_split,
};

use crate::codec::{
    le_bytes_u64, lemma_u64_le_round_trip, u64_from_le, u64_from_le_at, u64_to_le,
};
use crate::entry::{Constraints, EntryDesc, EntryVariant, OptionValueProvider};
use crate::values::ValueType;
use crate::MESSAGE_LENGTH;

verus! {

/// Largest text payload: a frame less its length byte.
pub const MAX_TEXT_LEN: usize = 63;

/// Byte that hides each character of a secret in message form (`*`).
pub const MASK_BYTE: u8 = 42;

/// `d` with the bytes from `start` on replaced by `src`.
pub open spec fn spliced(d: Seq<u8>, start: int, src: Seq<u8>) -> Seq<u8> {
    Seq::new(d.len(), |j: int| if start <= j < start + src.len() { src[j - start] } else { d[j] })
}

/// `v` held between `lo` and `hi`.
pub open spec fn clamp_int(v: int, lo: int, hi: int) -> int {
    if v < lo {
        lo
    } else if v > hi {
        hi
    } else {
        v
    }
}

/// The integer kept for `v` under constraints `c`.
pub open spec fn integer_target(c: Constraints, v: i64) -> i64 {
    match c {
        Constraints::Range(r) => clamp_int(v as int, r.start as int, r.end as int) as i64,
        _ => v,
    }
}

/// The option index kept for `v` among `n` values (index 0 when there are none).
pub open spec fn option_target(v: u64, n: nat) -> u64 {
    if n == 0 {
        0
    } else if v >= n {
        (n - 1) as u64
    } else {
        v
    }
}

/// The signed integer stored at bytes 1..9.
pub open spec fn stored_integer(d: Seq<u8>) -> i64 {
    u64_from_le(d.subrange(1, 9)) as i64
}

/// The option index stored at bytes 1..9.
pub open spec fn stored_option(d: Seq<u8>) -> u64 {
    u64_from_le(d.subrange(1, 9))
}

/// Index of the first zero byte of `d` at or after `i`, or `d.len()` when there is none.
pub open spec fn first_zero(d: Seq<u8>, i: int) -> int
    decreases d.len() - i,
{
    if i < 0 || i >= d.len() {
        d.len() as int
    } else if d[i] == 0 {
        i
    } else {
        first_zero(d, i + 1)
    }
}

/// The text bytes: from offset 1 up to the first zero byte or the end.
pub open spec fn stored_text(d: Seq<u8>) -> Seq<u8> {
    d.subrange(1, first_zero(d, 1))
}

/// The longest text, in bytes, that constraints `c` allow for an input of `len` bytes.
pub open spec fn text_limit(c: Constraints, len: nat) -> nat {
    let m: int = match c {
        Constraints::Range(r) => if r.end < 0 {
            0
        } else {
            r.end as int
        },
        Constraints::Length(n) => n as int,
        _ => len as int,
    };
    if m > len {
        if len > MAX_TEXT_LEN {
            MAX_TEXT_LEN as nat
        } else {
            len
        }
    } else if m > MAX_TEXT_LEN {
        MAX_TEXT_LEN as nat
    } else {
        m as nat
    }
}

/// The largest character boundary of `b` at or below `m`.
pub open spec fn floor_boundary(b: Seq<u8>, m: int) -> int
    decreases m,
{
    if m <= 0 {
        0
    } else if is_char_boundary(b, m) {
        m
    } else {
        floor_boundary(b, m - 1)
    }
}

/// How many bytes of `b` are kept under constraints `c`.
pub open spec fn text_cut(c: Constraints, b: Seq<u8>) -> int {
    floor_boundary(b, text_limit(c, b.len()) as int)
}

/// The bytes written by a text setter: the kept prefix, then a zero terminator if it fits.
pub open spec fn text_payload(c: Constraints, b: Seq<u8>) -> Seq<u8> {
    let k = text_cut(c, b);
    if k < MAX_TEXT_LEN {
        b.subrange(0, k).push(0u8)
    } else {
        b.subrange(0, k)
    }
}

/// Stored bytes after a text is set.
pub open spec fn with_text(c: Constraints, d: Seq<u8>, b: Seq<u8>) -> Seq<u8> {
    spliced(d, 1, text_payload(c, b))
}

/// The text read back from stored bytes: its bytes when they are valid UTF-8, else nothing.
pub open spec fn decoded_text(d: Seq<u8>) -> Seq<u8> {
    if valid_utf8(stored_text(d)) {
        stored_text(d)
    } else {
        Seq::empty()
    }
}

/// Stored bytes after re-validation under descriptor `desc`.
pub open spec fn clamped(desc: &EntryDesc, d: Seq<u8>) -> Seq<u8> {
    match desc.variant {
        EntryVariant::Field(ValueType::Integer) => spliced(
            d,
            1,
            le_bytes_u64(integer_target(desc.constraints, stored_integer(d)) as u64),
        ),
        EntryVariant::Field(ValueType::Text) | EntryVariant::Field(ValueType::Secret) => with_text(
            desc.constraints,
            d,
            decoded_text(d),
        ),
        _ => d,
    }
}

/// Stored bytes of a message payload before re-validation: its length, then its bytes.
pub open spec fn message_store(bytes: Seq<u8>) -> Seq<u8> {
    spliced(Seq::new(64, |i: int| 0u8), 0, seq![bytes.len() as u8] + bytes)
}

/// Message form: a secret's first `d[0]` payload bytes masked, then the length byte set to 1.
pub open spec fn message_bytes(desc: &EntryDesc, d: Seq<u8>) -> Seq<u8> {
    Seq::new(
        64,
        |i: int|
            if i == 0 {
                1u8
            } else if desc.variant == EntryVariant::Field(ValueType::Secret) && i <= d[0] {
                MASK_BYTE
            } else {
                d[i]
            },
    )
}

/// Errors of a field value's typed setters.
#[derive(Copy, Clone, Debug, PartialEq, Eq, Structural)]
pub enum FieldError {
    /// The descriptor carries no list of option values.
    NotOptions,
}

/// The 64 bytes of one field's value, bound to the field's descriptor.
#[derive(Debug)]
pub struct FieldValue<'a> {
    pub desc: &'a EntryDesc,
    pub data: [u8; 64],
}

/// Writes `src[0..n]` into `data` from offset `start`.
fn write_bytes(data: &mut [u8; 64], start: usize, src: &[u8], n: usize)
    requires
        n <= src@.len(),
        start + n <= 64,
    ensures
        final(data)@ == spliced(old(data)@, start as int, src@.subrange(0, n as int)),
{
    let mut i: usize = 0;
    while i < n
        invariant
            i <= n,
            n <= src@.len(),
            start + n <= 64,
            data@.len() == 64,
            forall|j: int|
                0 <= j < 64 ==> #[trigger] data@[j] == (if start <= j < start + i {
                    src@[j - start]
                } else {
                    old(data)@[j]
                }),
        decreases n - i,
    {
        data[start + i] = src[i];
        i = i + 1;
    }
    assert(data@ =~= spliced(old(data)@, start as int, src@.subrange(0, n as int)));
}

/// Sets bytes `1..end` to the mask byte.
fn fill_mask(data: &mut [u8; 64], end: usize)
    requires
        end <= 64,
    ensures
        forall|j: int|
            0 <= j < 64 ==> #[trigger] final(data)@[j] == (if 1 <= j < end {
                MASK_BYTE
            } else {
                old(data)@[j]
            }),
        final(data)@.len() == 64,
{
    let mut i: usize = 1;
    while i < end
        invariant
            1 <= i,
            i <= end || i == 1,
            end <= 64,
            data@.len() == 64,
            forall|j: int|
                0 <= j < 64 ==> #[trigger] data@[j] == (if 1 <= j < i {
                    MASK_BYTE
                } else {
                    old(data)@[j]
                }),
        decreases end - i,
    {
        data[i] = MASK_BYTE;
        i = i + 1;
    }
}

/// Relies on `String::from_utf8`: it succeeds exactly on valid UTF-8, and the
/// string it returns has the given bytes as its encoding.
#[verifier::external_body]
fn string_from_utf8(bytes: Vec<u8>) -> (r: Option<String>)
    ensures
        r is Some <==> valid_utf8(bytes@),
        r matches Some(s) ==> encode_utf8(s@) == bytes@,
{
    String::from_utf8(bytes).ok()
}

impl<'a> FieldValue<'a> {
    /// A value of all zero bytes.
    pub fn new(desc: &'a EntryDesc) -> (r: FieldValue<'a>)
        ensures
            r.desc == desc,
            r.data@ == Seq::new(64, |i: int| 0u8),
    {
        let r = FieldValue { desc, data: [0u8; 64] };
        assert(r.data@ =~= Seq::new(64, |i: int| 0u8));
        r
    }

    /// Wraps stored bytes as they are.
    pub fn from_store(desc: &'a EntryDesc, bytes: [u8; 64]) -> (r: FieldValue<'a>)
        ensures
            r.desc == desc,
            r.data == bytes,
    {
        FieldValue { desc, data: bytes }
    }

    /// The stored bytes.
    pub fn into_store_bytes(self) -> (r: [u8; 64])
        ensures
            r == self.data,
    {
        self.data
    }

    /// The message form: for a secret, each of the first `data[0]` payload bytes
    /// becomes the mask byte; the length byte becomes 1 for every type.
    pub fn into_message_bytes(self) -> (r: [u8; 64])
        ensures
            r@ == message_bytes(self.desc, self.data@),
    {
        let mut data = self.data;
        if self.desc.variant == EntryVariant::Field(ValueType::Secret) {
            let n: usize = data[0] as usize;
            let end: usize = if n + 1 < MESSAGE_LENGTH { n + 1 } else { MESSAGE_LENGTH };
            fill_mask(&mut data, end);
        }
        data[0] = 1;
        assert(data@ =~= message_bytes(self.desc, self.data@));
        data
    }

    /// The signed integer stored little-endian at bytes 1..9.
    pub fn get_integer(&self) -> (r: i64)
        ensures
            r == stored_integer(self.data@),
    {
        u64_from_le_at(&self.data, 1) as i64
    }

    /// Stores `value`, held within the descriptor's range when it has one.
    pub fn set_integer(&mut self, value: i64)
        ensures
            final(self).desc == old(self).desc,
            final(self).data@ == spliced(
                old(self).data@,
                1,
                le_bytes_u64(integer_target(old(self).desc.constraints, value) as u64),
            ),
    {
        let target: i64 = match &self.desc.constraints {
            Constraints::Range(range) => {
                let lo = range.start as i64;
                let hi = range.end as i64;
                if value < lo {
                    lo
                } else if value > hi {
                    hi
                } else {
                    value
                }
            },
            _ => value,
        };
        let bytes = u64_to_le(target as u64);
        write_bytes(&mut self.data, 1, &bytes, 8);
        assert(bytes@.subrange(0, 8) =~= bytes@);
    }

    /// `set_integer`, by value.
    pub fn with_integer(self, value: i64) -> (r: FieldValue<'a>)
        ensures
            r.desc == self.desc,
            r.data@ == spliced(
                self.data@,
                1,
                le_bytes_u64(integer_target(self.desc.constraints, value) as u64),
            ),
    {
        let mut s = self;
        s.set_integer(value);
        s
    }

    /// The option index stored little-endian at bytes 1..9.
    pub fn get_option(&self) -> (r: u64)
        ensures
            r == stored_option(self.data@),
    {
        u64_from_le_at(&self.data, 1)
    }

    /// Stores the option index `value`, held below the number of values; fails,
    /// changing nothing, when the descriptor has no list of values.
    pub fn set_option(&mut self, value: u64) -> (r: Result<(), FieldError>)
        ensures
            final(self).desc == old(self).desc,
            match old(self).desc.constraints {
                Constraints::Values(v) => r is Ok && final(self).data@ == spliced(
                    old(self).data@,
                    1,
                    le_bytes_u64(option_target(value, v.values@.len())),
                ),
                _ => r == Err::<(), FieldError>(FieldError::NotOptions) && final(self).data
                    == old(self).data,
            },
    {
        let n: u64 = match &self.desc.constraints {
            Constraints::Values(values) => values.len() as u64,
            _ => {
                return Err(FieldError::NotOptions);
            },
        };
        let target: u64 = if n == 0 {
            0
        } else if value >= n {
            n - 1
        } else {
            value
        };
        let bytes = u64_to_le(target);
        write_bytes(&mut self.data, 1, &bytes, 8);
        assert(bytes@.subrange(0, 8) =~= bytes@);
        Ok(())
    }

    /// The text from offset 1 up to the first zero byte (or the end); empty when
    /// those bytes are not valid UTF-8.
    pub fn get_text(&self) -> (r: String)
        ensures
            encode_utf8(r@) == decoded_text(self.data@),
    {
        let mut end: usize = 1;
        while end < MESSAGE_LENGTH && self.data[end] != 0
            invariant
                1 <= end <= 64,
                self.data@.len() == 64,
                first_zero(self.data@, end as int) == first_zero(self.data@, 1),
            decreases 64 - end,
        {
            end = end + 1;
        }
        let mut bytes: Vec<u8> = Vec::new();
        let mut i: usize = 1;
        while i < end
            invariant
                1 <= i <= end,
                end <= 64,
                self.data@.len() == 64,
                bytes@ == self.data@.subrange(1, i as int),
            decreases end - i,
        {
            bytes.push(self.data[i]);
            i = i + 1;
            assert(bytes@ =~= self.data@.subrange(1, i as int));
        }
        match string_from_utf8(bytes) {
            Some(s) => s,
            None => {
                let s = String::new();
                assert(encode_utf8(s@) =~= Seq::<u8>::empty());
                s
            },
        }
    }

    /// Stores `value` from offset 1, cut to the longest prefix that the descriptor
    /// allows (the range's end or the length, else the whole text; never more than
    /// 63 bytes) and that ends on a character boundary; a zero byte follows when
    /// there is room.
    pub fn set_text(&mut self, value: &str)
        ensures
            final(self).desc == old(self).desc,
            final(self).data@ == with_text(
                old(self).desc.constraints,
                old(self).data@,
                value.spec_bytes(),
            ),
            text_cut(old(self).desc.constraints, value.spec_bytes()) <= text_limit(
                old(self).desc.constraints,
                value.spec_bytes().len(),
            ),
            is_char_boundary(
                value.spec_bytes(),
                text_cut(old(self).desc.constraints, value.spec_bytes()),
            ),
            valid_utf8(
                value.spec_bytes().subrange(
                    0,
                    text_cut(old(self).desc.constraints, value.spec_bytes()),
                ),
            ),
    {
        let b = value.as_bytes();
        let len = b.len();
        let m: usize = match &self.desc.constraints {
            Constraints::Range(range) => if range.end < 0 {
                0
            } else {
                range.end as usize
            },
            Constraints::Length(n) => if *n > MAX_TEXT_LEN as u64 {
                MAX_TEXT_LEN
            } else {
                *n as usize
            },
            _ => len,
        };
        let m = if m > len {
            if len > MAX_TEXT_LEN {
                MAX_TEXT_LEN
            } else {
                len
            }
        } else if m > MAX_TEXT_LEN {
            MAX_TEXT_LEN
        } else {
            m
        };
        assert(m == text_limit(self.desc.constraints, b@.len()));
        let mut k: usize = m;
        while k > 0 && !value.is_char_boundary(k)
            invariant
                k <= m,
                b@ == value.spec_bytes(),
                floor_boundary(b@, k as int) == floor_boundary(b@, m as int),
            decreases k,
        {
            k = k - 1;
        }
        proof {
            encode_utf8_valid_utf8(value@);
            lemma_floor_boundary(value.spec_bytes(), m as int);
        }
        write_bytes(&mut self.data, 1, b, k);
        if k < MAX_TEXT_LEN {
            self.data[1 + k] = 0;
        }
        assert(self.data@ =~= with_text(self.desc.constraints, old(self).data@, b@));
    }

    /// Re-applies the typed setter to the stored value: integers are held in
    /// their range, texts and secrets are cut as `set_text` cuts them (a text
    /// that is not valid UTF-8 reads as empty). Option indices are held in range
    /// by `set_option` only; status and bytes values are never changed.
    pub fn clamp(&mut self)
        ensures
            final(self).desc == old(self).desc,
            final(self).data@ == clamped(old(self).desc, old(self).data@),
    {
        match self.desc.variant {
            EntryVariant::Field(ValueType::Integer) => {
                let v = self.get_integer();
                self.set_integer(v);
            },
            EntryVariant::Field(ValueType::Text) | EntryVariant::Field(ValueType::Secret) => {
                let t = self.get_text();
                self.set_text(t.as_str());
            },
            _ => {},
        }
    }

    /// A value built from a message payload: its length at byte 0, its bytes
    /// from offset 1, then clamped.
    pub fn from_message(desc: &'a EntryDesc, bytes: &[u8]) -> (r: FieldValue<'a>)
        requires
            bytes@.len() <= MAX_TEXT_LEN,
        ensures
            r.desc == desc,
            r.data@ == clamped(desc, message_store(bytes@)),
    {
        let mut fv = FieldValue::new(desc);
        let n = bytes.len();
        fv.data[0] = n as u8;
        write_bytes(&mut fv.data, 1, bytes, n);
        assert(fv.data@ =~= message_store(bytes@));
        fv.clamp();
        fv
    }
}

/// The largest character boundary at or below `m` is one, and lies in `0..=m`.
proof fn lemma_floor_boundary(b: Seq<u8>, m: int)
    requires
        valid_utf8(b),
    ensures
        0 <= floor_boundary(b, m),
        m >= 0 ==> floor_boundary(b, m) <= m,
        is_char_boundary(b, floor_boundary(b, m)),
        floor_boundary(b, m) <= b.len() ==> valid_utf8(b.subrange(0, floor_boundary(b, m))),
    decreases m,
{
    if m <= 0 {
        is_char_boundary_start_end_of_seq(b);
    } else if !is_char_boundary(b, m) {
        lemma_floor_boundary(b, m - 1);
    }
    let k = floor_boundary(b, m);
    if 0 <= k <= b.len() {
        valid_utf8_split(b, k);
    }
}

/// Reading the integer back after `set_integer(v)` gives `v` held in the
/// descriptor's range; a value already inside the range comes back unchanged.
pub proof fn lemma_integer_round_trip(c: Constraints, d: Seq<u8>, v: i64)
    requires
        c.wf(),
        d.len() == 64,
    ensures
        stored_integer(spliced(d, 1, le_bytes_u64(integer_target(c, v) as u64))) == integer_target(
            c,
            v,
        ),
        c matches Constraints::Range(r) ==> integer_target(c, v) == clamp_int(
            v as int,
            r.start as int,
            r.end as int,
        ),
        c matches Constraints::Range(r) ==> (r.start <= v <= r.end ==> integer_target(c, v) == v),
        !(c is Range) ==> integer_target(c, v) == v,
{
    let t = integer_target(c, v);
    let d1 = spliced(d, 1, le_bytes_u64(t as u64));
    assert(d1.subrange(1, 9) =~= le_bytes_u64(t as u64));
    lemma_u64_le_round_trip(t as u64);
    assert(((t as u64) as i64) == t) by (bit_vector);
}

/// Reading the option back after `set_option(v)` on `n` values gives `min(v, n - 1)`.
pub proof fn lemma_option_round_trip(d: Seq<u8>, v: u64, n: nat)
    requires
        d.len() == 64,
        1 <= n,
    ensures
        stored_option(spliced(d, 1, le_bytes_u64(option_target(v, n)))) == option_target(v, n),
        option_target(v, n) == if v < n { v as int } else { n - 1 },
{
    let d1 = spliced(d, 1, le_bytes_u64(option_target(v, n)));
    assert(d1.subrange(1, 9) =~= le_bytes_u64(option_target(v, n)));
    lemma_u64_le_round_trip(option_target(v, n));
}

/// In message form a secret with stored length `n` has its first `n` payload
/// bytes masked (as many as the frame holds), and its leading byte is 1 whatever `n` is.
pub proof fn lemma_secret_message_masked(desc: &EntryDesc, d: Seq<u8>)
    requires
        desc.variant == EntryVariant::Field(ValueType::Secret),
        d.len() == 64,
    ensures
        message_bytes(desc, d).len() == 64,
        message_bytes(desc, d)[0] == 1,
        forall|i: int| 1 <= i <= d[0] && i < 64 ==> #[trigger] message_bytes(desc, d)[i] == MASK_BYTE,
{
}

proof fn lemma_first_zero_at(d: Seq<u8>, i: int, e: int)
    requires
        0 <= i <= e <= d.len(),
        forall|j: int| i <= j < e ==> d[j] != 0,
        e == d.len() || d[e] == 0,
    ensures
        first_zero(d, i) == e,
    decreases e - i,
{
    if i < e {
        lemma_first_zero_at(d, i + 1, e);
    }
}

proof fn lemma_first_zero_bounds(d: Seq<u8>, i: int)
    requires
        0 <= i <= d.len(),
    ensures
        i <= first_zero(d, i) <= d.len(),
        forall|j: int| i <= j < first_zero(d, i) ==> d[j] != 0,
    decreases d.len() - i,
{
    if i < d.len() && d[i] != 0 {
        lemma_first_zero_bounds(d, i + 1);
    }
}

/// A text with no zero byte, once set, reads back as its kept prefix: no longer
/// than the limit, ending on a character boundary, valid UTF-8. Setting that
/// prefix again writes the same bytes.
pub proof fn lemma_text_stable(c: Constraints, d: Seq<u8>, t: Seq<u8>)
    requires
        d.len() == 64,
        valid_utf8(t),
        forall|j: int| 0 <= j < t.len() ==> t[j] != 0,
    ensures
        text_cut(c, t) <= text_limit(c, t.len()) <= MAX_TEXT_LEN,
        is_char_boundary(t, text_cut(c, t)),
        valid_utf8(t.subrange(0, text_cut(c, t))),
        decoded_text(with_text(c, d, t)) == t.subrange(0, text_cut(c, t)),
        with_text(c, with_text(c, d, t), t.subrange(0, text_cut(c, t))) == with_text(c, d, t),
{
    let k = text_cut(c, t);
    lemma_floor_boundary(t, text_limit(c, t.len()) as int);
    let p = t.subrange(0, k);
    let d1 = with_text(c, d, t);
    lemma_first_zero_at(d1, 1, 1 + k);
    assert(stored_text(d1) =~= p);
    assert(text_limit(c, p.len()) == k);
    is_char_boundary_start_end_of_seq(p);
    assert(text_cut(c, p) == k);
    assert(p.subrange(0, k) =~= p);
    assert(text_payload(c, p) =~= text_payload(c, t));
    assert(with_text(c, d1, p) =~= d1);
}

/// Clamping twice leaves the bytes that clamping once gave.
pub proof fn lemma_clamp_idempotent(desc: &EntryDesc, d: Seq<u8>)
    requires
        desc.wf(),
        d.len() == 64,
    ensures
        clamped(desc, clamped(desc, d)) == clamped(desc, d),
{
    let c = desc.constraints;
    match desc.variant {
        EntryVariant::Field(ValueType::Integer) => {
            let t = integer_target(c, stored_integer(d));
            lemma_integer_round_trip(c, d, stored_integer(d));
            let d1 = spliced(d, 1, le_bytes_u64(t as u64));
            lemma_integer_round_trip(c, d1, t);
            assert(integer_target(c, t) == t);
            assert(spliced(d1, 1, le_bytes_u64(t as u64)) =~= d1);
        },
        EntryVariant::Field(ValueType::Text) | EntryVariant::Field(ValueType::Secret) => {
            let t = decoded_text(d);
            lemma_first_zero_bounds(d, 1);
            lemma_text_stable(c, d, t);
            let d1 = with_text(c, d, t);
            let k = text_cut(c, t);
            lemma_floor_boundary(t, text_limit(c, t.len()) as int);
            assert(decoded_text(d1) == t.subrange(0, k));
        },
        _ => {},
    }
}

} // verus!