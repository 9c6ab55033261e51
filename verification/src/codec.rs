use vstd::prelude::*;

use crate::record::{Record, RecordView, spec_encoded_size};

verus! {

/// Little-endian bytes of a 32-bit length prefix.
pub open spec fn spec_u32_le(n: u32) -> Seq<u8> {
    let b0 = n % 256;
    let r1 = n / 256;
    let b1 = r1 % 256;
    let r2 = r1 / 256;
    let b2 = r2 % 256;
    let b3 = r2 / 256;
    seq![b0 as u8, b1 as u8, b2 as u8, b3 as u8]
}

/// Value of a four-byte little-endian length prefix.
pub open spec fn spec_u32_from_le(b: Seq<u8>) -> int
    recommends
        b.len() == 4,
{
    b[0] + 256 * (b[1] + 256 * (b[2] + 256 * b[3]))
}

pub proof fn lemma_u32_le_roundtrip(n: u32)
    ensures
        spec_u32_le(n).len() == 4,
        spec_u32_from_le(spec_u32_le(n)) == n,
{
    vstd::arithmetic::div_mod::lemma_fundamental_div_mod(n as int, 256);
    vstd::arithmetic::div_mod::lemma_fundamental_div_mod(n as int / 256, 256);
    vstd::arithmetic::div_mod::lemma_fundamental_div_mod(n as int / 256 / 256, 256);
}

/// Fixed binary layout of a record: one initialized-flag byte, one rating
/// byte, then the title and the description, each behind a four-byte
/// little-endian length prefix.
pub open spec fn spec_encode(r: RecordView) -> Seq<u8>
    recommends
        r.wf(),
{
    seq![if r.initialized { 1u8 } else { 0u8 }, r.rating]
        + spec_u32_le(r.title.len() as u32) + r.title
        + spec_u32_le(r.description.len() as u32) + r.description
}

/// Decoded form of a byte region, or `None` where the bytes are truncated or
/// hold no valid flag byte. A zero-filled region decodes to an uninitialized
/// record with empty byte strings; bytes past the encoded length are ignored.
pub open spec fn spec_decode(bytes: Seq<u8>) -> Option<RecordView> {
    if bytes.len() < 10 {
        Option::None
    } else if bytes[0] > 1 {
        Option::None
    } else {
        let tl = spec_u32_from_le(bytes.subrange(2, 6));
        if bytes.len() < 10 + tl {
            Option::None
        } else {
            let dl = spec_u32_from_le(bytes.subrange(6 + tl, 10 + tl));
            if bytes.len() < 10 + tl + dl {
                Option::None
            } else {
                Option::Some(RecordView {
                    initialized: bytes[0] == 1,
                    rating: bytes[1],
                    title: bytes.subrange(6, 6 + tl),
                    description: bytes.subrange(10 + tl, 10 + tl + dl),
                })
            }
        }
    }
}

/// A slot after its leading bytes are overwritten with `data`; the bytes
/// past `data` keep their old values.
pub open spec fn spec_write_slot(slot: Seq<u8>, data: Seq<u8>) -> Seq<u8>
    recommends
        data.len() <= slot.len(),
{
    data + slot.skip(data.len() as int)
}

pub proof fn lemma_encode_len(r: RecordView)
    requires
        r.wf(),
    ensures
        spec_encode(r).len() == spec_encoded_size(r.title, r.description),
{
}

/// Decoding a region whose leading bytes encode a record yields that record,
/// whatever follows the encoding.
pub proof fn lemma_decode_encoded_prefix(r: RecordView, tail: Seq<u8>)
    requires
        r.wf(),
    ensures
        spec_decode(spec_encode(r) + tail) == Option::Some(r),
{
    let flag: u8 = if r.initialized { 1u8 } else { 0u8 };
    let t = r.title.len() as int;
    let d = r.description.len() as int;
    let s = spec_encode(r) + tail;
    lemma_u32_le_roundtrip(r.title.len() as u32);
    lemma_u32_le_roundtrip(r.description.len() as u32);
    assert(s.len() == 10 + t + d + tail.len());
    assert(s[0] == flag);
    assert(s[1] == r.rating);
    assert(s.subrange(2, 6) =~= spec_u32_le(r.title.len() as u32));
    assert(s.subrange(6, 6 + t) =~= r.title);
    assert(s.subrange(6 + t, 10 + t) =~= spec_u32_le(r.description.len() as u32));
    assert(s.subrange(10 + t, 10 + t + d) =~= r.description);
    assert(spec_decode(s) == Option::Some(RecordView {
        initialized: flag == 1,
        rating: r.rating,
        title: r.title,
        description: r.description,
    }));
    assert((flag == 1) == r.initialized);
}

fn push_u32_le(out: &mut Vec<u8>, n: u32)
    ensures
        final(out)@ == old(out)@ + spec_u32_le(n),
{
    out.push((n % 256) as u8);
    out.push((n / 256 % 256) as u8);
    out.push((n / 256 / 256 % 256) as u8);
    out.push((n / 256 / 256 / 256) as u8);
    assert(out@ =~= old(out)@ + spec_u32_le(n));
}

fn push_bytes(out: &mut Vec<u8>, bytes: &Vec<u8>)
    ensures
        final(out)@ == old(out)@ + bytes@,
{
    let mut i: usize = 0;
    while i < bytes.len()
        invariant
            i <= bytes@.len(),
            out@ == old(out)@ + bytes@.subrange(0, i as int),
        decreases bytes@.len() - i,
    {
        out.push(bytes[i]);
        assert(out@ =~= old(out)@ + bytes@.subrange(0, i + 1));
        i = i + 1;
    }
    assert(out@ =~= old(out)@ + bytes@);
}

/// Serializes a record into the fixed binary layout.
pub fn encode(record: &Record) -> (out: Vec<u8>)
    requires
        record@.wf(),
    ensures
        out@ == spec_encode(record@),
{
    let mut out: Vec<u8> = Vec::new();
    out.push(if record.initialized { 1 } else { 0 });
    out.push(record.rating);
    push_u32_le(&mut out, record.title.len() as u32);
    push_bytes(&mut out, &record.title);
    push_u32_le(&mut out, record.description.len() as u32);
    push_bytes(&mut out, &record.description);
    assert(out@ =~= spec_encode(record@));
    out
}

fn read_u32_le(bytes: &Vec<u8>, offset: usize) -> (n: usize)
    requires
        offset + 4 <= bytes@.len(),
    ensures
        n == spec_u32_from_le(bytes@.subrange(offset as int, offset as int + 4)),
        n <= u32::MAX,
{
    // Fixes the buffer length in a machine word, bounding the index sums.
    let total = bytes.len();
    assert(offset + 4 <= total);
    let b0 = bytes[offset] as u32;
    let b1 = bytes[offset + 1] as u32;
    let b2 = bytes[offset + 2] as u32;
    let b3 = bytes[offset + 3] as u32;
    let n: u32 = b0 + 256 * (b1 + 256 * (b2 + 256 * b3));
    n as usize
}

fn copy_range(bytes: &Vec<u8>, start: usize, len: usize) -> (out: Vec<u8>)
    requires
        start + len <= bytes@.len(),
    ensures
        out@ == bytes@.subrange(start as int, start as int + len as int),
{
    // Fixes the buffer length in a machine word, bounding the index sums.
    let total = bytes.len();
    assert(start + len <= total);
    let mut out: Vec<u8> = Vec::new();
    let mut i: usize = 0;
    while i < len
        invariant
            i <= len,
            start + len <= bytes@.len() <= usize::MAX,
            out@ == bytes@.subrange(start as int, start as int + i as int),
        decreases len - i,
    {
        out.push(bytes[start + i]);
        assert(out@ =~= bytes@.subrange(start as int, start as int + i as int + 1));
        i = i + 1;
    }
    out
}

/// Deserializes a byte region into a record; `None` where the bytes are
/// truncated or the flag byte is not 0 or 1. A zero-filled region decodes
/// to an uninitialized record; bytes past the encoded length are ignored.
pub fn decode(bytes: &Vec<u8>) -> (r: Option<Record>)
    ensures
        match r {
            Option::Some(record) => spec_decode(bytes@) == Option::Some(record@),
            Option::None => spec_decode(bytes@) is None,
        },
{
    if bytes.len() < 10 {
        return Option::None;
    }
    let flag = bytes[0];
    if flag > 1 {
        return Option::None;
    }
    let rating = bytes[1];
    let tl = read_u32_le(bytes, 2);
    if tl > bytes.len() - 10 {
        return Option::None;
    }
    let title = copy_range(bytes, 6, tl);
    let dl = read_u32_le(bytes, 6 + tl);
    if dl > bytes.len() - 10 - tl {
        return Option::None;
    }
    let description = copy_range(bytes, 10 + tl, dl);
    Option::Some(Record { initialized: flag == 1, rating, title, description })
}

/// Overwrites the leading bytes of a slot with `data`, keeping the bytes
/// past `data` as they were.
pub fn write_slot(slot: &mut Vec<u8>, data: &Vec<u8>)
    requires
        data@.len() <= old(slot)@.len(),
    ensures
        final(slot)@ == spec_write_slot(old(slot)@, data@),
{
    let mut out: Vec<u8> = Vec::new();
    push_bytes(&mut out, data);
    let mut i: usize = data.len();
    while i < slot.len()
        invariant
            data@.len() <= i <= slot@.len(),
            slot@ == old(slot)@,
            out@ == data@ + slot@.subrange(data@.len() as int, i as int),
        decreases slot@.len() - i,
    {
        out.push(slot[i]);
        assert(out@ =~= data@ + slot@.subrange(data@.len() as int, i as int + 1));
        i = i + 1;
    }
    assert(out@ =~= spec_write_slot(slot@, data@));
    *slot = out;
}

/// Round trip: decoding an encoded record yields the record itself.
pub proof fn lemma_encode_decode_roundtrip(r: RecordView)
    requires
        r.wf(),
    ensures
        spec_decode(spec_encode(r)) == Option::Some(r),
{
    lemma_decode_encoded_prefix(r, Seq::empty());
    assert(spec_encode(r) + Seq::<u8>::empty() =~= spec_encode(r));
}

} // verus!
