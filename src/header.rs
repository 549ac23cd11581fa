//! The fixed header shared by the binary tile formats: a four-byte magic,
//! then little-endian `u32` fields, the first of which is the version.
use crate::bytes::{
    le_u32, lemma_le_u32_of_u32_le, u32_le, u32_to_le, Cursor,
};
use crate::error::Error;
use vstd::prelude::*;

verus! {

/// The `i`-th `u32` field after the magic.
pub open spec fn field_at(s: Seq<u8>, i: int) -> u32 {
    le_u32(s.subrange(4 + 4 * i, 8 + 4 * i))
}

/// `s` starts with a header of magic `magic`, `n` fields and version 1.
pub open spec fn header_ok(s: Seq<u8>, magic: Seq<u8>, n: nat) -> bool {
    &&& s.len() >= 4 + 4 * n
    &&& s.take(4) == magic
    &&& field_at(s, 0) == 1
}

/// `e` is the first error met when reading a header of magic `magic` and `n`
/// fields from `s`: too few bytes for the magic, a wrong magic, too few bytes
/// for the fields, a version other than 1.
pub open spec fn header_fails(s: Seq<u8>, magic: Seq<u8>, n: nat, e: Error) -> bool {
    if s.len() < 4 {
        e == Error::Truncated
    } else if s.take(4) != magic {
        e matches Error::Magic(m) && m@ == s.take(4)
    } else if s.len() < 4 + 4 * n {
        e == Error::Truncated
    } else {
        e == Error::Version(field_at(s, 0))
    }
}

/// Bytes that start with another format's magic never read as a header:
/// the only error they can give is `Magic`, carrying the magic found.
pub proof fn lemma_wrong_magic_fails(s: Seq<u8>, magic: Seq<u8>, n: nat, e: Error)
    requires
        s.len() >= 4,
        s.take(4) != magic,
        header_fails(s, magic, n, e),
    ensures
        !header_ok(s, magic, n),
        e matches Error::Magic(m) && m@ == s.take(4),
{
}

/// How many bytes reading a header has consumed when it fails: none where
/// the magic is cut short, the magic alone where it is wrong or the fields
/// are cut short, the whole header where the version is wrong.
pub open spec fn header_fail_len(s: Seq<u8>, magic: Seq<u8>, n: nat) -> int {
    if s.len() < 4 {
        0
    } else if s.take(4) != magic || s.len() < 4 + 4 * n {
        4
    } else {
        (4 + 4 * n) as int
    }
}

/// `v` holds the first `n` fields of the header at the start of `s`.
pub open spec fn fields_match(s: Seq<u8>, n: nat, v: Seq<u32>) -> bool {
    &&& v.len() == n
    &&& forall|i: int| 0 <= i < n ==> v[i] == field_at(s, i)
}

/// Reads a header of magic `magic` and `n` fields; fails on a wrong magic
/// before reading the fields, and on a version other than 1 after.
pub fn read_header_fields(reader: &mut Cursor, magic: [u8; 4], n: usize) -> (r: Result<
    Vec<u32>,
    Error,
>)
    requires
        old(reader).wf(),
        1 <= n <= 8,
    ensures
        final(reader).wf(),
        final(reader).bytes@ == old(reader).bytes@,
        r is Ok <==> header_ok(old(reader).rest(), magic@, n as nat),
        r matches Ok(v) ==> fields_match(old(reader).rest(), n as nat, v@) && final(reader).pos
            == old(reader).pos + 4 + 4 * n,
        r matches Err(e) ==> header_fails(old(reader).rest(), magic@, n as nat, e),
        r is Err ==> final(reader).pos == old(reader).pos + header_fail_len(
            old(reader).rest(),
            magic@,
            n as nat,
        ),
{
    let ghost s = old(reader).rest();
    let start = reader.pos;
    let m = reader.read_tag()?;
    if !(m[0] == magic[0] && m[1] == magic[1] && m[2] == magic[2] && m[3] == magic[3]) {
        proof {
            assert(m@ != magic@) by {
                if m@ == magic@ {
                    assert(m@[0] == magic@[0]);
                    assert(m@[1] == magic@[1]);
                    assert(m@[2] == magic@[2]);
                    assert(m@[3] == magic@[3]);
                }
            }
        }
        return Err(Error::Magic(m));
    }
    assert(m@ =~= magic@);
    if reader.remaining() < 4 * n {
        return Err(Error::Truncated);
    }
    let mut v: Vec<u32> = Vec::new();
    let mut i: usize = 0;
    while i < n
        invariant
            reader.wf(),
            reader.bytes@ == old(reader).bytes@,
            s == old(reader).rest(),
            s.len() >= 4 + 4 * n,
            reader.pos == start + 4 + 4 * i,
            start == old(reader).pos,
            i <= n,
            n <= 8,
            fields_match(s, i as nat, v@),
        decreases n - i,
    {
        let x = reader.read_u32_le()?;
        proof {
            assert(reader.bytes@.subrange(start + 4 + 4 * i, start + 8 + 4 * i) =~= s.subrange(
                4 + 4 * i,
                8 + 4 * i,
            ));
            assert(old(reader).rest().take(4) == s.take(4));
        }
        v.push(x);
        i = i + 1;
        proof {
            assert forall|k: int| 0 <= k < i implies v@[k] == field_at(s, k) by {
                if k == i - 1 {
                    let rr = s.subrange(4 + 4 * k, s.len() as int);
                    assert(rr.take(4) =~= s.subrange(4 + 4 * k, 8 + 4 * k));
                }
            }
        }
    }
    if v[0] != 1 {
        return Err(Error::Version(v[0]));
    }
    Ok(v)
}

/// The bytes of a list of `u32` fields, each little-endian.
pub open spec fn fields_bytes(f: Seq<u32>) -> Seq<u8>
    decreases f.len(),
{
    if f.len() == 0 {
        Seq::empty()
    } else {
        fields_bytes(f.drop_last()) + u32_le(f.last())
    }
}

/// The `i`-th four bytes of `fields_bytes(f)` encode `f[i]`.
pub proof fn lemma_fields_bytes(f: Seq<u32>)
    ensures
        fields_bytes(f).len() == 4 * f.len(),
        forall|i: int|
            0 <= i < f.len() ==> #[trigger] fields_bytes(f).subrange(4 * i, 4 * i + 4) == u32_le(
                f[i],
            ),
    decreases f.len(),
{
    if f.len() > 0 {
        lemma_fields_bytes(f.drop_last());
        let b = fields_bytes(f);
        let p = fields_bytes(f.drop_last());
        assert forall|i: int| 0 <= i < f.len() implies #[trigger] b.subrange(4 * i, 4 * i + 4)
            == u32_le(f[i]) by {
            if i < f.len() - 1 {
                assert(b.subrange(4 * i, 4 * i + 4) =~= p.subrange(4 * i, 4 * i + 4));
                assert(f[i] == f.drop_last()[i]);
            } else {
                assert(b.subrange(4 * i, 4 * i + 4) =~= u32_le(f.last()));
            }
        }
    }
}

/// A header's bytes: the magic, then each field.
pub open spec fn header_bytes(magic: Seq<u8>, f: Seq<u32>) -> Seq<u8> {
    magic + fields_bytes(f)
}

/// Reading fields back from the bytes they were written to gives them back,
/// whatever follows the header.
pub proof fn lemma_fields_round_trip(magic: Seq<u8>, f: Seq<u32>, tail: Seq<u8>)
    requires
        magic.len() == 4,
    ensures
        (header_bytes(magic, f) + tail).len() >= 4 + 4 * f.len(),
        (header_bytes(magic, f) + tail).take(4) == magic,
        forall|i: int| 0 <= i < f.len() ==> field_at(header_bytes(magic, f) + tail, i) == f[i],
{
    lemma_fields_bytes(f);
    let s = header_bytes(magic, f) + tail;
    assert(s.take(4) =~= magic);
    assert forall|i: int| 0 <= i < f.len() implies field_at(s, i) == f[i] by {
        assert(s.subrange(4 + 4 * i, 8 + 4 * i) =~= fields_bytes(f).subrange(4 * i, 4 * i + 4));
        lemma_le_u32_of_u32_le(f[i]);
    }
}

/// Writes a header: the magic, then each field little-endian.
pub fn write_header_fields(magic: [u8; 4], f: &Vec<u32>) -> (r: Vec<u8>)
    ensures
        r@ == header_bytes(magic@, f@),
{
    let mut out: Vec<u8> = Vec::new();
    out.push(magic[0]);
    out.push(magic[1]);
    out.push(magic[2]);
    out.push(magic[3]);
    assert(out@ =~= magic@ + fields_bytes(f@.take(0)));
    let mut i: usize = 0;
    while i < f.len()
        invariant
            i <= f@.len(),
            out@ == magic@ + fields_bytes(f@.take(i as int)),
        decreases f@.len() - i,
    {
        let b = u32_to_le(f[i]);
        out.push(b[0]);
        out.push(b[1]);
        out.push(b[2]);
        out.push(b[3]);
        i = i + 1;
        assert(f@.take(i as int).drop_last() =~= f@.take(i - 1));
        assert(out@ =~= magic@ + fields_bytes(f@.take(i as int)));
    }
    assert(f@.take(i as int) =~= f@);
    out
}

} // verus!
