//! Per-point attribute streams of a point cloud's feature-table body.
use crate::bytes::{
    le_u16, le_u32, u16_at, u32_at,
};
use crate::error::Error;
use vstd::prelude::*;

verus! {

/// `n` elements of `size` bytes each fit in `b` from offset `off` on.
pub open spec fn fits(b: Seq<u8>, off: int, n: int, size: int) -> bool {
    off + size * n <= b.len()
}

/// The values of one attribute, one element per point.
#[derive(Debug)]
pub enum PointValues {
    /// The bit patterns of the `f32` x, y and z of each point.
    Position(Vec<[u32; 3]>),
    /// The quantized positions (three `u16`) of each point.
    PositionQuantized(Vec<[u16; 3]>),
    /// The RGBA colors (four `u8`) of each point.
    Rgba(Vec<[u8; 4]>),
    /// The RGB colors (three `u8`) of each point.
    Rgb(Vec<[u8; 3]>),
    /// The RGB565 colors (one `u16`: 5 bits red, 6 green, 5 blue) of each point.
    Rgb565(Vec<u16>),
    /// The normals (the bit patterns of three `f32`) of each point.
    Normal(Vec<[u32; 3]>),
    /// The oct-encoded normals (two `u8`) of each point.
    NormalOct16p(Vec<[u8; 2]>),
    /// The batch ids of one byte of each point.
    BatchIdU8(Vec<u8>),
    /// The batch ids of two bytes of each point.
    BatchId(Vec<u16>),
    /// The batch ids of four bytes of each point.
    BatchIdU32(Vec<u32>),
}

/// `v` holds the quantized positions (three `u16`) of `n` points, read from offset `off` of `b`.
pub open spec fn position_quantized_decode(b: Seq<u8>, off: int, n: int, v: Seq<[u16; 3]>) -> bool {
    &&& v.len() == n
    &&& forall|i: int| 0 <= i < n ==> {
        let p = off + 6 * i;
        (#[trigger] v[i])@ == seq![le_u16(b, p), le_u16(b, p + 2), le_u16(b, p + 4)]
    }
}

/// Reads the quantized positions (three `u16`) of `n` points from offset `off` of `body`, 6 bytes
/// each; a body too short for them all gives `Truncated`.
pub fn read_position_quantized(body: &[u8], off: usize, n: u32) -> (r: Result<Vec<[u16; 3]>, Error>)
    ensures
        r is Ok <==> fits(body@, off as int, n as int, 6),
        r is Err ==> r == Err::<Vec<[u16; 3]>, Error>(Error::Truncated),
        r matches Ok(v) ==> position_quantized_decode(body@, off as int, n as int, v@),
{
    let len = body.len();
    if off > len || ((len - off) as u64) < 6 * (n as u64) {
        return Err(Error::Truncated);
    }
    let mut out: Vec<[u16; 3]> = Vec::new();
    let mut i: u32 = 0;
    while i < n
        invariant
            i <= n,
            len == body@.len(),
            off + 6 * n <= len,
            position_quantized_decode(body@, off as int, i as int, out@),
        decreases n - i,
    {
        let p: usize = off + 6 * (i as usize);
        let e = [u16_at(body, p), u16_at(body, p + 2), u16_at(body, p + 4)];
        assert(e@ =~= seq![
            le_u16(body@, (p as int)),
            le_u16(body@, (p as int) + 2),
            le_u16(body@, (p as int) + 4),
        ]);
        out.push(e);
        i = i + 1;
    }
    Ok(out)
}

/// `v` holds the RGBA colors (four `u8`) of `n` points, read from offset `off` of `b`.
pub open spec fn rgba_decode(b: Seq<u8>, off: int, n: int, v: Seq<[u8; 4]>) -> bool {
    &&& v.len() == n
    &&& forall|i: int| 0 <= i < n ==> {
        let p = off + 4 * i;
        (#[trigger] v[i])@ == seq![b[p], b[p + 1], b[p + 2], b[p + 3]]
    }
}

/// Reads the RGBA colors (four `u8`) of `n` points from offset `off` of `body`, 4 bytes
/// each; a body too short for them all gives `Truncated`.
pub fn read_rgba(body: &[u8], off: usize, n: u32) -> (r: Result<Vec<[u8; 4]>, Error>)
    ensures
        r is Ok <==> fits(body@, off as int, n as int, 4),
        r is Err ==> r == Err::<Vec<[u8; 4]>, Error>(Error::Truncated),
        r matches Ok(v) ==> rgba_decode(body@, off as int, n as int, v@),
{
    let len = body.len();
    if off > len || ((len - off) as u64) < 4 * (n as u64) {
        return Err(Error::Truncated);
    }
    let mut out: Vec<[u8; 4]> = Vec::new();
    let mut i: u32 = 0;
    while i < n
        invariant
            i <= n,
            len == body@.len(),
            off + 4 * n <= len,
            rgba_decode(body@, off as int, i as int, out@),
        decreases n - i,
    {
        let p: usize = off + 4 * (i as usize);
        let e = [body[p], body[p + 1], body[p + 2], body[p + 3]];
        assert(e@ =~= seq![
            body@[(p as int)],
            body@[(p as int) + 1],
            body@[(p as int) + 2],
            body@[(p as int) + 3],
        ]);
        out.push(e);
        i = i + 1;
    }
    Ok(out)
}

/// `v` holds the RGB colors (three `u8`) of `n` points, read from offset `off` of `b`.
pub open spec fn rgb_decode(b: Seq<u8>, off: int, n: int, v: Seq<[u8; 3]>) -> bool {
    &&& v.len() == n
    &&& forall|i: int| 0 <= i < n ==> {
        let p = off + 3 * i;
        (#[trigger] v[i])@ == seq![b[p], b[p + 1], b[p + 2]]
    }
}

/// Reads the RGB colors (three `u8`) of `n` points from offset `off` of `body`, 3 bytes
/// each; a body too short for them all gives `Truncated`.
pub fn read_rgb(body: &[u8], off: usize, n: u32) -> (r: Result<Vec<[u8; 3]>, Error>)
    ensures
        r is Ok <==> fits(body@, off as int, n as int, 3),
        r is Err ==> r == Err::<Vec<[u8; 3]>, Error>(Error::Truncated),
        r matches Ok(v) ==> rgb_decode(body@, off as int, n as int, v@),
{
    let len = body.len();
    if off > len || ((len - off) as u64) < 3 * (n as u64) {
        return Err(Error::Truncated);
    }
    let mut out: Vec<[u8; 3]> = Vec::new();
    let mut i: u32 = 0;
    while i < n
        invariant
            i <= n,
            len == body@.len(),
            off + 3 * n <= len,
            rgb_decode(body@, off as int, i as int, out@),
        decreases n - i,
    {
        let p: usize = off + 3 * (i as usize);
        let e = [body[p], body[p + 1], body[p + 2]];
        assert(e@ =~= seq![body@[(p as int)], body@[(p as int) + 1], body@[(p as int) + 2]]);
        out.push(e);
        i = i + 1;
    }
    Ok(out)
}

/// `v` holds the RGB565 colors (one `u16`: 5 bits red, 6 green, 5 blue) of `n` points, read
/// from offset `off` of `b`.
pub open spec fn rgb565_decode(b: Seq<u8>, off: int, n: int, v: Seq<u16>) -> bool {
    &&& v.len() == n
    &&& forall|i: int| 0 <= i < n ==> {
        let p = off + 2 * i;
        #[trigger] v[i] == le_u16(b, p)
    }
}

/// Reads the RGB565 colors (one `u16`: 5 bits red, 6 green, 5 blue) of `n` points from offset
/// `off` of `body`, 2 bytes
/// each; a body too short for them all gives `Truncated`.
pub fn read_rgb565(body: &[u8], off: usize, n: u32) -> (r: Result<Vec<u16>, Error>)
    ensures
        r is Ok <==> fits(body@, off as int, n as int, 2),
        r is Err ==> r == Err::<Vec<u16>, Error>(Error::Truncated),
        r matches Ok(v) ==> rgb565_decode(body@, off as int, n as int, v@),
{
    let len = body.len();
    if off > len || ((len - off) as u64) < 2 * (n as u64) {
        return Err(Error::Truncated);
    }
    let mut out: Vec<u16> = Vec::new();
    let mut i: u32 = 0;
    while i < n
        invariant
            i <= n,
            len == body@.len(),
            off + 2 * n <= len,
            rgb565_decode(body@, off as int, i as int, out@),
        decreases n - i,
    {
        let p: usize = off + 2 * (i as usize);
        let e = u16_at(body, p);
        out.push(e);
        i = i + 1;
    }
    Ok(out)
}

/// `v` holds the normals (the bit patterns of three `f32`) of `n` points, read from offset
/// `off` of `b`.
pub open spec fn normals_decode(b: Seq<u8>, off: int, n: int, v: Seq<[u32; 3]>) -> bool {
    &&& v.len() == n
    &&& forall|i: int| 0 <= i < n ==> {
        let p = off + 12 * i;
        (#[trigger] v[i])@ == seq![
            le_u32(b.subrange(p, p + 4)),
            le_u32(b.subrange(p + 4, p + 8)),
            le_u32(b.subrange(p + 8, p + 12)),
        ]
    }
}

/// Reads the normals (the bit patterns of three `f32`) of `n` points from offset `off` of
/// `body`, 12 bytes
/// each; a body too short for them all gives `Truncated`.
pub fn read_normals(body: &[u8], off: usize, n: u32) -> (r: Result<Vec<[u32; 3]>, Error>)
    ensures
        r is Ok <==> fits(body@, off as int, n as int, 12),
        r is Err ==> r == Err::<Vec<[u32; 3]>, Error>(Error::Truncated),
        r matches Ok(v) ==> normals_decode(body@, off as int, n as int, v@),
{
    let len = body.len();
    if off > len || ((len - off) as u64) < 12 * (n as u64) {
        return Err(Error::Truncated);
    }
    let mut out: Vec<[u32; 3]> = Vec::new();
    let mut i: u32 = 0;
    while i < n
        invariant
            i <= n,
            len == body@.len(),
            off + 12 * n <= len,
            normals_decode(body@, off as int, i as int, out@),
        decreases n - i,
    {
        let p: usize = off + 12 * (i as usize);
        let e = [u32_at(body, p), u32_at(body, p + 4), u32_at(body, p + 8)];
        assert(e@ =~= seq![
            le_u32(body@.subrange((p as int), (p as int) + 4)),
            le_u32(body@.subrange((p as int) + 4, (p as int) + 8)),
            le_u32(body@.subrange((p as int) + 8, (p as int) + 12)),
        ]);
        out.push(e);
        i = i + 1;
    }
    Ok(out)
}

/// `v` holds the oct-encoded normals (two `u8`) of `n` points, read from offset `off` of `b`.
pub open spec fn normals_oct16p_decode(b: Seq<u8>, off: int, n: int, v: Seq<[u8; 2]>) -> bool {
    &&& v.len() == n
    &&& forall|i: int| 0 <= i < n ==> {
        let p = off + 2 * i;
        (#[trigger] v[i])@ == seq![b[p], b[p + 1]]
    }
}

/// Reads the oct-encoded normals (two `u8`) of `n` points from offset `off` of `body`, 2 bytes
/// each; a body too short for them all gives `Truncated`.
pub fn read_normals_oct16p(body: &[u8], off: usize, n: u32) -> (r: Result<Vec<[u8; 2]>, Error>)
    ensures
        r is Ok <==> fits(body@, off as int, n as int, 2),
        r is Err ==> r == Err::<Vec<[u8; 2]>, Error>(Error::Truncated),
        r matches Ok(v) ==> normals_oct16p_decode(body@, off as int, n as int, v@),
{
    let len = body.len();
    if off > len || ((len - off) as u64) < 2 * (n as u64) {
        return Err(Error::Truncated);
    }
    let mut out: Vec<[u8; 2]> = Vec::new();
    let mut i: u32 = 0;
    while i < n
        invariant
            i <= n,
            len == body@.len(),
            off + 2 * n <= len,
            normals_oct16p_decode(body@, off as int, i as int, out@),
        decreases n - i,
    {
        let p: usize = off + 2 * (i as usize);
        let e = [body[p], body[p + 1]];
        assert(e@ =~= seq![body@[(p as int)], body@[(p as int) + 1]]);
        out.push(e);
        i = i + 1;
    }
    Ok(out)
}

/// `v` holds the batch ids of one byte of `n` points, read from offset `off` of `b`.
pub open spec fn batch_ids_u8_decode(b: Seq<u8>, off: int, n: int, v: Seq<u8>) -> bool {
    &&& v.len() == n
    &&& forall|i: int| 0 <= i < n ==> {
        let p = off + 1 * i;
        #[trigger] v[i] == b[p]
    }
}

/// Reads the batch ids of one byte of `n` points from offset `off` of `body`, 1 bytes
/// each; a body too short for them all gives `Truncated`.
pub fn read_batch_ids_u8(body: &[u8], off: usize, n: u32) -> (r: Result<Vec<u8>, Error>)
    ensures
        r is Ok <==> fits(body@, off as int, n as int, 1),
        r is Err ==> r == Err::<Vec<u8>, Error>(Error::Truncated),
        r matches Ok(v) ==> batch_ids_u8_decode(body@, off as int, n as int, v@),
{
    let len = body.len();
    if off > len || ((len - off) as u64) < 1 * (n as u64) {
        return Err(Error::Truncated);
    }
    let mut out: Vec<u8> = Vec::new();
    let mut i: u32 = 0;
    while i < n
        invariant
            i <= n,
            len == body@.len(),
            off + 1 * n <= len,
            batch_ids_u8_decode(body@, off as int, i as int, out@),
        decreases n - i,
    {
        let p: usize = off + 1 * (i as usize);
        let e = body[p];
        out.push(e);
        i = i + 1;
    }
    Ok(out)
}

/// `v` holds the batch ids of two bytes of `n` points, read from offset `off` of `b`.
pub open spec fn batch_ids_u16_decode(b: Seq<u8>, off: int, n: int, v: Seq<u16>) -> bool {
    &&& v.len() == n
    &&& forall|i: int| 0 <= i < n ==> {
        let p = off + 2 * i;
        #[trigger] v[i] == le_u16(b, p)
    }
}

/// Reads the batch ids of two bytes of `n` points from offset `off` of `body`, 2 bytes
/// each; a body too short for them all gives `Truncated`.
pub fn read_batch_ids_u16(body: &[u8], off: usize, n: u32) -> (r: Result<Vec<u16>, Error>)
    ensures
        r is Ok <==> fits(body@, off as int, n as int, 2),
        r is Err ==> r == Err::<Vec<u16>, Error>(Error::Truncated),
        r matches Ok(v) ==> batch_ids_u16_decode(body@, off as int, n as int, v@),
{
    let len = body.len();
    if off > len || ((len - off) as u64) < 2 * (n as u64) {
        return Err(Error::Truncated);
    }
    let mut out: Vec<u16> = Vec::new();
    let mut i: u32 = 0;
    while i < n
        invariant
            i <= n,
            len == body@.len(),
            off + 2 * n <= len,
            batch_ids_u16_decode(body@, off as int, i as int, out@),
        decreases n - i,
    {
        let p: usize = off + 2 * (i as usize);
        let e = u16_at(body, p);
        out.push(e);
        i = i + 1;
    }
    Ok(out)
}

/// `v` holds the batch ids of four bytes of `n` points, read from offset `off` of `b`.
pub open spec fn batch_ids_u32_decode(b: Seq<u8>, off: int, n: int, v: Seq<u32>) -> bool {
    &&& v.len() == n
    &&& forall|i: int| 0 <= i < n ==> {
        let p = off + 4 * i;
        #[trigger] v[i] == le_u32(b.subrange(p, p + 4))
    }
}

/// Reads the batch ids of four bytes of `n` points from offset `off` of `body`, 4 bytes
/// each; a body too short for them all gives `Truncated`.
pub fn read_batch_ids_u32(body: &[u8], off: usize, n: u32) -> (r: Result<Vec<u32>, Error>)
    ensures
        r is Ok <==> fits(body@, off as int, n as int, 4),
        r is Err ==> r == Err::<Vec<u32>, Error>(Error::Truncated),
        r matches Ok(v) ==> batch_ids_u32_decode(body@, off as int, n as int, v@),
{
    let len = body.len();
    if off > len || ((len - off) as u64) < 4 * (n as u64) {
        return Err(Error::Truncated);
    }
    let mut out: Vec<u32> = Vec::new();
    let mut i: u32 = 0;
    while i < n
        invariant
            i <= n,
            len == body@.len(),
            off + 4 * n <= len,
            batch_ids_u32_decode(body@, off as int, i as int, out@),
        decreases n - i,
    {
        let p: usize = off + 4 * (i as usize);
        let e = u32_at(body, p);
        out.push(e);
        i = i + 1;
    }
    Ok(out)
}

} // verus!
