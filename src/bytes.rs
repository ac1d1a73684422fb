//! Primitive decoders: little-endian integers, raw byte blocks, fixed ASCII
//! tags, constant verifiers and the length-prefixed text encodings.
use vstd::prelude::*;
use vstd::slice::{slice_subrange, slice_to_vec};

use crate::error::DecodeError;

verus! {

/// The text `String::from_utf8_lossy` makes of these bytes.
pub uninterp spec fn utf8_lossy(b: Seq<u8>) -> Seq<char>;

/// The text `String::from_utf16_lossy` makes of these UTF-16 code units.
pub uninterp spec fn utf16_lossy(u: Seq<u16>) -> Seq<char>;

pub open spec fn u16_at(s: Seq<u8>, p: int) -> u16 {
    (s[p] as int + s[p + 1] as int * 0x100) as u16
}

pub open spec fn u32_at(s: Seq<u8>, p: int) -> u32 {
    (s[p] as int + s[p + 1] as int * 0x100 + s[p + 2] as int * 0x1_0000 + s[p + 3] as int
        * 0x100_0000) as u32
}

pub open spec fn u64_at(s: Seq<u8>, p: int) -> u64 {
    (u32_at(s, p) as int + u32_at(s, p + 4) as int * 0x1_0000_0000) as u64
}

/// Whether `n` bytes are left in `s` from `p` on.
pub open spec fn avail(s: Seq<u8>, p: usize, n: int) -> bool {
    p + n <= s.len()
}

pub open spec fn eof(p: usize, n: u64) -> DecodeError {
    DecodeError::UnexpectedEof { offset: p, needed: n }
}

pub open spec fn spec_u8(s: Seq<u8>, p: usize) -> Result<(u8, usize), DecodeError> {
    if avail(s, p, 1) {
        Ok((s[p as int], (p + 1) as usize))
    } else {
        Err(eof(p, 1))
    }
}

pub open spec fn spec_u16(s: Seq<u8>, p: usize) -> Result<(u16, usize), DecodeError> {
    if avail(s, p, 2) {
        Ok((u16_at(s, p as int), (p + 2) as usize))
    } else {
        Err(eof(p, 2))
    }
}

pub open spec fn spec_u32(s: Seq<u8>, p: usize) -> Result<(u32, usize), DecodeError> {
    if avail(s, p, 4) {
        Ok((u32_at(s, p as int), (p + 4) as usize))
    } else {
        Err(eof(p, 4))
    }
}

pub open spec fn spec_u64(s: Seq<u8>, p: usize) -> Result<(u64, usize), DecodeError> {
    if avail(s, p, 8) {
        Ok((u64_at(s, p as int), (p + 8) as usize))
    } else {
        Err(eof(p, 8))
    }
}

/// `n` raw bytes, kept as they are.
pub open spec fn spec_block(s: Seq<u8>, p: usize, n: usize) -> Result<(Seq<u8>, usize), DecodeError> {
    if avail(s, p, n as int) {
        Ok((s.subrange(p as int, p + n), (p + n) as usize))
    } else {
        Err(eof(p, n as u64))
    }
}

/// A 32-bit field that must hold `expected`.
pub open spec fn spec_verify_u32(s: Seq<u8>, p: usize, expected: u32) -> Result<(u32, usize), DecodeError> {
    match spec_u32(s, p) {
        Ok((v, e)) => if v == expected {
            Ok((v, e))
        } else {
            Err(DecodeError::ConstraintViolation { offset: p, expected: expected as u64, actual: v as u64 })
        },
        Err(x) => Err(x),
    }
}

/// Whether the bytes at `p` spell `tag`.
pub open spec fn tag_at(s: Seq<u8>, p: usize, tag: Seq<u8>) -> bool {
    avail(s, p, tag.len() as int) && s.subrange(p as int, p + tag.len()) == tag
}

/// A fixed ASCII tag, consumed.
pub open spec fn spec_tag(s: Seq<u8>, p: usize, tag: Seq<u8>) -> Result<usize, DecodeError> {
    if !avail(s, p, tag.len() as int) {
        Err(eof(p, tag.len() as u64))
    } else if tag_at(s, p, tag) {
        Ok((p + tag.len()) as usize)
    } else {
        Err(DecodeError::TagMismatch { offset: p, len: tag.len() as usize })
    }
}

/// UTF-8 text whose byte count is given by a 32-bit prefix; the count is kept.
pub open spec fn spec_utf8_var(s: Seq<u8>, p: usize) -> Result<((u32, Seq<char>), usize), DecodeError> {
    match spec_u32(s, p) {
        Err(x) => Err(x),
        Ok((n, q)) => match spec_block(s, q, n as usize) {
            Err(x) => Err(x),
            Ok((b, e)) => Ok(((n, utf8_lossy(b)), e)),
        },
    }
}

/// The `n` little-endian code units that start at `p`.
pub open spec fn units_at(s: Seq<u8>, p: int, n: nat) -> Seq<u16> {
    Seq::new(n, |i: int| u16_at(s, p + 2 * i))
}

/// UTF-16 text whose code-unit count is given by a 32-bit prefix; the count is kept.
pub open spec fn spec_utf16_var(s: Seq<u8>, p: usize) -> Result<((u32, Seq<char>), usize), DecodeError> {
    match spec_u32(s, p) {
        Err(x) => Err(x),
        Ok((n, q)) => if avail(s, q, 2 * n) {
            Ok(((n, utf16_lossy(units_at(s, q as int, n as nat))), (q + 2 * n) as usize))
        } else {
            Err(eof(q, (2 * n) as u64))
        },
    }
}

/// Where the first zero code unit at or after `p` starts (`Ok`), or where the
/// buffer ends inside a code unit before one is found (`Err`).
pub open spec fn terminator_from(s: Seq<u8>, p: int) -> Result<int, int>
    decreases s.len() - p,
{
    if p + 2 > s.len() {
        Err(p)
    } else if u16_at(s, p) == 0 {
        Ok(p)
    } else {
        terminator_from(s, p + 2)
    }
}

/// UTF-16 text ended by a zero code unit, which is consumed and not kept.
pub open spec fn spec_utf16_terminated(s: Seq<u8>, p: usize) -> Result<(Seq<char>, usize), DecodeError> {
    match terminator_from(s, p as int) {
        Ok(t) => Ok((utf16_lossy(units_at(s, p as int, ((t - p) / 2) as nat)), (t + 2) as usize)),
        Err(q) => Err(eof(q as usize, 2)),
    }
}

/// The first position at or after `p` that is the end or holds a non-zero byte.
pub open spec fn zeros_end(s: Seq<u8>, p: int) -> int
    decreases s.len() - p,
{
    if p >= s.len() || s[p] != 0 {
        p
    } else {
        zeros_end(s, p + 1)
    }
}

/// Relies on `String::from_utf8_lossy`: the text depends on the bytes alone.
#[verifier::external_body]
fn utf8_lossy_string(b: &[u8]) -> (r: String)
    ensures
        r@ == utf8_lossy(b@),
{
    String::from_utf8_lossy(b).into_owned()
}

/// Relies on `String::from_utf16_lossy`: the text depends on the code units alone.
#[verifier::external_body]
fn utf16_lossy_string(u: &[u16]) -> (r: String)
    ensures
        r@ == utf16_lossy(u@),
{
    String::from_utf16_lossy(u)
}

/// The text that `b` holds, with malformed sequences replaced.
pub fn utf8_text(b: &Vec<u8>) -> (r: String)
    ensures
        r@ == utf8_lossy(b@),
{
    utf8_lossy_string(b.as_slice())
}

/// Reads one byte.
pub fn read_u8(buf: &[u8], pos: usize) -> (r: Result<(u8, usize), DecodeError>)
    ensures
        r == spec_u8(buf@, pos),
{
    if pos < buf.len() {
        Ok((buf[pos], pos + 1))
    } else {
        Err(DecodeError::UnexpectedEof { offset: pos, needed: 1 })
    }
}

/// Reads a little-endian 16-bit integer.
pub fn read_u16(buf: &[u8], pos: usize) -> (r: Result<(u16, usize), DecodeError>)
    ensures
        r == spec_u16(buf@, pos),
{
    if pos <= buf.len() && buf.len() - pos >= 2 {
        let v = buf[pos] as u16 + buf[pos + 1] as u16 * 0x100;
        Ok((v, pos + 2))
    } else {
        Err(DecodeError::UnexpectedEof { offset: pos, needed: 2 })
    }
}

/// Reads a little-endian 32-bit integer.
pub fn read_u32(buf: &[u8], pos: usize) -> (r: Result<(u32, usize), DecodeError>)
    ensures
        r == spec_u32(buf@, pos),
{
    if pos <= buf.len() && buf.len() - pos >= 4 {
        let v = buf[pos] as u32 + buf[pos + 1] as u32 * 0x100 + buf[pos + 2] as u32 * 0x1_0000
            + buf[pos + 3] as u32 * 0x100_0000;
        Ok((v, pos + 4))
    } else {
        Err(DecodeError::UnexpectedEof { offset: pos, needed: 4 })
    }
}

/// Reads a little-endian 64-bit integer.
pub fn read_u64(buf: &[u8], pos: usize) -> (r: Result<(u64, usize), DecodeError>)
    ensures
        r == spec_u64(buf@, pos),
{
    if pos <= buf.len() && buf.len() - pos >= 8 {
        let (lo, q) = match read_u32(buf, pos) {
            Ok(x) => x,
            Err(x) => return Err(x),
        };
        let (hi, e) = match read_u32(buf, q) {
            Ok(x) => x,
            Err(x) => return Err(x),
        };
        Ok((lo as u64 + hi as u64 * 0x1_0000_0000, e))
    } else {
        Err(DecodeError::UnexpectedEof { offset: pos, needed: 8 })
    }
}

/// Reads `n` raw bytes.
pub fn read_block(buf: &[u8], pos: usize, n: usize) -> (r: Result<(Vec<u8>, usize), DecodeError>)
    ensures
        match r {
            Ok((v, e)) => spec_block(buf@, pos, n) == Ok::<(Seq<u8>, usize), DecodeError>((v@, e)),
            Err(x) => spec_block(buf@, pos, n) == Err::<(Seq<u8>, usize), DecodeError>(x),
        },
{
    if pos <= buf.len() && buf.len() - pos >= n {
        let v = slice_to_vec(slice_subrange(buf, pos, pos + n));
        Ok((v, pos + n))
    } else {
        Err(DecodeError::UnexpectedEof { offset: pos, needed: n as u64 })
    }
}

/// Reads a 32-bit field that must equal `expected`.
pub fn verify_u32(buf: &[u8], pos: usize, expected: u32) -> (r: Result<(u32, usize), DecodeError>)
    ensures
        r == spec_verify_u32(buf@, pos, expected),
{
    let (v, e) = read_u32(buf, pos)?;
    if v == expected {
        Ok((v, e))
    } else {
        Err(DecodeError::ConstraintViolation { offset: pos, expected: expected as u64, actual: v as u64 })
    }
}

/// Tells, without consuming anything, whether the bytes at `pos` spell `tag`.
pub fn peek_tag(buf: &[u8], pos: usize, tag: &[u8]) -> (r: bool)
    ensures
        r == tag_at(buf@, pos, tag@),
{
    if pos > buf.len() || buf.len() - pos < tag.len() {
        return false;
    }
    let mut i: usize = 0;
    while i < tag.len()
        invariant
            pos + tag.len() <= buf.len(),
            i <= tag.len(),
            forall|k: int| 0 <= k < i ==> buf@[pos + k] == tag@[k],
        decreases tag.len() - i,
    {
        if buf[pos + i] != tag[i] {
            assert(buf@.subrange(pos as int, pos + tag.len())[i as int] != tag@[i as int]);
            return false;
        }
        i += 1;
    }
    assert(buf@.subrange(pos as int, pos + tag.len()) =~= tag@);
    true
}

/// Consumes a fixed ASCII tag.
pub fn expect_tag(buf: &[u8], pos: usize, tag: &[u8]) -> (r: Result<usize, DecodeError>)
    ensures
        r == spec_tag(buf@, pos, tag@),
{
    if pos > buf.len() || buf.len() - pos < tag.len() {
        Err(DecodeError::UnexpectedEof { offset: pos, needed: tag.len() as u64 })
    } else if peek_tag(buf, pos, tag) {
        Ok(pos + tag.len())
    } else {
        Err(DecodeError::TagMismatch { offset: pos, len: tag.len() })
    }
}

/// Reads UTF-8 text after its 32-bit byte count; malformed sequences are
/// replaced, not refused.
pub fn read_utf8_var(buf: &[u8], pos: usize) -> (r: Result<((u32, String), usize), DecodeError>)
    ensures
        match r {
            Ok(((n, t), e)) => spec_utf8_var(buf@, pos) == Ok::<((u32, Seq<char>), usize), DecodeError>(((n, t@), e)),
            Err(x) => spec_utf8_var(buf@, pos) == Err::<((u32, Seq<char>), usize), DecodeError>(x),
        },
{
    let (n, q) = read_u32(buf, pos)?;
    let (b, e) = read_block(buf, q, n as usize)?;
    Ok(((n, utf8_text(&b)), e))
}

/// Collects the `n` little-endian code units that start at `pos`.
fn read_units(buf: &[u8], pos: usize, n: usize) -> (r: Vec<u16>)
    requires
        pos + 2 * n <= buf@.len(),
    ensures
        r@ == units_at(buf@, pos as int, n as nat),
{
    let mut v: Vec<u16> = Vec::new();
    let mut i: usize = 0;
    while i < n
        invariant
            pos + 2 * n <= buf.len(),
            i <= n,
            v@ == units_at(buf@, pos as int, i as nat),
        decreases n - i,
    {
        let (u, _) = match read_u16(buf, pos + 2 * i) {
            Ok(x) => x,
            Err(_) => return v,
        };
        v.push(u);
        i += 1;
        assert(v@ =~= units_at(buf@, pos as int, i as nat));
    }
    v
}

/// Reads UTF-16 text after its 32-bit code-unit count; unpaired surrogates
/// are replaced, not refused.
pub fn read_utf16_var(buf: &[u8], pos: usize) -> (r: Result<((u32, String), usize), DecodeError>)
    ensures
        match r {
            Ok(((n, t), e)) => spec_utf16_var(buf@, pos) == Ok::<((u32, Seq<char>), usize), DecodeError>(((n, t@), e)),
            Err(x) => spec_utf16_var(buf@, pos) == Err::<((u32, Seq<char>), usize), DecodeError>(x),
        },
{
    let (n, q) = read_u32(buf, pos)?;
    let bytes: u64 = 2 * n as u64;
    if ((buf.len() - q) as u64) < bytes {
        return Err(DecodeError::UnexpectedEof { offset: q, needed: bytes });
    }
    let units = read_units(buf, q, n as usize);
    Ok(((n, utf16_lossy_string(units.as_slice())), q + 2 * n as usize))
}

/// Reads UTF-16 text up to a zero code unit, which is consumed.
pub fn read_utf16_terminated(buf: &[u8], pos: usize) -> (r: Result<(String, usize), DecodeError>)
    ensures
        match r {
            Ok((t, e)) => spec_utf16_terminated(buf@, pos) == Ok::<(Seq<char>, usize), DecodeError>((t@, e)),
            Err(x) => spec_utf16_terminated(buf@, pos) == Err::<(Seq<char>, usize), DecodeError>(x),
        },
{
    let mut units: Vec<u16> = Vec::new();
    let mut q: usize = pos;
    loop
        invariant
            pos <= q,
            (q - pos) % 2 == 0,
            terminator_from(buf@, q as int) == terminator_from(buf@, pos as int),
            units@ == units_at(buf@, pos as int, ((q - pos) / 2) as nat),
        decreases buf@.len() - q,
    {
        if q > buf.len() || buf.len() - q < 2 {
            return Err(DecodeError::UnexpectedEof { offset: q, needed: 2 });
        }
        let u = buf[q] as u16 + buf[q + 1] as u16 * 0x100;
        let e = q + 2;
        if u == 0 {
            return Ok((utf16_lossy_string(units.as_slice()), e));
        }
        units.push(u);
        q = e;
        assert(units@ =~= units_at(buf@, pos as int, ((q - pos) / 2) as nat));
    }
}

/// Skips zero bytes up to the end or the first non-zero byte.
pub fn skip_zeroes(buf: &[u8], pos: usize) -> (r: usize)
    ensures
        r == zeros_end(buf@, pos as int),
{
    let mut q: usize = pos;
    while q < buf.len() && buf[q] == 0
        invariant
            pos <= q,
            zeros_end(buf@, q as int) == zeros_end(buf@, pos as int),
        decreases buf@.len() - q,
    {
        q += 1;
    }
    q
}

} // verus!
