//! The upload wire format: a length-prefixed metadata block followed by a
//! length-prefixed content block.
use vstd::prelude::*;

verus! {

/// The largest metadata block an upload may declare, in bytes.
pub const MAX_METADATA_LEN: u32 = 1048576;

/// Why an upload body could not be split into metadata and content.
#[derive(Debug, Clone, Copy, PartialEq, Eq, Structural)]
pub enum DecodeError {
    /// Fewer than four bytes were sent; carries the number that were.
    TooShort(usize),
    /// The declared metadata length is zero, too large, or longer than the body.
    BadMetadataLength(usize),
    /// The declared content length does not match what follows it.
    InvalidBodyLength { need: usize, had: usize },
}

/// The two blocks of a well-formed upload.
#[derive(Debug)]
pub struct Upload {
    pub metadata: Vec<u8>,
    pub content: Vec<u8>,
}

/// The little-endian unsigned 32-bit integer stored in `b[at..at + 4]`.
pub open spec fn le_u32(b: Seq<u8>, at: int) -> int {
    b[at] as int + b[at + 1] as int * 256 + b[at + 2] as int * 65536 + b[at + 3] as int
        * 16777216
}

/// What decoding an upload body yields: the metadata and content blocks, or the
/// first framing error found.
pub open spec fn decode_spec(b: Seq<u8>) -> Result<(Seq<u8>, Seq<u8>), DecodeError> {
    if b.len() < 4 {
        Err(DecodeError::TooShort(b.len() as usize))
    } else {
        let m = le_u32(b, 0);
        if m == 0 || m > MAX_METADATA_LEN || m > b.len() - 4 {
            Err(DecodeError::BadMetadataLength(m as usize))
        } else {
            let rest = b.len() - 4 - m;
            if rest < 4 {
                Err(DecodeError::InvalidBodyLength { need: 4, had: rest as usize })
            } else {
                let c = le_u32(b, 4 + m);
                if c != rest - 4 {
                    Err(DecodeError::InvalidBodyLength { need: c as usize, had: (rest - 4) as usize })
                } else {
                    Ok((b.subrange(4, 4 + m), b.subrange(8 + m, b.len() as int)))
                }
            }
        }
    }
}

/// Reads the little-endian `u32` at `b[at..at + 4]`.
pub fn read_u32_le(b: &Vec<u8>, at: usize) -> (r: u32)
    requires
        at + 4 <= b.len(),
    ensures
        r as int == le_u32(b@, at as int),
{
    let r: u32 = b[at] as u32 + b[at + 1] as u32 * 256 + b[at + 2] as u32 * 65536 + b[at + 3] as u32
        * 16777216;
    r
}

/// Copies `b[start..end]` into a new vector.
fn copy_range(b: &Vec<u8>, start: usize, end: usize) -> (r: Vec<u8>)
    requires
        start <= end <= b.len(),
    ensures
        r@ == b@.subrange(start as int, end as int),
{
    let mut r: Vec<u8> = Vec::with_capacity(end - start);
    let mut i: usize = start;
    while i < end
        invariant
            start <= i <= end <= b.len(),
            r@ == b@.subrange(start as int, i as int),
        decreases end - i,
    {
        r.push(b[i]);
        i = i + 1;
    }
    r
}

/// Splits an upload body into its metadata and content blocks.
pub fn decode_upload(body: &Vec<u8>) -> (r: Result<Upload, DecodeError>)
    ensures
        match r {
            Ok(u) => decode_spec(body@) == Ok::<(Seq<u8>, Seq<u8>), DecodeError>((u.metadata@, u.content@)),
            Err(e) => decode_spec(body@) == Err::<(Seq<u8>, Seq<u8>), DecodeError>(e),
        },
{
    let len = body.len();
    if len < 4 {
        return Err(DecodeError::TooShort(len));
    }
    let m = read_u32_le(body, 0);
    if m == 0 || m > MAX_METADATA_LEN || m as usize > len - 4 {
        return Err(DecodeError::BadMetadataLength(m as usize));
    }
    let mend = 4 + m as usize;
    let rest = len - mend;
    if rest < 4 {
        return Err(DecodeError::InvalidBodyLength { need: 4, had: rest });
    }
    let c = read_u32_le(body, mend);
    if c as usize != rest - 4 {
        return Err(DecodeError::InvalidBodyLength { need: c as usize, had: rest - 4 });
    }
    let metadata = copy_range(body, 4, mend);
    let content = copy_range(body, mend + 4, len);
    Ok(Upload { metadata, content })
}

/// A body shorter than four bytes is rejected as too short.
pub proof fn short_body_is_too_short(b: Seq<u8>)
    requires
        b.len() < 4,
    ensures
        decode_spec(b) == Err::<(Seq<u8>, Seq<u8>), DecodeError>(DecodeError::TooShort(b.len() as usize)),
{
}

/// A declared metadata length that is zero, above the limit, or longer than
/// the rest of the body is rejected as a bad metadata length.
pub proof fn bad_metadata_length_is_rejected(b: Seq<u8>)
    requires
        b.len() >= 4,
        le_u32(b, 0) == 0 || le_u32(b, 0) > MAX_METADATA_LEN || le_u32(b, 0) > b.len() - 4,
    ensures
        decode_spec(b) == Err::<(Seq<u8>, Seq<u8>), DecodeError>(
            DecodeError::BadMetadataLength(le_u32(b, 0) as usize),
        ),
{
}

/// Once the metadata block is well framed, a content length that differs
/// from the number of bytes left (or cannot be read at all) is rejected as an
/// invalid body length.
pub proof fn body_length_mismatch_is_rejected(b: Seq<u8>)
    requires
        b.len() >= 4,
        0 < le_u32(b, 0) <= MAX_METADATA_LEN,
        le_u32(b, 0) <= b.len() - 4,
        b.len() - 4 - le_u32(b, 0) < 4 || le_u32(b, 4 + le_u32(b, 0)) != b.len() - 8 - le_u32(
            b,
            0,
        ),
    ensures
        decode_spec(b) matches Err(DecodeError::InvalidBodyLength { .. }),
{
}

} // verus!
