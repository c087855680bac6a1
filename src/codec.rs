//! Framing of a transfer stream.
//!
//! On the wire a transfer is `[u16 name_len][name bytes][u64 size][body]`,
//! both integers big-endian, followed on the way back by a short
//! acknowledgment.
use crate::error::TransferError;
use vstd::prelude::*;
use vstd::string::*;
use vstd::utf8::*;

verus! {

/// Largest name, in bytes, that the 16-bit length field can describe.
pub const MAX_NAME_LEN: usize = 65535;

/// Bytes of the header that do not depend on the name: the two length
/// bytes and the eight size bytes.
pub const FIXED_HEADER_LEN: usize = 10;

/// Big-endian bytes of a 16-bit value.
pub open spec fn be16(v: u16) -> Seq<u8> {
    seq![(v >> 8u16) as u8, v as u8]
}

/// The 16-bit value whose big-endian bytes are `hi`, `lo`.
pub open spec fn from_be16(hi: u8, lo: u8) -> u16 {
    ((hi as u16) << 8u16) | (lo as u16)
}

/// Big-endian bytes of a 64-bit value.
pub open spec fn be64(v: u64) -> Seq<u8> {
    seq![
        (v >> 56u64) as u8,
        (v >> 48u64) as u8,
        (v >> 40u64) as u8,
        (v >> 32u64) as u8,
        (v >> 24u64) as u8,
        (v >> 16u64) as u8,
        (v >> 8u64) as u8,
        v as u8,
    ]
}

/// The 64-bit value whose big-endian bytes are the first eight of `b`.
pub open spec fn from_be64(b: Seq<u8>) -> u64
    recommends
        b.len() >= 8,
{
    ((b[0] as u64) << 56u64) | ((b[1] as u64) << 48u64) | ((b[2] as u64) << 40u64) | ((
    b[3] as u64) << 32u64) | ((b[4] as u64) << 24u64) | ((b[5] as u64) << 16u64) | ((
    b[6] as u64) << 8u64) | (b[7] as u64)
}

/// The bytes of the header for a name whose UTF-8 bytes are `name`.
pub open spec fn encode_header_spec(name: Seq<u8>, size: u64) -> Seq<u8> {
    be16(name.len() as u16) + name + be64(size)
}

/// The name length announced by the first two bytes of `b`.
pub open spec fn name_len_field(b: Seq<u8>) -> int
    recommends
        b.len() >= 2,
{
    from_be16(b[0], b[1]) as int
}

/// Whether `b` holds a whole header: its length prefix, the name it
/// announces, and the size field.
pub open spec fn holds_whole_header(b: Seq<u8>) -> bool {
    b.len() >= 2 && b.len() >= 2 + name_len_field(b) + 8
}

/// The name bytes of the header at the start of `b`.
pub open spec fn name_field(b: Seq<u8>) -> Seq<u8> {
    b.subrange(2, 2 + name_len_field(b))
}

/// The size bytes of the header at the start of `b`.
pub open spec fn size_field(b: Seq<u8>) -> Seq<u8> {
    b.subrange(2 + name_len_field(b), 2 + name_len_field(b) + 8)
}

/// What decoding the header at the start of `b` gives: the name and the
/// size, or the reason there is none. Bytes after the header are ignored.
pub open spec fn decode_header_spec(b: Seq<u8>) -> Result<(Seq<char>, u64), TransferError> {
    if !holds_whole_header(b) {
        Err(TransferError::TruncatedHeader)
    } else if !valid_utf8(name_field(b)) {
        Err(TransferError::InvalidNameEncoding)
    } else {
        Ok((decode_utf8(name_field(b)), from_be64(size_field(b))))
    }
}

/// The acknowledgment the receiver sends once a body is consumed: `"OK"`.
pub open spec fn ack_spec() -> Seq<u8> {
    seq![79u8, 75u8]
}

/// What the sender makes of the bytes read back as acknowledgment.
pub open spec fn ack_text_spec(b: Seq<u8>) -> Result<Seq<char>, TransferError> {
    if b.len() == 0 {
        Err(TransferError::ConnectionClosed)
    } else if !valid_utf8(b) {
        Err(TransferError::InvalidAckEncoding)
    } else {
        Ok(decode_utf8(b))
    }
}

proof fn lemma_be16_round_trip(v: u16)
    ensures
        from_be16(be16(v)[0], be16(v)[1]) == v,
{
    let hi = (v >> 8u16) as u8;
    let lo = v as u8;
    assert((((hi as u16) << 8u16) | (lo as u16)) == v) by (bit_vector)
        requires
            hi == (v >> 8u16) as u8,
            lo == v as u8,
    ;
}

proof fn lemma_be64_round_trip(v: u64)
    ensures
        from_be64(be64(v)) == v,
{
    let b = be64(v);
    let (b0, b1, b2, b3, b4, b5, b6, b7) = (b[0], b[1], b[2], b[3], b[4], b[5], b[6], b[7]);
    assert(((b0 as u64) << 56u64) | ((b1 as u64) << 48u64) | ((b2 as u64) << 40u64) | ((
    b3 as u64) << 32u64) | ((b4 as u64) << 24u64) | ((b5 as u64) << 16u64) | ((b6 as u64)
        << 8u64) | (b7 as u64) == v) by (bit_vector)
        requires
            b0 == (v >> 56u64) as u8,
            b1 == (v >> 48u64) as u8,
            b2 == (v >> 40u64) as u8,
            b3 == (v >> 32u64) as u8,
            b4 == (v >> 24u64) as u8,
            b5 == (v >> 16u64) as u8,
            b6 == (v >> 8u64) as u8,
            b7 == v as u8,
    ;
}

/// Decoding the header encoded for any name and size gives that name and
/// size back, whatever body bytes follow it.
pub proof fn lemma_header_round_trip(name: Seq<char>, size: u64, body: Seq<u8>)
    requires
        encode_utf8(name).len() <= MAX_NAME_LEN,
    ensures
        decode_header_spec(encode_header_spec(encode_utf8(name), size) + body) == Ok::<
            (Seq<char>, u64),
            TransferError,
        >((name, size)),
{
    let nb = encode_utf8(name);
    let n = nb.len();
    let b = encode_header_spec(nb, size) + body;
    lemma_be16_round_trip(n as u16);
    assert(name_len_field(b) == n);
    assert(name_field(b) =~= nb);
    assert(size_field(b) =~= be64(size));
    lemma_be64_round_trip(size);
    encode_utf8_valid_utf8(name);
    encode_utf8_decode_utf8(name);
}

/// Bytes that stop before the end of the size field announced by their
/// length prefix never decode: the header is reported truncated.
pub proof fn lemma_short_input_truncated(b: Seq<u8>)
    requires
        b.len() < 2 || b.len() < 2 + name_len_field(b) + 8,
    ensures
        decode_header_spec(b) == Err::<(Seq<char>, u64), TransferError>(
            TransferError::TruncatedHeader,
        ),
{
}

/// A whole header whose name field is not UTF-8 is rejected for its
/// encoding.
pub proof fn lemma_invalid_name_rejected(b: Seq<u8>)
    requires
        holds_whole_header(b),
        !valid_utf8(name_field(b)),
    ensures
        decode_header_spec(b) == Err::<(Seq<char>, u64), TransferError>(
            TransferError::InvalidNameEncoding,
        ),
{
}

/// Relies on `String::from_utf8`: it succeeds exactly on valid UTF-8, and
/// the string then holds the characters those bytes encode.
#[verifier::external_body]
fn utf8_to_string(bytes: Vec<u8>) -> (r: Option<String>)
    ensures
        r.is_some() == valid_utf8(bytes@),
        r matches Some(s) ==> s@ == decode_utf8(bytes@),
{
    String::from_utf8(bytes).ok()
}

/// Encodes the header that precedes a file's body on a transfer stream.
///
/// Fails with `NameTooLong` when the name's UTF-8 bytes do not fit the
/// 16-bit length field.
pub fn write_header(filename: &str, size: u64) -> (r: Result<Vec<u8>, TransferError>)
    ensures
        filename.spec_bytes().len() <= MAX_NAME_LEN <==> r.is_ok(),
        r matches Ok(v) ==> v@ == encode_header_spec(filename.spec_bytes(), size),
        r matches Err(e) ==> e == TransferError::NameTooLong,
{
    let bytes = filename.as_bytes();
    let n = bytes.len();
    if n > MAX_NAME_LEN {
        return Err(TransferError::NameTooLong);
    }
    let len16 = n as u16;
    let mut out: Vec<u8> = Vec::new();
    out.push((len16 >> 8u16) as u8);
    out.push(len16 as u8);
    let mut i: usize = 0;
    while i < n
        invariant
            n == bytes@.len(),
            i <= n,
            out@ == be16(len16) + bytes@.subrange(0, i as int),
        decreases n - i,
    {
        out.push(bytes[i]);
        i = i + 1;
        assert(bytes@.subrange(0, i as int) =~= bytes@.subrange(0, i - 1) + seq![bytes@[i - 1]]);
    }
    assert(bytes@.subrange(0, n as int) =~= bytes@);
    out.push((size >> 56u64) as u8);
    out.push((size >> 48u64) as u8);
    out.push((size >> 40u64) as u8);
    out.push((size >> 32u64) as u8);
    out.push((size >> 24u64) as u8);
    out.push((size >> 16u64) as u8);
    out.push((size >> 8u64) as u8);
    out.push(size as u8);
    assert(out@ =~= encode_header_spec(filename.spec_bytes(), size));
    Ok(out)
}

/// How many bytes the header starting with `prefix` occupies, once the two
/// length bytes are there; `None` while they are not.
pub fn header_size(prefix: &[u8]) -> (r: Option<usize>)
    ensures
        prefix@.len() < 2 <==> r.is_none(),
        r matches Some(n) ==> n == 2 + name_len_field(prefix@) + 8,
{
    if prefix.len() < 2 {
        return None;
    }
    let name_len = ((prefix[0] as u16) << 8u16) | (prefix[1] as u16);
    Some(name_len as usize + FIXED_HEADER_LEN)
}

/// Decodes the header at the start of `buf` into the file name and the
/// declared body size. Bytes after the header are left alone.
pub fn read_header(buf: &[u8]) -> (r: Result<(String, u64), TransferError>)
    ensures
        match r {
            Ok((name, size)) => decode_header_spec(buf@) == Ok::<
                (Seq<char>, u64),
                TransferError,
            >((name@, size)),
            Err(e) => decode_header_spec(buf@) == Err::<(Seq<char>, u64), TransferError>(e),
        },
{
    if buf.len() < 2 {
        return Err(TransferError::TruncatedHeader);
    }
    let name_len = (((buf[0] as u16) << 8u16) | (buf[1] as u16)) as usize;
    if buf.len() - 2 < name_len + 8 {
        return Err(TransferError::TruncatedHeader);
    }
    let mut name: Vec<u8> = Vec::new();
    let mut i: usize = 0;
    while i < name_len
        invariant
            2 + name_len + 8 <= buf@.len(),
            name_len == name_len_field(buf@),
            i <= name_len,
            name@ == buf@.subrange(2, 2 + i),
        decreases name_len - i,
    {
        name.push(buf[2 + i]);
        i = i + 1;
        assert(buf@.subrange(2, 2 + i) =~= buf@.subrange(2, 2 + i - 1) + seq![buf@[2 + i - 1]]);
    }
    let filename = match utf8_to_string(name) {
        Some(s) => s,
        None => return Err(TransferError::InvalidNameEncoding),
    };
    let p = 2 + name_len;
    let size = ((buf[p] as u64) << 56u64) | ((buf[p + 1] as u64) << 48u64) | ((buf[p + 2] as u64)
        << 40u64) | ((buf[p + 3] as u64) << 32u64) | ((buf[p + 4] as u64) << 24u64) | ((buf[p
        + 5] as u64) << 16u64) | ((buf[p + 6] as u64) << 8u64) | (buf[p + 7] as u64);
    assert(size == from_be64(size_field(buf@)));
    Ok((filename, size))
}

/// The acknowledgment payload a receiver sends after consuming a body.
pub fn ack_payload() -> (r: Vec<u8>)
    ensures
        r@ == ack_spec(),
{
    let mut v: Vec<u8> = Vec::new();
    v.push(79u8);
    v.push(75u8);
    assert(v@ =~= ack_spec());
    v
}

/// Turns the bytes read back from the receiver into the acknowledgment
/// text. Nothing read means the peer closed without acknowledging.
pub fn read_ack(bytes: &[u8]) -> (r: Result<String, TransferError>)
    ensures
        match r {
            Ok(s) => ack_text_spec(bytes@) == Ok::<Seq<char>, TransferError>(s@),
            Err(e) => ack_text_spec(bytes@) == Err::<Seq<char>, TransferError>(e),
        },
{
    if bytes.len() == 0 {
        return Err(TransferError::ConnectionClosed);
    }
    let mut v: Vec<u8> = Vec::new();
    let mut i: usize = 0;
    while i < bytes.len()
        invariant
            i <= bytes@.len(),
            v@ == bytes@.subrange(0, i as int),
        decreases bytes@.len() - i,
    {
        v.push(bytes[i]);
        i = i + 1;
        assert(bytes@.subrange(0, i as int) =~= bytes@.subrange(0, i - 1) + seq![bytes@[i - 1]]);
    }
    assert(bytes@.subrange(0, bytes@.len() as int) =~= bytes@);
    match utf8_to_string(v) {
        Some(s) => Ok(s),
        None => Err(TransferError::InvalidAckEncoding),
    }
}

} // verus!
