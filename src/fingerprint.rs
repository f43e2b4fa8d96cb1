//! Content fingerprints: the lower-case hex form of a file's MD5 digest, or
//! the empty string for a file that could not be read.
use md5::{Digest, Md5};
use vstd::prelude::*;

verus! {

/// The MD5 digest of a byte sequence, as the `md-5` crate computes it.
pub uninterp spec fn md5_of(content: Seq<u8>) -> Seq<u8>;

/// The sixteen bytes of the MD5 digest of `content`.
pub open spec fn md5_digest(content: Seq<u8>) -> Seq<u8> {
    Seq::new(16, |i: int| md5_of(content)[i])
}

/// The lower-case hex digit for a value below sixteen.
pub open spec fn hex_digit(n: u8) -> char {
    seq!['0', '1', '2', '3', '4', '5', '6', '7', '8', '9', 'a', 'b', 'c', 'd', 'e', 'f'][n as int]
}

/// Lower-case hex: two digits per byte, high nibble first.
pub open spec fn lower_hex(b: Seq<u8>) -> Seq<char>
    decreases b.len(),
{
    if b.len() == 0 {
        Seq::empty()
    } else {
        lower_hex(b.drop_last()) + seq![hex_digit(b.last() / 16), hex_digit(b.last() % 16)]
    }
}

/// The fingerprint of a file: hex of the MD5 digest of its content, or empty
/// when the file could not be read.
pub open spec fn fingerprint_spec(content: Option<Seq<u8>>) -> Seq<char> {
    match content {
        Some(c) => lower_hex(md5_digest(c)),
        None => Seq::empty(),
    }
}

/// What a file read gave, as plain bytes.
pub open spec fn content_view(content: Option<Vec<u8>>) -> Option<Seq<u8>> {
    match content {
        Some(v) => Some(v@),
        None => None,
    }
}

/// Hex takes two digits per byte.
pub proof fn lemma_lower_hex_len(b: Seq<u8>)
    ensures
        lower_hex(b).len() == 2 * b.len(),
    decreases b.len(),
{
    if b.len() > 0 {
        lemma_lower_hex_len(b.drop_last());
    }
}

/// The fingerprint of a readable file has thirty-two hex digits, so it is
/// never the empty fingerprint of an unreadable one.
pub proof fn lemma_fingerprint_of_content_nonempty(c: Seq<u8>)
    ensures
        fingerprint_spec(Some(c)).len() == 32,
{
    lemma_lower_hex_len(md5_digest(c));
}

/// Relies on md5::Md5::digest (through digest::Digest): the sixteen-byte MD5
/// digest of the data.
#[verifier::external_body]
fn md5_bytes(data: &[u8]) -> (r: Vec<u8>)
    ensures
        r@ == Seq::new(16, |i: int| md5_of(data@)[i]),
{
    Md5::digest(data).to_vec()
}

/// Relies on base16ct::lower::encode_string: each byte becomes two lower-case
/// hex digits, high nibble first. It panics only on inputs longer than half
/// of `usize::MAX`.
#[verifier::external_body]
fn hex_lower(b: &[u8]) -> (r: String)
    requires
        b@.len() <= usize::MAX / 2,
    ensures
        r@ == lower_hex(b@),
{
    base16ct::lower::encode_string(b)
}

/// Fingerprint of a file's content; `None` stands for a file that could not
/// be opened or read, and gives the empty fingerprint.
pub fn fingerprint(content: &Option<Vec<u8>>) -> (r: String)
    ensures
        r@ == fingerprint_spec(content_view(*content)),
{
    match content {
        Some(bytes) => {
            let digest = md5_bytes(bytes.as_slice());
            hex_lower(digest.as_slice())
        },
        None => String::new(),
    }
}

} // verus!
