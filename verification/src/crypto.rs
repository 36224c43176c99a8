//! Message authentication, digests and text encodings used to sign requests.
use vstd::prelude::*;
use vstd::string::StringSliceAdditionalSpecFns;
use base64::Engine;
use hmac::{Hmac, Mac};
use sha2::{Digest, Sha256, Sha512};

verus! {

/// The HMAC-SHA256 tag of `msg` under `key`.
pub uninterp spec fn hmac_sha256_of(key: Seq<u8>, msg: Seq<u8>) -> Seq<u8>;

/// The HMAC-SHA512 tag of `msg` under `key`.
pub uninterp spec fn hmac_sha512_of(key: Seq<u8>, msg: Seq<u8>) -> Seq<u8>;

/// The SHA-512 digest of `data`.
pub uninterp spec fn sha512_of(data: Seq<u8>) -> Seq<u8>;

/// The lower-case hexadecimal digit for `d < 16`.
pub open spec fn hex_lower_digit(d: int) -> char {
    if d < 10 {
        (48 + d) as char
    } else {
        (87 + d) as char
    }
}

/// The upper-case hexadecimal digit for `d < 16`.
pub open spec fn hex_upper_digit(d: int) -> char {
    if d < 10 {
        (48 + d) as char
    } else {
        (55 + d) as char
    }
}

/// Each byte as two lower-case hexadecimal digits, high nibble first.
pub open spec fn hex_lower(bytes: Seq<u8>) -> Seq<char>
    decreases bytes.len(),
{
    if bytes.len() == 0 {
        seq![]
    } else {
        seq![hex_lower_digit((bytes[0] as int) / 16), hex_lower_digit((bytes[0] as int) % 16)] + hex_lower(
            bytes.subrange(1, bytes.len() as int),
        )
    }
}

/// The character of the standard base64 alphabet for `v < 64`.
pub open spec fn base64_digit(v: int) -> char {
    if v < 26 {
        (65 + v) as char
    } else if v < 52 {
        (71 + v) as char
    } else if v < 62 {
        (v - 4) as char
    } else if v == 62 {
        '+'
    } else {
        '/'
    }
}

/// Standard base64 (alphabet `A-Z a-z 0-9 + /`) with `=` padding.
pub open spec fn base64_standard(b: Seq<u8>) -> Seq<char>
    decreases b.len(),
{
    if b.len() == 0 {
        seq![]
    } else if b.len() == 1 {
        seq![base64_digit((b[0] as int) / 4), base64_digit(((b[0] as int) % 4) * 16), '=', '=']
    } else if b.len() == 2 {
        seq![
            base64_digit((b[0] as int) / 4),
            base64_digit(((b[0] as int) % 4) * 16 + (b[1] as int) / 16),
            base64_digit(((b[1] as int) % 16) * 4),
            '=',
        ]
    } else {
        seq![
            base64_digit((b[0] as int) / 4),
            base64_digit(((b[0] as int) % 4) * 16 + (b[1] as int) / 16),
            base64_digit(((b[1] as int) % 16) * 4 + (b[2] as int) / 64),
            base64_digit((b[2] as int) % 64),
        ] + base64_standard(b.subrange(3, b.len() as int))
    }
}

/// Bytes that percent-encoding leaves as they are: ASCII letters, digits, `-`, `.`, `_`, `~`.
pub open spec fn url_unreserved(b: u8) -> bool {
    (48 <= b <= 57) || (65 <= b <= 90) || (97 <= b <= 122) || b == 45 || b == 46 || b == 95
        || b == 126
}

/// Percent-encoding of a byte string: unreserved bytes stay, every other byte
/// becomes `%` and two upper-case hexadecimal digits.
pub open spec fn percent_encoded(b: Seq<u8>) -> Seq<char>
    decreases b.len(),
{
    if b.len() == 0 {
        seq![]
    } else {
        (if url_unreserved(b[0]) {
            seq![(b[0] as int) as char]
        } else {
            seq!['%', hex_upper_digit((b[0] as int) / 16), hex_upper_digit((b[0] as int) % 16)]
        }) + percent_encoded(b.subrange(1, b.len() as int))
    }
}

/// `Hmac::<Sha256>` of crate `hmac`: `new_from_slice(key)`, `update(msg)`,
/// `finalize().into_bytes()`. Claims the tag is the named HMAC-SHA256 value of
/// the two byte strings and is 32 bytes long (the output size of SHA-256).
/// `new_from_slice` accepts keys of every length for HMAC.
#[verifier::external_body]
pub(crate) fn hmac_sha256(key: &[u8], msg: &[u8]) -> (tag: Vec<u8>)
    ensures
        tag@ == hmac_sha256_of(key@, msg@),
        tag@.len() == 32,
{
    let mut mac = Hmac::<Sha256>::new_from_slice(key).expect("HMAC can take key of any size");
    mac.update(msg);
    mac.finalize().into_bytes().to_vec()
}

/// `Hmac::<Sha512>` of crate `hmac`, used as for `hmac_sha256`. Claims the tag is
/// the named HMAC-SHA512 value of the two byte strings and is 64 bytes long.
#[verifier::external_body]
pub(crate) fn hmac_sha512(key: &[u8], msg: &[u8]) -> (tag: Vec<u8>)
    ensures
        tag@ == hmac_sha512_of(key@, msg@),
        tag@.len() == 64,
{
    let mut mac = Hmac::<Sha512>::new_from_slice(key).expect("HMAC can take key of any size");
    mac.update(msg);
    mac.finalize().into_bytes().to_vec()
}

/// `Sha512::digest` of crate `sha2`, printed with `{:x}` (the `LowerHex` impl of
/// `generic_array`, two lower-case digits per byte). Claims the text is the
/// lower-case hexadecimal form of the named SHA-512 digest, which is 64 bytes.
#[verifier::external_body]
pub(crate) fn sha512_hex(data: &[u8]) -> (hex: String)
    ensures
        hex@ == hex_lower(sha512_of(data@)),
        hex@.len() == 128,
{
    format!("{:x}", Sha512::digest(data))
}

/// `hex::encode`: claims each byte becomes two lower-case hexadecimal digits,
/// high nibble first (the table `HEX_CHARS_LOWER` of crate `hex`).
#[verifier::external_body]
pub(crate) fn hex_encode(bytes: &[u8]) -> (text: String)
    ensures
        text@ == hex_lower(bytes@),
{
    hex::encode(bytes)
}

/// `base64::engine::general_purpose::STANDARD.encode`: claims the result is the
/// standard base64 alphabet with `=` padding.
#[verifier::external_body]
pub(crate) fn base64_encode(bytes: &[u8]) -> (text: String)
    ensures
        text@ == base64_standard(bytes@),
{
    base64::engine::general_purpose::STANDARD.encode(bytes)
}

/// `urlencoding::encode`: claims every UTF-8 byte of `s` other than ASCII letters,
/// digits, `-`, `.`, `_` and `~` becomes `%` with two upper-case hexadecimal digits.
#[verifier::external_body]
pub(crate) fn url_encode(s: &str) -> (text: String)
    ensures
        text@ == percent_encoded(s.spec_bytes()),
{
    urlencoding::encode(s).into_owned()
}

} // verus!
