//! Digests and credential comparison: SHA-256 material hashes in lower-case
//! hex, and constant-time matching of bearer tokens by their digests.
use vstd::prelude::*;
use vstd::string::*;
use vstd::utf8::encode_utf8;
use sha2::Digest;
use subtle::ConstantTimeEq;

verus! {

/// The SHA-256 digest of a byte string.
pub uninterp spec fn sha256_digest(data: Seq<u8>) -> Seq<u8>;

/// Calls `sha2::Sha256::digest`. The contract states that the result is the
/// SHA-256 digest of the input, 32 bytes long; the digest function itself is
/// not modelled.
#[verifier::external_body]
pub(crate) fn sha256(data: &[u8]) -> (r: Vec<u8>)
    ensures
        r@ == sha256_digest(data@),
        r@.len() == 32,
{
    sha2::Sha256::digest(data).to_vec()
}

/// Calls `subtle::ConstantTimeEq::ct_eq` on two byte slices and converts the
/// resulting `Choice` to `bool`. The contract states that the answer is true
/// exactly when the slices hold the same bytes.
#[verifier::external_body]
fn constant_time_eq(a: &[u8], b: &[u8]) -> (r: bool)
    ensures
        r == (a@ == b@),
{
    bool::from(a.ct_eq(b))
}

pub open spec fn spec_hex_char(n: int) -> char {
    if n == 0 { '0' } else if n == 1 { '1' } else if n == 2 { '2' } else if n == 3 { '3' }
    else if n == 4 { '4' } else if n == 5 { '5' } else if n == 6 { '6' } else if n == 7 { '7' }
    else if n == 8 { '8' } else if n == 9 { '9' } else if n == 10 { 'a' } else if n == 11 { 'b' }
    else if n == 12 { 'c' } else if n == 13 { 'd' } else if n == 14 { 'e' } else { 'f' }
}

/// Lower-case hexadecimal rendering of bytes, two digits per byte.
pub open spec fn spec_hex(bytes: Seq<u8>) -> Seq<char>
    decreases bytes.len(),
{
    if bytes.len() == 0 {
        Seq::empty()
    } else {
        spec_hex(bytes.drop_last()) + seq![
            spec_hex_char(bytes.last() as int / 16),
            spec_hex_char(bytes.last() as int % 16),
        ]
    }
}

fn hex_digit(n: u8) -> (r: &'static str)
    requires
        n < 16,
    ensures
        r@ == seq![spec_hex_char(n as int)],
{
    match n {
        0 => { proof { reveal_strlit("0"); } "0" },
        1 => { proof { reveal_strlit("1"); } "1" },
        2 => { proof { reveal_strlit("2"); } "2" },
        3 => { proof { reveal_strlit("3"); } "3" },
        4 => { proof { reveal_strlit("4"); } "4" },
        5 => { proof { reveal_strlit("5"); } "5" },
        6 => { proof { reveal_strlit("6"); } "6" },
        7 => { proof { reveal_strlit("7"); } "7" },
        8 => { proof { reveal_strlit("8"); } "8" },
        9 => { proof { reveal_strlit("9"); } "9" },
        10 => { proof { reveal_strlit("a"); } "a" },
        11 => { proof { reveal_strlit("b"); } "b" },
        12 => { proof { reveal_strlit("c"); } "c" },
        13 => { proof { reveal_strlit("d"); } "d" },
        14 => { proof { reveal_strlit("e"); } "e" },
        _ => { proof { reveal_strlit("f"); } "f" },
    }
}

/// Render bytes as lower-case hex (`{:x}` of a digest).
pub fn hex_lower(bytes: &[u8]) -> (r: String)
    ensures
        r@ == spec_hex(bytes@),
{
    let mut out = String::new();
    let n = bytes.len();
    let mut i: usize = 0;
    while i < n
        invariant
            n == bytes@.len(),
            i <= n,
            out@ == spec_hex(bytes@.subrange(0, i as int)),
        decreases n - i,
    {
        let b = bytes[i];
        out.append(hex_digit(b / 16));
        out.append(hex_digit(b % 16));
        proof {
            let prefix = bytes@.subrange(0, i + 1);
            assert(prefix.drop_last() =~= bytes@.subrange(0, i as int));
            assert(prefix.last() == b);
        }
        i = i + 1;
    }
    proof {
        assert(bytes@.subrange(0, n as int) =~= bytes@);
    }
    out
}

/// The lower-case hex SHA-256 digest of a text's UTF-8 bytes.
pub open spec fn spec_text_digest_hex(text: Seq<char>) -> Seq<char> {
    spec_hex(sha256_digest(encode_utf8(text)))
}

/// The digest under which a credential token is stored.
pub fn token_hash(token: &str) -> (r: String)
    ensures
        r@ == spec_text_digest_hex(token@),
{
    let digest = sha256(token.as_bytes());
    hex_lower(digest.as_slice())
}

/// The material hash of a serialized document: `sha256:` and the lower-case
/// hex digest of its text.
pub fn material_hash_of_text(serialized: &str) -> (r: String)
    ensures
        r@ == "sha256:"@ + spec_text_digest_hex(serialized@),
{
    String::from_str("sha256:").concat(token_hash(serialized).as_str())
}

/// Whether two tokens match, compared in constant time by their digests.
pub open spec fn spec_token_matches(provided: Seq<char>, expected: Seq<char>) -> bool {
    sha256_digest(encode_utf8(provided)) == sha256_digest(encode_utf8(expected))
}

pub fn token_matches(provided: &str, expected: &str) -> (r: bool)
    ensures
        r == spec_token_matches(provided@, expected@),
{
    let p = sha256(provided.as_bytes());
    let e = sha256(expected.as_bytes());
    constant_time_eq(p.as_slice(), e.as_slice())
}

/// A token always matches itself.
pub proof fn lemma_token_matches_itself(token: Seq<char>)
    ensures
        spec_token_matches(token, token),
{
}

} // verus!
