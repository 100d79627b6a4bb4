//! Shape checks on operator input and identifiers, stated over the UTF-8
//! bytes of the text exactly as the controller inspects them.
use vstd::prelude::*;
use vstd::string::*;
use vstd::utf8::*;
use crate::error::{ApiError, ErrorKind};
use crate::text::{is_blank, spec_is_blank, spec_trim, trim_str};

verus! {

broadcast use vstd::utf8::encode_utf8_decode_utf8, vstd::utf8::is_char_boundary_start_end_of_seq;

pub open spec fn is_digit_byte(b: u8) -> bool {
    48 <= b <= 57
}

pub open spec fn is_lower_hex_byte(b: u8) -> bool {
    is_digit_byte(b) || (97 <= b <= 102)
}

pub open spec fn is_lower_alpha_byte(b: u8) -> bool {
    97 <= b <= 122
}

pub open spec fn is_alnum_byte(b: u8) -> bool {
    is_digit_byte(b) || is_lower_alpha_byte(b) || (65 <= b <= 90)
}

/// Every byte in `s[from..to]` satisfies the lower-case hex predicate.
pub open spec fn all_lower_hex(s: Seq<u8>, from: int, to: int) -> bool {
    forall|i: int| from <= i < to ==> is_lower_hex_byte(#[trigger] s[i])
}

/// The bytes of `sha256:`.
pub open spec fn sha256_prefix_bytes() -> Seq<u8> {
    seq![115u8, 104u8, 97u8, 50u8, 53u8, 54u8, 58u8]
}

/// `sha256:` followed by exactly 64 lower-case hex digits.
pub open spec fn spec_is_sha256_checksum(b: Seq<u8>) -> bool {
    &&& b.len() == 71
    &&& b.subrange(0, 7) == sha256_prefix_bytes()
    &&& all_lower_hex(b, 7, 71)
}

/// A full lower-case 40-digit Git object name.
pub open spec fn spec_is_git_sha(b: Seq<u8>) -> bool {
    b.len() == 40 && all_lower_hex(b, 0, 40)
}

/// A normalized Kubernetes resource name (RFC 1123 label).
pub open spec fn spec_is_kubernetes_name(b: Seq<u8>) -> bool {
    &&& 0 < b.len() <= 63
    &&& forall|i: int|
        0 <= i < b.len() ==> is_lower_alpha_byte(#[trigger] b[i]) || is_digit_byte(b[i]) || b[i]
            == 45
    &&& b[0] != 45
    &&& b[b.len() - 1] != 45
}

/// An executor error code short and plain enough to be recorded verbatim.
pub open spec fn spec_is_plain_code(b: Seq<u8>) -> bool {
    &&& b.len() <= 96
    &&& forall|i: int|
        0 <= i < b.len() ==> is_alnum_byte(#[trigger] b[i]) || b[i] == 95 || b[i] == 45
}

fn lower_hex_run(b: &[u8], from: usize, to: usize) -> (r: bool)
    requires
        from <= to <= b@.len(),
    ensures
        r == all_lower_hex(b@, from as int, to as int),
{
    let mut i = from;
    while i < to
        invariant
            from <= i <= to,
            to <= b@.len(),
            all_lower_hex(b@, from as int, i as int),
        decreases to - i,
    {
        let c = b[i];
        if !((48 <= c && c <= 57) || (97 <= c && c <= 102)) {
            return false;
        }
        i = i + 1;
    }
    true
}

/// Whether the text is a full lower-case Git commit SHA.
pub fn is_git_sha(value: &str) -> (r: bool)
    ensures
        r == spec_is_git_sha(value.spec_bytes()),
{
    let b = value.as_bytes();
    b.len() == 40 && lower_hex_run(b, 0, 40)
}

/// Why an operator decision's actor and reason are refused, if they are:
/// both must be present after trimming, the actor at most 200 bytes and the
/// reason at most 1,000 bytes; the actor is judged first.
pub open spec fn spec_actor_reason_refusal(actor: Seq<char>, reason: Seq<char>) -> Option<Seq<char>> {
    if spec_is_blank(actor) || encode_utf8(actor).len() > 200 {
        Some("actor is required and must be at most 200 characters"@)
    } else if spec_is_blank(reason) || encode_utf8(reason).len() > 1000 {
        Some("reason is required and must be at most 1,000 characters"@)
    } else {
        None
    }
}

/// Check the actor and reason of an operator decision.
pub fn validate_actor_reason(actor: &str, reason: &str) -> (r: Result<(), ApiError>)
    ensures
        r is Ok <==> spec_actor_reason_refusal(actor@, reason@) is None,
        r matches Err(e) ==> e.kind == ErrorKind::BadRequest && Some(e.message@)
            == spec_actor_reason_refusal(actor@, reason@),
{
    if is_blank(actor) || actor.as_bytes().len() > 200 {
        return Err(
            ApiError::bad_request("actor is required and must be at most 200 characters"),
        );
    }
    if is_blank(reason) || reason.as_bytes().len() > 1000 {
        return Err(
            ApiError::bad_request("reason is required and must be at most 1,000 characters"),
        );
    }
    Ok(())
}

/// An archive checksum must read `sha256:<64 lowercase hex>`.
pub fn validate_sha256(value: &str) -> (r: Result<(), ApiError>)
    ensures
        r is Ok <==> spec_is_sha256_checksum(value.spec_bytes()),
        r matches Err(e) ==> e.kind == ErrorKind::BadRequest && e.message@
            == "archive checksum must be sha256:<64 lowercase hex>"@,
{
    let b = value.as_bytes();
    let ok = b.len() == 71 && b[0] == 115 && b[1] == 104 && b[2] == 97 && b[3] == 50 && b[4] == 53
        && b[5] == 54 && b[6] == 58 && lower_hex_run(b, 7, 71);
    proof {
        if b@.len() == 71 {
            if b@.subrange(0, 7) == sha256_prefix_bytes() {
                assert(b@[0] == b@.subrange(0, 7)[0]);
                assert(b@[1] == b@.subrange(0, 7)[1]);
                assert(b@[2] == b@.subrange(0, 7)[2]);
                assert(b@[3] == b@.subrange(0, 7)[3]);
                assert(b@[4] == b@.subrange(0, 7)[4]);
                assert(b@[5] == b@.subrange(0, 7)[5]);
                assert(b@[6] == b@.subrange(0, 7)[6]);
            }
            if b@[0] == 115 && b@[1] == 104 && b@[2] == 97 && b@[3] == 50 && b@[4] == 53 && b@[5]
                == 54 && b@[6] == 58 {
                assert(b@.subrange(0, 7) =~= sha256_prefix_bytes());
            }
        }
    }
    if !ok {
        return Err(ApiError::bad_request("archive checksum must be sha256:<64 lowercase hex>"));
    }
    Ok(())
}

fn name_bytes_only(b: &[u8]) -> (r: bool)
    ensures
        r == forall|i: int|
            0 <= i < b@.len() ==> is_lower_alpha_byte(#[trigger] b@[i]) || is_digit_byte(b@[i])
                || b@[i] == 45,
{
    let n = b.len();
    let mut i: usize = 0;
    while i < n
        invariant
            n == b@.len(),
            i <= n,
            forall|j: int|
                0 <= j < i ==> is_lower_alpha_byte(#[trigger] b@[j]) || is_digit_byte(b@[j])
                    || b@[j] == 45,
        decreases n - i,
    {
        let c = b[i];
        if !((97 <= c && c <= 122) || (48 <= c && c <= 57) || c == 45) {
            return false;
        }
        i = i + 1;
    }
    true
}

/// An archive claim name must be a normalized Kubernetes resource name.
pub fn validate_kubernetes_resource_name(value: &str) -> (r: Result<(), ApiError>)
    ensures
        r is Ok <==> spec_is_kubernetes_name(value.spec_bytes()),
        r matches Err(e) ==> e.kind == ErrorKind::BadRequest && e.message@
            == "archive claim name is not a normalized Kubernetes resource name"@,
{
    let b = value.as_bytes();
    let n = b.len();
    if n == 0 || n > 63 || !name_bytes_only(b) || b[0] == 45 || b[n - 1] == 45 {
        return Err(
            ApiError::bad_request("archive claim name is not a normalized Kubernetes resource name"),
        );
    }
    Ok(())
}

/// `b[i..j]` is one of the pieces between `/` separators.
pub open spec fn is_path_segment(b: Seq<u8>, i: int, j: int) -> bool {
    &&& 0 <= i <= j <= b.len()
    &&& (i == 0 || b[i - 1] == 47)
    &&& (j == b.len() || b[j] == 47)
    &&& forall|k: int| i <= k < j ==> #[trigger] b[k] != 47
}

/// A piece that is empty, `.` or `..`.
pub open spec fn is_unsafe_segment(b: Seq<u8>, i: int, j: int) -> bool {
    &&& is_path_segment(b, i, j)
    &&& (j == i || (j == i + 1 && b[i] == 46) || (j == i + 2 && b[i] == 46 && b[i + 1] == 46))
}

/// A non-empty relative path of at most 512 bytes with no empty, `.` or `..` piece.
pub open spec fn spec_safe_relative_path(b: Seq<u8>) -> bool {
    &&& b.len() > 0
    &&& b[0] != 47
    &&& b.len() <= 512
    &&& forall|i: int, j: int| !is_unsafe_segment(b, i, j)
}

/// Whether a GitOps path is a safe relative path inside the repository.
pub fn safe_relative_gitops_path(path: &str) -> (r: bool)
    ensures
        r == spec_safe_relative_path(path.spec_bytes()),
{
    let b = path.as_bytes();
    let n = b.len();
    if n == 0 || b[0] == 47 || n > 512 {
        return false;
    }
    let mut start: usize = 0;
    let mut k: usize = 0;
    while k <= n
        invariant
            n == b@.len(),
            0 < n <= 512,
            b@[0] != 47,
            b@ == path.spec_bytes(),
            start <= k <= n + 1,
            k <= n ==> start <= k,
            start <= n ==> (start == 0 || b@[start - 1] == 47),
            k <= n ==> forall|m: int| start <= m < k ==> #[trigger] b@[m] != 47,
            forall|i: int, j: int| j < k ==> !is_unsafe_segment(b@, i, j),
        decreases n + 1 - k,
    {
        if k == n || b[k] == 47 {
            let len = k - start;
            let bad = len == 0 || (len == 1 && b[start] == 46) || (len == 2 && b[start] == 46
                && b[start + 1] == 46);
            if bad {
                proof {
                    assert(is_unsafe_segment(b@, start as int, k as int));
                    assert(!spec_safe_relative_path(path.spec_bytes()));
                }
                return false;
            }
            proof {
                assert forall|i: int, j: int| j < k + 1 implies !is_unsafe_segment(b@, i, j) by {
                    if j == k && is_unsafe_segment(b@, i, j) {
                        if i < start {
                            assert(b@[start - 1] == 47);
                        } else if i > start {
                            assert(b@[i - 1] != 47);
                        }
                    }
                }
            }
            start = k + 1;
        } else {
            proof {
                assert forall|i: int, j: int| j < k + 1 implies !is_unsafe_segment(b@, i, j) by {
                    if j == k {
                        assert(b@[k as int] != 47);
                    }
                }
            }
        }
        k = k + 1;
    }
    true
}

/// Optional operator text with surrounding whitespace removed; blank text
/// counts as absent.
pub open spec fn spec_clean_optional_text(value: Option<Seq<char>>) -> Option<Seq<char>> {
    match value {
        Some(v) => if spec_is_blank(v) {
            None
        } else {
            Some(spec_trim(v))
        },
        None => None,
    }
}

pub open spec fn option_view(value: Option<String>) -> Option<Seq<char>> {
    match value {
        Some(v) => Some(v@),
        None => None,
    }
}

/// Trim optional operator text and drop it when nothing remains.
pub fn clean_optional_text(value: Option<String>) -> (r: Option<String>)
    ensures
        option_view(r) == spec_clean_optional_text(option_view(value)),
{
    match value {
        Some(v) => {
            if is_blank(v.as_str()) {
                None
            } else {
                Some(trim_str(v.as_str()).to_owned())
            }
        },
        None => None,
    }
}

/// The error code recorded for an executor failure: the reported code when
/// it is a short plain identifier, otherwise the fallback.
pub open spec fn spec_normalized_executor_error_code(
    value: Option<Seq<char>>,
    fallback: Seq<char>,
) -> Seq<char> {
    match spec_clean_optional_text(value) {
        Some(code) => if spec_is_plain_code(encode_utf8(code)) {
            code
        } else {
            fallback
        },
        None => fallback,
    }
}

pub fn normalized_executor_error_code(value: Option<String>, fallback: &str) -> (r: String)
    ensures
        r@ == spec_normalized_executor_error_code(option_view(value), fallback@),
{
    let cleaned = clean_optional_text(value);
    let ghost cleaned_view = option_view(cleaned);
    match cleaned {
        None => fallback.to_owned(),
        Some(code) => {
            let b = code.as_str().as_bytes();
            let n = b.len();
            if n > 96 {
                return fallback.to_owned();
            }
            let mut i: usize = 0;
            while i < n
                invariant
                    n == b@.len(),
                    b@ == encode_utf8(code@),
                    cleaned_view == Some(code@),
                    cleaned_view == spec_clean_optional_text(option_view(value)),
                    i <= n,
                    forall|j: int|
                        0 <= j < i ==> is_alnum_byte(#[trigger] b@[j]) || b@[j] == 95 || b@[j]
                            == 45,
                decreases n - i,
            {
                let c = b[i];
                if !((48 <= c && c <= 57) || (97 <= c && c <= 122) || (65 <= c && c <= 90) || c
                    == 95 || c == 45) {
                    proof {
                        assert(!(is_alnum_byte(b@[i as int]) || b@[i as int] == 95 || b@[i as int]
                            == 45));
                        assert(!spec_is_plain_code(b@));
                    }
                    return fallback.to_owned();
                }
                i = i + 1;
            }
            code
        },
    }
}


/// At most 100 bytes, each a lower-case ASCII letter or `_`.
pub open spec fn spec_is_snake_code(b: Seq<u8>) -> bool {
    &&& b.len() <= 100
    &&& forall|i: int| 0 <= i < b.len() ==> is_lower_alpha_byte(#[trigger] b[i]) || b[i] == 95
}

/// A non-empty error code of at most 100 lower-case letters and `_`.
pub open spec fn spec_is_bounded_code(b: Seq<u8>) -> bool {
    b.len() > 0 && spec_is_snake_code(b)
}

pub fn is_snake_code(value: &str) -> (r: bool)
    ensures
        r == spec_is_snake_code(value.spec_bytes()),
{
    let b = value.as_bytes();
    let n = b.len();
    if n > 100 {
        return false;
    }
    let mut i: usize = 0;
    while i < n
        invariant
            n == b@.len(),
            b@ == value.spec_bytes(),
            i <= n,
            forall|j: int| 0 <= j < i ==> is_lower_alpha_byte(#[trigger] b@[j]) || b@[j] == 95,
        decreases n - i,
    {
        let c = b[i];
        if !((97 <= c && c <= 122) || c == 95) {
            return false;
        }
        i = i + 1;
    }
    true
}

pub fn is_bounded_code(value: &str) -> (r: bool)
    ensures
        r == spec_is_bounded_code(value.spec_bytes()),
{
    value.as_bytes().len() > 0 && is_snake_code(value)
}

} // verus!
