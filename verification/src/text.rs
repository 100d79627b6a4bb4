//! Text predicates shared by the controller: exact comparisons, whitespace
//! handling and the byte-level shape checks applied to identifiers.
use vstd::prelude::*;
use vstd::string::*;
use vstd::utf8::*;

verus! {

broadcast use vstd::utf8::encode_utf8_decode_utf8, vstd::utf8::encode_utf8_valid_utf8;

/// Unicode `White_Space` code points, as `char::is_whitespace` defines them.
pub open spec fn spec_is_whitespace(c: char) -> bool {
    let u = c as u32;
    ||| (9 <= u && u <= 13)
    ||| u == 32
    ||| u == 0x85
    ||| u == 0xA0
    ||| u == 0x1680
    ||| (0x2000 <= u && u <= 0x200A)
    ||| u == 0x2028
    ||| u == 0x2029
    ||| u == 0x202F
    ||| u == 0x205F
    ||| u == 0x3000
}

/// True when every character is whitespace, i.e. the text trims to nothing.
pub open spec fn spec_is_blank(s: Seq<char>) -> bool {
    forall|i: int| 0 <= i < s.len() ==> spec_is_whitespace(#[trigger] s[i])
}

/// Index of the first non-whitespace character (or the length).
pub open spec fn trim_start_index(s: Seq<char>) -> int
    decreases s.len(),
{
    if s.len() == 0 {
        0
    } else if spec_is_whitespace(s[0]) {
        1 + trim_start_index(s.drop_first())
    } else {
        0
    }
}

/// Index just past the last non-whitespace character (or zero).
pub open spec fn trim_end_index(s: Seq<char>) -> int
    decreases s.len(),
{
    if s.len() == 0 {
        0
    } else if spec_is_whitespace(s.last()) {
        trim_end_index(s.drop_last())
    } else {
        s.len() as int
    }
}

/// `s` without leading and trailing whitespace.
pub open spec fn spec_trim(s: Seq<char>) -> Seq<char> {
    if spec_is_blank(s) {
        Seq::empty()
    } else {
        s.subrange(trim_start_index(s), trim_end_index(s))
    }
}

pub fn is_whitespace_char(c: char) -> (r: bool)
    ensures
        r == spec_is_whitespace(c),
{
    let u = c as u32;
    (9 <= u && u <= 13) || u == 32 || u == 0x85 || u == 0xA0 || u == 0x1680 || (0x2000 <= u && u
        <= 0x200A) || u == 0x2028 || u == 0x2029 || u == 0x202F || u == 0x205F || u == 0x3000
}

/// Exact equality of two texts.
pub fn str_eq(a: &str, b: &str) -> (r: bool)
    ensures
        r == (a@ == b@),
{
    let x = a.as_bytes();
    let y = b.as_bytes();
    if x.len() != y.len() {
        proof {
            assert(a@ != b@);
        }
        return false;
    }
    let n = x.len();
    let mut i: usize = 0;
    while i < n
        invariant
            n == x@.len(),
            n == y@.len(),
            x@ == a.spec_bytes(),
            y@ == b.spec_bytes(),
            i <= n,
            forall|j: int| 0 <= j < i ==> x@[j] == y@[j],
        decreases n - i,
    {
        if x[i] != y[i] {
            proof {
                assert(a.spec_bytes() != b.spec_bytes());
            }
            return false;
        }
        i = i + 1;
    }
    proof {
        assert(x@ =~= y@);
        assert(decode_utf8(encode_utf8(a@)) == a@);
        assert(decode_utf8(encode_utf8(b@)) == b@);
    }
    true
}

/// Whether the text is empty once surrounding whitespace is removed.
pub fn is_blank(s: &str) -> (r: bool)
    ensures
        r == spec_is_blank(s@),
{
    let n = s.unicode_len();
    let mut i: usize = 0;
    while i < n
        invariant
            n == s@.len(),
            i <= n,
            forall|j: int| 0 <= j < i ==> spec_is_whitespace(#[trigger] s@[j]),
        decreases n - i,
    {
        let c = s.get_char(i);
        if !is_whitespace_char(c) {
            return false;
        }
        i = i + 1;
    }
    true
}


proof fn lemma_trim_start(s: Seq<char>, i: int)
    requires
        0 <= i <= s.len(),
        forall|j: int| 0 <= j < i ==> spec_is_whitespace(#[trigger] s[j]),
        i == s.len() || !spec_is_whitespace(s[i]),
    ensures
        trim_start_index(s) == i,
    decreases i,
{
    if i > 0 {
        let t = s.drop_first();
        assert forall|j: int| 0 <= j < i - 1 implies spec_is_whitespace(#[trigger] t[j]) by {
            assert(t[j] == s[j + 1]);
        }
        if i < s.len() {
            assert(t[i - 1] == s[i]);
        }
        lemma_trim_start(t, i - 1);
    }
}

proof fn lemma_trim_end(s: Seq<char>, k: int)
    requires
        0 <= k <= s.len(),
        forall|j: int| k <= j < s.len() ==> spec_is_whitespace(#[trigger] s[j]),
        k == 0 || !spec_is_whitespace(s[k - 1]),
    ensures
        trim_end_index(s) == k,
    decreases s.len(),
{
    if s.len() > 0 && k < s.len() {
        let t = s.drop_last();
        assert forall|j: int| k <= j < t.len() implies spec_is_whitespace(#[trigger] t[j]) by {
            assert(t[j] == s[j]);
        }
        assert(spec_is_whitespace(s[s.len() - 1]));
        if k > 0 {
            assert(t[k - 1] == s[k - 1]);
        }
        lemma_trim_end(t, k);
    }
}

/// The text without leading and trailing whitespace.
pub fn trim_str(s: &str) -> (r: &str)
    ensures
        r@ == spec_trim(s@),
{
    let n = s.unicode_len();
    let mut start: usize = 0;
    while start < n
        invariant
            n == s@.len(),
            start <= n,
            forall|j: int| 0 <= j < start ==> spec_is_whitespace(#[trigger] s@[j]),
        ensures
            start <= n,
            forall|j: int| 0 <= j < start ==> spec_is_whitespace(#[trigger] s@[j]),
            start == n || !spec_is_whitespace(s@[start as int]),
        decreases n - start,
    {
        let c = s.get_char(start);
        if !is_whitespace_char(c) {
            break;
        }
        start = start + 1;
    }
    if start == n {
        proof {
            assert(spec_is_blank(s@));
        }
        return s.substring_char(0, 0);
    }
    let mut end: usize = n;
    while end > start
        invariant
            n == s@.len(),
            start < n,
            !spec_is_whitespace(s@[start as int]),
            start <= end <= n,
            forall|j: int| end <= j < n ==> spec_is_whitespace(#[trigger] s@[j]),
        ensures
            start < end <= n,
            !spec_is_whitespace(s@[end - 1]),
            forall|j: int| end <= j < n ==> spec_is_whitespace(#[trigger] s@[j]),
        decreases end,
    {
        let c = s.get_char(end - 1);
        if !is_whitespace_char(c) {
            break;
        }
        end = end - 1;
    }
    proof {
        assert(end > start);
        assert(!spec_is_blank(s@));
        lemma_trim_start(s@, start as int);
        lemma_trim_end(s@, end as int);
    }
    s.substring_char(start, end)
}

/// `needle` occurs in `hay` starting at byte `i`.
pub open spec fn occurs_at(hay: Seq<u8>, needle: Seq<u8>, i: int) -> bool {
    0 <= i && i + needle.len() <= hay.len() && hay.subrange(i, i + needle.len()) == needle
}

/// `needle` occurs somewhere in `hay`.
pub open spec fn spec_contains(hay: Seq<u8>, needle: Seq<u8>) -> bool {
    exists|i: int| occurs_at(hay, needle, i)
}

fn occurs_at_exec(hay: &[u8], needle: &[u8], i: usize) -> (r: bool)
    requires
        i + needle@.len() <= hay@.len(),
    ensures
        r == occurs_at(hay@, needle@, i as int),
{
    let m = needle.len();
    let hn = hay.len();
    let mut k: usize = 0;
    while k < m
        invariant
            m == needle@.len(),
            hn == hay@.len(),
            i + m <= hay@.len(),
            k <= m,
            forall|t: int| 0 <= t < k ==> hay@[i + t] == needle@[t],
        decreases m - k,
    {
        if hay[i + k] != needle[k] {
            proof {
                assert(hay@.subrange(i as int, i + m)[k as int] != needle@[k as int]);
            }
            return false;
        }
        k = k + 1;
    }
    proof {
        assert(hay@.subrange(i as int, i + m) =~= needle@);
    }
    true
}

/// Whether `needle` occurs in `hay` (compared byte for byte).
pub fn contains_str(hay: &str, needle: &str) -> (r: bool)
    ensures
        r == spec_contains(hay.spec_bytes(), needle.spec_bytes()),
{
    let h = hay.as_bytes();
    let nd = needle.as_bytes();
    if nd.len() > h.len() {
        proof {
            assert forall|i: int| !occurs_at(h@, nd@, i) by {}
        }
        return false;
    }
    let last = h.len() - nd.len();
    let mut i: usize = 0;
    while i <= last
        invariant
            last + nd@.len() == h@.len(),
            h@ == hay.spec_bytes(),
            nd@ == needle.spec_bytes(),
            i <= last + 1,
            forall|j: int| 0 <= j < i ==> !occurs_at(h@, nd@, j),
        decreases last + 1 - i,
    {
        if occurs_at_exec(h, nd, i) {
            return true;
        }
        if i == last {
            proof {
                assert forall|j: int| !occurs_at(h@, nd@, j) by {
                    if 0 <= j <= i {
                    }
                }
            }
            return false;
        }
        i = i + 1;
    }
    false
}

/// Whether `prefix` is a byte prefix of `s`.
pub fn starts_with_str(s: &str, prefix: &str) -> (r: bool)
    ensures
        r == occurs_at(s.spec_bytes(), prefix.spec_bytes(), 0),
{
    let h = s.as_bytes();
    let p = prefix.as_bytes();
    if p.len() > h.len() {
        return false;
    }
    occurs_at_exec(h, p, 0)
}

/// The largest character boundary of `bytes` that is at most `e`.
pub open spec fn char_boundary_floor(bytes: Seq<u8>, e: int) -> int
    decreases e,
{
    if e <= 0 {
        0
    } else if is_char_boundary(bytes, e) {
        e
    } else {
        char_boundary_floor(bytes, e - 1)
    }
}

/// What an audit record keeps of a text limited to `max_bytes` bytes.
pub open spec fn spec_truncate_audit_text(value: Seq<char>, max_bytes: int) -> Seq<char> {
    let bytes = encode_utf8(value);
    if bytes.len() <= max_bytes {
        value
    } else {
        decode_utf8(bytes.subrange(0, char_boundary_floor(bytes, max_bytes))) + "...[truncated]"@
    }
}

/// Limit an audited text to `max_bytes` bytes, cutting at a character
/// boundary and marking the cut.
pub fn truncate_audit_text(value: &str, max_bytes: usize) -> (r: String)
    ensures
        r@ == spec_truncate_audit_text(value@, max_bytes as int),
{
    let n = value.as_bytes().len();
    if n <= max_bytes {
        return value.to_owned();
    }
    let ghost bytes = value.spec_bytes();
    let mut end = max_bytes;
    while !value.is_char_boundary(end)
        invariant
            end <= max_bytes,
            bytes == value.spec_bytes(),
            char_boundary_floor(bytes, end as int) == char_boundary_floor(bytes, max_bytes as int),
        decreases end,
    {
        proof {
            if end == 0 {
                assert(is_char_boundary(bytes, 0));
            }
        }
        end = end - 1;
    }
    proof {
        assert(char_boundary_floor(bytes, end as int) == end);
    }
    let (head, _tail) = value.split_at(end);
    proof {
        assert(decode_utf8(encode_utf8(head@)) == head@);
    }
    let marker = "...[truncated]";
    String::from_str(head).concat(marker)
}

pub open spec fn spec_digit_char(d: int) -> char {
    if d == 0 { '0' } else if d == 1 { '1' } else if d == 2 { '2' } else if d == 3 { '3' }
    else if d == 4 { '4' } else if d == 5 { '5' } else if d == 6 { '6' } else if d == 7 { '7' }
    else if d == 8 { '8' } else { '9' }
}

/// Decimal rendering of a natural number, without leading zeros.
pub open spec fn spec_decimal(n: nat) -> Seq<char>
    decreases n,
{
    if n < 10 {
        seq![spec_digit_char(n as int)]
    } else {
        spec_decimal(n / 10) + seq![spec_digit_char(n as int % 10)]
    }
}

/// Decimal rendering of an integer, with a leading `-` when negative.
pub open spec fn spec_decimal_int(n: int) -> Seq<char> {
    if n < 0 {
        seq!['-'] + spec_decimal((-n) as nat)
    } else {
        spec_decimal(n as nat)
    }
}

fn digit_text(d: u128) -> (r: &'static str)
    requires
        d < 10,
    ensures
        r@ == seq![spec_digit_char(d as int)],
{
    match d {
        0 => { proof { reveal_strlit("0"); } "0" },
        1 => { proof { reveal_strlit("1"); } "1" },
        2 => { proof { reveal_strlit("2"); } "2" },
        3 => { proof { reveal_strlit("3"); } "3" },
        4 => { proof { reveal_strlit("4"); } "4" },
        5 => { proof { reveal_strlit("5"); } "5" },
        6 => { proof { reveal_strlit("6"); } "6" },
        7 => { proof { reveal_strlit("7"); } "7" },
        8 => { proof { reveal_strlit("8"); } "8" },
        _ => { proof { reveal_strlit("9"); } "9" },
    }
}

/// The decimal text of an unsigned number (`to_string`).
pub fn decimal_u128(n: u128) -> (r: String)
    ensures
        r@ == spec_decimal(n as nat),
    decreases n,
{
    if n < 10 {
        String::from_str(digit_text(n))
    } else {
        let head = decimal_u128(n / 10);
        head.concat(digit_text(n % 10))
    }
}

/// The decimal text of a signed number (`to_string`).
pub fn decimal_i64(n: i64) -> (r: String)
    ensures
        r@ == spec_decimal_int(n as int),
{
    if n < 0 {
        let magnitude: u128 = (0i128 - (n as i128)) as u128;
        proof {
            reveal_strlit("-");
            assert(magnitude as nat == (-(n as int)) as nat);
        }
        String::from_str("-").concat(decimal_u128(magnitude).as_str())
    } else {
        decimal_u128(n as u128)
    }
}

/// The text of an optional owned string.
pub open spec fn opt_text(o: Option<String>) -> Option<Seq<char>> {
    match o {
        Some(s) => Some(s@),
        None => None,
    }
}

/// The text of an optional borrowed string.
pub open spec fn opt_str_view(o: Option<&str>) -> Option<Seq<char>> {
    match o {
        Some(s) => Some(s@),
        None => None,
    }
}

/// The texts of a list of owned strings.
pub open spec fn texts_view(v: Seq<String>) -> Seq<Seq<char>> {
    v.map_values(|s: String| s@)
}

/// The value of a decimal digit character.
pub open spec fn digit_value(c: char) -> int {
    (c as int) - ('0' as int)
}

pub open spec fn is_digit_char(c: char) -> bool {
    '0' <= c && c <= '9'
}

/// The value of a nonempty run of decimal digits.
pub open spec fn digits_value(s: Seq<char>) -> int
    decreases s.len(),
{
    if s.len() == 0 {
        0
    } else {
        digits_value(s.drop_last()) * 10 + digit_value(s.last())
    }
}

pub open spec fn all_digits(s: Seq<char>) -> bool {
    forall|i: int| 0 <= i < s.len() ==> is_digit_char(#[trigger] s[i])
}

/// What `i64::from_str` accepts: an optional sign and at least one digit,
/// within range.
pub open spec fn spec_parse_i64(s: Seq<char>) -> Option<int> {
    let negative = s.len() > 0 && s[0] == '-';
    let signed = s.len() > 0 && (s[0] == '-' || s[0] == '+');
    let digits = if signed {
        s.subrange(1, s.len() as int)
    } else {
        s
    };
    let value = if negative {
        -digits_value(digits)
    } else {
        digits_value(digits)
    };
    if digits.len() > 0 && all_digits(digits) && i64::MIN <= value <= i64::MAX {
        Some(value)
    } else {
        None
    }
}

proof fn lemma_digits_value_nonneg(s: Seq<char>)
    requires
        all_digits(s),
    ensures
        digits_value(s) >= 0,
    decreases s.len(),
{
    if s.len() > 0 {
        assert(all_digits(s.drop_last())) by {
            assert forall|i: int| 0 <= i < s.drop_last().len() implies is_digit_char(#[trigger] s.drop_last()[i]) by {
                assert(s.drop_last()[i] == s[i]);
            }
        }
        lemma_digits_value_nonneg(s.drop_last());
        assert(is_digit_char(s[s.len() - 1]));
    }
}

/// Parse a signed decimal integer as `str::parse::<i64>` does.
pub fn parse_i64(s: &str) -> (r: Option<i64>)
    ensures
        match r {
            Some(v) => spec_parse_i64(s@) == Some(v as int),
            None => spec_parse_i64(s@) is None,
        },
{
    let n = s.unicode_len();
    if n == 0 {
        return None;
    }
    let first = s.get_char(0);
    let negative = first == '-';
    let start: usize = if first == '-' || first == '+' {
        1
    } else {
        0
    };
    let ghost digits = s@.subrange(start as int, n as int);
    proof {
        if start == 0 {
            assert(digits =~= s@);
        }
    }
    if start == n {
        return None;
    }
    // Accumulate the magnitude, stopping once it exceeds every i64 value.
    let mut acc: u128 = 0;
    let mut i: usize = start;
    while i < n
        invariant
            n == s@.len(),
            n > 0,
            start == (if s@[0] == '-' || s@[0] == '+' {
                1usize
            } else {
                0usize
            }),
            negative == (s@[0] == '-'),
            start <= i <= n,
            digits == s@.subrange(start as int, n as int),
            all_digits(s@.subrange(start as int, i as int)),
            acc == digits_value(s@.subrange(start as int, i as int)),
            acc <= 9223372036854775808u128,
        decreases n - i,
    {
        let c = s.get_char(i);
        let ghost pre = s@.subrange(start as int, i + 1);
        proof {
            assert(pre.drop_last() =~= s@.subrange(start as int, i as int));
            assert(pre.last() == c);
        }
        if !('0' <= c && c <= '9') {
            proof {
                assert(digits[i - start] == c);
                assert(!all_digits(digits));
                if start == 0 {
                    assert(s@.subrange(0, n as int) =~= s@);
                }
            }
            return None;
        }
        let d = (c as u32 - '0' as u32) as u128;
        let next = acc * 10 + d;
        proof {
            assert(d == digit_value(c));
            assert(digits_value(pre) == next);
            assert(digits.subrange(0, (i + 1 - start) as int) =~= pre);
            assert(all_digits(pre)) by {
                assert forall|k: int| 0 <= k < pre.len() implies is_digit_char(#[trigger] pre[k]) by {
                    if k < pre.len() - 1 {
                        assert(pre[k] == s@.subrange(start as int, i as int)[k]);
                    }
                }
            }
        }
        if next > 9223372036854775808u128 {
            proof {
                // Every further digit only grows the magnitude.
                lemma_digits_grow(digits, (i + 1 - start) as int, 9223372036854775808);
                if start == 0 {
                    assert(s@.subrange(0, n as int) =~= s@);
                }
            }
            return None;
        }
        acc = next;
        i = i + 1;
    }
    proof {
        assert(s@.subrange(start as int, n as int) =~= digits);
    }
    if negative {
        Some((0i128 - acc as i128) as i64)
    } else if acc <= 9223372036854775807u128 {
        Some(acc as i64)
    } else {
        None
    }
}

/// A run of digits whose prefix already exceeds a bound exceeds it too.
proof fn lemma_digits_grow(s: Seq<char>, k: int, bound: int)
    requires
        0 <= k <= s.len(),
        bound >= 0,
        all_digits(s.subrange(0, k)),
        digits_value(s.subrange(0, k)) > bound,
    ensures
        !all_digits(s) || digits_value(s) > bound,
    decreases s.len() - k,
{
    if k < s.len() && all_digits(s) {
        let pre = s.subrange(0, k + 1);
        assert(pre.drop_last() =~= s.subrange(0, k));
        assert(all_digits(pre)) by {
            assert forall|i: int| 0 <= i < pre.len() implies is_digit_char(#[trigger] pre[i]) by {
                assert(pre[i] == s[i]);
            }
        }
        assert(is_digit_char(s[k]));
        lemma_digits_grow(s, k + 1, bound);
    } else if k == s.len() {
        assert(s.subrange(0, k) =~= s);
    }
}

/// What `str::parse` accepts for an unsigned integer type whose largest
/// value is `max`: an optional `+` and at least one digit, within range.
pub open spec fn spec_parse_unsigned(s: Seq<char>, max: int) -> Option<int> {
    let digits = if s.len() > 0 && s[0] == '+' {
        s.subrange(1, s.len() as int)
    } else {
        s
    };
    if digits.len() > 0 && all_digits(digits) && digits_value(digits) <= max {
        Some(digits_value(digits))
    } else {
        None
    }
}

/// Parse an unsigned decimal integer no larger than `max`, as
/// `str::parse::<u64>` or `str::parse::<u128>` does for their largest value.
pub fn parse_unsigned(s: &str, max: u128) -> (r: Option<u128>)
    ensures
        match r {
            Some(v) => spec_parse_unsigned(s@, max as int) == Some(v as int),
            None => spec_parse_unsigned(s@, max as int) is None,
        },
{
    let n = s.unicode_len();
    if n == 0 {
        return None;
    }
    let start: usize = if s.get_char(0) == '+' {
        1
    } else {
        0
    };
    let ghost digits = s@.subrange(start as int, n as int);
    proof {
        if start == 0 {
            assert(digits =~= s@);
        }
    }
    if start == n {
        return None;
    }
    let mut acc: u128 = 0;
    let mut i: usize = start;
    while i < n
        invariant
            n == s@.len(),
            n > 0,
            start == (if s@[0] == '+' {
                1usize
            } else {
                0usize
            }),
            start <= i <= n,
            digits == s@.subrange(start as int, n as int),
            all_digits(s@.subrange(start as int, i as int)),
            acc == digits_value(s@.subrange(start as int, i as int)),
            acc <= max,
        decreases n - i,
    {
        let c = s.get_char(i);
        let ghost pre = s@.subrange(start as int, i + 1);
        proof {
            assert(pre.drop_last() =~= s@.subrange(start as int, i as int));
            assert(pre.last() == c);
        }
        if !('0' <= c && c <= '9') {
            proof {
                assert(digits[i - start] == c);
                assert(!all_digits(digits));
                if start == 0 {
                    assert(s@.subrange(0, n as int) =~= s@);
                }
            }
            return None;
        }
        let d = (c as u32 - '0' as u32) as u128;
        proof {
            assert(d == digit_value(c));
            assert(digits.subrange(0, (i + 1 - start) as int) =~= pre);
            assert(all_digits(pre)) by {
                assert forall|k: int| 0 <= k < pre.len() implies is_digit_char(#[trigger] pre[k]) by {
                    if k < pre.len() - 1 {
                        assert(pre[k] == s@.subrange(start as int, i as int)[k]);
                    }
                }
            }
            assert(digits_value(pre) == acc * 10 + d);
        }
        let next = match acc.checked_mul(10) {
            Some(t) => t.checked_add(d),
            None => None,
        };
        let fits = match next {
            Some(v) => v <= max,
            None => false,
        };
        if !fits {
            proof {
                assert(digits_value(digits.subrange(0, (i + 1 - start) as int)) > max as int);
                lemma_digits_grow(digits, (i + 1 - start) as int, max as int);
                if start == 0 {
                    assert(s@.subrange(0, n as int) =~= s@);
                }
            }
            return None;
        }
        acc = next.unwrap();
        i = i + 1;
    }
    proof {
        assert(s@.subrange(start as int, n as int) =~= digits);
    }
    Some(acc)
}

/// `s` with every leading copy of `prefix` removed (`trim_start_matches`).
pub open spec fn strip_all_prefixes(s: Seq<char>, prefix: Seq<char>) -> Seq<char>
    decreases s.len(),
{
    if prefix.len() > 0 && s.len() >= prefix.len() && s.subrange(0, prefix.len() as int) == prefix {
        strip_all_prefixes(s.subrange(prefix.len() as int, s.len() as int), prefix)
    } else {
        s
    }
}

/// `s` with every trailing copy of `suffix` removed (`trim_end_matches`).
pub open spec fn strip_all_suffixes(s: Seq<char>, suffix: Seq<char>) -> Seq<char>
    decreases s.len(),
{
    if suffix.len() > 0 && s.len() >= suffix.len() && s.subrange(s.len() - suffix.len(), s.len() as int) == suffix {
        strip_all_suffixes(s.subrange(0, s.len() - suffix.len()), suffix)
    } else {
        s
    }
}

pub fn trim_start_matches<'a>(s: &'a str, prefix: &str) -> (r: &'a str)
    ensures
        r@ == strip_all_prefixes(s@, prefix@),
{
    let m = prefix.unicode_len();
    if m == 0 {
        return s;
    }
    let mut rest = s;
    while rest.unicode_len() >= m && str_eq(rest.substring_char(0, m), prefix)
        invariant
            m == prefix@.len(),
            m > 0,
            strip_all_prefixes(s@, prefix@) == strip_all_prefixes(rest@, prefix@),
        decreases rest@.len(),
    {
        let n = rest.unicode_len();
        rest = rest.substring_char(m, n);
    }
    rest
}

pub fn trim_end_matches<'a>(s: &'a str, suffix: &str) -> (r: &'a str)
    ensures
        r@ == strip_all_suffixes(s@, suffix@),
{
    let m = suffix.unicode_len();
    if m == 0 {
        return s;
    }
    let mut rest = s;
    while rest.unicode_len() >= m && str_eq(rest.substring_char(rest.unicode_len() - m, rest.unicode_len()), suffix)
        invariant
            m == suffix@.len(),
            m > 0,
            strip_all_suffixes(s@, suffix@) == strip_all_suffixes(rest@, suffix@),
        decreases rest@.len(),
    {
        let n = rest.unicode_len();
        rest = rest.substring_char(0, n - m);
    }
    rest
}

/// Whether `suffix` is a byte suffix of `s`.
pub fn ends_with_str(s: &str, suffix: &str) -> (r: bool)
    ensures
        r == (suffix.spec_bytes().len() <= s.spec_bytes().len() && occurs_at(
            s.spec_bytes(),
            suffix.spec_bytes(),
            s.spec_bytes().len() - suffix.spec_bytes().len(),
        )),
{
    let h = s.as_bytes();
    let p = suffix.as_bytes();
    if p.len() > h.len() {
        return false;
    }
    occurs_at_exec(h, p, h.len() - p.len())
}

} // verus!

verus! {

/// What `format!("{:?}", s)` writes for a text: the text in double quotes
/// with its special characters escaped.
pub uninterp spec fn spec_debug_quoted(s: Seq<char>) -> Seq<char>;

/// `<str as Debug>::fmt` through `format!`, as operator messages quote an
/// expected text. The contract names the result and claims only that it
/// depends on the text alone.
#[verifier::external_body]
pub(crate) fn debug_quoted(s: &str) -> (r: String)
    ensures
        r@ == spec_debug_quoted(s@),
{
    format!("{s:?}")
}

} // verus!
