//! Stored evidence artifacts and the "latest matching artifact" rule used
//! throughout delivery: among the artifacts that match, the one with the
//! greatest `(created_at, id)` wins, the last one on a tie.
use vstd::prelude::*;
use vstd::utf8::encode_utf8;
use crate::json::{JsonValue, Json};

verus! {

/// An evidence artifact as stored for a run.
pub struct StoredArtifact {
    pub id: String,
    pub kind: String,
    pub run_id: Option<String>,
    pub created_at: String,
    pub content_json: Option<JsonValue>,
}

pub open spec fn content_view(a: StoredArtifact) -> Option<Json> {
    match a.content_json {
        Some(c) => Some(c@),
        None => None,
    }
}

/// Byte-wise lexicographic order on texts (`a < b`).
pub open spec fn bytes_lt(a: Seq<u8>, b: Seq<u8>) -> bool
    decreases a.len(),
{
    if a.len() == 0 {
        b.len() > 0
    } else if b.len() == 0 {
        false
    } else if a[0] != b[0] {
        a[0] < b[0]
    } else {
        bytes_lt(a.drop_first(), b.drop_first())
    }
}

/// The ordering key of an artifact: creation time, then id.
pub open spec fn artifact_key_lt(a: StoredArtifact, b: StoredArtifact) -> bool {
    ||| bytes_lt(encode_utf8(a.created_at@), encode_utf8(b.created_at@))
    ||| (encode_utf8(a.created_at@) == encode_utf8(b.created_at@) && bytes_lt(
        encode_utf8(a.id@),
        encode_utf8(b.id@),
    ))
}

/// `chosen` is the index `max_by_key` picks among the matching positions.
pub open spec fn is_latest(arts: Seq<StoredArtifact>, matches: Seq<bool>, chosen: int) -> bool {
    &&& 0 <= chosen < arts.len()
    &&& matches[chosen]
    &&& forall|j: int|
        0 <= j < arts.len() && #[trigger] matches[j] ==> !artifact_key_lt(arts[chosen], arts[j])
    &&& forall|j: int|
        chosen < j < arts.len() && #[trigger] matches[j] ==> artifact_key_lt(arts[j], arts[chosen])
}

proof fn lemma_bytes_lt_irreflexive(a: Seq<u8>)
    ensures
        !bytes_lt(a, a),
    decreases a.len(),
{
    if a.len() > 0 {
        lemma_bytes_lt_irreflexive(a.drop_first());
    }
}

proof fn lemma_bytes_lt_total(a: Seq<u8>, b: Seq<u8>)
    ensures
        a != b ==> (bytes_lt(a, b) || bytes_lt(b, a)),
        !(bytes_lt(a, b) && bytes_lt(b, a)),
        !bytes_lt(a, a),
    decreases a.len(),
{
    lemma_bytes_lt_irreflexive(a);
    if a.len() > 0 && b.len() > 0 && a[0] == b[0] {
        lemma_bytes_lt_total(a.drop_first(), b.drop_first());
        if a.drop_first() == b.drop_first() {
            assert(a =~= seq![a[0]] + a.drop_first());
            assert(b =~= seq![b[0]] + b.drop_first());
        }
    } else if a.len() > 0 && b.len() > 0 {
    } else if a.len() == 0 && b.len() == 0 {
        assert(a =~= b);
    }
}

proof fn lemma_bytes_lt_trans(a: Seq<u8>, b: Seq<u8>, c: Seq<u8>)
    requires
        bytes_lt(a, b),
        bytes_lt(b, c),
    ensures
        bytes_lt(a, c),
    decreases a.len(),
{
    if a.len() > 0 && b.len() > 0 && c.len() > 0 && a[0] == b[0] && b[0] == c[0] {
        lemma_bytes_lt_trans(a.drop_first(), b.drop_first(), c.drop_first());
    }
}

/// The artifact key order is a strict order.
pub proof fn lemma_artifact_key_order(a: StoredArtifact, b: StoredArtifact, c: StoredArtifact)
    ensures
        !artifact_key_lt(a, a),
        !(artifact_key_lt(a, b) && artifact_key_lt(b, a)),
        artifact_key_lt(a, b) && artifact_key_lt(b, c) ==> artifact_key_lt(a, c),
{
    let (ta, tb, tc) = (
        encode_utf8(a.created_at@),
        encode_utf8(b.created_at@),
        encode_utf8(c.created_at@),
    );
    let (ia, ib, ic) = (
        encode_utf8(a.id@),
        encode_utf8(b.id@),
        encode_utf8(c.id@),
    );
    lemma_bytes_lt_total(ta, ta);
    lemma_bytes_lt_total(ia, ia);
    lemma_bytes_lt_total(ta, tb);
    lemma_bytes_lt_total(ia, ib);
    if artifact_key_lt(a, b) && artifact_key_lt(b, c) {
        if bytes_lt(ta, tb) && bytes_lt(tb, tc) {
            lemma_bytes_lt_trans(ta, tb, tc);
        }
        if ia.len() >= 0 && ta == tb && tb == tc && bytes_lt(ia, ib) && bytes_lt(ib, ic) {
            lemma_bytes_lt_trans(ia, ib, ic);
        }
    }
}

pub(crate) fn bytes_less(a: &[u8], b: &[u8]) -> (r: bool)
    ensures
        r == bytes_lt(a@, b@),
{
    let n = a.len();
    let m = b.len();
    let mut i: usize = 0;
    proof {
        assert(a@.subrange(0, n as int) =~= a@);
        assert(b@.subrange(0, m as int) =~= b@);
    }
    while i < n && i < m
        invariant
            n == a@.len(),
            m == b@.len(),
            i <= n,
            i <= m,
            bytes_lt(a@, b@) == bytes_lt(a@.subrange(i as int, n as int), b@.subrange(i as int, m as int)),
        decreases n - i,
    {
        let ghost sa = a@.subrange(i as int, n as int);
        let ghost sb = b@.subrange(i as int, m as int);
        proof {
            assert(sa.drop_first() =~= a@.subrange(i + 1, n as int));
            assert(sb.drop_first() =~= b@.subrange(i + 1, m as int));
        }
        if a[i] != b[i] {
            return a[i] < b[i];
        }
        i = i + 1;
    }
    proof {
        let sa = a@.subrange(i as int, n as int);
        let sb = b@.subrange(i as int, m as int);
        assert(sa.len() == 0 || sb.len() == 0);
    }
    i < m && i == n
}

proof fn lemma_bytes_lt_start(a: Seq<u8>, b: Seq<u8>)
    ensures
        a.subrange(0, a.len() as int) == a,
        b.subrange(0, b.len() as int) == b,
{
    assert(a.subrange(0, a.len() as int) =~= a);
    assert(b.subrange(0, b.len() as int) =~= b);
}

/// Whether artifact `a` orders strictly before artifact `b`.
pub fn artifact_before(a: &StoredArtifact, b: &StoredArtifact) -> (r: bool)
    ensures
        r == artifact_key_lt(*a, *b),
{
    let ta = a.created_at.as_str().as_bytes();
    let tb = b.created_at.as_str().as_bytes();
    proof {
        lemma_bytes_lt_start(ta@, tb@);
    }
    if bytes_less(ta, tb) {
        return true;
    }
    let same_time = bytes_equal(ta, tb);
    if !same_time {
        return false;
    }
    let ia = a.id.as_str().as_bytes();
    let ib = b.id.as_str().as_bytes();
    proof {
        lemma_bytes_lt_start(ia@, ib@);
    }
    bytes_less(ia, ib)
}

fn bytes_equal(a: &[u8], b: &[u8]) -> (r: bool)
    ensures
        r == (a@ == b@),
{
    if a.len() != b.len() {
        return false;
    }
    let n = a.len();
    let mut i: usize = 0;
    while i < n
        invariant
            n == a@.len(),
            n == b@.len(),
            i <= n,
            forall|j: int| 0 <= j < i ==> a@[j] == b@[j],
        decreases n - i,
    {
        if a[i] != b[i] {
            return false;
        }
        i = i + 1;
    }
    proof {
        assert(a@ =~= b@);
    }
    true
}

/// The position selected among the flagged artifacts, if any is flagged.
pub open spec fn latest_of(arts: Seq<StoredArtifact>, matches: Seq<bool>) -> Option<int> {
    if exists|i: int| is_latest(arts, matches, i) {
        Some(choose|i: int| is_latest(arts, matches, i))
    } else {
        None
    }
}

pub open spec fn opt_index(r: Option<usize>) -> Option<int> {
    match r {
        Some(i) => Some(i as int),
        None => None,
    }
}

/// At most one position satisfies the selection rule.
pub proof fn lemma_latest_unique(arts: Seq<StoredArtifact>, matches: Seq<bool>, i: int, k: int)
    requires
        is_latest(arts, matches, i),
        is_latest(arts, matches, k),
    ensures
        i == k,
{
    if i < k {
        assert(matches[k]);
        lemma_artifact_key_order(arts[k], arts[i], arts[k]);
    } else if k < i {
        assert(matches[i]);
        lemma_artifact_key_order(arts[i], arts[k], arts[i]);
    }
}

/// The position `max_by_key((created_at, id))` selects among the artifacts
/// flagged in `matches`, or nothing when none is flagged.
pub fn latest_matching(artifacts: &Vec<StoredArtifact>, matches: &Vec<bool>) -> (r: Option<usize>)
    requires
        matches@.len() == artifacts@.len(),
    ensures
        r is None <==> forall|j: int| 0 <= j < matches@.len() ==> !#[trigger] matches@[j],
        r matches Some(i) ==> is_latest(artifacts@, matches@, i as int),
        opt_index(r) == latest_of(artifacts@, matches@),
{
    let n = artifacts.len();
    let mut best: Option<usize> = None;
    let mut i: usize = 0;
    while i < n
        invariant
            n == artifacts@.len(),
            matches@.len() == n,
            i <= n,
            best is None <==> forall|j: int| 0 <= j < i ==> !#[trigger] matches@[j],
            best matches Some(b) ==> {
                &&& b < i
                &&& matches@[b as int]
                &&& forall|j: int|
                    0 <= j < i && #[trigger] matches@[j] ==> !artifact_key_lt(
                        artifacts@[b as int],
                        artifacts@[j],
                    )
                &&& forall|j: int|
                    b < j < i && #[trigger] matches@[j] ==> artifact_key_lt(
                        artifacts@[j],
                        artifacts@[b as int],
                    )
            },
        decreases n - i,
    {
        if matches[i] {
            match best {
                None => {
                    proof {
                        lemma_artifact_key_order(artifacts@[i as int], artifacts@[i as int], artifacts@[i as int]);
                    }
                    best = Some(i);
                },
                Some(b) => {
                    let replace = !artifact_before(&artifacts[i], &artifacts[b]);
                    if replace {
                        proof {
                            assert forall|j: int|
                                0 <= j < i + 1 && #[trigger] matches@[j] implies !artifact_key_lt(
                                artifacts@[i as int],
                                artifacts@[j],
                            ) by {
                                lemma_artifact_key_order(artifacts@[i as int], artifacts@[b as int], artifacts@[j]);
                                lemma_artifact_key_order(artifacts@[b as int], artifacts@[i as int], artifacts@[j]);
                                lemma_artifact_key_order(artifacts@[j], artifacts@[i as int], artifacts@[b as int]);
                                lemma_artifact_key_order(artifacts@[i as int], artifacts@[j], artifacts@[b as int]);
                                if j < i {
                                    lemma_bytes_lt_total(
                                        encode_utf8(artifacts@[i as int].created_at@),
                                        encode_utf8(artifacts@[b as int].created_at@),
                                    );
                                    lemma_bytes_lt_total(
                                        encode_utf8(artifacts@[i as int].id@),
                                        encode_utf8(artifacts@[b as int].id@),
                                    );
                                }
                            }
                        }
                        best = Some(i);
                    } else {
                        proof {
                            lemma_artifact_key_order(artifacts@[i as int], artifacts@[b as int], artifacts@[i as int]);
                        }
                    }
                },
            }
        }
        i = i + 1;
    }
    proof {
        match best {
            Some(b) => {
                assert(is_latest(artifacts@, matches@, b as int));
                let c = choose|i: int| is_latest(artifacts@, matches@, i);
                lemma_latest_unique(artifacts@, matches@, b as int, c);
            },
            None => {
                assert forall|i: int| !is_latest(artifacts@, matches@, i) by {
                    if is_latest(artifacts@, matches@, i) {
                        assert(matches@[i]);
                    }
                }
            },
        }
    }
    best
}

} // verus!
