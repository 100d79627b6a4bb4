//! Runner environment profiles: which profile a repository may be prepared
//! with, and how a profile is reported.
use vstd::prelude::*;
use crate::text::{opt_text, str_eq, strip_all_suffixes, texts_view, trim_end_matches};

verus! {

broadcast use vstd::std_specs::vec::group_vec_axioms;

/// A configured environment profile.
pub struct EnvironmentProfile {
    pub id: String,
    pub active: bool,
    pub image: String,
    pub revision: String,
    pub platform: String,
    pub required_executables: Vec<String>,
    /// The serialized name of the preparation strategy, when it has one.
    pub preparation_strategy: Option<String>,
    pub service_account: Option<String>,
    pub repository_allowlist: Vec<String>,
    /// Why the profile's own definition is invalid, if it is.
    pub validation_error: Option<String>,
}

/// Index of the first profile with the given id.
pub open spec fn first_profile(profiles: Seq<EnvironmentProfile>, id: Seq<char>) -> Option<int>
    decreases profiles.len(),
{
    if profiles.len() == 0 {
        None
    } else if profiles[0].id@ == id {
        Some(0)
    } else {
        match first_profile(profiles.drop_first(), id) {
            Some(i) => Some(i + 1),
            None => None,
        }
    }
}

/// A repository is allowed when the allowlist is empty or names it, trailing
/// slashes aside.
pub open spec fn spec_repository_allowed(allowlist: Seq<Seq<char>>, repository: Seq<char>) -> bool {
    allowlist.len() == 0 || exists|i: int| 0 <= i < allowlist.len() && strip_all_suffixes(#[trigger] allowlist[i], "/"@)
        == strip_all_suffixes(repository, "/"@)
}

/// The profile to prepare `repository` with, or why it cannot be used.
pub open spec fn spec_select_profile(profiles: Seq<EnvironmentProfile>, id: Seq<char>, repository: Seq<char>) -> Result<int, Seq<char>> {
    match first_profile(profiles, id) {
        None => Err("environment profile "@ + id + " does not exist"@),
        Some(i) => match profiles[i].validation_error {
            Some(e) => Err(e@),
            None => if !profiles[i].active {
                Err("environment profile "@ + id + " is inactive"@)
            } else if !spec_repository_allowed(texts_view(profiles[i].repository_allowlist@), repository) {
                Err("environment profile "@ + id + " is not allowed for repository "@ + repository)
            } else {
                Ok(i)
            },
        },
    }
}

fn repository_allowed(allowlist: &Vec<String>, repository: &str) -> (r: bool)
    ensures
        r == spec_repository_allowed(texts_view(allowlist@), repository@),
{
    if allowlist.len() == 0 {
        return true;
    }
    let wanted = trim_end_matches(repository, "/");
    let ghost v = texts_view(allowlist@);
    let mut i: usize = 0;
    while i < allowlist.len()
        invariant
            v == texts_view(allowlist@),
            wanted@ == strip_all_suffixes(repository@, "/"@),
            i <= allowlist@.len(),
            forall|k: int| 0 <= k < i ==> strip_all_suffixes(#[trigger] v[k], "/"@) != wanted@,
        decreases allowlist@.len() - i,
    {
        proof {
            assert(v[i as int] == allowlist@[i as int]@);
        }
        if str_eq(trim_end_matches(allowlist[i].as_str(), "/"), wanted) {
            return true;
        }
        i = i + 1;
    }
    false
}

/// The profile (by index) to prepare `repository` with.
pub fn select_profile(profiles: &[EnvironmentProfile], id: &str, repository: &str) -> (r: Result<usize, String>)
    ensures
        match r {
            Ok(i) => spec_select_profile(profiles@, id@, repository@) == Ok::<int, Seq<char>>(i as int),
            Err(e) => spec_select_profile(profiles@, id@, repository@) == Err::<int, Seq<char>>(e@),
        },
{
    let n = profiles.len();
    let mut i: usize = 0;
    proof {
        assert(profiles@.subrange(0, n as int) =~= profiles@);
    }
    while i < n
        invariant
            n == profiles@.len(),
            i <= n,
            first_profile(profiles@, id@) == match first_profile(profiles@.subrange(i as int, n as int), id@) {
                Some(t) => Some(t + i),
                None => None::<int>,
            },
        ensures
            i <= n,
            first_profile(profiles@, id@) == match first_profile(profiles@.subrange(i as int, n as int), id@) {
                Some(t) => Some(t + i),
                None => None::<int>,
            },
            i < n ==> profiles@[i as int].id@ == id@,
        decreases n - i,
    {
        let ghost rest = profiles@.subrange(i as int, n as int);
        proof {
            assert(rest[0] == profiles@[i as int]);
            assert(rest.drop_first() =~= profiles@.subrange(i + 1, n as int));
        }
        if str_eq(profiles[i].id.as_str(), id) {
            break;
        }
        i = i + 1;
    }
    if i == n {
        proof {
            assert(profiles@.subrange(n as int, n as int) =~= Seq::<EnvironmentProfile>::empty());
        }
        return Err(String::from_str("environment profile ").concat(id).concat(" does not exist"));
    }
    let p = &profiles[i];
    proof {
        let rest = profiles@.subrange(i as int, n as int);
        assert(rest[0] == profiles@[i as int]);
        assert(first_profile(profiles@, id@) == Some(i as int));
    }
    if let Some(e) = &p.validation_error {
        return Err(e.clone());
    }
    if !p.active {
        return Err(String::from_str("environment profile ").concat(id).concat(" is inactive"));
    }
    if !repository_allowed(&p.repository_allowlist, repository) {
        return Err(String::from_str("environment profile ").concat(id).concat(" is not allowed for repository ").concat(
            repository,
        ));
    }
    Ok(i)
}

/// How a profile is reported to operators.
pub struct EnvironmentProfileResponse {
    pub id: String,
    pub status: String,
    pub image: String,
    pub revision: String,
    pub platform: String,
    pub required_executables: Vec<String>,
    pub preparation_strategy: String,
    pub service_account: Option<String>,
    pub repository_allowlist: Vec<String>,
    pub blockers: Vec<String>,
}

/// The blockers of a profile: its validation error, then inactivity.
pub open spec fn spec_profile_blockers(p: EnvironmentProfile) -> Seq<Seq<char>> {
    let first = match p.validation_error {
        Some(e) => seq![e@],
        None => Seq::empty(),
    };
    if !p.active {
        first.push("profile is inactive"@)
    } else {
        first
    }
}

fn copy_texts(v: &Vec<String>) -> (r: Vec<String>)
    ensures
        texts_view(r@) == texts_view(v@),
{
    let mut out: Vec<String> = Vec::new();
    let mut i: usize = 0;
    while i < v.len()
        invariant
            i <= v@.len(),
            out@.len() == i,
            forall|k: int| 0 <= k < i ==> #[trigger] out@[k]@ == v@[k]@,
        decreases v@.len() - i,
    {
        out.push(v[i].clone());
        i = i + 1;
    }
    proof {
        assert(texts_view(out@) =~= texts_view(v@));
    }
    out
}

/// A profile as reported: configured but unverified when nothing blocks it,
/// unavailable otherwise.
pub fn profile_response(profile: &EnvironmentProfile) -> (r: EnvironmentProfileResponse)
    ensures
        r.id@ == profile.id@,
        texts_view(r.blockers@) == spec_profile_blockers(*profile),
        r.status@ == (if spec_profile_blockers(*profile).len() == 0 {
            "configured_unverified"@
        } else {
            "unavailable"@
        }),
        r.image@ == profile.image@ && r.revision@ == profile.revision@ && r.platform@ == profile.platform@,
        texts_view(r.required_executables@) == texts_view(profile.required_executables@),
        r.preparation_strategy@ == match profile.preparation_strategy {
            Some(s) => s@,
            None => "unknown"@,
        },
        opt_text(r.service_account) == opt_text(profile.service_account),
        texts_view(r.repository_allowlist@) == texts_view(profile.repository_allowlist@),
{
    let mut blockers: Vec<String> = Vec::new();
    if let Some(e) = &profile.validation_error {
        blockers.push(e.clone());
    }
    if !profile.active {
        blockers.push(String::from_str("profile is inactive"));
    }
    proof {
        assert(texts_view(blockers@) =~= spec_profile_blockers(*profile));
    }
    let status = if blockers.len() == 0 {
        String::from_str("configured_unverified")
    } else {
        String::from_str("unavailable")
    };
    EnvironmentProfileResponse {
        id: profile.id.clone(),
        status,
        image: profile.image.clone(),
        revision: profile.revision.clone(),
        platform: profile.platform.clone(),
        required_executables: copy_texts(&profile.required_executables),
        preparation_strategy: match &profile.preparation_strategy {
            Some(s) => s.clone(),
            None => String::from_str("unknown"),
        },
        service_account: match &profile.service_account {
            Some(s) => Some(s.clone()),
            None => None,
        },
        repository_allowlist: copy_texts(&profile.repository_allowlist),
        blockers,
    }
}

} // verus!
