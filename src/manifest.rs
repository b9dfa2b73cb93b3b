use vstd::prelude::*;

use crate::text::same_text;

verus! {

/// One entry of a manifest list: the manifest for one CPU architecture.
#[derive(Debug)]
pub struct ManifestEntry {
    pub digest: String,
    pub architecture: String,
}

/// Why a manifest list gave no digest for the requested architecture.
#[derive(Clone, Copy, Debug, PartialEq, Eq, Structural)]
pub enum ManifestError {
    /// No entry names the architecture.
    NoMatchingArchitecture,
    /// Two or more entries name it, and none is to be preferred.
    AmbiguousArchitecture,
    /// The response could not be read as a manifest.
    Unreadable,
}

/// The digests of the entries whose architecture is exactly `arch`, in list order.
pub open spec fn matching_digests(entries: Seq<ManifestEntry>, arch: Seq<char>) -> Seq<Seq<char>>
    decreases entries.len(),
{
    if entries.len() == 0 {
        Seq::empty()
    } else {
        let before = matching_digests(entries.drop_last(), arch);
        if entries.last().architecture@ == arch {
            before.push(entries.last().digest@)
        } else {
            before
        }
    }
}

/// The digest that the manifest list resolves to for `arch`: that of the one
/// matching entry.
pub open spec fn resolution(entries: Seq<ManifestEntry>, arch: Seq<char>) -> Result<
    Seq<char>,
    ManifestError,
> {
    let m = matching_digests(entries, arch);
    if m.len() == 0 {
        Err(ManifestError::NoMatchingArchitecture)
    } else if m.len() == 1 {
        Ok(m[0])
    } else {
        Err(ManifestError::AmbiguousArchitecture)
    }
}

pub open spec fn digest_result_view(r: Result<String, ManifestError>) -> Result<
    Seq<char>,
    ManifestError,
> {
    match r {
        Ok(d) => Ok(d@),
        Err(e) => Err(e),
    }
}

/// Picks the digest of the one entry whose architecture equals `arch`
/// (case-sensitive); fails where none or several match.
pub fn select_digest(entries: &Vec<ManifestEntry>, arch: &str) -> (r: Result<String, ManifestError>)
    ensures
        digest_result_view(r) == resolution(entries@, arch@),
{
    let mut found: Option<String> = None;
    let mut count: usize = 0;
    let mut i: usize = 0;
    while i < entries.len()
        invariant
            i <= entries.len(),
            count == matching_digests(entries@.subrange(0, i as int), arch@).len(),
            count <= i,
            count >= 1 ==> (found matches Some(d) && d@ == matching_digests(
                entries@.subrange(0, i as int),
                arch@,
            )[0]),
        decreases entries.len() - i,
    {
        assert(entries@.subrange(0, i + 1).drop_last() =~= entries@.subrange(0, i as int));
        let e = &entries[i];
        assert(entries@.subrange(0, i + 1).last() == entries@[i as int]);
        if same_text(e.architecture.as_str(), arch) {
            if count == 0 {
                found = Some(e.digest.clone());
            }
            count = count + 1;
        }
        i = i + 1;
    }
    assert(entries@.subrange(0, entries@.len() as int) =~= entries@);
    if count == 0 {
        Err(ManifestError::NoMatchingArchitecture)
    } else if count == 1 {
        match found {
            Some(d) => Ok(d),
            None => Err(ManifestError::NoMatchingArchitecture),
        }
    } else {
        Err(ManifestError::AmbiguousArchitecture)
    }
}

proof fn lemma_no_match_is_empty(entries: Seq<ManifestEntry>, arch: Seq<char>)
    requires
        forall|j: int| 0 <= j < entries.len() ==> entries[j].architecture@ != arch,
    ensures
        matching_digests(entries, arch).len() == 0,
    decreases entries.len(),
{
    if entries.len() > 0 {
        lemma_no_match_is_empty(entries.drop_last(), arch);
    }
}

proof fn lemma_some_match_is_counted(entries: Seq<ManifestEntry>, arch: Seq<char>, i: int)
    requires
        0 <= i < entries.len(),
        entries[i].architecture@ == arch,
    ensures
        matching_digests(entries, arch).len() >= 1,
    decreases entries.len(),
{
    if i < entries.len() - 1 {
        lemma_some_match_is_counted(entries.drop_last(), arch, i);
    }
}

/// Where the entry at `i` is the only one whose architecture is `arch`, the
/// manifest list resolves to its digest.
pub proof fn lemma_unique_match_resolves(entries: Seq<ManifestEntry>, arch: Seq<char>, i: int)
    requires
        0 <= i < entries.len(),
        entries[i].architecture@ == arch,
        forall|j: int| 0 <= j < entries.len() && j != i ==> entries[j].architecture@ != arch,
    ensures
        resolution(entries, arch) == Ok::<Seq<char>, ManifestError>(entries[i].digest@),
    decreases entries.len(),
{
    if i == entries.len() - 1 {
        lemma_no_match_is_empty(entries.drop_last(), arch);
    } else {
        lemma_unique_match_resolves(entries.drop_last(), arch, i);
    }
}

/// Where two entries name the architecture, resolution fails as ambiguous
/// instead of picking one of them.
pub proof fn lemma_two_matches_are_ambiguous(
    entries: Seq<ManifestEntry>,
    arch: Seq<char>,
    i: int,
    j: int,
)
    requires
        0 <= i < j < entries.len(),
        entries[i].architecture@ == arch,
        entries[j].architecture@ == arch,
    ensures
        matching_digests(entries, arch).len() >= 2,
        resolution(entries, arch) == Err::<Seq<char>, ManifestError>(
            ManifestError::AmbiguousArchitecture,
        ),
    decreases entries.len(),
{
    if j == entries.len() - 1 {
        lemma_some_match_is_counted(entries.drop_last(), arch, i);
    } else {
        lemma_two_matches_are_ambiguous(entries.drop_last(), arch, i, j);
    }
}

/// Where no entry names the architecture, resolution fails as such.
pub proof fn lemma_absent_architecture_fails(entries: Seq<ManifestEntry>, arch: Seq<char>)
    requires
        forall|j: int| 0 <= j < entries.len() ==> entries[j].architecture@ != arch,
    ensures
        resolution(entries, arch) == Err::<Seq<char>, ManifestError>(
            ManifestError::NoMatchingArchitecture,
        ),
{
    lemma_no_match_is_empty(entries, arch);
}

} // verus!
