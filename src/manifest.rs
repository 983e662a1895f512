//! Version manifests and the staleness decision.
use vstd::prelude::*;

verus! {

/// A parsed version descriptor: `{ "version": ..., "buildDate": ... }`.
/// The version is an opaque string compared by equality only.
pub struct VersionManifest {
    pub version: String,
    pub build_date: Option<String>,
}

impl VersionManifest {
    pub fn new(version: String, build_date: Option<String>) -> (r: VersionManifest)
        ensures
            r.version == version,
            r.build_date == build_date,
    {
        VersionManifest { version, build_date }
    }
}

/// The version string of a manifest that may be absent.
pub open spec fn version_view(m: Option<VersionManifest>) -> Option<Seq<char>> {
    match m {
        Some(v) => Some(v.version@),
        None => None,
    }
}

/// Staleness over version strings: no remote means current, no local means
/// stale, otherwise any difference at all means stale.
pub open spec fn stale_spec(local: Option<Seq<char>>, remote: Option<Seq<char>>) -> bool {
    match (local, remote) {
        (_, None) => false,
        (None, Some(_)) => true,
        (Some(l), Some(r)) => l != r,
    }
}

/// Decides whether the bundled copy is stale relative to the remote one.
pub fn is_stale(local: &Option<VersionManifest>, remote: &Option<VersionManifest>) -> (r: bool)
    ensures
        r == stale_spec(version_view(*local), version_view(*remote)),
{
    match remote {
        None => false,
        Some(rm) => match local {
            None => true,
            Some(lm) => !(lm.version == rm.version),
        },
    }
}

/// `is_stale` is determined by its arguments' version strings alone; no
/// remote manifest never counts as stale; a missing local one always does
/// when a remote one is there; with both present, staleness is inequality.
pub proof fn lemma_stale_laws(local: Option<VersionManifest>, remote: Option<VersionManifest>)
    ensures
        stale_spec(version_view(local), version_view(remote)) == stale_spec(
            version_view(local),
            version_view(remote),
        ),
        remote is None ==> !stale_spec(version_view(local), version_view(remote)),
        (local is None && remote is Some) ==> stale_spec(version_view(local), version_view(remote)),
        (local is Some && remote is Some) ==> (stale_spec(version_view(local), version_view(remote))
            == (local->0.version@ != remote->0.version@)),
{
}

} // verus!
