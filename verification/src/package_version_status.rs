//! Which version of the bridge runs, and which is the latest.
use vstd::prelude::*;

use crate::json::{Json};

verus! {

/// The version that runs and the latest one, as far as they are known.
#[derive(Debug)]
pub struct BridgeVersionInfo {
    pub bridge_version: Option<String>,
    pub bridge_latest_version: Option<String>,
}

/// How long a version that was looked up counts as the latest.
pub const FRESH_MS: u64 = 1_800_000;

/// How long nobody asks again.
pub const RETRY_MS: u64 = 60_000;

/// What was looked up, and when.
#[derive(Debug)]
pub struct PackageVersionCache {
    latest_version: Option<String>,
    last_successful_resolve_at: Option<u64>,
    last_attempted_at: Option<u64>,
}

/// What a `PackageVersionCache` stands for.
pub struct CacheView {
    pub latest: Option<Seq<char>>,
    pub resolved_at: Option<u64>,
    pub attempted_at: Option<u64>,
}

/// Whether less than `limit` milliseconds have passed since `at`.
pub open spec fn within(at: Option<u64>, now_ms: u64, limit: u64) -> bool {
    at matches Some(then_ms) && now_ms < then_ms + limit
}

fn is_within(at: Option<u64>, now_ms: u64, limit: u64) -> (r: bool)
    requires
        limit > 0,
    ensures
        r == within(at, now_ms, limit),
{
    match at {
        Some(at) => now_ms <= at || now_ms - at < limit,
        None => false,
    }
}

impl CacheView {
    /// Whether the version need not be looked up: it was lately, or somebody tried just now.
    pub open spec fn known(self, now_ms: u64) -> bool {
        (within(self.resolved_at, now_ms, FRESH_MS) && self.latest is Some) || within(
            self.attempted_at,
            now_ms,
            RETRY_MS,
        )
    }
}

impl PackageVersionCache {
    pub closed spec fn view(&self) -> CacheView {
        CacheView {
            latest: self.latest_version.deep_view(),
            resolved_at: self.last_successful_resolve_at,
            attempted_at: self.last_attempted_at,
        }
    }

    pub fn new() -> (r: PackageVersionCache)
        ensures
            r.view() == (CacheView { latest: None, resolved_at: None, attempted_at: None }),
    {
        PackageVersionCache {
            latest_version: None,
            last_successful_resolve_at: None,
            last_attempted_at: None,
        }
    }

    /// The latest version as far as it is known, or nothing where it has to be looked up now.
    pub fn read(&mut self, now_ms: u64) -> (r: Option<Option<String>>)
        ensures
            match r {
                Some(latest) => old(self).view().known(now_ms) && latest.deep_view() == old(
                    self,
                ).view().latest && final(self).view() == old(self).view(),
                None => !old(self).view().known(now_ms) && final(self).view() == (CacheView {
                    attempted_at: Some(now_ms),
                    ..old(self).view()
                }),
            },
    {
        if is_within(self.last_successful_resolve_at, now_ms, FRESH_MS)
            && self.latest_version.is_some() {
            return Some(self.latest_version.clone());
        }
        if is_within(self.last_attempted_at, now_ms, RETRY_MS) {
            return Some(self.latest_version.clone());
        }
        self.last_attempted_at = Some(now_ms);
        None
    }

    /// Takes up what the registry answered: the version in it is the latest one.
    pub fn refresh_latest(&mut self, reply: Option<&Json>, now_ms: u64) -> (r: Option<String>)
        ensures
            r.deep_view() == match reply.deep_view() {
                Some(package) => package.get_str("version"@),
                None => None,
            },
            final(self).view() == match r.deep_view() {
                Some(version) => CacheView {
                    latest: Some(version),
                    resolved_at: Some(now_ms),
                    ..old(self).view()
                },
                None => old(self).view(),
            },
    {
        let version = match reply {
            Some(package) => match package.get_str("version") {
                Some(version) => version.to_owned(),
                None => {
                    return None;
                },
            },
            None => {
                return None;
            },
        };
        self.latest_version = Some(version.clone());
        self.last_successful_resolve_at = Some(now_ms);
        Some(version)
    }
}

/// What is told of the versions.
pub fn version_info(package_version: &str, latest: Option<String>) -> (r: BridgeVersionInfo)
    ensures
        r.bridge_version.deep_view() == Some(package_version@),
        r.bridge_latest_version == latest,
{
    BridgeVersionInfo {
        bridge_version: Some(package_version.to_owned()),
        bridge_latest_version: latest,
    }
}

/// The registry is asked at most once in a minute, whatever it answers.
pub proof fn law_registry_is_not_asked_twice(cache: CacheView, first_ms: u64, now_ms: u64)
    requires
        first_ms <= now_ms < first_ms + RETRY_MS,
    ensures
        (CacheView { attempted_at: Some(first_ms), ..cache }).known(now_ms),
{
}

} // verus!
