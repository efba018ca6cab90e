//! Gateway configuration and the host rules it sets: the allow-list and the
//! `Cache-Control` overrides.

use vstd::prelude::*;
use vstd::string::*;

verus! {

/// Which engine holds the cache.
#[derive(Debug, PartialEq, Clone)]
pub enum CacheType {
    InMemory,
    /// On disk, under this catalog directory.
    File(String),
}

/// A `Cache-Control` value that replaces the upstream one for hosts ending in `domain`.
#[derive(Debug, PartialEq, Clone)]
pub struct OverriddenCache {
    pub domain: String,
    pub cache_control: String,
}

#[derive(Debug, PartialEq, Clone)]
pub struct ApplicationCache {
    pub cache_type: CacheType,
}

#[derive(Debug, PartialEq, Clone)]
pub struct Config {
    /// Host suffixes that may be fetched; empty allows every host.
    pub allow_from: Vec<String>,
    /// Ordered; the first whose domain the host ends with applies.
    pub overridden_cache: Vec<OverriddenCache>,
    /// The largest pixel count a resize may ask for.
    pub maximum_image_size: usize,
    pub cache: ApplicationCache,
}

/// The default pixel budget: one 4K frame.
pub const DEFAULT_MAXIMUM_IMAGE_SIZE: usize = 3840 * 2160;

impl Default for Config {
    fn default() -> (r: Config)
        ensures
            r.allow_from@.len() == 1,
            r.allow_from@[0]@ == "localhost"@,
            r.overridden_cache@.len() == 1,
            r.overridden_cache@[0].domain@ == "localhost"@,
            r.overridden_cache@[0].cache_control@ == "immutable"@,
            r.maximum_image_size == 3840 * 2160,
            r.cache.cache_type is InMemory,
    {
        let mut allow_from: Vec<String> = Vec::new();
        allow_from.push(String::from_str("localhost"));
        let mut overridden_cache: Vec<OverriddenCache> = Vec::new();
        overridden_cache.push(
            OverriddenCache {
                domain: String::from_str("localhost"),
                cache_control: String::from_str("immutable"),
            },
        );
        Config {
            allow_from,
            overridden_cache,
            maximum_image_size: DEFAULT_MAXIMUM_IMAGE_SIZE,
            cache: ApplicationCache { cache_type: CacheType::InMemory },
        }
    }
}

/// `suffix` ends `s`.
pub open spec fn is_suffix(s: Seq<char>, suffix: Seq<char>) -> bool {
    suffix.len() <= s.len() && s.subrange(s.len() - suffix.len(), s.len() as int) == suffix
}

/// Whether `s` ends with `suffix`, character by character.
pub fn ends_with(s: &str, suffix: &str) -> (r: bool)
    ensures
        r == is_suffix(s@, suffix@),
{
    let n = s.unicode_len();
    let m = suffix.unicode_len();
    if m > n {
        return false;
    }
    let mut i: usize = 0;
    while i < m
        invariant
            m <= n,
            n == s@.len(),
            m == suffix@.len(),
            forall|j: int| 0 <= j < i ==> s@[n - m + j] == suffix@[j],
        decreases m - i,
    {
        if s.get_char(n - m + i) != suffix.get_char(i) {
            assert(s@.subrange(n - m, n as int)[i as int] != suffix@[i as int]);
            return false;
        }
        i = i + 1;
    }
    assert(s@.subrange(n - m, n as int) =~= suffix@);
    true
}

/// Some entry of the list ends `host`.
pub open spec fn matches_any(list: Seq<String>, host: Seq<char>) -> bool {
    exists|i: int| 0 <= i < list.len() && is_suffix(host, #[trigger] list[i]@)
}

/// An empty allow-list admits every host; otherwise some suffix must match.
pub open spec fn host_allowed(allow_from: Seq<String>, host: Seq<char>) -> bool {
    allow_from.len() == 0 || matches_any(allow_from, host)
}

/// The index of the first override whose domain ends `host`, if any.
pub open spec fn first_override(list: Seq<OverriddenCache>, host: Seq<char>) -> Option<int>
    decreases list.len(),
{
    if list.len() == 0 {
        None
    } else if is_suffix(host, list[0].domain@) {
        Some(0)
    } else {
        match first_override(list.drop_first(), host) {
            Some(i) => Some(i + 1),
            None => None,
        }
    }
}

/// The `Cache-Control` value that the overrides set for `host`, if any.
pub open spec fn override_for(list: Seq<OverriddenCache>, host: Seq<char>) -> Option<Seq<char>> {
    match first_override(list, host) {
        Some(i) => Some(list[i].cache_control@),
        None => None,
    }
}

proof fn lemma_first_override_at(list: Seq<OverriddenCache>, host: Seq<char>, i: int)
    requires
        0 <= i < list.len(),
        is_suffix(host, list[i].domain@),
        forall|j: int| 0 <= j < i ==> !is_suffix(host, #[trigger] list[j].domain@),
    ensures
        first_override(list, host) == Some(i),
    decreases i,
{
    if i > 0 {
        assert forall|j: int| 0 <= j < i - 1 implies !is_suffix(
            host,
            #[trigger] list.drop_first()[j].domain@,
        ) by {
            assert(list.drop_first()[j] == list[j + 1]);
        }
        lemma_first_override_at(list.drop_first(), host, i - 1);
    }
}

proof fn lemma_first_override_none(list: Seq<OverriddenCache>, host: Seq<char>)
    requires
        forall|j: int| 0 <= j < list.len() ==> !is_suffix(host, #[trigger] list[j].domain@),
    ensures
        first_override(list, host) is None,
    decreases list.len(),
{
    if list.len() > 0 {
        assert forall|j: int| 0 <= j < list.drop_first().len() implies !is_suffix(
            host,
            #[trigger] list.drop_first()[j].domain@,
        ) by {
            assert(list.drop_first()[j] == list[j + 1]);
        }
        lemma_first_override_none(list.drop_first(), host);
    }
}

impl Config {
    /// Whether `host` may be fetched.
    pub fn allows_host(&self, host: &str) -> (r: bool)
        ensures
            r == host_allowed(self.allow_from@, host@),
    {
        if self.allow_from.len() == 0 {
            return true;
        }
        let mut i: usize = 0;
        while i < self.allow_from.len()
            invariant
                i <= self.allow_from@.len(),
                forall|j: int| 0 <= j < i ==> !is_suffix(host@, #[trigger] self.allow_from@[j]@),
            decreases self.allow_from@.len() - i,
        {
            if ends_with(host, self.allow_from[i].as_str()) {
                return true;
            }
            i = i + 1;
        }
        false
    }

    /// The `Cache-Control` value that replaces the upstream one for `host`, if any.
    pub fn cache_control_override(&self, host: &str) -> (r: Option<String>)
        ensures
            crate::wire::opt_str_view(&r) == override_for(self.overridden_cache@, host@),
    {
        let mut i: usize = 0;
        while i < self.overridden_cache.len()
            invariant
                i <= self.overridden_cache@.len(),
                forall|j: int|
                    0 <= j < i ==> !is_suffix(host@, #[trigger] self.overridden_cache@[j].domain@),
            decreases self.overridden_cache@.len() - i,
        {
            if ends_with(host, self.overridden_cache[i].domain.as_str()) {
                proof {
                    lemma_first_override_at(self.overridden_cache@, host@, i as int);
                }
                return Some(self.overridden_cache[i].cache_control.clone());
            }
            i = i + 1;
        }
        proof {
            lemma_first_override_none(self.overridden_cache@, host@);
        }
        None
    }
}

} // verus!
