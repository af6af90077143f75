//! Binary caches: which ones a project pulls from, and which one it pushes to.
use vstd::prelude::*;
use vstd::string::*;

use crate::keys::{Entries, KnownKeys};

verus! {

/// What a project says of its caches.
#[derive(Clone, Debug, PartialEq, Eq)]
pub struct Cachix {
    /// The caches that are read from, by name.
    pub pull: Vec<String>,
    /// The cache that is written to.
    pub push: Option<String>,
}

/// [`Cachix`] with the texts as character sequences.
pub struct CachixView {
    pub pull: Seq<Seq<char>>,
    pub push: Option<Seq<char>>,
}

impl DeepView for Cachix {
    type V = CachixView;

    open spec fn deep_view(&self) -> CachixView {
        CachixView { pull: self.pull.deep_view(), push: self.push.deep_view() }
    }
}

/// A project's caches and the keys by which caches are trusted.
#[derive(Clone)]
pub struct CachixCaches {
    pub caches: Cachix,
    pub known_keys: KnownKeys,
}

/// [`CachixCaches`] with the texts as character sequences.
pub struct CachixCachesView {
    pub caches: CachixView,
    pub known_keys: Entries,
}

impl DeepView for CachixCaches {
    type V = CachixCachesView;

    open spec fn deep_view(&self) -> CachixCachesView {
        CachixCachesView {
            caches: self.caches.deep_view(),
            known_keys: self.known_keys.deep_view(),
        }
    }
}

/// Where a cache is read from.
pub open spec fn cache_url(name: Seq<char>) -> Seq<char> {
    "https://"@ + name + ".cachix.org"@
}

/// Where the caches are read from.
pub open spec fn pull_urls(pull: Seq<Seq<char>>) -> Seq<Seq<char>> {
    Seq::new(pull.len(), |i: int| cache_url(pull[i]))
}

impl Cachix {
    /// Where the caches are read from.
    pub fn urls(&self) -> (v: Vec<String>)
        ensures
            v.deep_view() == pull_urls(self.deep_view().pull),
    {
        let mut v: Vec<String> = Vec::new();
        for i in 0..self.pull.len()
            invariant
                v.deep_view() =~= pull_urls(self.deep_view().pull).take(i as int),
        {
            let ghost before = v.deep_view();
            let mut url = String::from_str("https://");
            url.append(self.pull[i].as_str());
            url.append(".cachix.org");
            v.push(url);
            assert(v.deep_view() =~= before.push(pull_urls(self.deep_view().pull)[i as int]));
        }
        assert(v.deep_view() =~= pull_urls(self.deep_view().pull));
        v
    }
}

} // verus!
