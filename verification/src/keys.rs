//! The public keys by which binary caches are trusted.
use vstd::prelude::*;
use vstd::string::*;

use crate::error::NixError;

verus! {

/// Names and their values, in the order in which they are held.
pub type Entries = Seq<(Seq<char>, Seq<char>)>;

/// Whether `name` is one of the names.
pub open spec fn has_name(entries: Entries, name: Seq<char>) -> bool {
    exists|i: int| 0 <= i < entries.len() && (#[trigger] entries[i]).0 == name
}

/// A place at which `name` stands.
pub open spec fn place_of(entries: Entries, name: Seq<char>) -> int {
    choose|i: int| 0 <= i < entries.len() && (#[trigger] entries[i]).0 == name
}

/// Whether no name stands twice.
pub open spec fn names_once(entries: Entries) -> bool {
    forall|i: int, j: int|
        0 <= i < j < entries.len() ==> (#[trigger] entries[i]).0 != (#[trigger] entries[j]).0
}

/// The entries as a map from names to values.
pub open spec fn as_map(entries: Entries) -> Map<Seq<char>, Seq<char>> {
    Map::new(|name: Seq<char>| has_name(entries, name), |name: Seq<char>|
        entries[place_of(entries, name)].1)
}

/// The entries with `name` bound to `value`: in its place where it stands
/// already, behind all others where it does not.
pub open spec fn bound(entries: Entries, name: Seq<char>, value: Seq<char>) -> Entries {
    if has_name(entries, name) {
        entries.update(place_of(entries, name), (name, value))
    } else {
        entries.push((name, value))
    }
}

/// The entries with each of `more` bound in turn.
pub open spec fn all_bound(entries: Entries, more: Entries) -> Entries
    decreases more.len(),
{
    if more.len() == 0 {
        entries
    } else {
        bound(all_bound(entries, more.drop_last()), more.last().0, more.last().1)
    }
}

/// The values, in order.
pub open spec fn values(entries: Entries) -> Seq<Seq<char>> {
    Seq::new(entries.len(), |i: int| entries[i].1)
}

/// Where names stand once, a name stands at one place only.
pub proof fn lemma_one_place(entries: Entries, i: int)
    requires
        names_once(entries),
        0 <= i < entries.len(),
    ensures
        has_name(entries, entries[i].0),
        place_of(entries, entries[i].0) == i,
        as_map(entries)[entries[i].0] == entries[i].1,
{
    let name = entries[i].0;
    assert(has_name(entries, name));
    let j = place_of(entries, name);
    assert(0 <= j < entries.len() && entries[j].0 == name);
}

/// Binding a name binds it in the map, and no name comes to stand twice.
pub proof fn lemma_bound(entries: Entries, name: Seq<char>, value: Seq<char>)
    requires
        names_once(entries),
    ensures
        names_once(bound(entries, name, value)),
        as_map(bound(entries, name, value)) == as_map(entries).insert(name, value),
{
    let after = bound(entries, name, value);
    if has_name(entries, name) {
        let p = place_of(entries, name);
        assert(0 <= p < entries.len() && entries[p].0 == name);
        assert forall|i: int| 0 <= i < after.len() implies (#[trigger] after[i]).0
            == entries[i].0 by {}
    } else {
        assert forall|i: int| 0 <= i < entries.len() implies (#[trigger] entries[i]).0 != name by {}
    }
    assert(names_once(after));
    assert forall|n: Seq<char>| has_name(after, n) == (has_name(entries, n) || n == name) by {
        if has_name(entries, n) {
            let k = place_of(entries, n);
            assert(after[k].0 == n);
        }
        if n == name {
            if has_name(entries, name) {
                assert(after[place_of(entries, name)].0 == n);
            } else {
                assert(after[entries.len() as int].0 == n);
            }
        }
        if has_name(after, n) {
            let k = place_of(after, n);
            if k < entries.len() {
                assert(entries[k].0 == n);
            }
        }
    }
    assert forall|n: Seq<char>| has_name(after, n) implies as_map(after)[n] == as_map(
        entries,
    ).insert(name, value)[n] by {
        let k = place_of(after, n);
        assert(0 <= k < after.len() && after[k].0 == n);
        if n != name {
            assert(entries[k] == after[k]);
            lemma_one_place(entries, k);
        } else if has_name(entries, name) {
            lemma_one_place(after, place_of(entries, name));
        } else {
            lemma_one_place(after, entries.len() as int);
        }
    }
    assert(as_map(after) =~= as_map(entries).insert(name, value));
}

/// Binding many names unites the maps, the newer values prevailing.
pub proof fn lemma_all_bound(entries: Entries, more: Entries)
    requires
        names_once(entries),
        names_once(more),
    ensures
        names_once(all_bound(entries, more)),
        as_map(all_bound(entries, more)) == as_map(entries).union_prefer_right(as_map(more)),
    decreases more.len(),
{
    if more.len() == 0 {
        assert(as_map(more).dom() =~= Set::<Seq<char>>::empty());
        assert(as_map(entries).union_prefer_right(as_map(more)) =~= as_map(entries));
    } else {
        let less = more.drop_last();
        assert(names_once(less)) by {
            assert forall|i: int, j: int| 0 <= i < j < less.len() implies (#[trigger] less[i]).0
                != (#[trigger] less[j]).0 by {
                assert(more[i].0 != more[j].0);
            }
        }
        lemma_all_bound(entries, less);
        lemma_bound(all_bound(entries, less), more.last().0, more.last().1);
        assert(!has_name(less, more.last().0)) by {
            assert forall|i: int| 0 <= i < less.len() implies (#[trigger] less[i]).0
                != more.last().0 by {
                assert(more[i].0 != more[more.len() - 1].0);
            }
        }
        lemma_bound(less, more.last().0, more.last().1);
        assert(bound(less, more.last().0, more.last().1) =~= more);
        assert(as_map(all_bound(entries, more)) =~= as_map(entries).union_prefer_right(
            as_map(more),
        ));
    }
}

/// Entries that are bound in turn, with nothing before them, are the same entries.
proof fn lemma_bound_anew(entries: Entries)
    requires
        names_once(entries),
    ensures
        all_bound(Entries::empty(), entries) == entries,
    decreases entries.len(),
{
    if entries.len() > 0 {
        let less = entries.drop_last();
        let name = entries.last().0;
        assert forall|i: int, j: int| 0 <= i < j < less.len() implies (#[trigger] less[i]).0 != (
        #[trigger] less[j]).0 by {
            assert(entries[i].0 != entries[j].0);
        }
        lemma_bound_anew(less);
        assert forall|i: int| 0 <= i < less.len() implies (#[trigger] less[i]).0 != name by {
            assert(entries[i].0 != entries[entries.len() - 1].0);
        }
        assert(bound(less, name, entries.last().1) =~= entries);
    } else {
        assert(entries =~= Entries::empty());
    }
}

/// `serde_json::Error`, carried unread.
#[verifier::external_type_specification]
#[verifier::external_body]
pub struct ExJsonError(serde_json::Error);

/// The map that `serde_json::from_str` reads from a text as a
/// `HashMap<String, String>`, where it reads one.
pub uninterp spec fn json_string_map(json: Seq<char>) -> Option<Map<Seq<char>, Seq<char>>>;

/// `serde_json::from_str` into a `HashMap<String, String>`. It succeeds or fails
/// by the text alone, and so is the map that it reads; the order in which the
/// entries come out of the hash map is open.
#[verifier::external_body]
fn read_json(json: &str) -> (r: Result<Vec<(String, String)>, serde_json::Error>)
    ensures
        match r {
            Ok(entries) => names_once(entries.deep_view()) && json_string_map(json@) == Some(
                as_map(entries.deep_view()),
            ),
            Err(_) => json_string_map(json@) is None,
        },
{
    let map = serde_json::from_str::<std::collections::HashMap<String, String>>(json)?;
    Ok(map.into_iter().collect())
}

/// `serde_json::to_string` of a `HashMap<String, String>`, which does not fail.
/// The order in which the entries are written is open; reading the text gives
/// the map back.
#[verifier::external_body]
fn write_json(entries: &Vec<(String, String)>) -> (json: String)
    requires
        names_once(entries.deep_view()),
    ensures
        json_string_map(json@) == Some(as_map(entries.deep_view())),
{
    let map: std::collections::HashMap<String, String> = entries.iter().cloned().collect();
    serde_json::to_string(&map).unwrap()
}

/// The public keys of caches, by the caches' names.
pub struct KnownKeys {
    entries: Vec<(String, String)>,
}

impl DeepView for KnownKeys {
    type V = Entries;

    closed spec fn deep_view(&self) -> Entries {
        self.entries.deep_view()
    }
}

impl Clone for KnownKeys {
    fn clone(&self) -> (r: KnownKeys)
        ensures
            r.deep_view() == self.deep_view(),
    {
        let mut r = KnownKeys::new();
        r.extend(self);
        proof {
            use_type_invariant(self);
            lemma_bound_anew(self.deep_view());
        }
        r
    }
}

impl KnownKeys {
    /// No cache has two keys.
    #[verifier::type_invariant]
    pub open spec fn well_formed(self) -> bool {
        names_once(self.deep_view())
    }

    /// No keys.
    pub fn new() -> (r: KnownKeys)
        ensures
            r.deep_view() == Entries::empty(),
    {
        let entries: Vec<(String, String)> = Vec::new();
        assert(entries.deep_view() =~= Entries::empty());
        KnownKeys { entries }
    }

    /// The keys that the contents of the key file stand for. A file that could
    /// not be read holds none; one that is not a JSON object of strings is an
    /// error.
    pub fn load(contents: Option<&str>) -> (r: Result<KnownKeys, NixError>)
        ensures
            match (contents, r) {
                (None, Ok(keys)) => keys.deep_view() == Entries::empty(),
                (None, Err(_)) => false,
                (Some(json), Ok(keys)) => json_string_map(json@) == Some(as_map(keys.deep_view())),
                (Some(json), Err(e)) => json_string_map(json@) is None && e is InvalidKeys,
            },
    {
        match contents {
            None => Ok(KnownKeys::new()),
            Some(json) => match read_json(json) {
                Ok(entries) => Ok(KnownKeys { entries }),
                Err(_) => Err(NixError::InvalidKeys),
            },
        }
    }

    /// The contents of the key file that stand for the keys.
    pub fn to_json(&self) -> (json: String)
        ensures
            json_string_map(json@) == Some(as_map(self.deep_view())),
    {
        proof {
            use_type_invariant(self);
        }
        write_json(&self.entries)
    }

    /// Whether there are no keys.
    pub fn is_empty(&self) -> (r: bool)
        ensures
            r == (self.deep_view().len() == 0),
    {
        self.entries.len() == 0
    }

    /// How many keys there are.
    pub fn len(&self) -> (r: usize)
        ensures
            r == self.deep_view().len(),
    {
        self.entries.len()
    }

    /// The name and the key at a place.
    pub fn entry(&self, i: usize) -> (r: (&str, &str))
        requires
            i < self.deep_view().len(),
        ensures
            r.0@ == self.deep_view()[i as int].0,
            r.1@ == self.deep_view()[i as int].1,
    {
        (self.entries[i].0.as_str(), self.entries[i].1.as_str())
    }

    /// Where the key of a cache is held, if it is.
    fn find(&self, name: &str) -> (r: Option<usize>)
        ensures
            match r {
                Some(i) => i < self.entries@.len() && has_name(self.deep_view(), name@) && i
                    == place_of(self.deep_view(), name@),
                None => !has_name(self.deep_view(), name@),
            },
    {
        let wanted = String::from_str(name);
        for i in 0..self.entries.len()
            invariant
                wanted@ == name@,
                forall|k: int| 0 <= k < i ==> (#[trigger] self.deep_view()[k]).0 != name@,
        {
            if self.entries[i].0 == wanted {
                proof {
                    use_type_invariant(self);
                    assert(self.deep_view()[i as int].0 == name@);
                    lemma_one_place(self.deep_view(), i as int);
                }
                return Some(i);
            }
        }
        None
    }

    /// Whether the key of a cache is known.
    pub fn contains(&self, name: &str) -> (r: bool)
        ensures
            r == has_name(self.deep_view(), name@),
    {
        self.find(name).is_some()
    }

    /// Binds the cache to the key.
    pub fn insert(&mut self, name: &str, key: &str)
        ensures
            final(self).deep_view() == bound(old(self).deep_view(), name@, key@),
    {
        proof {
            use_type_invariant(&*self);
            lemma_bound(self.deep_view(), name@, key@);
        }
        let place = self.find(name);
        let ghost before = self.deep_view();
        let entry = (String::from_str(name), String::from_str(key));
        let mut entries: Vec<(String, String)> = Vec::new();
        assert(entries.deep_view() =~= Entries::empty());
        std::mem::swap(&mut entries, &mut self.entries);
        match place {
            Some(i) => {
                entries[i] = entry;
            },
            None => {
                entries.push(entry);
            },
        }
        assert(entries.deep_view() =~= bound(before, name@, key@));
        self.entries = entries;
    }

    /// Binds each cache of `more` to its key there.
    pub fn extend(&mut self, more: &KnownKeys)
        ensures
            final(self).deep_view() == all_bound(old(self).deep_view(), more.deep_view()),
    {
        let ghost all = more.deep_view();
        assert(all.take(0) =~= Entries::empty());
        let count: usize = more.len();
        for i in 0..count
            invariant
                all == more.deep_view(),
                count == all.len(),
                self.deep_view() == all_bound(old(self).deep_view(), all.take(i as int)),
        {
            let (name, key) = more.entry(i);
            self.insert(name, key);
            proof {
                assert(all.take(i + 1).drop_last() =~= all.take(i as int));
                assert(all.take(i + 1).last() == all[i as int]);
            }
        }
        assert(all.take(all.len() as int) =~= all);
    }

    /// The keys, in order.
    pub fn values(&self) -> (v: Vec<String>)
        ensures
            v.deep_view() == values(self.deep_view()),
    {
        let mut v: Vec<String> = Vec::new();
        for i in 0..self.entries.len()
            invariant
                v.deep_view() =~= values(self.deep_view()).take(i as int),
        {
            let ghost before = v.deep_view();
            v.push(self.entries[i].1.clone());
            assert(v.deep_view() =~= before.push(values(self.deep_view())[i as int]));
        }
        assert(v.deep_view() =~= values(self.deep_view()));
        v
    }
}

} // verus!
