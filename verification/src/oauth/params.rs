//! The named parameters that a code exchange is configured with.

use vstd::prelude::*;
use vstd::string::*;
use vstd::hash_map::StringHashMap;

verus! {

/// A mapping from parameter names to values. Each name occurs at most once;
/// a later value for a name replaces the earlier one.
pub struct ExchangeParams {
    entries: StringHashMap<String>,
}

impl View for ExchangeParams {
    type V = Map<Seq<char>, Seq<char>>;

    closed spec fn view(&self) -> Map<Seq<char>, Seq<char>> {
        Map::new(
            |k: Seq<char>| self.entries@.contains_key(k),
            |k: Seq<char>| self.entries@[k]@,
        )
    }
}

impl ExchangeParams {
    /// A mapping without entries.
    pub fn new() -> (params: ExchangeParams)
        ensures
            params@ == Map::<Seq<char>, Seq<char>>::empty(),
    {
        let params = ExchangeParams { entries: StringHashMap::new() };
        assert(params@ =~= Map::<Seq<char>, Seq<char>>::empty());
        params
    }

    /// Sets the value of `key`.
    pub fn insert(&mut self, key: &str, value: &str)
        ensures
            final(self)@ == old(self)@.insert(key@, value@),
    {
        self.entries.insert(String::from_str(key), String::from_str(value));
        assert(self@ =~= old(self)@.insert(key@, value@));
    }

    /// The value of `key`, where it has one.
    pub fn get(&self, key: &str) -> (value: Option<&String>)
        ensures
            self@.contains_key(key@) <==> value is Some,
            value is Some ==> value->Some_0@ == self@[key@],
    {
        self.entries.get(key)
    }

    /// Whether `key` has a value.
    pub fn contains_key(&self, key: &str) -> (present: bool)
        ensures
            present == self@.contains_key(key@),
    {
        self.entries.contains_key(key)
    }
}

} // verus!
