//! The symbol cache: memoizes the translation of a raw input-device code into
//! its stable symbolic name, so the hot input path formats each code at most
//! once.

use std::collections::HashMap;
use vstd::prelude::*;
use vstd::string::StringExecFns;
use crate::text::{decimal, push_decimal};

verus! {

broadcast use vstd::std_specs::hash::group_hash_axioms;

/// The canonical symbolic name of raw key code `c`: `"Key"` followed by the
/// decimal rendering of the code. Deterministic for the life of the adapter.
pub open spec fn key_name(c: u32) -> Seq<char> {
    "Key"@ + decimal(c as nat)
}

/// A lazily grown, never evicted mapping from raw key codes to their
/// symbolic names. Owned by the dispatcher; bounded in practice by the
/// finite set of representable device codes.
pub struct SymbolCache {
    pub map: HashMap<u32, String>,
}

impl SymbolCache {
    /// Every cached entry holds exactly the canonical name of its code.
    pub open spec fn wf(self) -> bool {
        forall|c: u32| self.map@.contains_key(c) ==> (#[trigger] self.map@[c])@ == key_name(c)
    }

    /// What one `translate` call does: the result is the canonical name; a
    /// code seen before leaves the cache untouched (no new formatting work);
    /// a new code is formatted once and remembered.
    pub open spec fn translate_spec(pre: Self, post: Self, c: u32, r: Seq<char>) -> bool {
        &&& r == key_name(c)
        &&& post.map@.contains_key(c)
        &&& (pre.map@.contains_key(c) ==> post == pre)
        &&& (!pre.map@.contains_key(c) ==> post.map@.dom() =~= pre.map@.dom().insert(c)
            && forall|k: u32|
            k != c && pre.map@.contains_key(k) ==> #[trigger] post.map@[k] == pre.map@[k])
    }

    /// An empty cache.
    pub fn new() -> (s: Self)
        ensures
            s.wf(),
            s.map@ == Map::<u32, String>::empty(),
    {
        SymbolCache { map: HashMap::new() }
    }

    /// How many distinct codes have been formatted so far: the probe for the
    /// cache's formatting work, since a repeated code adds nothing here.
    pub fn formatted_count(&self) -> (n: usize)
        ensures
            n == self.map@.len(),
    {
        self.map.len()
    }

    /// Translates a raw key code to its symbolic name, reusing the cached
    /// name when the code was seen before.
    pub fn translate(&mut self, c: u32) -> (r: String)
        requires
            old(self).wf(),
        ensures
            final(self).wf(),
            Self::translate_spec(*old(self), *final(self), c, r@),
    {
        if let Some(s) = self.map.get(&c) {
            return s.clone();
        }
        let mut name = String::from_str("Key");
        push_decimal(&mut name, c as u64);
        proof {
            assert(name@ =~= key_name(c));
        }
        self.map.insert(c, name.clone());
        proof {
            assert(self.map@.dom() =~= old(self).map@.dom().insert(c));
        }
        name
    }
}

/// Law: translating the same raw code twice yields the same symbolic name
/// both times, and the second translation performs no new formatting work —
/// it leaves the cache exactly as the first translation left it.
pub proof fn lemma_translate_idempotent(
    c0: SymbolCache,
    c1: SymbolCache,
    c2: SymbolCache,
    code: u32,
    r1: Seq<char>,
    r2: Seq<char>,
)
    requires
        SymbolCache::translate_spec(c0, c1, code, r1),
        SymbolCache::translate_spec(c1, c2, code, r2),
    ensures
        r1 == r2,
        c2 == c1,
{
}

} // verus!
