//! Exact-name blocklist, built once and queried per request.
use vstd::prelude::*;
use std::collections::hash_map::DefaultHasher;
use std::collections::HashMap;
use std::hash::Hasher;
use vstd::std_specs::hash::DefaultHasherAdditionalSpecFns;
use vstd::utf8::encode_utf8;
use crate::error::ProxyError;

verus! {

/// The 64-bit digest that `DefaultHasher::new()` gives for one write of the
/// name's UTF-8 bytes.
pub open spec fn name_hash(name: Seq<char>) -> u64 {
    DefaultHasher::spec_finish(seq![encode_utf8(name)])
}

/// Hashes a domain name with the process-independent default hasher.
pub fn hash_name(name: &str) -> (r: u64)
    ensures
        r == name_hash(name@),
{
    let mut h = DefaultHasher::new();
    h.write(name.as_bytes());
    let r = h.finish();
    assert(h@ =~= seq![encode_utf8(name@)]);
    r
}

/// A set of domain names, bucketed by `name_hash`.
pub struct Blocklist {
    buckets: HashMap<u64, Vec<String>>,
}

impl Blocklist {
    /// Whether `name` sits in the bucket that its hash selects.
    pub closed spec fn holds(&self, name: Seq<char>) -> bool {
        let h = name_hash(name);
        &&& self.buckets@.contains_key(h)
        &&& exists|i: int|
            0 <= i < self.buckets@[h].len() && (#[trigger] self.buckets@[h]@[i])@ == name
    }
}

impl View for Blocklist {
    type V = Set<Seq<char>>;

    closed spec fn view(&self) -> Set<Seq<char>> {
        Set::new(|name: Seq<char>| self.holds(name))
    }
}

/// The set of the names in a list.
pub open spec fn names_of(list: Seq<Seq<char>>) -> Set<Seq<char>> {
    Set::new(|name: Seq<char>| list.contains(name))
}

/// What `serde_json` reads from `b` as a JSON array of strings, if it is one.
pub uninterp spec fn json_string_list(b: Seq<u8>) -> Option<Seq<Seq<char>>>;

/// Relies on `serde_json::from_slice::<Vec<String>>`: the result is a function
/// of the bytes alone, `Ok` exactly when they hold a JSON array of strings.
#[verifier::external_body]
fn decode_string_list(b: &[u8]) -> (r: Result<Vec<String>, serde_json::Error>)
    ensures
        match r {
            Ok(v) => json_string_list(b@) == Some(v@.map_values(|s: String| s@)),
            Err(_) => json_string_list(b@) is None,
        },
{
    serde_json::from_slice::<Vec<String>>(b)
}

impl Blocklist {
    /// An empty blocklist.
    pub fn new() -> (r: Blocklist)
        ensures
            r@ == Set::<Seq<char>>::empty(),
    {
        let r = Blocklist { buckets: HashMap::new() };
        assert(r@ =~= Set::<Seq<char>>::empty());
        r
    }

    /// Adds one name.
    pub fn insert(&mut self, name: String)
        ensures
            final(self)@ == old(self)@.insert(name@),
    {
        let h = hash_name(name.as_str());
        let ghost before = self.buckets@;
        let mut bucket = match self.buckets.remove(&h) {
            Some(b) => b,
            None => Vec::new(),
        };
        let ghost old_bucket = bucket@;
        assert(before.contains_key(h) ==> old_bucket == before[h]@);
        assert(!before.contains_key(h) ==> old_bucket.len() == 0);
        let ghost n = name@;
        bucket.push(name);
        self.buckets.insert(h, bucket);
        assert forall|s: Seq<char>| #[trigger] self.holds(s) == (old(self).holds(s) || s == n) by {
            let hs = name_hash(s);
            if hs != h {
                assert(self.buckets@[hs] == before[hs]);
            } else {
                let nb = self.buckets@[h]@;
                assert(nb == old_bucket.push(self.buckets@[h]@[old_bucket.len() as int]));
                if old(self).holds(s) {
                    let i = choose|i: int|
                        0 <= i < before[h].len() && (#[trigger] before[h]@[i])@ == s;
                    assert(nb[i] == before[h]@[i]);
                }
                if s == n {
                    assert(nb[old_bucket.len() as int]@ == n);
                }
                if self.holds(s) {
                    let i = choose|i: int|
                        0 <= i < self.buckets@[h].len() && (#[trigger] self.buckets@[h]@[i])@ == s;
                    if i < old_bucket.len() {
                        assert(before.contains_key(h));
                        assert(before[h]@[i] == nb[i]);
                    }
                }
            }
        }
        assert(self@ =~= old(self)@.insert(n));
    }

    /// Builds the blocklist of the given names.
    pub fn from_names(names: Vec<String>) -> (r: Blocklist)
        ensures
            r@ == names_of(names@.map_values(|s: String| s@)),
    {
        let mut r = Blocklist::new();
        let mut i: usize = 0;
        let ghost all = names@.map_values(|s: String| s@);
        while i < names.len()
            invariant
                i <= names.len(),
                all == names@.map_values(|s: String| s@),
                r@ == names_of(all.subrange(0, i as int)),
            decreases names.len() - i,
        {
            let ghost before = r@;
            r.insert(names[i].clone());
            proof {
                let p = all.subrange(0, i as int);
                let q = all.subrange(0, i + 1);
                assert(q =~= p.push(all[i as int]));
                assert forall|s: Seq<char>| q.contains(s) == (p.contains(s) || s == all[i as int]) by {
                    if q.contains(s) {
                        let j = choose|j: int| 0 <= j < q.len() && q[j] == s;
                        if j < i {
                            assert(p[j] == s);
                        }
                    }
                    if p.contains(s) {
                        let j = choose|j: int| 0 <= j < p.len() && p[j] == s;
                        assert(q[j] == s);
                    }
                    if s == all[i as int] {
                        assert(q[i as int] == s);
                    }
                }
                assert(r@ =~= names_of(q));
            }
            i = i + 1;
        }
        assert(all.subrange(0, names.len() as int) =~= all);
        r
    }

    /// Reads the blocklist from a JSON array of names.
    pub fn from_json(bytes: &[u8]) -> (r: Result<Blocklist, ProxyError>)
        ensures
            match json_string_list(bytes@) {
                Some(list) => r is Ok && r->Ok_0@ == names_of(list),
                None => r == Err::<Blocklist, ProxyError>(ProxyError::Config),
            },
    {
        match decode_string_list(bytes) {
            Ok(names) => Ok(Blocklist::from_names(names)),
            Err(_) => Err(ProxyError::Config),
        }
    }

    /// Whether `name` is blocked: exact equality with an entry.
    pub fn contains(&self, name: &String) -> (r: bool)
        ensures
            r == self@.contains(name@),
    {
        let h = hash_name(name.as_str());
        match self.buckets.get(&h) {
            None => false,
            Some(bucket) => {
                let mut i: usize = 0;
                while i < bucket.len()
                    invariant
                        i <= bucket.len(),
                        self.buckets@.contains_key(h),
                        self.buckets@[h] == *bucket,
                        h == name_hash(name@),
                        forall|j: int| 0 <= j < i ==> (#[trigger] bucket@[j])@ != name@,
                    decreases bucket.len() - i,
                {
                    if bucket[i] == *name {
                        assert(self.holds(name@));
                        return true;
                    }
                    i = i + 1;
                }
                false
            },
        }
    }
}

} // verus!
