//! Association lists keyed by strings. The catalog and the request planner
//! keep their name-to-value mappings as vectors of pairs, which keeps both
//! insertion order and a directly verifiable lookup.

use vstd::prelude::*;

verus! {

use crate::text::str_eq;

/// First entry of `s` whose key reads `name`, if any.
pub open spec fn assoc_find<T>(s: Seq<(String, T)>, name: Seq<char>) -> Option<T>
    decreases s.len(),
{
    if s.len() == 0 {
        None
    } else if s[0].0@ == name {
        Some(s[0].1)
    } else {
        assoc_find(s.skip(1), name)
    }
}

/// Whether `s` holds an entry for `name`.
pub open spec fn assoc_has<T>(s: Seq<(String, T)>, name: Seq<char>) -> bool {
    assoc_find(s, name) is Some
}

/// No key occurs twice.
pub open spec fn assoc_unique<T>(s: Seq<(String, T)>) -> bool {
    forall|i: int, j: int| 0 <= i < j < s.len() ==> s[i].0@ != s[j].0@
}

proof fn lemma_assoc_find_skip_step<T>(s: Seq<(String, T)>, name: Seq<char>, i: int)
    requires
        0 <= i < s.len(),
        s[i].0@ != name,
    ensures
        assoc_find(s.skip(i), name) == assoc_find(s.skip(i + 1), name),
{
    assert(s.skip(i).len() > 0);
    assert(s.skip(i)[0] == s[i]);
    assert(s.skip(i).skip(1) =~= s.skip(i + 1));
}

proof fn lemma_assoc_find_skip_hit<T>(s: Seq<(String, T)>, name: Seq<char>, i: int)
    requires
        0 <= i < s.len(),
        s[i].0@ == name,
    ensures
        assoc_find(s.skip(i), name) == Some(s[i].1),
{
    assert(s.skip(i)[0] == s[i]);
}

/// Looks up `name` in `v`, returning a reference to the first matching value.
pub fn assoc_get<'a, T>(v: &'a Vec<(String, T)>, name: &str) -> (r: Option<&'a T>)
    ensures
        match r {
            Some(t) => assoc_find(v@, name@) == Some(*t),
            None => assoc_find(v@, name@) is None,
        },
{
    let n = v.len();
    let mut i: usize = 0;
    proof {
        assert(v@.skip(0) =~= v@);
    }
    while i < n
        invariant
            n == v@.len(),
            i <= n,
            assoc_find(v@, name@) == assoc_find(v@.skip(i as int), name@),
        decreases n - i,
    {
        if str_eq(v[i].0.as_str(), name) {
            proof {
                lemma_assoc_find_skip_hit(v@, name@, i as int);
            }
            return Some(&v[i].1);
        }
        proof {
            lemma_assoc_find_skip_step(v@, name@, i as int);
        }
        i += 1;
    }
    proof {
        assert(v@.skip(n as int) =~= Seq::<(String, T)>::empty());
    }
    None
}

/// Whether `v` holds an entry for `name`.
pub fn assoc_contains<T>(v: &Vec<(String, T)>, name: &str) -> (r: bool)
    ensures
        r == assoc_has(v@, name@),
{
    match assoc_get(v, name) {
        Some(_) => true,
        None => false,
    }
}

proof fn lemma_assoc_find_update<T>(
    s: Seq<(String, T)>,
    i: int,
    entry: (String, T),
    key: Seq<char>,
)
    requires
        0 <= i < s.len(),
        s[i].0@ == entry.0@,
        forall|j: int| 0 <= j < i ==> s[j].0@ != entry.0@,
    ensures
        assoc_find(s.update(i, entry), key) == (if key == entry.0@ {
            Some(entry.1)
        } else {
            assoc_find(s, key)
        }),
    decreases i,
{
    let t = s.update(i, entry);
    if i == 0 {
        if key == entry.0@ {
            assert(t[0] == entry);
        } else {
            assert(t[0] == entry);
            assert(t.skip(1) =~= s.skip(1));
        }
    } else {
        assert(t[0] == s[0]);
        assert(t.skip(1) =~= s.skip(1).update(i - 1, entry));
        if t[0].0@ == key {
            assert(s[0].0@ == key);
        } else {
            lemma_assoc_find_update(s.skip(1), i - 1, entry, key);
        }
    }
}

proof fn lemma_assoc_find_push<T>(s: Seq<(String, T)>, entry: (String, T), key: Seq<char>)
    ensures
        assoc_find(s.push(entry), key) == (if assoc_find(s, key) is Some {
            assoc_find(s, key)
        } else if entry.0@ == key {
            Some(entry.1)
        } else {
            None::<T>
        }),
    decreases s.len(),
{
    let t = s.push(entry);
    if s.len() == 0 {
        assert(t[0] == entry);
        if entry.0@ != key {
            assert(t.skip(1) =~= Seq::<(String, T)>::empty());
        }
    } else {
        assert(t[0] == s[0]);
        if s[0].0@ == key {
        } else {
            assert(t.skip(1) =~= s.skip(1).push(entry));
            lemma_assoc_find_push(s.skip(1), entry, key);
        }
    }
}

proof fn lemma_assoc_find_none<T>(s: Seq<(String, T)>, name: Seq<char>)
    requires
        assoc_find(s, name) is None,
    ensures
        forall|j: int| 0 <= j < s.len() ==> s[j].0@ != name,
    decreases s.len(),
{
    if s.len() > 0 {
        lemma_assoc_find_none(s.skip(1), name);
        assert forall|j: int| 0 <= j < s.len() implies s[j].0@ != name by {
            if j > 0 {
                assert(s.skip(1)[j - 1] == s[j]);
            }
        };
    }
}

/// Inserts `value` under `name`, overwriting the first existing entry for
/// `name` and appending a new entry otherwise; map-like update semantics.
/// Unique keys stay unique, so building a map this way keeps it well formed.
pub fn assoc_insert<T>(v: &mut Vec<(String, T)>, name: String, value: T)
    ensures
        forall|key: Seq<char>|
            #[trigger] assoc_find(final(v)@, key) == (if key == name@ {
                Some(value)
            } else {
                assoc_find(old(v)@, key)
            }),
        final(v)@.len() <= old(v)@.len() + 1,
        assoc_unique(old(v)@) ==> assoc_unique(final(v)@),
{
    let n = v.len();
    let mut i: usize = 0;
    while i < n
        invariant
            v@ == old(v)@,
            n == v@.len(),
            i <= n,
            forall|j: int| 0 <= j < i ==> v@[j].0@ != name@,
        decreases n - i,
    {
        if str_eq(v[i].0.as_str(), name.as_str()) {
            let ghost orig = v@;
            v.set(i, (name, value));
            proof {
                assert forall|key: Seq<char>|
                    #[trigger] assoc_find(v@, key) == (if key == name@ {
                        Some(value)
                    } else {
                        assoc_find(orig, key)
                    }) by {
                    lemma_assoc_find_update(orig, i as int, v@[i as int], key);
                };
                if assoc_unique(orig) {
                    assert forall|a: int, b: int| 0 <= a < b < v@.len() implies v@[a].0@
                        != v@[b].0@ by {
                        assert(v@[a].0@ == orig[a].0@);
                        assert(v@[b].0@ == orig[b].0@);
                    };
                }
            }
            return;
        }
        i += 1;
    }
    let ghost orig = v@;
    proof {
        assert(assoc_find(orig, name@) is None) by {
            assert(assoc_find(orig, name@) == assoc_find(orig.skip(n as int), name@)) by {
                lemma_assoc_find_skip_all(orig, name@, n as int);
            };
            assert(orig.skip(n as int) =~= Seq::<(String, T)>::empty());
        };
    }
    v.push((name, value));
    proof {
        assert forall|key: Seq<char>|
            #[trigger] assoc_find(v@, key) == (if key == name@ {
                Some(value)
            } else {
                assoc_find(orig, key)
            }) by {
            lemma_assoc_find_push(orig, v@[orig.len() as int], key);
            assert(v@ =~= orig.push(v@[orig.len() as int]));
        };
        if assoc_unique(orig) {
            lemma_assoc_find_none(orig, name@);
            assert forall|a: int, b: int| 0 <= a < b < v@.len() implies v@[a].0@ != v@[b].0@ by {
                if b < orig.len() {
                    assert(v@[a] == orig[a]);
                    assert(v@[b] == orig[b]);
                } else {
                    assert(v@[a] == orig[a]);
                    assert(v@[b].0@ == name@);
                }
            };
        }
    }
}

proof fn lemma_assoc_find_skip_all<T>(s: Seq<(String, T)>, name: Seq<char>, i: int)
    requires
        0 <= i <= s.len(),
        forall|j: int| 0 <= j < i ==> s[j].0@ != name,
    ensures
        assoc_find(s, name) == assoc_find(s.skip(i), name),
    decreases i,
{
    if i > 0 {
        lemma_assoc_find_skip_all(s, name, i - 1);
        lemma_assoc_find_skip_step(s, name, i - 1);
    } else {
        assert(s.skip(0) =~= s);
    }
}

} // verus!
