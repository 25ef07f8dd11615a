//! A case-insensitive header map: ordered name/value pairs where lookup and
//! replacement match names without regard to ASCII case.
use vstd::prelude::*;

use vstd::string::StringExecFns;
use crate::strutil::{lower, str_eq_ci};

verus! {

/// The character-level view of a sequence of name/value pairs.
pub open spec fn pairs_view(s: Seq<(String, String)>) -> Seq<(Seq<char>, Seq<char>)> {
    s.map_values(|p: (String, String)| (p.0@, p.1@))
}

/// Whether an entry's name matches a queried name, ignoring ASCII case.
pub open spec fn header_matches(e: (Seq<char>, Seq<char>), name: Seq<char>) -> bool {
    lower(e.0) == lower(name)
}

/// The index of the first entry whose name matches, if any.
pub open spec fn header_find(hs: Seq<(Seq<char>, Seq<char>)>, name: Seq<char>) -> Option<int>
    decreases hs.len(),
{
    if hs.len() == 0 {
        None
    } else if header_matches(hs[0], name) {
        Some(0int)
    } else {
        match header_find(hs.skip(1), name) {
            Some(i) => Some(i + 1),
            None => None,
        }
    }
}

/// The value of the first entry whose name matches, if any.
pub open spec fn header_lookup(hs: Seq<(Seq<char>, Seq<char>)>, name: Seq<char>) -> Option<
    Seq<char>,
> {
    match header_find(hs, name) {
        Some(i) => Some(hs[i].1),
        None => None,
    }
}

/// The header set after setting `name` to `value`: the first matching
/// entry's value is replaced (its stored name is kept), or the pair is
/// appended when no entry matches.
pub open spec fn header_set(
    hs: Seq<(Seq<char>, Seq<char>)>,
    name: Seq<char>,
    value: Seq<char>,
) -> Seq<(Seq<char>, Seq<char>)> {
    match header_find(hs, name) {
        Some(i) => hs.update(i, (hs[i].0, value)),
        None => hs.push((name, value)),
    }
}

/// `header_find` returns the first matching index: the entry there matches,
/// and no entry before it does; when it returns nothing, no entry matches.
pub proof fn lemma_header_find_characterization(
    hs: Seq<(Seq<char>, Seq<char>)>,
    name: Seq<char>,
)
    ensures
        match header_find(hs, name) {
            Some(i) => 0 <= i < hs.len() && header_matches(hs[i], name) && (forall|j: int|
                0 <= j < i ==> !header_matches(hs[j], name)),
            None => forall|j: int| 0 <= j < hs.len() ==> !header_matches(hs[j], name),
        },
    decreases hs.len(),
{
    if hs.len() > 0 && !header_matches(hs[0], name) {
        lemma_header_find_characterization(hs.skip(1), name);
        match header_find(hs.skip(1), name) {
            Some(i) => {
                assert(header_find(hs, name) == Some(i + 1));
                assert(hs[i + 1] == hs.skip(1)[i]);
                assert forall|j: int| 0 <= j < i + 1 implies !header_matches(
                    hs[j],
                    name,
                ) by {
                    if j >= 1 {
                        assert(hs[j] == hs.skip(1)[j - 1]);
                    }
                }
            },
            None => {
                assert forall|j: int| 0 <= j < hs.len() implies !header_matches(
                    hs[j],
                    name,
                ) by {
                    if j >= 1 {
                        assert(hs[j] == hs.skip(1)[j - 1]);
                    }
                }
            },
        }
    }
}

/// A case-insensitive header map, kept in insertion order.
#[derive(Debug)]
pub struct Headers {
    entries: Vec<(String, String)>,
}

impl View for Headers {
    type V = Seq<(Seq<char>, Seq<char>)>;

    closed spec fn view(&self) -> Seq<(Seq<char>, Seq<char>)> {
        pairs_view(self.entries@)
    }
}

impl Headers {
    /// Creates an empty header map.
    pub fn new() -> (r: Headers)
        ensures
            r@ == Seq::<(Seq<char>, Seq<char>)>::empty(),
    {
        let r = Headers { entries: Vec::new() };
        proof {
            assert(r@ =~~= Seq::<(Seq<char>, Seq<char>)>::empty());
        }
        r
    }

    /// The entries in order, for marshalling to a host header map.
    pub fn entries(&self) -> (r: &Vec<(String, String)>)
        ensures
            pairs_view(r@) == self@,
    {
        &self.entries
    }

    /// The number of entries.
    pub fn len(&self) -> (r: usize)
        ensures
            r == self@.len(),
    {
        self.entries.len()
    }

    /// Returns the value of the first entry whose name matches, without
    /// regard to ASCII case, or `None` if no entry matches.
    pub fn get(&self, name: &str) -> (r: Option<String>)
        ensures
            match r {
                Some(v) => header_lookup(self@, name@) == Some(v@),
                None => header_lookup(self@, name@) is None,
            },
    {
        let n = self.entries.len();
        let mut i: usize = 0;
        while i < n
            invariant
                n == self@.len(),
                n == self.entries@.len(),
                i <= n,
                forall|j: int| 0 <= j < i ==> !header_matches(self@[j], name@),
            decreases n - i,
        {
            if str_eq_ci(self.entries[i].0.as_str(), name) {
                let v = self.entries[i].1.clone();
                proof {
                    lemma_header_find_characterization(self@, name@);
                    assert(header_matches(self@[i as int], name@));
                    assert(header_find(self@, name@) == Some(i as int));
                }
                return Some(v);
            }
            i = i + 1;
        }
        proof {
            lemma_header_find_characterization(self@, name@);
        }
        None
    }

    /// Returns true if some entry's name matches, without regard to ASCII
    /// case.
    pub fn has(&self, name: &str) -> (r: bool)
        ensures
            r == (header_lookup(self@, name@) is Some),
    {
        match self.get(name) {
            Some(_) => true,
            None => false,
        }
    }

    /// Sets `name` to `value`: replaces the value of the first entry whose
    /// name matches, without regard to ASCII case, or appends the pair.
    pub fn set(&mut self, name: &str, value: &str)
        ensures
            final(self)@ == header_set(old(self)@, name@, value@),
    {
        let n = self.entries.len();
        let mut out: Vec<(String, String)> = Vec::new();
        let mut replaced = false;
        let ghost mut found_idx: int = 0;
        let mut i: usize = 0;
        while i < n
            invariant
                n == self@.len(),
                n == self.entries@.len(),
                i <= n,
                pairs_view(out@).len() == i,
                !replaced ==> pairs_view(out@) =~~= self@.subrange(0, i as int) && (forall|j: int|
                    0 <= j < i ==> !header_matches(self@[j], name@)),
                replaced ==> 0 <= found_idx < i && header_matches(self@[found_idx], name@) && (
                forall|j: int| 0 <= j < found_idx ==> !header_matches(self@[j], name@))
                    && pairs_view(out@) =~~= self@.subrange(0, i as int).update(
                    found_idx,
                    (self@[found_idx].0, value@),
                ),
            decreases n - i,
        {
            if !replaced && str_eq_ci(self.entries[i].0.as_str(), name) {
                out.push((self.entries[i].0.clone(), value.to_owned()));
                replaced = true;
                proof {
                    found_idx = i as int;
                    assert(pairs_view(out@) =~~= self@.subrange(0, i + 1 as int).update(
                        found_idx,
                        (self@[found_idx].0, value@),
                    ));
                }
            } else {
                let was_replaced = replaced;
                let e = (self.entries[i].0.clone(), self.entries[i].1.clone());
                out.push(e);
                proof {
                    if was_replaced {
                        assert(out@.len() == i + 1);
                        assert(e.0@ == self@[i as int].0);
                        assert(e.1@ == self@[i as int].1);
                        assert(pairs_view(out@)[i as int] == self@[i as int]);
                        assert(forall|k: int| 0 <= k < i ==> pairs_view(out@)[k]
                            == self@.subrange(0, i as int).update(found_idx, (self@[found_idx].0, value@))[k]);
                        assert(pairs_view(out@) =~~= self@.subrange(0, i + 1 as int).update(
                            found_idx,
                            (self@[found_idx].0, value@),
                        ));
                    } else {
                        assert(pairs_view(out@) =~~= self@.subrange(0, i + 1 as int));
                    }
                }
            }
            i = i + 1;
        }
        if !replaced {
            out.push((name.to_owned(), value.to_owned()));
            proof {
                lemma_header_find_characterization(self@, name@);
                assert(self@.subrange(0, n as int) =~~= self@);
                assert(out@.len() == n + 1);
                assert(pairs_view(out@)[n as int] == (name@, value@));
                assert(forall|k: int| 0 <= k < n ==> pairs_view(out@)[k]
                    == self@.subrange(0, n as int)[k]);
                assert(pairs_view(out@) =~~= self@.push((name@, value@)));
            }
        } else {
            proof {
                lemma_header_find_characterization(self@, name@);
                assert(header_find(self@, name@) == Some(found_idx));
                assert(self@.subrange(0, n as int) =~~= self@);
                assert(pairs_view(out@) =~~= self@.update(found_idx, (self@[found_idx].0, value@)));
            }
        }
        self.entries = out;
    }
}

} // verus!
