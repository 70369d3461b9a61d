//! String-keyed tables for the transliteration maps.
//!
//! Every conversion table in this crate (syllable to kana, kana to
//! syllable, phone to phonetic token, word to phones) is a `Table`: an
//! association list from key strings to value strings.  A key is bound
//! at most once, because `insert` replaces the entry for an existing
//! key, so first-match lookup behaves like map lookup.

use vstd::prelude::*;
use crate::chars::str_eq;

verus! {

/// An association-list table from key strings to value strings.
pub struct Table {
    entries: Vec<(String, String)>,
}

/// First-match lookup in an association sequence.
pub open spec fn assoc_get(entries: Seq<(Seq<char>, Seq<char>)>, k: Seq<char>) -> Option<
    Seq<char>,
>
    decreases entries.len(),
{
    if entries.len() == 0 {
        None
    } else if entries[0].0 == k {
        Some(entries[0].1)
    } else {
        assoc_get(entries.drop_first(), k)
    }
}

/// Binding a key: the first entry for the key is replaced, or a new
/// entry is appended when the key is absent.
pub open spec fn assoc_put(
    entries: Seq<(Seq<char>, Seq<char>)>,
    k: Seq<char>,
    v: Seq<char>,
) -> Seq<(Seq<char>, Seq<char>)>
    decreases entries.len(),
{
    if entries.len() == 0 {
        seq![(k, v)]
    } else if entries[0].0 == k {
        entries.update(0, (k, v))
    } else {
        seq![entries[0]] + assoc_put(entries.drop_first(), k, v)
    }
}

/// Unbinding a key: the first entry for the key is removed, and the
/// sequence is unchanged when the key is absent.
pub open spec fn assoc_remove(entries: Seq<(Seq<char>, Seq<char>)>, k: Seq<char>) -> Seq<
    (Seq<char>, Seq<char>),
>
    decreases entries.len(),
{
    if entries.len() == 0 {
        entries
    } else if entries[0].0 == k {
        entries.drop_first()
    } else {
        seq![entries[0]] + assoc_remove(entries.drop_first(), k)
    }
}

/// When the first entry for key `k` stands at index `i`, lookup
/// returns that entry's value.
pub proof fn lemma_assoc_get_found(entries: Seq<(Seq<char>, Seq<char>)>, k: Seq<char>, i: int)
    requires
        0 <= i < entries.len(),
        entries[i].0 == k,
        forall|j: int| 0 <= j < i ==> entries[j].0 != k,
    ensures
        assoc_get(entries, k) == Some(entries[i].1),
    decreases i,
{
    if i > 0 {
        lemma_assoc_get_found(entries.drop_first(), k, i - 1);
    }
}

/// When no entry has key `k`, lookup returns nothing.
pub proof fn lemma_assoc_get_absent(entries: Seq<(Seq<char>, Seq<char>)>, k: Seq<char>)
    requires
        forall|j: int| 0 <= j < entries.len() ==> entries[j].0 != k,
    ensures
        assoc_get(entries, k) is None,
    decreases entries.len(),
{
    if entries.len() > 0 {
        lemma_assoc_get_absent(entries.drop_first(), k);
    }
}

/// When the first entry for key `k` stands at index `i`, binding `k`
/// updates that entry in place.
pub proof fn lemma_assoc_put_found(
    entries: Seq<(Seq<char>, Seq<char>)>,
    k: Seq<char>,
    v: Seq<char>,
    i: int,
)
    requires
        0 <= i < entries.len(),
        entries[i].0 == k,
        forall|j: int| 0 <= j < i ==> entries[j].0 != k,
    ensures
        assoc_put(entries, k, v) == entries.update(i, (k, v)),
    decreases i,
{
    if i == 0 {
    } else {
        lemma_assoc_put_found(entries.drop_first(), k, v, i - 1);
        assert(assoc_put(entries, k, v) =~= entries.update(i, (k, v)));
    }
}

/// When no entry has key `k`, binding `k` appends a new entry.
pub proof fn lemma_assoc_put_absent(entries: Seq<(Seq<char>, Seq<char>)>, k: Seq<char>, v: Seq<char>)
    requires
        forall|j: int| 0 <= j < entries.len() ==> entries[j].0 != k,
    ensures
        assoc_put(entries, k, v) == entries.push((k, v)),
    decreases entries.len(),
{
    if entries.len() == 0 {
        assert(assoc_put(entries, k, v) =~= entries.push((k, v)));
    } else {
        lemma_assoc_put_absent(entries.drop_first(), k, v);
        assert(assoc_put(entries, k, v) =~= entries.push((k, v)));
    }
}

/// When the first entry for key `k` stands at index `i`, unbinding `k`
/// removes that entry.
pub proof fn lemma_assoc_remove_found(entries: Seq<(Seq<char>, Seq<char>)>, k: Seq<char>, i: int)
    requires
        0 <= i < entries.len(),
        entries[i].0 == k,
        forall|j: int| 0 <= j < i ==> entries[j].0 != k,
    ensures
        assoc_remove(entries, k) == entries.remove(i),
    decreases i,
{
    if i == 0 {
        assert(assoc_remove(entries, k) =~= entries.remove(0));
    } else {
        lemma_assoc_remove_found(entries.drop_first(), k, i - 1);
        assert(assoc_remove(entries, k) =~= entries.remove(i));
    }
}

/// When no entry has key `k`, unbinding `k` changes nothing.
pub proof fn lemma_assoc_remove_absent(entries: Seq<(Seq<char>, Seq<char>)>, k: Seq<char>)
    requires
        forall|j: int| 0 <= j < entries.len() ==> entries[j].0 != k,
    ensures
        assoc_remove(entries, k) == entries,
    decreases entries.len(),
{
    if entries.len() > 0 {
        lemma_assoc_remove_absent(entries.drop_first(), k);
        assert(assoc_remove(entries, k) =~= entries);
    }
}

/// Binding the keys of one sequence to the values of the other, first
/// pair first, until either sequence runs out.
pub open spec fn assoc_put_zip(
    entries: Seq<(Seq<char>, Seq<char>)>,
    ks: Seq<Seq<char>>,
    vs: Seq<Seq<char>>,
) -> Seq<(Seq<char>, Seq<char>)>
    decreases ks.len(),
{
    if ks.len() == 0 || vs.len() == 0 {
        entries
    } else {
        assoc_put_zip(assoc_put(entries, ks[0], vs[0]), ks.drop_first(), vs.drop_first())
    }
}

/// Binding a whole list of pairs, first pair first.
pub open spec fn assoc_put_all(
    entries: Seq<(Seq<char>, Seq<char>)>,
    pairs: Seq<(Seq<char>, Seq<char>)>,
) -> Seq<(Seq<char>, Seq<char>)>
    decreases pairs.len(),
{
    if pairs.len() == 0 {
        entries
    } else {
        assoc_put_all(assoc_put(entries, pairs[0].0, pairs[0].1), pairs.drop_first())
    }
}

/// The value that a list of puts leaves for a key: the value of the
/// last pair with that key, if any pair has it.
pub open spec fn pairs_last_get(pairs: Seq<(Seq<char>, Seq<char>)>, q: Seq<char>) -> Option<
    Seq<char>,
>
    decreases pairs.len(),
{
    if pairs.len() == 0 {
        None
    } else {
        match pairs_last_get(pairs.drop_first(), q) {
            Some(v) => Some(v),
            None => if pairs[0].0 == q {
                Some(pairs[0].1)
            } else {
                None
            },
        }
    }
}

/// Lookup after binding a whole list: a key bound by the list answers
/// with its last value there, and any other key is unaffected.
pub proof fn lemma_assoc_get_put_all(
    entries: Seq<(Seq<char>, Seq<char>)>,
    pairs: Seq<(Seq<char>, Seq<char>)>,
    q: Seq<char>,
)
    ensures
        assoc_get(assoc_put_all(entries, pairs), q) == match pairs_last_get(pairs, q) {
            Some(v) => Some(v),
            None => assoc_get(entries, q),
        },
    decreases pairs.len(),
{
    if pairs.len() > 0 {
        lemma_assoc_get_put_all(assoc_put(entries, pairs[0].0, pairs[0].1), pairs.drop_first(), q);
        lemma_assoc_get_put(entries, pairs[0].0, pairs[0].1, q);
    }
}

/// A key that no pair of the list binds.
pub proof fn lemma_pairs_last_get_absent(pairs: Seq<(Seq<char>, Seq<char>)>, q: Seq<char>)
    requires
        forall|j: int| 0 <= j < pairs.len() ==> pairs[j].0 != q,
    ensures
        pairs_last_get(pairs, q) is None,
    decreases pairs.len(),
{
    if pairs.len() > 0 {
        lemma_pairs_last_get_absent(pairs.drop_first(), q);
    }
}

/// The value that zipping two lists into a table leaves for a key:
/// the value of the last position whose key matches.
pub open spec fn zip_last_get(ks: Seq<Seq<char>>, vs: Seq<Seq<char>>, q: Seq<char>) -> Option<
    Seq<char>,
>
    decreases ks.len(),
{
    if ks.len() == 0 || vs.len() == 0 {
        None
    } else {
        match zip_last_get(ks.drop_first(), vs.drop_first(), q) {
            Some(v) => Some(v),
            None => if ks[0] == q {
                Some(vs[0])
            } else {
                None
            },
        }
    }
}

/// Lookup after a zip of puts: a key bound by the zip answers with
/// the value of its last position, and any other key is unaffected.
pub proof fn lemma_assoc_get_put_zip(
    entries: Seq<(Seq<char>, Seq<char>)>,
    ks: Seq<Seq<char>>,
    vs: Seq<Seq<char>>,
    q: Seq<char>,
)
    ensures
        assoc_get(assoc_put_zip(entries, ks, vs), q) == match zip_last_get(ks, vs, q) {
            Some(v) => Some(v),
            None => assoc_get(entries, q),
        },
    decreases ks.len(),
{
    if ks.len() > 0 && vs.len() > 0 {
        lemma_assoc_get_put_zip(
            assoc_put(entries, ks[0], vs[0]),
            ks.drop_first(),
            vs.drop_first(),
            q,
        );
        lemma_assoc_get_put(entries, ks[0], vs[0], q);
    }
}

/// When position `i` holds the key and no later position does, the
/// zip binds the key to the value at `i`.
pub proof fn lemma_zip_last_found(ks: Seq<Seq<char>>, vs: Seq<Seq<char>>, q: Seq<char>, i: int)
    requires
        0 <= i < ks.len(),
        ks.len() <= vs.len(),
        ks[i] == q,
        forall|j: int| i < j < ks.len() ==> ks[j] != q,
    ensures
        zip_last_get(ks, vs, q) == Some(vs[i]),
    decreases i,
{
    if i == 0 {
        lemma_zip_last_absent_tail(ks.drop_first(), vs.drop_first(), q);
    } else {
        lemma_zip_last_found(ks.drop_first(), vs.drop_first(), q, i - 1);
    }
}

/// When no position holds the key, the zip does not bind it.
pub proof fn lemma_zip_last_absent_tail(ks: Seq<Seq<char>>, vs: Seq<Seq<char>>, q: Seq<char>)
    requires
        forall|j: int| 0 <= j < ks.len() ==> ks[j] != q,
    ensures
        zip_last_get(ks, vs, q) is None,
    decreases ks.len(),
{
    if ks.len() > 0 && vs.len() > 0 {
        lemma_zip_last_absent_tail(ks.drop_first(), vs.drop_first(), q);
    }
}

/// Lookup after a put: the bound key answers with the new value and
/// every other key is unaffected.
pub proof fn lemma_assoc_get_put(
    entries: Seq<(Seq<char>, Seq<char>)>,
    k: Seq<char>,
    v: Seq<char>,
    q: Seq<char>,
)
    ensures
        assoc_get(assoc_put(entries, k, v), q) == if q == k {
            Some(v)
        } else {
            assoc_get(entries, q)
        },
    decreases entries.len(),
{
    if entries.len() == 0 {
        let put = assoc_put(entries, k, v);
        assert(put == seq![(k, v)]);
        assert(put[0] == (k, v));
        assert(put.drop_first() =~= entries);
        assert(assoc_get(entries, q) is None);
        assert(assoc_get(put, q) == if q == k {
            Some(v)
        } else {
            assoc_get(entries, q)
        });
    } else if entries[0].0 == k {
        let upd = entries.update(0, (k, v));
        assert(assoc_put(entries, k, v) == upd);
        assert(upd[0] == (k, v));
        assert(upd.drop_first() =~= entries.drop_first());
        assert(assoc_get(upd, q) == if q == k {
            Some(v)
        } else {
            assoc_get(entries.drop_first(), q)
        });
        assert(q != k ==> assoc_get(entries, q) == assoc_get(entries.drop_first(), q));
    } else {
        lemma_assoc_get_put(entries.drop_first(), k, v, q);
        let put = seq![entries[0]] + assoc_put(entries.drop_first(), k, v);
        assert(assoc_put(entries, k, v) == put);
        assert(put[0] == entries[0]);
        assert(put.len() > 0);
        assert(put.drop_first() =~= assoc_put(entries.drop_first(), k, v));
        assert(assoc_get(put, q) == if q == entries[0].0 {
            Some(entries[0].1)
        } else {
            assoc_get(assoc_put(entries.drop_first(), k, v), q)
        });
    }
}

/// Lookup after a remove: keys other than the removed one are
/// unaffected.
pub proof fn lemma_assoc_get_remove_other(
    entries: Seq<(Seq<char>, Seq<char>)>,
    k: Seq<char>,
    q: Seq<char>,
)
    requires
        q != k,
    ensures
        assoc_get(assoc_remove(entries, k), q) == assoc_get(entries, q),
    decreases entries.len(),
{
    if entries.len() == 0 {
    } else if entries[0].0 == k {
    } else {
        lemma_assoc_get_remove_other(entries.drop_first(), k, q);
        let rem = seq![entries[0]] + assoc_remove(entries.drop_first(), k);
        assert(rem[0] == entries[0]);
        assert(rem.drop_first() =~= assoc_remove(entries.drop_first(), k));
    }
}

impl View for Table {
    type V = Seq<(Seq<char>, Seq<char>)>;

    closed spec fn view(&self) -> Seq<(Seq<char>, Seq<char>)> {
        self.entries.deep_view()
    }
}

impl Table {
    pub fn new() -> (t: Table)
        ensures
            t@ == Seq::<(Seq<char>, Seq<char>)>::empty(),
    {
        let t = Table { entries: Vec::new() };
        proof {
            assert(t@ =~= Seq::<(Seq<char>, Seq<char>)>::empty());
        }
        t
    }

    /// The index of the first entry for the key, if the key is bound.
    fn position(&self, k: &str) -> (r: Option<usize>)
        ensures
            match r {
                Some(i) => i < self@.len() && self@[i as int].0 == k@ && forall|j: int|
                    0 <= j < i ==> self@[j].0 != k@,
                None => forall|j: int| 0 <= j < self@.len() ==> self@[j].0 != k@,
            },
    {
        let n = self.entries.len();
        let mut i: usize = 0;
        while i < n
            invariant
                i <= n,
                n == self@.len(),
                n == self.entries.len(),
                forall|j: int| 0 <= j < i ==> self@[j].0 != k@,
            decreases n - i,
        {
            if str_eq(self.entries[i].0.as_str(), k) {
                return Some(i);
            }
            i = i + 1;
        }
        None
    }

    /// Appends an entry without looking for the key.  The table
    /// builders use this where the keys of a zip are known to be
    /// pairwise distinct, so that appending agrees with map insertion.
    pub(crate) fn push_pair(&mut self, k: String, v: String)
        ensures
            final(self)@ == old(self)@.push((k@, v@)),
    {
        let ghost k_view = k@;
        let ghost v_view = v@;
        self.entries.push((k, v));
        proof {
            assert(self@ =~= old(self)@.push((k_view, v_view)));
        }
    }

    /// Looks the key up, returning the bound value if there is one.
    pub fn get(&self, k: &str) -> (r: Option<&String>)
        ensures
            match r {
                Some(v) => assoc_get(self@, k@) == Some(v@),
                None => assoc_get(self@, k@) is None,
            },
    {
        match self.position(k) {
            Some(i) => {
                proof {
                    lemma_assoc_get_found(self@, k@, i as int);
                }
                Some(&self.entries[i].1)
            },
            None => {
                proof {
                    lemma_assoc_get_absent(self@, k@);
                }
                None
            },
        }
    }

    /// Binds the key to the value, replacing any existing binding.
    pub fn insert(&mut self, k: String, v: String)
        ensures
            final(self)@ == assoc_put(old(self)@, k@, v@),
    {
        let ghost k_view = k@;
        let ghost v_view = v@;
        match self.position(k.as_str()) {
            Some(i) => {
                proof {
                    lemma_assoc_put_found(self@, k_view, v_view, i as int);
                }
                self.entries[i] = (k, v);
                proof {
                    assert(self@ =~= assoc_put(old(self)@, k_view, v_view));
                }
            },
            None => {
                proof {
                    lemma_assoc_put_absent(self@, k_view, v_view);
                }
                self.entries.push((k, v));
                proof {
                    assert(self@ =~= assoc_put(old(self)@, k_view, v_view));
                }
            },
        }
    }

    /// Unbinds the key; a miss leaves the table unchanged.
    pub fn remove(&mut self, k: &str)
        ensures
            final(self)@ == assoc_remove(old(self)@, k@),
    {
        match self.position(k) {
            Some(i) => {
                proof {
                    lemma_assoc_remove_found(self@, k@, i as int);
                }
                self.entries.remove(i);
                proof {
                    assert(self@ =~= assoc_remove(old(self)@, k@));
                }
            },
            None => {
                proof {
                    lemma_assoc_remove_absent(self@, k@);
                }
            },
        }
    }
}

} // verus!
