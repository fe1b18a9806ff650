//! A caller-owned header collection.  It is the model of the HTTP header
//! map that strategies inject credentials into; the transport layer turns
//! it into the wire representation.

use vstd::prelude::*;

verus! {

/// The pairs of `h` whose name differs from `name`, in their order.
pub open spec fn drop_header(
    h: Seq<(Seq<char>, Seq<char>)>,
    name: Seq<char>,
) -> Seq<(Seq<char>, Seq<char>)> {
    h.filter(|p: (Seq<char>, Seq<char>)| p.0 != name)
}

/// The keyed replacement of one header: every pair bearing `name` is
/// removed and `(name, value)` is appended.
pub open spec fn set_header(
    h: Seq<(Seq<char>, Seq<char>)>,
    name: Seq<char>,
    value: Seq<char>,
) -> Seq<(Seq<char>, Seq<char>)> {
    drop_header(h, name).push((name, value))
}

/// `h` after each pair of `inj` has been set in turn.
pub open spec fn inject_all(
    h: Seq<(Seq<char>, Seq<char>)>,
    inj: Seq<(Seq<char>, Seq<char>)>,
) -> Seq<(Seq<char>, Seq<char>)>
    decreases inj.len(),
{
    if inj.len() == 0 {
        h
    } else {
        inject_all(set_header(h, inj[0].0, inj[0].1), inj.drop_first())
    }
}

/// A collection that holds no pair bearing `name` keeps every pair when
/// that name is dropped.
pub proof fn lemma_drop_header_absent(h: Seq<(Seq<char>, Seq<char>)>, name: Seq<char>)
    requires
        forall|i: int| 0 <= i < h.len() ==> (#[trigger] h[i]).0 != name,
    ensures
        drop_header(h, name) == h,
    decreases h.len(),
{
    reveal(Seq::filter);
    if h.len() == 0 {
        assert(drop_header(h, name) =~= h);
    } else {
        assert(forall|i: int|
            0 <= i < h.drop_last().len() ==> (#[trigger] h.drop_last()[i]).0 != name);
        lemma_drop_header_absent(h.drop_last(), name);
        assert(h.last().0 != name);
        assert(drop_header(h, name) =~= h);
    }
}

/// The view of one stored pair.
pub open spec fn pair_view(p: (String, String)) -> (Seq<char>, Seq<char>) {
    (p.0@, p.1@)
}

/// The view of a stored pair sequence.
pub open spec fn pairs_view(s: Seq<(String, String)>) -> Seq<(Seq<char>, Seq<char>)> {
    s.map_values(|p: (String, String)| pair_view(p))
}

/// An ordered collection of `(name, value)` header pairs, viewed as the
/// sequence of those pairs.  `insert` is keyed, as an HTTP header map is:
/// it replaces whatever pair already bears the name.
pub struct Headers {
    entries: Vec<(String, String)>,
}

impl View for Headers {
    type V = Seq<(Seq<char>, Seq<char>)>;

    closed spec fn view(&self) -> Seq<(Seq<char>, Seq<char>)> {
        pairs_view(self.entries@)
    }
}

impl Headers {
    /// Creates an empty header collection.
    pub fn new() -> (r: Headers)
        ensures
            r@ == Seq::<(Seq<char>, Seq<char>)>::empty(),
    {
        let r = Headers { entries: Vec::new() };
        proof {
            assert(r@ =~= Seq::<(Seq<char>, Seq<char>)>::empty());
        }
        r
    }

    /// Number of header pairs held.
    pub fn len(&self) -> (n: usize)
        ensures
            n == self@.len(),
    {
        self.entries.len()
    }

    /// True when no header is held.
    pub fn is_empty(&self) -> (r: bool)
        ensures
            r == (self@.len() == 0),
    {
        self.entries.is_empty()
    }

    /// Sets one header: every pair already bearing `name` is removed and
    /// `(name, value)` is appended, as a keyed header map's insert does.
    pub fn insert(&mut self, name: &str, value: String)
        ensures
            final(self)@ == set_header(old(self)@, name@, value@),
    {
        let key = name.to_owned();
        let mut tail_rev: Vec<(String, String)> = Vec::new();
        proof {
            assert(pairs_view(tail_rev@).reverse() =~= Seq::<(Seq<char>, Seq<char>)>::empty());
            assert(drop_header(old(self)@, name@) =~= drop_header(self@, name@) + pairs_view(
                tail_rev@,
            ).reverse());
        }
        while self.entries.len() > 0
            invariant
                key@ == name@,
                drop_header(old(self)@, name@) == drop_header(self@, name@) + pairs_view(
                    tail_rev@,
                ).reverse(),
            decreases self.entries@.len(),
        {
            let ghost pre_view = self@;
            let ghost pre_tail = tail_rev@;
            let p = self.entries.pop().unwrap();
            proof {
                reveal(Seq::filter);
                assert(pre_view.drop_last() =~= self@);
                assert(pre_view.last() == pair_view(p));
                assert(drop_header(pre_view, name@) == (if pair_view(p).0 != name@ {
                    drop_header(self@, name@).push(pair_view(p))
                } else {
                    drop_header(self@, name@)
                }));
            }
            if !(p.0 == key) {
                let ghost pv = pair_view(p);
                tail_rev.push(p);
                proof {
                    assert(pairs_view(tail_rev@) =~= pairs_view(pre_tail).push(pv));
                    assert(pairs_view(tail_rev@).reverse() =~= seq![pv] + pairs_view(
                        pre_tail,
                    ).reverse());
                    assert(drop_header(self@, name@).push(pv) + pairs_view(pre_tail).reverse()
                        =~= drop_header(self@, name@) + pairs_view(tail_rev@).reverse());
                }
            }
        }
        proof {
            reveal(Seq::filter);
            assert(self@ =~= Seq::<(Seq<char>, Seq<char>)>::empty());
            assert(drop_header(self@, name@) =~= Seq::<(Seq<char>, Seq<char>)>::empty());
            assert(drop_header(old(self)@, name@) =~= self@ + pairs_view(tail_rev@).reverse());
        }
        while tail_rev.len() > 0
            invariant
                key@ == name@,
                drop_header(old(self)@, name@) == self@ + pairs_view(tail_rev@).reverse(),
            decreases tail_rev@.len(),
        {
            let ghost pre_view = self@;
            let ghost pre_tail = tail_rev@;
            let p = tail_rev.pop().unwrap();
            let ghost pv = pair_view(p);
            self.entries.push(p);
            proof {
                assert(tail_rev@ =~= pre_tail.drop_last());
                assert(pairs_view(pre_tail).last() == pv);
                assert(pairs_view(pre_tail).reverse() =~= seq![pv] + pairs_view(
                    tail_rev@,
                ).reverse());
                assert(self@ =~= pre_view.push(pv));
                assert(pre_view + pairs_view(pre_tail).reverse() =~= self@ + pairs_view(
                    tail_rev@,
                ).reverse());
            }
        }
        self.entries.push((key, value));
        proof {
            assert(self@ =~= set_header(old(self)@, name@, value@));
        }
    }

    /// Appends one pair without looking at the names; for building a fresh
    /// request header list whose names are known to be distinct.
    pub(crate) fn push_pair(&mut self, name: &str, value: String)
        ensures
            final(self)@ == old(self)@ + seq![(name@, value@)],
    {
        self.entries.push((name.to_owned(), value));
        proof {
            assert(self@ =~= old(self)@ + seq![(name@, value@)]);
        }
    }

    /// Read access to the pairs, for the transport layer and for tests.
    pub fn entries(&self) -> (r: &Vec<(String, String)>)
        ensures
            pairs_view(r@) == self@,
    {
        &self.entries
    }
}

} // verus!
