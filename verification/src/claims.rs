//! The claim set of a token: names mapped to text values.

use vstd::prelude::*;
use vstd::string::*;

verus! {

/// The name of the claim that holds the subject: the user's name.
pub open spec fn subject_name() -> Seq<char> {
    "sub"@
}

/// The name of the claim that holds the expiration time, in seconds since the
/// epoch, written in decimal.
pub open spec fn expiration_name() -> Seq<char> {
    "exp"@
}

/// Whether no name occurs twice among the pairs.
pub open spec fn distinct_names(s: Seq<(String, String)>) -> bool {
    forall|i: int, j: int| 0 <= i < j < s.len() ==> (#[trigger] s[i]).0@ != (#[trigger] s[j]).0@
}

/// Whether some pair carries the name `k`.
pub open spec fn has_name(s: Seq<(String, String)>, k: Seq<char>) -> bool {
    exists|i: int| 0 <= i < s.len() && (#[trigger] s[i]).0@ == k
}

/// The value that stands beside the name `k`.
pub open spec fn value_of(s: Seq<(String, String)>, k: Seq<char>) -> Seq<char> {
    let i = choose|i: int| 0 <= i < s.len() && (#[trigger] s[i]).0@ == k;
    s[i].1@
}

/// The mapping that a list of pairs with distinct names stands for.
pub open spec fn pairs_map(s: Seq<(String, String)>) -> Map<Seq<char>, Seq<char>> {
    Map::new(|k: Seq<char>| has_name(s, k), |k: Seq<char>| value_of(s, k))
}

/// With distinct names, each pair's value is what the mapping holds under
/// the pair's name.
pub proof fn lemma_pair_in_map(s: Seq<(String, String)>, i: int)
    requires
        distinct_names(s),
        0 <= i < s.len(),
    ensures
        pairs_map(s).contains_key(s[i].0@),
        pairs_map(s)[s[i].0@] == s[i].1@,
{
    let k = s[i].0@;
    assert(has_name(s, k));
    let j = choose|j: int| 0 <= j < s.len() && (#[trigger] s[j]).0@ == k;
    if j < i {
        assert(s[j].0@ != s[i].0@);
    } else if i < j {
        assert(s[i].0@ != s[j].0@);
    }
}

/// A claim set: each name has one value. The order in which the claims were
/// set is no part of it, and nothing hands the claims out in that order:
/// look a claim up by its name, and compare two claim sets with
/// [`Claims::same_as`]. Where a claim set is written out, in a token or for
/// a person, the claims go in the order of their names.
#[derive(Debug, Clone)]
pub struct Claims {
    entries: Vec<(String, String)>,
}

impl Claims {
    /// The pairs behind the mapping, in the order in which they are kept.
    pub closed spec fn pairs(&self) -> Seq<(String, String)> {
        self.entries@
    }

    /// No name occurs twice.
    pub closed spec fn wf(&self) -> bool {
        distinct_names(self.entries@)
    }

    /// The claim set as a mapping from names to values.
    pub closed spec fn view(&self) -> Map<Seq<char>, Seq<char>> {
        pairs_map(self.entries@)
    }

    /// The empty claim set.
    pub fn new() -> (res: Claims)
        ensures
            res.wf(),
            res@ == Map::<Seq<char>, Seq<char>>::empty(),
    {
        let res = Claims { entries: Vec::new() };
        assert(res@ =~= Map::<Seq<char>, Seq<char>>::empty());
        res
    }

    /// A claim set from pairs whose names differ from one another.
    pub(crate) fn from_pairs(pairs: Vec<(String, String)>) -> (res: Claims)
        requires
            distinct_names(pairs@),
        ensures
            res.wf(),
            res.pairs() == pairs@,
            res@ == pairs_map(pairs@),
    {
        Claims { entries: pairs }
    }

    /// The number of claims.
    pub fn len(&self) -> (res: usize)
        requires
            self.wf(),
        ensures
            res == self@.dom().len(),
            self@.dom().finite(),
    {
        proof {
            self.lemma_domain_size();
        }
        self.entries.len()
    }

    /// Where the name `name` stands among the pairs, if anywhere.
    fn position(&self, name: &str) -> (res: Option<usize>)
        ensures
            match res {
                Some(i) => i < self.entries@.len() && self.entries@[i as int].0@ == name@,
                None => !has_name(self.entries@, name@),
            },
    {
        let mut i: usize = 0;
        while i < self.entries.len()
            invariant
                0 <= i <= self.entries@.len(),
                forall|j: int| 0 <= j < i ==> (#[trigger] self.entries@[j]).0@ != name@,
            decreases self.entries@.len() - i,
        {
            if str_equal(self.entries[i].0.as_str(), name) {
                return Some(i);
            }
            i = i + 1;
        }
        None
    }

    /// The value of the claim `name`, if the set holds one.
    pub fn get(&self, name: &str) -> (res: Option<&String>)
        requires
            self.wf(),
        ensures
            match res {
                Some(v) => self@.contains_key(name@) && self@[name@] == v@,
                None => !self@.contains_key(name@),
            },
    {
        match self.position(name) {
            Some(i) => {
                proof {
                    lemma_pair_in_map(self.entries@, i as int);
                }
                Some(&self.entries[i].1)
            },
            None => None,
        }
    }

    /// Sets the claim `name` to `value`, whether or not it was set before.
    pub fn insert(&mut self, name: String, value: String)
        requires
            old(self).wf(),
        ensures
            final(self).wf(),
            final(self)@ == old(self)@.insert(name@, value@),
    {
        let ghost before = self.entries@;
        let ghost k = name@;
        let ghost v = value@;
        let ghost at: int;
        match self.position(name.as_str()) {
            Some(i) => {
                self.entries.set(i, (name, value));
                proof {
                    at = i as int;
                }
            },
            None => {
                self.entries.push((name, value));
                proof {
                    at = before.len() as int;
                }
            },
        }
        proof {
            let after = self.entries@;
            assert(after[at].0@ == k && after[at].1@ == v);
            assert forall|j: int| 0 <= j < after.len() && j != at implies j < before.len()
                && #[trigger] after[j] == before[j] by {}
            assert forall|i: int, j: int| 0 <= i < j < after.len() implies (#[trigger] after[i]).0@
                != (#[trigger] after[j]).0@ by {
                if i != at && j != at {
                    assert(before[i].0@ != before[j].0@);
                } else if i == at {
                    assert(before[j].0@ != k);
                } else {
                    assert(before[i].0@ != k);
                }
            }
            assert forall|q: Seq<char>| #[trigger]
                has_name(after, q) <==> (q == k || has_name(before, q)) by {
                if has_name(after, q) && q != k {
                    let j = choose|j: int| 0 <= j < after.len() && (#[trigger] after[j]).0@ == q;
                    assert(before[j].0@ == q);
                }
                if q != k && has_name(before, q) {
                    let j = choose|j: int| 0 <= j < before.len() && (#[trigger] before[j]).0@ == q;
                    assert(j != at);
                    assert(after[j].0@ == q);
                }
            }
            assert forall|q: Seq<char>| has_name(after, q) implies #[trigger] pairs_map(after)[q]
                == pairs_map(before).insert(k, v)[q] by {
                if q == k {
                    lemma_pair_in_map(after, at);
                } else {
                    let j = choose|j: int| 0 <= j < after.len() && (#[trigger] after[j]).0@ == q;
                    lemma_pair_in_map(after, j);
                    assert(before[j].0@ == q);
                    lemma_pair_in_map(before, j);
                }
            }
            assert(pairs_map(after) =~= pairs_map(before).insert(k, v));
        }
    }

    /// Whether the two claim sets hold the same names with the same values.
    pub fn same_as(&self, other: &Claims) -> (res: bool)
        requires
            self.wf(),
            other.wf(),
        ensures
            res == (self@ == other@),
    {
        proof {
            self.lemma_domain_size();
            other.lemma_domain_size();
        }
        if self.entries.len() != other.entries.len() {
            return false;
        }
        let mut i: usize = 0;
        while i < self.entries.len()
            invariant
                0 <= i <= self.entries@.len(),
                self.wf(),
                other.wf(),
                forall|j: int|
                    0 <= j < i ==> other@.contains_key((#[trigger] self.entries@[j]).0@)
                        && other@[self.entries@[j].0@] == self.entries@[j].1@,
            decreases self.entries@.len() - i,
        {
            proof {
                lemma_pair_in_map(self.entries@, i as int);
            }
            match other.get(self.entries[i].0.as_str()) {
                None => {
                    return false;
                },
                Some(v) => {
                    if !(*v == self.entries[i].1) {
                        return false;
                    }
                },
            }
            i = i + 1;
        }
        proof {
            assert forall|k: Seq<char>| self@.dom().contains(k) implies other@.dom().contains(
                k,
            ) && self@[k] == other@[k] by {
                let j = choose|j: int|
                    0 <= j < self.entries@.len() && (#[trigger] self.entries@[j]).0@ == k;
                lemma_pair_in_map(self.entries@, j);
            }
            assert(self@.dom().subset_of(other@.dom()));
            vstd::set_lib::lemma_subset_equality(self@.dom(), other@.dom());
            assert(self@ =~= other@);
        }
        true
    }

    /// The pairs of this claim set, one for each name.
    pub(crate) fn entries(&self) -> (res: &Vec<(String, String)>)
        ensures
            res@ == self.pairs(),
            self.wf() ==> distinct_names(res@),
            pairs_map(res@) == self@,
    {
        &self.entries
    }

    /// The mapping has as many names as there are pairs.
    proof fn lemma_domain_size(&self)
        requires
            self.wf(),
        ensures
            self@.dom().finite(),
            self@.dom().len() == self.entries@.len(),
    {
        lemma_names_counted(self.entries@);
    }
}

/// Whether two texts are the same.
fn str_equal(a: &str, b: &str) -> (res: bool)
    ensures
        res == (a@ == b@),
{
    let x = String::from_str(a);
    let y = String::from_str(b);
    x == y
}

/// Distinct names are as many as the pairs that carry them.
pub proof fn lemma_names_counted(s: Seq<(String, String)>)
    requires
        distinct_names(s),
    ensures
        pairs_map(s).dom().finite(),
        pairs_map(s).dom().len() == s.len(),
    decreases s.len(),
{
    if s.len() == 0 {
        assert(pairs_map(s).dom() =~= Set::<Seq<char>>::empty());
    } else {
        let p = s.drop_last();
        let k = s.last().0@;
        assert forall|i: int, j: int| 0 <= i < j < p.len() implies (#[trigger] p[i]).0@
            != (#[trigger] p[j]).0@ by {
            assert(p[i] == s[i]);
            assert(p[j] == s[j]);
        }
        lemma_names_counted(p);
        assert(!has_name(p, k)) by {
            if has_name(p, k) {
                let j = choose|j: int| 0 <= j < p.len() && (#[trigger] p[j]).0@ == k;
                assert(p[j] == s[j]);
                assert(s[j].0@ != s[s.len() - 1].0@);
            }
        }
        assert forall|q: Seq<char>| has_name(s, q) <==> (q == k || has_name(p, q)) by {
            if has_name(s, q) && q != k {
                let j = choose|j: int| 0 <= j < s.len() && (#[trigger] s[j]).0@ == q;
                assert(p[j] == s[j]);
            }
            if has_name(p, q) {
                let j = choose|j: int| 0 <= j < p.len() && (#[trigger] p[j]).0@ == q;
                assert(p[j] == s[j]);
            }
            if q == k {
                assert(s[s.len() - 1].0@ == k);
            }
        }
        assert(pairs_map(s).dom() =~= pairs_map(p).dom().insert(k));
    }
}

} // verus!
