//! A set of exercise slugs that remembers the order in which they came.

use crate::text::texts;
use vstd::prelude::*;
use vstd::string::*;

verus! {

/// A finite set of slugs. No slug occurs twice; the slugs keep the order of their first
/// insertion, so that what is computed from the set does not depend on anything else.
#[derive(Debug)]
pub struct ExerciseSet {
    slugs: Vec<String>,
}

/// The elements of `s` in order, each at its first occurrence only.
pub open spec fn first_occurrences(s: Seq<Seq<char>>) -> Seq<Seq<char>>
    decreases s.len(),
{
    if s.len() == 0 {
        s
    } else {
        let earlier = first_occurrences(s.drop_last());
        if earlier.contains(s.last()) {
            earlier
        } else {
            earlier.push(s.last())
        }
    }
}

/// The test that a slug is no element of `set`.
pub open spec fn absent_from(set: Set<Seq<char>>) -> spec_fn(Seq<char>) -> bool {
    |slug: Seq<char>| !set.contains(slug)
}

/// `first_occurrences` keeps every element and repeats none.
pub proof fn lemma_first_occurrences(s: Seq<Seq<char>>)
    ensures
        first_occurrences(s).no_duplicates(),
        first_occurrences(s).to_set() == s.to_set(),
    decreases s.len(),
{
    if s.len() > 0 {
        let rest = s.drop_last();
        let earlier = first_occurrences(rest);
        lemma_first_occurrences(rest);
        assert(rest.push(s.last()) =~= s);
        rest.lemma_push_to_set_commute(s.last());
        if earlier.contains(s.last()) {
            assert(rest.to_set().insert(s.last()) =~= rest.to_set());
        } else {
            earlier.lemma_push_to_set_commute(s.last());
        }
    }
}

impl View for ExerciseSet {
    type V = Set<Seq<char>>;

    open spec fn view(&self) -> Set<Seq<char>> {
        self.list().to_set()
    }
}

impl ExerciseSet {
    #[verifier::type_invariant]
    spec fn distinct(self) -> bool {
        texts(self.slugs@).no_duplicates()
    }

    /// The slugs of the set, in the order of their first insertion.
    pub closed spec fn list(self) -> Seq<Seq<char>> {
        texts(self.slugs@)
    }

    /// Makes the empty set.
    pub fn new() -> (set: ExerciseSet)
        ensures
            set.list() == Seq::<Seq<char>>::empty(),
    {
        let set = ExerciseSet { slugs: Vec::new() };
        set
    }

    /// The number of slugs in the set.
    pub fn len(&self) -> (n: usize)
        ensures
            n == self.list().len(),
            n == self@.len(),
            self.list().no_duplicates(),
    {
        proof {
            use_type_invariant(self);
            self.list().unique_seq_to_set();
        }
        self.slugs.len()
    }

    /// Tells whether `slug` is in the set.
    pub fn contains(&self, slug: &str) -> (found: bool)
        ensures
            found == self@.contains(slug@),
    {
        let wanted = slug.to_owned();
        let mut i: usize = 0;
        while i < self.slugs.len()
            invariant
                i <= self.slugs.len(),
                wanted@ == slug@,
                forall|j: int| 0 <= j < i ==> self.list()[j] != slug@,
            decreases self.slugs.len() - i,
        {
            if self.slugs[i] == wanted {
                assert(self.list()[i as int] == slug@);
                return true;
            }
            i = i + 1;
        }
        false
    }

    /// Puts `slug` into the set, and tells whether it was new.
    pub fn insert(&mut self, slug: &str) -> (added: bool)
        ensures
            added == !old(self)@.contains(slug@),
            final(self).list() == if added {
                old(self).list().push(slug@)
            } else {
                old(self).list()
            },
            final(self)@ == old(self)@.insert(slug@),
    {
        proof {
            use_type_invariant(&*self);
        }
        if self.contains(slug) {
            false
        } else {
            let ghost before = self.list();
            let mut taken = ExerciseSet::new();
            core::mem::swap(self, &mut taken);
            let mut slugs = taken.slugs;
            slugs.push(slug.to_owned());
            proof {
                assert forall|i: int, j: int|
                    0 <= i < slugs.len() && 0 <= j < slugs.len() && i != j implies texts(slugs@)[i]
                    != texts(slugs@)[j] by {
                    if i < before.len() {
                        assert(before[i] == texts(slugs@)[i]);
                    }
                    if j < before.len() {
                        assert(before[j] == texts(slugs@)[j]);
                    }
                }
            }
            *self = ExerciseSet { slugs };
            proof {
                before.lemma_push_to_set_commute(slug@);
            }
            true
        }
    }

    /// Makes the set of the given names.
    pub fn from_names(names: &Vec<String>) -> (set: ExerciseSet)
        ensures
            set.list() == first_occurrences(texts(names@)),
            set@ == texts(names@).to_set(),
    {
        let mut set = ExerciseSet::new();
        let mut i: usize = 0;
        while i < names.len()
            invariant
                i <= names.len(),
                set.list() == first_occurrences(texts(names@).take(i as int)),
            decreases names.len() - i,
        {
            assert(texts(names@).take(i + 1).drop_last() =~= texts(names@).take(i as int));
            set.insert(names[i].as_str());
            i = i + 1;
        }
        proof {
            assert(texts(names@).take(i as int) =~= texts(names@));
            lemma_first_occurrences(texts(names@));
        }
        set
    }

    /// The slugs of the set, in the order of their first insertion.
    pub fn to_vec(&self) -> (slugs: Vec<String>)
        ensures
            texts(slugs@) == self.list(),
    {
        let mut slugs: Vec<String> = Vec::new();
        let mut i: usize = 0;
        while i < self.slugs.len()
            invariant
                i <= self.slugs.len(),
                texts(slugs@) == self.list().take(i as int),
            decreases self.slugs.len() - i,
        {
            let ghost before = texts(slugs@);
            slugs.push(self.slugs[i].clone());
            assert(texts(slugs@) =~= before.push(self.list()[i as int]));
            i = i + 1;
        }
        slugs
    }

    /// The slugs of this set that are not in `other`, in the order of this set.
    pub fn difference(&self, other: &ExerciseSet) -> (rest: Vec<String>)
        ensures
            texts(rest@) == self.list().filter(absent_from(other@)),
    {
        let mut rest: Vec<String> = Vec::new();
        let mut i: usize = 0;
        while i < self.slugs.len()
            invariant
                i <= self.slugs.len(),
                texts(rest@) == self.list().take(i as int).filter(absent_from(other@)),
            decreases self.slugs.len() - i,
        {
            proof {
                reveal(Seq::filter);
                assert(self.list().take(i + 1).drop_last() =~= self.list().take(i as int));
            }
            if !other.contains(self.slugs[i].as_str()) {
                rest.push(self.slugs[i].clone());
            }
            i = i + 1;
        }
        assert(self.list().take(i as int) =~= self.list());
        rest
    }
}

} // verus!
