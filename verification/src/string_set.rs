//! A set of texts.

use crate::string_map::StringMap;
use crate::text;
use vstd::prelude::*;

verus! {

/// A set of texts, kept in the order in which they were added.
#[derive(Debug)]
pub struct StringSet {
    members: StringMap<()>,
}

impl View for StringSet {
    type V = Set<Seq<char>>;

    closed spec fn view(&self) -> Set<Seq<char>> {
        self.members@.dom()
    }
}

impl StringSet {
    /// An empty set.
    pub fn new() -> (r: Self)
        ensures
            r@ == Set::<Seq<char>>::empty(),
    {
        let r = StringSet { members: StringMap::new() };
        assert(r@ =~= Set::<Seq<char>>::empty());
        r
    }

    /// The set of the texts in a list.
    pub fn from_texts(texts: &Vec<String>) -> (r: Self)
        ensures
            r@ == text::texts_view(texts@).to_set(),
    {
        let mut r: StringSet = StringSet::new();
        let mut i: usize = 0;
        assert(text::texts_view(texts@).take(0).to_set() =~= Set::empty());
        while i < texts.len()
            invariant
                i <= texts@.len(),
                r@ == text::texts_view(texts@).take(i as int).to_set(),
            decreases texts@.len() - i,
        {
            proof {
                let all = text::texts_view(texts@);
                assert(all.take(i + 1) =~= all.take(i as int).push(all[i as int]));
                lemma_push_to_set(all.take(i as int), all[i as int]);
            }
            r.insert(texts[i].as_str());
            i = i + 1;
        }
        assert(text::texts_view(texts@).take(texts@.len() as int) =~= text::texts_view(texts@));
        r
    }

    /// Adds a text.
    pub fn insert(&mut self, text: &str)
        ensures
            final(self)@ == old(self)@.insert(text@),
    {
        self.members.insert(text, ());
        assert(self@ =~= old(self)@.insert(text@));
    }

    /// Whether a text is in the set.
    pub fn contains(&self, text: &str) -> (r: bool)
        ensures
            r == self@.contains(text@),
    {
        self.members.contains_key(text)
    }

    /// The number of texts.
    pub fn len(&self) -> (r: usize)
        ensures
            r == self@.len(),
            self@.finite(),
    {
        self.members.len()
    }

    /// Whether the set has no text.
    pub fn is_empty(&self) -> (r: bool)
        ensures
            r == (self@ == Set::<Seq<char>>::empty()),
    {
        proof {
            assert(self.members@ =~= Map::<Seq<char>, ()>::empty() <==> self@ =~= Set::<
                Seq<char>,
            >::empty());
        }
        self.members.is_empty()
    }
}

impl Clone for StringSet {
    fn clone(&self) -> (r: Self)
        ensures
            r@ == self@,
    {
        let keys: Vec<String> = self.members.keys();
        assert(text::texts_view(keys@) =~= self.members.spec_keys());
        StringSet::from_texts(&keys)
    }
}

proof fn lemma_push_to_set(s: Seq<Seq<char>>, last: Seq<char>)
    ensures
        s.push(last).to_set() == s.to_set().insert(last),
{
    let longer = s.push(last);
    assert forall|text: Seq<char>| #[trigger]
        longer.to_set().contains(text) <==> s.to_set().insert(last).contains(text) by {
        if s.contains(text) {
            let k = choose|k: int| 0 <= k < s.len() && s[k] == text;
            assert(longer[k] == text);
        }
        assert(longer[s.len() as int] == last);
        if longer.contains(text) {
            let k = choose|k: int| 0 <= k < longer.len() && longer[k] == text;
            if k < s.len() {
                assert(s[k] == text);
            }
        }
    }
    assert(longer.to_set() =~= s.to_set().insert(last));
}

} // verus!
