//! Message catalogs: the messages of one language, found by key.

use crate::text::chars_of;
use vstd::prelude::*;

verus! {

/// Whether two strings hold the same characters.
pub fn same_text(a: &str, b: &str) -> (r: bool)
    ensures
        r == (a@ == b@),
{
    let x = chars_of(a);
    let y = chars_of(b);
    if x.len() != y.len() {
        return false;
    }
    let mut i: usize = 0;
    while i < x.len()
        invariant
            x@ == a@,
            y@ == b@,
            x@.len() == y@.len(),
            i <= x@.len(),
            forall|k: int| 0 <= k < i ==> x@[k] == y@[k],
        decreases x@.len() - i,
    {
        if x[i] != y[i] {
            return false;
        }
        i += 1;
    }
    assert(x@ =~= y@);
    true
}

/// The map that a list of key and message pairs stands for: a later pair
/// replaces an earlier one with the same key.
pub open spec fn pairs_map(pairs: Seq<(String, String)>) -> Map<Seq<char>, Seq<char>>
    decreases pairs.len(),
{
    if pairs.len() == 0 {
        Map::empty()
    } else {
        pairs_map(pairs.drop_last()).insert(pairs.last().0@, pairs.last().1@)
    }
}

/// The messages of one language.
#[derive(Debug, Clone)]
pub struct Catalog {
    pairs: Vec<(String, String)>,
}

impl View for Catalog {
    type V = Map<Seq<char>, Seq<char>>;

    closed spec fn view(&self) -> Map<Seq<char>, Seq<char>> {
        pairs_map(self.pairs@)
    }
}

impl Catalog {
    /// A catalog without messages.
    pub fn new() -> (r: Catalog)
        ensures
            r@ == Map::<Seq<char>, Seq<char>>::empty(),
    {
        Catalog { pairs: Vec::new() }
    }

    /// Files `message` under `key`, in place of what stood there.
    pub fn insert(&mut self, key: String, message: String)
        ensures
            final(self)@ == old(self)@.insert(key@, message@),
    {
        let ghost before = self.pairs@;
        self.pairs.push((key, message));
        assert(self.pairs@.drop_last() =~= before);
    }

    /// The message filed under `key`, if there is one.
    pub fn get(&self, key: &str) -> (r: Option<String>)
        ensures
            self@.contains_key(key@) ==> (r matches Some(m) && m@ == self@[key@]),
            !self@.contains_key(key@) ==> r is None,
    {
        let mut i: usize = self.pairs.len();
        assert(self.pairs@.take(i as int) =~= self.pairs@);
        while i > 0
            invariant
                i <= self.pairs@.len(),
                pairs_map(self.pairs@).contains_key(key@) ==> pairs_map(
                    self.pairs@.take(i as int),
                ).contains_key(key@) && pairs_map(self.pairs@.take(i as int))[key@] == pairs_map(
                    self.pairs@,
                )[key@],
                !pairs_map(self.pairs@).contains_key(key@) ==> !pairs_map(
                    self.pairs@.take(i as int),
                ).contains_key(key@),
            decreases i,
        {
            let ghost upto = self.pairs@.take(i as int);
            assert(upto.drop_last() =~= self.pairs@.take(i - 1));
            assert(upto.last() == self.pairs@[i - 1]);
            i -= 1;
            if same_text(self.pairs[i].0.as_str(), key) {
                return Some(self.pairs[i].1.clone());
            }
        }
        assert(self.pairs@.take(0) =~= Seq::<(String, String)>::empty());
        None
    }

    /// Whether a message is filed under `key`.
    pub fn contains_key(&self, key: &str) -> (r: bool)
        ensures
            r == self@.contains_key(key@),
    {
        self.get(key).is_some()
    }
}

} // verus!
