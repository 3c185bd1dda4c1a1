use vstd::prelude::*;

verus! {

/// The set of valid tenant credentials. It has no mutation path once built.
pub struct ApiKeys {
    keys: Vec<String>,
}

impl ApiKeys {
    /// The credentials held, as a sequence.
    pub closed spec fn key_seq(&self) -> Seq<Seq<char>> {
        self.keys@.map_values(|k: String| k@)
    }

    /// The store as a set of credentials.
    pub open spec fn view(&self) -> Set<Seq<char>> {
        self.key_seq().to_set()
    }

    /// A store holding exactly the given credentials.
    pub fn new(keys: Vec<String>) -> (r: ApiKeys)
        ensures
            r@ == keys@.map_values(|k: String| k@).to_set(),
    {
        ApiKeys { keys }
    }

    /// Whether `key` is a valid credential.
    pub fn contains(&self, key: &String) -> (r: bool)
        ensures
            r == self@.contains(key@),
    {
        let mut i: usize = 0;
        while i < self.keys.len()
            invariant
                0 <= i <= self.keys@.len(),
                forall|j: int| 0 <= j < i ==> (#[trigger] self.keys@[j])@ != key@,
            decreases self.keys.len() - i,
        {
            if self.keys[i] == *key {
                assert(self.key_seq()[i as int] == key@);
                return true;
            }
            i = i + 1;
        }
        assert(!self.key_seq().contains(key@)) by {
            if self.key_seq().contains(key@) {
                let j = choose|j: int| 0 <= j < self.key_seq().len() && self.key_seq()[j] == key@;
                assert(self.keys@[j]@ == key@);
            }
        }
        false
    }
}

} // verus!
