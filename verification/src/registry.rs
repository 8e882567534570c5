//! The generator registry: an immutable-after-construction mapping from
//! generator name to its human-readable description. Registration always
//! succeeds; a later registration of the same name silently wins.

use vstd::prelude::*;

verus! {

/// The mapping that a sequence of registrations denotes: the last
/// registration of a name wins.
pub open spec fn reg_map_of(entries: Seq<(String, String)>) -> Map<Seq<char>, Seq<char>>
    decreases entries.len(),
{
    if entries.len() == 0 {
        Map::empty()
    } else {
        reg_map_of(entries.drop_last()).insert(entries.last().0@, entries.last().1@)
    }
}

/// The registered generator descriptors, in registration order.
pub struct Registry {
    entries: Vec<(String, String)>,
}

impl View for Registry {
    type V = Map<Seq<char>, Seq<char>>;

    closed spec fn view(&self) -> Map<Seq<char>, Seq<char>> {
        reg_map_of(self.entries@)
    }
}

impl Registry {
    /// An empty registry.
    pub fn new() -> (r: Registry)
        ensures
            r@ == Map::<Seq<char>, Seq<char>>::empty(),
    {
        Registry { entries: Vec::new() }
    }

    /// Adds or overwrites the descriptor for `name`.
    pub fn register(&mut self, name: String, description: String)
        ensures
            final(self)@ == old(self)@.insert(name@, description@),
    {
        let ghost before = self.entries@;
        self.entries.push((name, description));
        proof {
            assert(self.entries@.drop_last() =~= before);
        }
    }

    /// A snapshot of the registered pairs for introspection: mutating the
    /// copy cannot reach the live registry.
    pub fn get_all(&self) -> (r: Vec<(String, String)>)
        ensures
            reg_map_of(r@) == self@,
    {
        let mut out: Vec<(String, String)> = Vec::new();
        let mut i: usize = 0;
        while i < self.entries.len()
            invariant
                i <= self.entries@.len(),
                out@ =~= self.entries@.subrange(0, i as int),
            decreases self.entries@.len() - i,
        {
            let name = self.entries[i].0.clone();
            let desc = self.entries[i].1.clone();
            out.push((name, desc));
            i = i + 1;
        }
        proof {
            assert(out@ =~= self.entries@);
        }
        out
    }
}

} // verus!
