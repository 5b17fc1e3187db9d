//! The type registry: an append-only mapping from a manifest's numeric
//! type identifiers to the names the schema expander produced. Built
//! once per manifest, consulted by the method synthesizer, and
//! discarded afterwards.

use vstd::prelude::*;
use crate::schema::Error;

verus! {

/// Looks an id up in a sequence of (id, name) pairs, first match wins.
pub open spec fn spec_lookup(entries: Seq<(u32, Seq<char>)>, id: u32) -> Option<Seq<char>>
    decreases entries.len(),
{
    if entries.len() == 0 {
        None
    } else if entries[0].0 == id {
        Some(entries[0].1)
    } else {
        spec_lookup(entries.drop_first(), id)
    }
}

/// The registry of generated type names, keyed by the manifest's
/// numeric type identifiers. Entries are only ever appended, never
/// removed or overwritten, so a name resolved once stays resolved to
/// the same name for the registry's whole lifetime.
pub struct TypeRegistry {
    pub entries: Vec<(u32, String)>,
}

impl View for TypeRegistry {
    type V = Seq<(u32, Seq<char>)>;

    open spec fn view(&self) -> Seq<(u32, Seq<char>)> {
        self.entries@.map_values(|e: (u32, String)| (e.0, e.1@))
    }
}

impl TypeRegistry {
    /// Whether the registry holds an entry for `id`.
    pub open spec fn contains_id(&self, id: u32) -> bool {
        spec_lookup(self@, id) is Some
    }

    /// The name registered for `id`, where one is.
    pub open spec fn spec_resolve(&self, id: u32) -> Seq<char> {
        spec_lookup(self@, id)->Some_0
    }

    /// An empty registry.
    pub fn new() -> (r: TypeRegistry)
        ensures
            r@ == Seq::<(u32, Seq<char>)>::empty(),
    {
        TypeRegistry { entries: Vec::new() }
    }

    /// Records the name generated for `id`. The build pass keeps ids
    /// unique, so registering an id twice is ruled out here rather than
    /// silently overwriting.
    pub fn register(&mut self, id: u32, name: String)
        requires
            !old(self).contains_id(id),
        ensures
            final(self)@ == old(self)@.push((id, name@)),
    {
        self.entries.push((id, name));
        proof {
            assert(self@ =~= old(self)@.push((id, name@)));
        }
    }

    /// Whether the registry holds an entry for `id`, as executable
    /// code.
    pub fn contains(&self, id: u32) -> (r: bool)
        ensures
            r == self.contains_id(id),
    {
        proof {
            assert(self@.skip(0) =~= self@);
        }
        let mut i: usize = 0;
        while i < self.entries.len()
            invariant
                i <= self.entries.len(),
                spec_lookup(self@, id) == spec_lookup(self@.skip(i as int), id),
            decreases self.entries.len() - i,
        {
            if self.entries[i].0 == id {
                proof {
                    assert(self@.skip(i as int)[0] == self@[i as int]);
                }
                return true;
            }
            proof {
                assert(self@.skip(i as int).drop_first() =~= self@.skip(i + 1));
                assert(self@.skip(i as int)[0] == self@[i as int]);
            }
            i = i + 1;
        }
        proof {
            assert(self@.skip(self.entries.len() as int).len() == 0);
        }
        false
    }

    /// Resolves `id` to the name registered for it. An id the registry
    /// does not know is a recoverable, reported error, never an
    /// assertion: a manifest with internally consistent references
    /// never triggers it, but a malformed one must stay diagnosable.
    pub fn resolve(&self, id: u32) -> (r: Result<String, Error>)
        ensures
            match r {
                Ok(name) => self.contains_id(id) && name@ == self.spec_resolve(id),
                Err(e) => !self.contains_id(id) && e@ == crate::schema::ErrorV::UnknownTypeId {
                    id,
                },
            },
    {
        proof {
            assert(self@.skip(0) =~= self@);
        }
        let mut i: usize = 0;
        while i < self.entries.len()
            invariant
                i <= self.entries.len(),
                spec_lookup(self@, id) == spec_lookup(self@.skip(i as int), id),
            decreases self.entries.len() - i,
        {
            if self.entries[i].0 == id {
                proof {
                    assert(self@.skip(i as int)[0] == self@[i as int]);
                }
                return Ok(self.entries[i].1.clone());
            }
            proof {
                assert(self@.skip(i as int).drop_first() =~= self@.skip(i + 1));
                assert(self@.skip(i as int)[0] == self@[i as int]);
            }
            i = i + 1;
        }
        proof {
            assert(self@.skip(self.entries.len() as int).len() == 0);
        }
        Err(Error::UnknownTypeId { id })
    }
}

} // verus!
