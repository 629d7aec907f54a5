//! The capabilities that the host offers, by namespace and name, and how the
//! imports of an artifact are bound to them.

use vstd::prelude::*;
use crate::error::LinkError;
use crate::interface::{Import, Signature};

verus! {

/// One host function that a guest may import.
#[derive(Debug, PartialEq, Eq)]
pub struct Capability {
    pub namespace: String,
    pub name: String,
    pub sig: Signature,
}

/// Whether the capability at `i` has that namespace and name. Names are
/// compared character by character: a version at the end of a name is part
/// of the name.
pub open spec fn named(entries: Seq<Capability>, namespace: Seq<char>, name: Seq<char>, i: int) -> bool {
    &&& 0 <= i < entries.len()
    &&& entries[i].namespace@ == namespace
    &&& entries[i].name@ == name
}

/// Whether a capability of that namespace and name is among `entries`.
pub open spec fn registered(entries: Seq<Capability>, namespace: Seq<char>, name: Seq<char>) -> bool {
    exists|i: int| #[trigger] named(entries, namespace, name, i)
}

/// No two capabilities share namespace and name.
pub open spec fn distinct_names(entries: Seq<Capability>) -> bool {
    forall|i: int, j: int|
        #![trigger entries[i], entries[j]]
        0 <= i < j < entries.len() ==> !(entries[i].namespace@ == entries[j].namespace@
            && entries[i].name@ == entries[j].name@)
}

/// The slot of the capability of that namespace and name, if it is registered.
pub open spec fn slot_of(entries: Seq<Capability>, namespace: Seq<char>, name: Seq<char>) -> Option<int> {
    if registered(entries, namespace, name) {
        Some(choose|i: int| #[trigger] named(entries, namespace, name, i))
    } else {
        None
    }
}

/// Whether the import is bound by the capability in `slot`: same namespace,
/// same name, same signature.
pub open spec fn binds(entries: Seq<Capability>, import: Import, slot: int) -> bool {
    &&& named(entries, import.namespace@, import.name@, slot)
    &&& entries[slot].sig.model() == import.sig.model()
}

/// Whether some capability binds the import.
pub open spec fn matched(entries: Seq<Capability>, import: Import) -> bool {
    exists|slot: int| #[trigger] binds(entries, import, slot)
}

/// Whether `i` is the place of the first import that no capability binds.
pub open spec fn first_unmatched(entries: Seq<Capability>, imports: Seq<Import>, i: int) -> bool {
    &&& 0 <= i < imports.len()
    &&& !matched(entries, imports[i])
    &&& forall|j: int| 0 <= j < i ==> matched(entries, #[trigger] imports[j])
}

/// Whether every import is bound by some capability.
pub open spec fn all_matched(entries: Seq<Capability>, imports: Seq<Import>) -> bool {
    forall|i: int| 0 <= i < imports.len() ==> matched(entries, #[trigger] imports[i])
}

/// For each import the slot of the capability that binds it.
pub open spec fn resolution(entries: Seq<Capability>, imports: Seq<Import>) -> Seq<usize> {
    Seq::new(
        imports.len(),
        |i: int| slot_of(entries, imports[i].namespace@, imports[i].name@).unwrap() as usize,
    )
}

/// What linking `imports` against `entries` gives: the slot for each import,
/// or the first import that cannot be bound, and why.
pub open spec fn link_outcome(entries: Seq<Capability>, imports: Seq<Import>) -> Result<Seq<usize>, LinkError> {
    if all_matched(entries, imports) {
        Ok(resolution(entries, imports))
    } else {
        let i = choose|i: int| first_unmatched(entries, imports, i);
        if registered(entries, imports[i].namespace@, imports[i].name@) {
            Err(LinkError::SignatureMismatch { import: i as usize })
        } else {
            Err(LinkError::Unresolved { import: i as usize })
        }
    }
}

/// Among distinct names, a namespace and name belong to one slot only.
pub proof fn lemma_slot_unique(entries: Seq<Capability>, namespace: Seq<char>, name: Seq<char>, i: int, j: int)
    requires
        distinct_names(entries),
        named(entries, namespace, name, i),
        named(entries, namespace, name, j),
    ensures
        i == j,
{
    if i < j {
        assert(!(entries[i].namespace@ == entries[j].namespace@ && entries[i].name@ == entries[j].name@));
    } else if j < i {
        assert(!(entries[j].namespace@ == entries[i].namespace@ && entries[j].name@ == entries[i].name@));
    }
}

/// The first unbound import is found at one place only.
pub proof fn lemma_first_unmatched_unique(entries: Seq<Capability>, imports: Seq<Import>, i: int, j: int)
    requires
        first_unmatched(entries, imports, i),
        first_unmatched(entries, imports, j),
    ensures
        i == j,
{
    if i < j {
        assert(matched(entries, imports[i]));
    } else if j < i {
        assert(matched(entries, imports[j]));
    }
}

/// The capabilities registered so far. Names are unique.
#[derive(Debug)]
pub struct CapabilityTable {
    entries: Vec<Capability>,
}

/// A capability table frozen for instantiation. Names are unique.
#[derive(Debug)]
pub struct Bindings {
    entries: Vec<Capability>,
}

impl View for CapabilityTable {
    type V = Seq<Capability>;

    closed spec fn view(&self) -> Seq<Capability> {
        self.entries@
    }
}

impl View for Bindings {
    type V = Seq<Capability>;

    closed spec fn view(&self) -> Seq<Capability> {
        self.entries@
    }
}

/// Finds the slot of a namespace and name.
fn find(entries: &Vec<Capability>, namespace: &String, name: &String) -> (r: Option<usize>)
    requires
        distinct_names(entries@),
    ensures
        r == match slot_of(entries@, namespace@, name@) {
            Some(i) => Some(i as usize),
            None => None,
        },
        r is Some ==> named(entries@, namespace@, name@, r.unwrap() as int),
        r is None ==> !registered(entries@, namespace@, name@),
{
    let mut i: usize = 0;
    while i < entries.len()
        invariant
            i <= entries.len(),
            distinct_names(entries@),
            forall|j: int| 0 <= j < i ==> !named(entries@, namespace@, name@, j),
        decreases entries.len() - i,
    {
        if entries[i].namespace == *namespace && entries[i].name == *name {
            proof {
                assert(named(entries@, namespace@, name@, i as int));
                let k = choose|k: int| #[trigger] named(entries@, namespace@, name@, k);
                lemma_slot_unique(entries@, namespace@, name@, i as int, k);
            }
            return Some(i);
        }
        i += 1;
    }
    None
}

impl CapabilityTable {
    #[verifier::type_invariant]
    pub closed spec fn wf(self) -> bool {
        distinct_names(self.entries@)
    }

    /// A table with nothing registered.
    pub fn new() -> (t: CapabilityTable)
        ensures
            t@ == Seq::<Capability>::empty(),
            t.wf(),
    {
        CapabilityTable { entries: Vec::new() }
    }

    /// How many capabilities are registered.
    pub fn len(&self) -> (n: usize)
        ensures
            n == self@.len(),
    {
        self.entries.len()
    }

    /// Whether a capability of that namespace and name is registered.
    pub fn contains(&self, namespace: &str, name: &str) -> (r: bool)
        ensures
            r == registered(self@, namespace@, name@),
    {
        proof {
            use_type_invariant(self);
        }
        find(&self.entries, &namespace.to_owned(), &name.to_owned()).is_some()
    }

    /// Adds one capability and gives its slot. A namespace and name that is
    /// registered already is refused and the table stays as it was.
    pub fn register(&mut self, namespace: String, name: String, sig: Signature) -> (r: Result<usize, LinkError>)
        ensures
            final(self).wf(),
            match r {
                Ok(slot) => {
                    &&& !registered(old(self)@, namespace@, name@)
                    &&& slot == old(self)@.len()
                    &&& final(self)@ == old(self)@.push(Capability { namespace, name, sig })
                },
                Err(e) => {
                    &&& e == LinkError::Duplicate
                    &&& registered(old(self)@, namespace@, name@)
                    &&& final(self)@ == old(self)@
                },
            },
    {
        proof {
            use_type_invariant(&*self);
        }
        if find(&self.entries, &namespace, &name).is_some() {
            return Err(LinkError::Duplicate);
        }
        let mut taken = CapabilityTable::new();
        std::mem::swap(self, &mut taken);
        let mut entries = taken.entries;
        let slot = entries.len();
        let ghost before = entries@;
        entries.push(Capability { namespace, name, sig });
        proof {
            assert forall|i: int, j: int| 0 <= i < j < entries@.len() implies !(entries@[i].namespace@
                == entries@[j].namespace@ && entries@[i].name@ == entries@[j].name@) by {
                if j == before.len() {
                    assert(!named(before, namespace@, name@, i));
                } else {
                    assert(!(before[i].namespace@ == before[j].namespace@ && before[i].name@
                        == before[j].name@));
                }
            }
        }
        *self = CapabilityTable { entries };
        Ok(slot)
    }

    /// Freezes the table for instantiation.
    pub fn build(self) -> (b: Bindings)
        ensures
            b@ == self@,
            b.wf(),
    {
        proof {
            use_type_invariant(&self);
        }
        Bindings { entries: self.entries }
    }
}

impl Bindings {
    #[verifier::type_invariant]
    pub closed spec fn wf(self) -> bool {
        distinct_names(self.entries@)
    }

    /// How many capabilities are bound.
    pub fn len(&self) -> (n: usize)
        ensures
            n == self@.len(),
    {
        self.entries.len()
    }

    /// The capability in a slot.
    pub fn get(&self, slot: usize) -> (r: Option<&Capability>)
        ensures
            r == (if slot < self@.len() { Some(&self@[slot as int]) } else { None }),
    {
        if slot < self.entries.len() {
            Some(&self.entries[slot])
        } else {
            None
        }
    }

    /// The slot of the capability of that namespace and name.
    pub fn lookup(&self, namespace: &str, name: &str) -> (r: Option<usize>)
        ensures
            r == match slot_of(self@, namespace@, name@) {
                Some(i) => Some(i as usize),
                None => None,
            },
            r is Some ==> named(self@, namespace@, name@, r.unwrap() as int),
    {
        proof {
            use_type_invariant(self);
        }
        find(&self.entries, &namespace.to_owned(), &name.to_owned())
    }

    /// Binds each import to the capability of its namespace and name, which
    /// must have the import's signature. Fails at the first import for which
    /// there is none.
    pub fn link(&self, imports: &Vec<Import>) -> (r: Result<Vec<usize>, LinkError>)
        ensures
            match r {
                Ok(slots) => link_outcome(self@, imports@) == Ok::<Seq<usize>, LinkError>(slots@),
                Err(e) => link_outcome(self@, imports@) == Err::<Seq<usize>, LinkError>(e),
            },
            r is Ok <==> all_matched(self@, imports@),
    {
        proof {
            use_type_invariant(self);
        }
        let mut slots: Vec<usize> = Vec::new();
        let mut i: usize = 0;
        while i < imports.len()
            invariant
                i <= imports.len(),
                distinct_names(self.entries@),
                self@ == self.entries@,
                slots@.len() == i,
                forall|j: int| 0 <= j < i ==> matched(self@, #[trigger] imports@[j]),
                forall|j: int| 0 <= j < i ==> slots@[j] == resolution(self@, imports@)[j],
            decreases imports.len() - i,
        {
            let import = &imports[i];
            let found = find(&self.entries, &import.namespace, &import.name);
            match found {
                None => {
                    proof {
                        assert forall|slot: int| !#[trigger] binds(self@, *import, slot) by {
                            if binds(self@, *import, slot) {
                                assert(named(self@, import.namespace@, import.name@, slot));
                            }
                        }
                        assert(first_unmatched(self@, imports@, i as int));
                        let k = choose|k: int| first_unmatched(self@, imports@, k);
                        lemma_first_unmatched_unique(self@, imports@, i as int, k);
                    }
                    return Err(LinkError::Unresolved { import: i });
                },
                Some(slot) => {
                    if !self.entries[slot].sig.same(&import.sig) {
                        proof {
                            assert forall|other: int| !#[trigger] binds(self@, *import, other) by {
                                if binds(self@, *import, other) {
                                    lemma_slot_unique(
                                        self@,
                                        import.namespace@,
                                        import.name@,
                                        slot as int,
                                        other,
                                    );
                                }
                            }
                            assert(first_unmatched(self@, imports@, i as int));
                            let k = choose|k: int| first_unmatched(self@, imports@, k);
                            lemma_first_unmatched_unique(self@, imports@, i as int, k);
                        }
                        return Err(LinkError::SignatureMismatch { import: i });
                    }
                    proof {
                        assert(binds(self@, *import, slot as int));
                    }
                    slots.push(slot);
                },
            }
            i += 1;
        }
        proof {
            assert(slots@ =~= resolution(self@, imports@));
        }
        Ok(slots)
    }
}

} // verus!
