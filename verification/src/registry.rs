//! The section registry: sections owned by the registry, each found by the
//! name under which it was registered.

use crate::error::{unit_outcome, ErrorView, KonfigError};
use vstd::prelude::*;
use vstd::string::*;

verus! {

/// No name occurs twice in `names`.
pub open spec fn distinct(names: Seq<Seq<char>>) -> bool {
    forall|i: int, j: int| 0 <= i < j < names.len() ==> #[trigger] names[i] != #[trigger] names[j]
}

/// `index` is the first place at which `name` stands in `names`.
pub open spec fn is_first(names: Seq<Seq<char>>, name: Seq<char>, index: int) -> bool {
    &&& 0 <= index < names.len()
    &&& names[index] == name
    &&& forall|j: int| 0 <= j < index ==> names[j] != name
}

/// The index of the section that `name` finds: the first with that name.
pub open spec fn slot(names: Seq<Seq<char>>, name: Seq<char>) -> Option<int> {
    if names.contains(name) {
        Some(choose|index: int| is_first(names, name, index))
    } else {
        None
    }
}

/// The reason given when `name` is registered a second time.
pub open spec fn duplicate_reason(name: Seq<char>) -> Seq<char> {
    "Failed to register "@ + name + ", section already registered"@
}

/// What registering `section` under `name` makes of a registry that holds
/// `sections` under `names`: the registry with the new section last, or,
/// where the name is taken, the registry as it was and the failure.
pub open spec fn registered<S>(
    names: Seq<Seq<char>>,
    sections: Seq<S>,
    name: Seq<char>,
    section: S,
) -> (Seq<Seq<char>>, Seq<S>, Result<(), ErrorView>) {
    if names.contains(name) {
        (names, sections, Err(ErrorView::RegistrationError(duplicate_reason(name))))
    } else {
        (names.push(name), sections.push(section), Ok(()))
    }
}

/// A first occurrence is the one that `slot` finds.
pub proof fn lemma_slot_is_first(names: Seq<Seq<char>>, name: Seq<char>, index: int)
    requires
        is_first(names, name, index),
    ensures
        slot(names, name) == Some(index),
{
    let found = choose|i: int| is_first(names, name, i);
    assert(is_first(names, name, found));
    assert(found == index);
}

/// Before any occurrence of a name stands its first occurrence.
pub proof fn lemma_first_before(names: Seq<Seq<char>>, name: Seq<char>, index: int) -> (first: int)
    requires
        0 <= index < names.len(),
        names[index] == name,
    ensures
        is_first(names, name, first),
        first <= index,
    decreases index,
{
    if exists|j: int| 0 <= j < index && names[j] == name {
        let earlier = choose|j: int| 0 <= j < index && names[j] == name;
        lemma_first_before(names, name, earlier)
    } else {
        index
    }
}

/// Where a name is found, it is found at its first occurrence.
pub proof fn lemma_slot_found(names: Seq<Seq<char>>, name: Seq<char>)
    requires
        names.contains(name),
    ensures
        slot(names, name) is Some,
        is_first(names, name, slot(names, name)->0),
{
    let index = choose|i: int| 0 <= i < names.len() && names[i] == name;
    let first = lemma_first_before(names, name, index);
    lemma_slot_is_first(names, name, first);
}

struct Entry<S> {
    name: String,
    section: S,
}

/// The sections that a manager loads and saves, in the order of their
/// registration. The registry owns its sections: a caller reaches one by its
/// name, for reading or for writing, and no reference outlives the borrow of
/// the registry that gave it.
pub struct Registry<S> {
    entries: Vec<Entry<S>>,
}

impl<S> Registry<S> {
    /// The names under which sections are registered, in registration order.
    pub closed spec fn names(&self) -> Seq<Seq<char>> {
        self.entries@.map_values(|entry: Entry<S>| entry.name@)
    }

    /// The registered sections, each at the index of its name.
    pub closed spec fn sections(&self) -> Seq<S> {
        self.entries@.map_values(|entry: Entry<S>| entry.section)
    }

    /// Every section has its name.
    pub proof fn lemma_same_length(&self)
        ensures
            self.names().len() == self.sections().len(),
    {
    }

    /// An empty registry.
    pub fn new() -> (r: Self)
        ensures
            r.names() == Seq::<Seq<char>>::empty(),
            r.sections() == Seq::<S>::empty(),
    {
        let r = Registry { entries: Vec::new() };
        assert(r.names() =~= Seq::<Seq<char>>::empty());
        assert(r.sections() =~= Seq::<S>::empty());
        r
    }

    /// The number of registered sections.
    pub fn len(&self) -> (n: usize)
        ensures
            n == self.sections().len(),
            n == self.names().len(),
    {
        self.entries.len()
    }

    /// The index of the section that `name` finds, if there is one.
    pub fn position(&self, name: &str) -> (r: Option<usize>)
        ensures
            match r {
                Some(index) => index < self.names().len() && slot(self.names(), name@) == Some(
                    index as int,
                ),
                None => slot(self.names(), name@) is None,
            },
    {
        let wanted = name.to_owned();
        let mut i: usize = 0;
        while i < self.entries.len()
            invariant
                i <= self.entries.len(),
                wanted@ == name@,
                forall|j: int| 0 <= j < i ==> self.names()[j] != name@,
            decreases self.entries.len() - i,
        {
            if self.entries[i].name == wanted {
                proof {
                    lemma_slot_is_first(self.names(), name@, i as int);
                }
                return Some(i);
            }
            i += 1;
        }
        None
    }

    /// The name of the section at `index`.
    pub(crate) fn name_at(&self, index: usize) -> (r: &str)
        requires
            index < self.names().len(),
        ensures
            r@ == self.names()[index as int],
    {
        self.entries[index].name.as_str()
    }

    /// The section at `index`, for reading.
    pub(crate) fn section_at(&self, index: usize) -> (r: &S)
        requires
            index < self.sections().len(),
        ensures
            *r == self.sections()[index as int],
    {
        &self.entries[index].section
    }

    /// The section at `index`, for writing. Names stay as they are, and so do
    /// the other sections.
    pub(crate) fn section_at_mut(&mut self, index: usize) -> (r: &mut S)
        requires
            index < old(self).sections().len(),
        ensures
            *r == old(self).sections()[index as int],
            final(self).names() == old(self).names(),
            final(self).sections() == old(self).sections().update(index as int, *final(r)),
    {
        &mut self.entries[index].section
    }

    /// The section registered under `name`, for reading.
    pub fn get(&self, name: &str) -> (r: Option<&S>)
        ensures
            match r {
                Some(section) => slot(self.names(), name@) is Some && *section
                    == self.sections()[slot(self.names(), name@)->0],
                None => slot(self.names(), name@) is None,
            },
    {
        match self.position(name) {
            Some(index) => {
                proof {
                    lemma_slot_found(self.names(), name@);
                }
                Some(&self.entries[index].section)
            },
            None => None,
        }
    }

    /// The section registered under `name`, for writing in place. Names stay
    /// as they are, and so do the other sections.
    pub fn get_mut(&mut self, name: &str) -> (r: Option<&mut S>)
        ensures
            match r {
                Some(section) => {
                    &&& slot(old(self).names(), name@) is Some
                    &&& *section == old(self).sections()[slot(old(self).names(), name@)->0]
                    &&& final(self).names() == old(self).names()
                    &&& final(self).sections() == old(self).sections().update(
                        slot(old(self).names(), name@)->0,
                        *final(section),
                    )
                },
                None => slot(old(self).names(), name@) is None && *final(self) == *old(self),
            },
    {
        match self.position(name) {
            Some(index) => {
                proof {
                    lemma_slot_found(self.names(), name@);
                }
                Some(self.section_at_mut(index))
            },
            None => None,
        }
    }

    /// Registers `section` under `name` if the name is free; the section is
    /// moved into the registry, not copied. Where the name is taken the
    /// registry stays as it was, and names that were distinct stay distinct
    /// either way.
    pub fn register(&mut self, name: String, section: S) -> (r: Result<(), KonfigError>)
        ensures
            (final(self).names(), final(self).sections(), unit_outcome(r)) == registered(
                old(self).names(),
                old(self).sections(),
                name@,
                section,
            ),
            r is Err ==> *final(self) == *old(self),
            distinct(old(self).names()) ==> distinct(final(self).names()),
    {
        match self.position(name.as_str()) {
            Some(_) => {
                let reason = "Failed to register ".to_owned().concat(name.as_str()).concat(
                    ", section already registered",
                );
                Err(KonfigError::RegistrationError(reason))
            },
            None => {
                self.entries.push(Entry { name, section });
                assert(self.names() =~= old(self).names().push(name@));
                assert(self.sections() =~= old(self).sections().push(section));
                Ok(())
            },
        }
    }
}

} // verus!
