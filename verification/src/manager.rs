//! The configuration manager: options, one format handler and the registry,
//! with loading and saving on top of them.

use crate::error::{bytes_outcome, unit_outcome, KonfigError};
use crate::format::{tree_outcome, Format, FormatHandler};
use crate::model::{
    bytes_loaded, collected, collected_from, loaded, member_loaded, members_loaded, saved,
    section_tree, tree_loaded, with_front,
};
use crate::registry::{distinct, registered, slot, Registry};
use crate::section::{load_section, owned_name, section_loaded, KonfigSection};
use crate::tree::{members_of, object_from, object_members, Member};
use serde_json::Value;
use vstd::prelude::*;

verus! {

/// How a manager is set up. Nothing here changes once the manager is built.
pub struct KonfigOptions {
    /// The wire format of the configuration document.
    pub format: Format,
    /// Whether the embedding program saves on its way out.
    pub auto_save: bool,
    /// Whether loading validates each section and runs its load hook.
    pub use_callbacks: bool,
    /// Where the configuration document lies.
    pub config_path: String,
}

/// The manager of one configuration document. Sections are registered once;
/// `load` then fills them from the document's bytes and `save` gives the
/// bytes that hold them all.
pub struct KonfigManager<S: KonfigSection> {
    opts: KonfigOptions,
    format_handler: FormatHandler,
    sections: Registry<S>,
}

impl<S: KonfigSection> KonfigManager<S> {
    /// The options that the manager was built with.
    pub closed spec fn options(&self) -> KonfigOptions {
        self.opts
    }

    /// The handler that the manager encodes and decodes through.
    pub closed spec fn handler(&self) -> FormatHandler {
        self.format_handler
    }

    /// The names of the registered sections, in registration order.
    pub closed spec fn names(&self) -> Seq<Seq<char>> {
        self.sections.names()
    }

    /// The registered sections, each at the index of its name.
    pub closed spec fn sections(&self) -> Seq<S> {
        self.sections.sections()
    }

    /// Options, handler and names are those of `before`.
    pub open spec fn same_setup(&self, before: &Self) -> bool {
        &&& self.options() == before.options()
        &&& self.handler() == before.handler()
        &&& self.names() == before.names()
    }

    /// Every section has its name.
    pub proof fn lemma_same_length(&self)
        ensures
            self.names().len() == self.sections().len(),
    {
        self.sections.lemma_same_length();
    }

    /// A manager for the format that `opts` name, with no section registered.
    pub fn new(opts: KonfigOptions) -> (r: Self)
        ensures
            r.options() == opts,
            r.handler() == opts.format.handler(),
            r.names() == Seq::<Seq<char>>::empty(),
            r.sections() == Seq::<S>::empty(),
    {
        let format_handler = opts.format.create_handler();
        KonfigManager { opts, format_handler, sections: Registry::new() }
    }

    /// A manager that encodes and decodes through `handler`, whatever format
    /// `opts` name: the way to select a custom format.
    pub fn with_handler(opts: KonfigOptions, handler: FormatHandler) -> (r: Self)
        ensures
            r.options() == opts,
            r.handler() == handler,
            r.names() == Seq::<Seq<char>>::empty(),
            r.sections() == Seq::<S>::empty(),
    {
        KonfigManager { opts, format_handler: handler, sections: Registry::new() }
    }

    /// The handler that the manager encodes and decodes through.
    pub fn format_handler(&self) -> (r: &FormatHandler)
        ensures
            *r == self.handler(),
    {
        &self.format_handler
    }

    /// Where the configuration document lies.
    pub fn config_path(&self) -> (r: &str)
        ensures
            r@ == self.options().config_path@,
    {
        self.opts.config_path.as_str()
    }

    /// Whether loading validates each section and runs its load hook.
    pub fn use_callbacks(&self) -> (r: bool)
        ensures
            r == self.options().use_callbacks,
    {
        self.opts.use_callbacks
    }

    /// Whether the embedding program saves on its way out.
    pub fn auto_save(&self) -> (r: bool)
        ensures
            r == self.options().auto_save,
    {
        self.opts.auto_save
    }

    /// The number of registered sections.
    pub fn len(&self) -> (n: usize)
        ensures
            n == self.sections().len(),
            n == self.names().len(),
    {
        self.sections.len()
    }

    /// The section registered under `name`, for reading.
    pub fn get(&self, name: &str) -> (r: Option<&S>)
        ensures
            match r {
                Some(section) => slot(self.names(), name@) is Some && *section
                    == self.sections()[slot(self.names(), name@)->0],
                None => slot(self.names(), name@) is None,
            },
    {
        self.sections.get(name)
    }

    /// The section registered under `name`, for writing in place. Setup and
    /// the other sections stay as they are.
    pub fn get_mut(&mut self, name: &str) -> (r: Option<&mut S>)
        ensures
            match r {
                Some(section) => {
                    &&& slot(old(self).names(), name@) is Some
                    &&& *section == old(self).sections()[slot(old(self).names(), name@)->0]
                    &&& final(self).same_setup(old(self))
                    &&& final(self).sections() == old(self).sections().update(
                        slot(old(self).names(), name@)->0,
                        *final(section),
                    )
                },
                None => slot(old(self).names(), name@) is None && *final(self) == *old(self),
            },
    {
        self.sections.get_mut(name)
    }

    /// Registers `section` under its own name. The manager takes the section
    /// over; it is reached again through `get` and `get_mut`. Where the name
    /// is taken, the result is a `RegistrationError` and nothing changes.
    pub fn register_section(&mut self, section: S) -> (r: Result<(), KonfigError>)
        ensures
            final(self).options() == old(self).options(),
            final(self).handler() == old(self).handler(),
            (final(self).names(), final(self).sections(), unit_outcome(r)) == registered(
                old(self).names(),
                old(self).sections(),
                section.name_of(),
                section,
            ),
            r is Err ==> *final(self) == *old(self),
            distinct(old(self).names()) ==> distinct(final(self).names()),
    {
        let name = owned_name(&section);
        self.sections.register(name, section)
    }

    fn load_at(&mut self, index: usize, bytes: &[u8]) -> (r: Result<(), KonfigError>)
        requires
            index < old(self).sections().len(),
        ensures
            final(self).same_setup(old(self)),
            final(self).sections() == old(self).sections().update(
                index as int,
                section_loaded(
                    old(self).sections()[index as int],
                    bytes@,
                    &old(self).handler(),
                    old(self).options().use_callbacks,
                ).0,
            ),
            unit_outcome(r) == section_loaded(
                old(self).sections()[index as int],
                bytes@,
                &old(self).handler(),
                old(self).options().use_callbacks,
            ).1,
    {
        let section = self.sections.section_at_mut(index);
        load_section(section, bytes, &self.format_handler, self.opts.use_callbacks)
    }

    /// Loads the section that `name` finds from `bytes`: replaces its state
    /// and, with callbacks enabled, validates it and then runs its load hook.
    /// A name that finds no section is passed over.
    pub fn load_bytes(&mut self, name: &str, bytes: &[u8]) -> (r: Result<(), KonfigError>)
        ensures
            final(self).same_setup(old(self)),
            (final(self).sections(), unit_outcome(r)) == bytes_loaded(
                old(self).names(),
                old(self).sections(),
                old(self).handler(),
                old(self).options().use_callbacks,
                name@,
                bytes@,
            ),
    {
        match self.sections.position(name) {
            None => Ok(()),
            Some(index) => {
                proof {
                    self.sections.lemma_same_length();
                }
                self.load_at(index, bytes)
            },
        }
    }

    /// Loads one member of a document: the section that `name` finds is
    /// loaded from `value`, encoded again in the manager's format. A name
    /// that finds no section is passed over, and its tree is not encoded.
    pub fn load_member(&mut self, name: &str, value: &Value) -> (r: Result<(), KonfigError>)
        ensures
            final(self).same_setup(old(self)),
            (final(self).sections(), unit_outcome(r)) == member_loaded(
                old(self).names(),
                old(self).sections(),
                old(self).handler(),
                old(self).options().use_callbacks,
                (name@, *value),
            ),
    {
        match self.sections.position(name) {
            None => Ok(()),
            Some(index) => {
                proof {
                    self.sections.lemma_same_length();
                }
                match self.format_handler.marshal(value) {
                    Err(e) => Err(e),
                    Ok(bytes) => self.load_at(index, bytes.as_slice()),
                }
            },
        }
    }

    /// Loads the members of a document in their order, and stops at the
    /// first failure.
    pub fn load_members(&mut self, entries: &Vec<(String, Value)>) -> (r: Result<(), KonfigError>)
        ensures
            final(self).same_setup(old(self)),
            (final(self).sections(), unit_outcome(r)) == members_loaded(
                old(self).names(),
                old(self).sections(),
                old(self).handler(),
                old(self).options().use_callbacks,
                members_of(entries@),
            ),
    {
        let ghost all = members_of(entries@);
        let ghost goal = members_loaded(
            self.names(),
            self.sections(),
            self.handler(),
            self.options().use_callbacks,
            all,
        );
        let mut i: usize = 0;
        assert(all.skip(0) =~= all);
        while i < entries.len()
            invariant
                i <= entries.len(),
                all == members_of(entries@),
                self.same_setup(old(self)),
                goal == members_loaded(
                    old(self).names(),
                    old(self).sections(),
                    old(self).handler(),
                    old(self).options().use_callbacks,
                    all,
                ),
                goal == members_loaded(
                    self.names(),
                    self.sections(),
                    self.handler(),
                    self.options().use_callbacks,
                    all.skip(i as int),
                ),
            decreases entries.len() - i,
        {
            let ghost rest = all.skip(i as int);
            let ghost before = self.sections();
            assert(rest[0] == (entries@[i as int].0@, entries@[i as int].1));
            assert(rest.drop_first() =~= all.skip(i + 1));
            let step = self.load_member(entries[i].0.as_str(), &entries[i].1);
            assert((self.sections(), unit_outcome(step)) == member_loaded(
                self.names(),
                before,
                self.handler(),
                self.options().use_callbacks,
                rest[0],
            ));
            if step.is_err() {
                return step;
            }
            i += 1;
        }
        Ok(())
    }

    /// Loads a decoded document. A root that is no mapping is a `LoadError`.
    pub fn load_tree(&mut self, tree: &Value) -> (r: Result<(), KonfigError>)
        ensures
            final(self).same_setup(old(self)),
            (final(self).sections(), unit_outcome(r)) == tree_loaded(
                old(self).names(),
                old(self).sections(),
                old(self).handler(),
                old(self).options().use_callbacks,
                *tree,
            ),
    {
        match object_members(tree) {
            None => Err(KonfigError::LoadError("Config root must be an object".to_owned())),
            Some(entries) => self.load_members(&entries),
        }
    }

    /// Loads the registered sections from the bytes of a document.
    ///
    /// No bytes at all is no failure: nothing changes. Otherwise the bytes
    /// are decoded, and each member of the root mapping whose key is a
    /// registered name is handed to that section; with callbacks enabled the
    /// section is then validated and, if valid, its load hook runs. Keys that
    /// name no section are passed over, and sections that the document does
    /// not name keep their state. The first failure ends the loading;
    /// sections loaded before it keep what they were given.
    pub fn load(&mut self, data: &[u8]) -> (r: Result<(), KonfigError>)
        ensures
            final(self).same_setup(old(self)),
            (final(self).sections(), unit_outcome(r)) == loaded(
                old(self).names(),
                old(self).sections(),
                old(self).handler(),
                old(self).options().use_callbacks,
                data@,
            ),
            data@.len() == 0 ==> r is Ok && final(self).sections() == old(self).sections(),
    {
        if data.len() == 0 {
            return Ok(());
        }
        match self.format_handler.unmarshal(data) {
            Err(e) => Err(e),
            Ok(tree) => self.load_tree(&tree),
        }
    }

    fn tree_at(&self, index: usize) -> (r: Result<Value, KonfigError>)
        requires
            index < self.sections().len(),
        ensures
            tree_outcome(r) == section_tree(
                self.sections()[index as int],
                self.handler(),
            ),
    {
        match self.sections.section_at(index).to_bytes(&self.format_handler) {
            Err(e) => Err(e),
            Ok(bytes) => self.format_handler.unmarshal(bytes.as_slice()),
        }
    }

    /// The bytes of the document that holds every registered section: each
    /// section's own bytes are decoded into a tree, the trees are gathered in
    /// one mapping under the sections' names, and the mapping is encoded. The
    /// first failure on the way is the result.
    pub fn save(&self) -> (r: Result<Vec<u8>, KonfigError>)
        ensures
            bytes_outcome(r) == saved(self.names(), self.sections(), self.handler()),
    {
        let mut entries: Vec<(String, Value)> = Vec::new();
        let mut i: usize = 0;
        let count = self.sections.len();
        assert(members_of(entries@) =~= Seq::<Member>::empty());
        while i < count
            invariant
                i <= count,
                count == self.sections().len(),
                count == self.names().len(),
                collected(self.names(), self.sections(), self.handler()) == with_front(
                    members_of(entries@),
                    collected_from(self.names(), self.sections(), self.handler(), i as int),
                ),
            decreases count - i,
        {
            let ghost before = members_of(entries@);
            let tree = match self.tree_at(i) {
                Err(e) => {
                    return Err(e);
                },
                Ok(tree) => tree,
            };
            let name = self.sections.name_at(i).to_owned();
            entries.push((name, tree));
            assert(members_of(entries@) =~= before + seq![(self.names()[i as int], tree)]);
            proof {
                let rest = collected_from(
                    self.names(),
                    self.sections(),
                    self.handler(),
                    i as int + 1,
                );
                if let Ok(later) = rest {
                    assert(before + (seq![(self.names()[i as int], tree)] + later) =~= (before
                        + seq![(self.names()[i as int], tree)]) + later);
                }
            }
            i += 1;
        }
        assert(members_of(entries@) + Seq::<Member>::empty() =~= members_of(entries@));
        let document = object_from(entries);
        self.format_handler.marshal(&document)
    }

    /// Validates every registered section and reports each result beside
    /// the section's name, in registration order. No result ends the run, and
    /// nothing changes.
    pub fn validate_all(&self) -> (r: Vec<(String, Result<(), KonfigError>)>)
        ensures
            r@.len() == self.sections().len(),
            forall|i: int|
                0 <= i < r@.len() ==> (#[trigger] r@[i]).0@ == self.names()[i] && unit_outcome(
                    r@[i].1,
                ) == self.sections()[i].validate_result(),
    {
        let mut results: Vec<(String, Result<(), KonfigError>)> = Vec::new();
        let mut i: usize = 0;
        let count = self.sections.len();
        while i < count
            invariant
                i <= count,
                count == self.sections().len(),
                count == self.names().len(),
                results@.len() == i,
                forall|j: int|
                    0 <= j < i ==> (#[trigger] results@[j]).0@ == self.names()[j] && unit_outcome(
                        results@[j].1,
                    ) == self.sections()[j].validate_result(),
            decreases count - i,
        {
            let outcome = self.sections.section_at(i).validate();
            let name = self.sections.name_at(i).to_owned();
            results.push((name, outcome));
            i += 1;
        }
        results
    }
}

} // verus!
