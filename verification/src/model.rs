//! What loading and saving mean, stated over the registered names, the
//! sections' states and the handler: the functions that the manager's
//! contracts speak of.

use crate::error::ErrorView;
use crate::format::FormatHandler;
use crate::registry::slot;
use crate::section::{section_loaded, KonfigSection};
use crate::tree::{members, object_of, Member};
use serde_json::Value;
use vstd::prelude::*;

verus! {

/// The sections' states after a step of loading, and the step's outcome.
pub type Loaded<S> = (Seq<S>, Result<(), ErrorView>);

/// The reason given when a document's root is no mapping.
pub open spec fn root_reason() -> Seq<char> {
    "Config root must be an object"@
}

/// Loading the section that `name` finds from `bytes`. A name that finds no
/// section changes nothing and is no failure; no other section is touched.
pub open spec fn bytes_loaded<S: KonfigSection>(
    names: Seq<Seq<char>>,
    sections: Seq<S>,
    handler: FormatHandler,
    use_callbacks: bool,
    name: Seq<char>,
    bytes: Seq<u8>,
) -> Loaded<S> {
    match slot(names, name) {
        None => (sections, Ok(())),
        Some(index) => {
            let (next, outcome) = section_loaded(sections[index], bytes, &handler, use_callbacks);
            (sections.update(index, next), outcome)
        },
    }
}

/// Loading one member of a document. A member whose key finds no section is
/// passed over. Otherwise the member's tree is encoded again and handed to
/// the section it finds; a tree that cannot be encoded changes nothing.
pub open spec fn member_loaded<S: KonfigSection>(
    names: Seq<Seq<char>>,
    sections: Seq<S>,
    handler: FormatHandler,
    use_callbacks: bool,
    member: Member,
) -> Loaded<S> {
    match slot(names, member.0) {
        None => (sections, Ok(())),
        Some(_) => match handler.marshaled(member.1) {
            Err(e) => (sections, Err(e)),
            Ok(bytes) => bytes_loaded(names, sections, handler, use_callbacks, member.0, bytes),
        },
    }
}

/// Loading the members of a document in their order. The first failure ends
/// the loading: sections loaded before it keep their new state, those after
/// it are not touched.
pub open spec fn members_loaded<S: KonfigSection>(
    names: Seq<Seq<char>>,
    sections: Seq<S>,
    handler: FormatHandler,
    use_callbacks: bool,
    entries: Seq<Member>,
) -> Loaded<S>
    decreases entries.len(),
{
    if entries.len() == 0 {
        (sections, Ok(()))
    } else {
        let (next, outcome) = member_loaded(names, sections, handler, use_callbacks, entries[0]);
        if outcome is Err {
            (next, outcome)
        } else {
            members_loaded(names, next, handler, use_callbacks, entries.drop_first())
        }
    }
}

/// Loading a decoded document: its root has to be a mapping.
pub open spec fn tree_loaded<S: KonfigSection>(
    names: Seq<Seq<char>>,
    sections: Seq<S>,
    handler: FormatHandler,
    use_callbacks: bool,
    tree: Value,
) -> Loaded<S> {
    match members(tree) {
        None => (sections, Err(ErrorView::LoadError(root_reason()))),
        Some(entries) => members_loaded(names, sections, handler, use_callbacks, entries),
    }
}

/// Loading the bytes of a document. No bytes mean no persisted sections:
/// nothing is decoded and nothing changes.
pub open spec fn loaded<S: KonfigSection>(
    names: Seq<Seq<char>>,
    sections: Seq<S>,
    handler: FormatHandler,
    use_callbacks: bool,
    data: Seq<u8>,
) -> Loaded<S> {
    if data.len() == 0 {
        (sections, Ok(()))
    } else {
        match handler.unmarshaled(data) {
            Err(e) => (sections, Err(e)),
            Ok(tree) => tree_loaded(names, sections, handler, use_callbacks, tree),
        }
    }
}

/// The tree under which a section is saved: its own bytes, decoded.
pub open spec fn section_tree<S: KonfigSection>(section: S, handler: FormatHandler) -> Result<
    Value,
    ErrorView,
> {
    match section.to_bytes_result(&handler) {
        Err(e) => Err(e),
        Ok(bytes) => handler.unmarshaled(bytes),
    }
}

/// What collecting adds in front of what the later sections gave.
pub open spec fn with_front(front: Seq<Member>, rest: Result<Seq<Member>, ErrorView>) -> Result<
    Seq<Member>,
    ErrorView,
> {
    match rest {
        Ok(entries) => Ok(front + entries),
        Err(e) => Err(e),
    }
}

/// The members that the sections from `start` on give, each under its name,
/// or the failure of the first section that gives none.
pub open spec fn collected_from<S: KonfigSection>(
    names: Seq<Seq<char>>,
    sections: Seq<S>,
    handler: FormatHandler,
    start: int,
) -> Result<Seq<Member>, ErrorView>
    decreases sections.len() - start,
{
    if start < 0 || start >= sections.len() {
        Ok(Seq::empty())
    } else {
        match section_tree(sections[start], handler) {
            Err(e) => Err(e),
            Ok(tree) => with_front(
                seq![(names[start], tree)],
                collected_from(names, sections, handler, start + 1),
            ),
        }
    }
}

/// The members of the document that saving writes.
pub open spec fn collected<S: KonfigSection>(
    names: Seq<Seq<char>>,
    sections: Seq<S>,
    handler: FormatHandler,
) -> Result<Seq<Member>, ErrorView> {
    collected_from(names, sections, handler, 0)
}

/// The bytes that saving writes: the mapping of all sections' trees,
/// encoded; or the first failure on the way.
pub open spec fn saved<S: KonfigSection>(
    names: Seq<Seq<char>>,
    sections: Seq<S>,
    handler: FormatHandler,
) -> Result<Seq<u8>, ErrorView> {
    match collected(names, sections, handler) {
        Err(e) => Err(e),
        Ok(entries) => handler.marshaled(object_of(entries)),
    }
}

} // verus!
