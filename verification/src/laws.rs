//! Laws of registering, loading and saving, proved from the definitions that
//! the manager's contracts use.

use crate::error::ErrorView;
use crate::format::FormatHandler;
use crate::model::{
    collected, collected_from, loaded, member_loaded, members_loaded, saved, section_tree,
};
use crate::registry::{
    distinct, duplicate_reason, is_first, lemma_slot_found, lemma_slot_is_first, registered, slot,
};
use crate::section::{section_loaded, settled, KonfigSection};
use crate::tree::{distinct_keys, keys_of, members, same_members, Member};
use serde_json::Value;
use vstd::prelude::*;

verus! {

/// Registering keeps distinct names distinct, and keeps one name per
/// section.
pub proof fn lemma_registered_keeps_distinct<S>(
    names: Seq<Seq<char>>,
    sections: Seq<S>,
    name: Seq<char>,
    section: S,
)
    requires
        distinct(names),
        names.len() == sections.len(),
    ensures
        distinct(registered(names, sections, name, section).0),
        registered(names, sections, name, section).0.len() == registered(
            names,
            sections,
            name,
            section,
        ).1.len(),
{
}

/// Duplicate registration: once something was registered under a name, a
/// further registration under that name fails with a `RegistrationError` and
/// leaves the registry as the first registration left it; the name still
/// finds the section that was registered first.
pub proof fn lemma_duplicate_registration<S>(
    names: Seq<Seq<char>>,
    sections: Seq<S>,
    name: Seq<char>,
    first: S,
    second: S,
)
    requires
        names.len() == sections.len(),
    ensures
        ({
            let (names1, sections1, outcome1) = registered(names, sections, name, first);
            let (names2, sections2, outcome2) = registered(names1, sections1, name, second);
            &&& outcome2 == Err::<(), ErrorView>(
                ErrorView::RegistrationError(duplicate_reason(name)),
            )
            &&& names2 == names1
            &&& sections2 == sections1
            &&& slot(names2, name) is Some
            &&& outcome1 is Ok ==> sections2[slot(names2, name)->0] == first
        }),
{
    let (names1, sections1, outcome1) = registered(names, sections, name, first);
    if names.contains(name) {
        lemma_slot_found(names, name);
    } else {
        assert(names1[names.len() as int] == name);
        assert(is_first(names1, name, names.len() as int));
        lemma_slot_is_first(names1, name, names.len() as int);
    }
}

/// Callback ordering: with callbacks enabled, a failing validation is the
/// outcome whatever the load hook would have said, and a failing update is
/// the outcome whatever either callback would have said. With callbacks
/// disabled neither callback has a say.
pub proof fn lemma_validation_precedes_hook(
    updated: Result<(), ErrorView>,
    validated: Result<(), ErrorView>,
    hooked: Result<(), ErrorView>,
    other: Result<(), ErrorView>,
)
    ensures
        updated is Ok && validated is Err ==> settled(true, updated, validated, hooked)
            == validated,
        updated is Err ==> settled(true, updated, validated, hooked) == updated,
        updated is Ok && validated is Ok ==> settled(true, updated, validated, hooked) == hooked,
        settled(false, updated, validated, hooked) == settled(false, updated, other, other),
{
}

/// Empty-document tolerance: loading no bytes succeeds and changes no
/// section.
pub proof fn lemma_empty_document<S: KonfigSection>(
    names: Seq<Seq<char>>,
    sections: Seq<S>,
    handler: FormatHandler,
    use_callbacks: bool,
)
    ensures
        loaded(names, sections, handler, use_callbacks, Seq::<u8>::empty()) == (
            sections,
            Ok::<(), ErrorView>(()),
        ),
{
}

/// Loading keeps the number of sections.
pub proof fn lemma_loading_keeps_length<S: KonfigSection>(
    names: Seq<Seq<char>>,
    sections: Seq<S>,
    handler: FormatHandler,
    use_callbacks: bool,
    entries: Seq<Member>,
)
    requires
        names.len() == sections.len(),
    ensures
        members_loaded(names, sections, handler, use_callbacks, entries).0.len() == sections.len(),
    decreases entries.len(),
{
    if entries.len() > 0 {
        let (next, outcome) = member_loaded(names, sections, handler, use_callbacks, entries[0]);
        if names.contains(entries[0].0) {
            lemma_slot_found(names, entries[0].0);
        }
        if outcome is Ok {
            lemma_loading_keeps_length(names, next, handler, use_callbacks, entries.drop_first());
        }
    }
}

/// Unregistered tolerance: a member whose key names no registered section
/// can be taken out of a document without changing what loading does: the
/// sections end in the same states, with the same outcome.
pub proof fn lemma_unregistered_member<S: KonfigSection>(
    names: Seq<Seq<char>>,
    sections: Seq<S>,
    handler: FormatHandler,
    use_callbacks: bool,
    entries: Seq<Member>,
    at: int,
)
    requires
        0 <= at < entries.len(),
        !names.contains(entries[at].0),
    ensures
        members_loaded(names, sections, handler, use_callbacks, entries) == members_loaded(
            names,
            sections,
            handler,
            use_callbacks,
            entries.remove(at),
        ),
    decreases at,
{
    if at == 0 {
        assert(entries.remove(0) =~= entries.drop_first());
    } else {
        let (next, outcome) = member_loaded(names, sections, handler, use_callbacks, entries[0]);
        assert(entries.remove(at)[0] == entries[0]);
        assert(entries.remove(at).drop_first() =~= entries.drop_first().remove(at - 1));
        if outcome is Ok {
            lemma_unregistered_member(
                names,
                next,
                handler,
                use_callbacks,
                entries.drop_first(),
                at - 1,
            );
        }
    }
}

/// Unregistered tolerance, for a whole document: where no key names a
/// registered section, loading succeeds and changes no section.
pub proof fn lemma_unregistered_document<S: KonfigSection>(
    names: Seq<Seq<char>>,
    sections: Seq<S>,
    handler: FormatHandler,
    use_callbacks: bool,
    entries: Seq<Member>,
)
    requires
        forall|k: int| 0 <= k < entries.len() ==> !names.contains(#[trigger] entries[k].0),
    ensures
        members_loaded(names, sections, handler, use_callbacks, entries) == (
            sections,
            Ok::<(), ErrorView>(()),
        ),
    decreases entries.len(),
{
    if entries.len() > 0 {
        assert(!names.contains(entries[0].0));
        assert forall|k: int| 0 <= k < entries.drop_first().len() implies !names.contains(
            #[trigger] entries.drop_first()[k].0,
        ) by {
            assert(entries.drop_first()[k] == entries[k + 1]);
        }
        lemma_unregistered_document(names, sections, handler, use_callbacks, entries.drop_first());
    }
}

/// Missing-key tolerance: a registered section whose name is no key of the
/// document is in the same state after loading, however the loading ended.
pub proof fn lemma_missing_key<S: KonfigSection>(
    names: Seq<Seq<char>>,
    sections: Seq<S>,
    handler: FormatHandler,
    use_callbacks: bool,
    entries: Seq<Member>,
    index: int,
)
    requires
        names.len() == sections.len(),
        0 <= index < sections.len(),
        !keys_of(entries).contains(names[index]),
    ensures
        members_loaded(names, sections, handler, use_callbacks, entries).0.len() == sections.len(),
        members_loaded(names, sections, handler, use_callbacks, entries).0[index]
            == sections[index],
    decreases entries.len(),
{
    lemma_loading_keeps_length(names, sections, handler, use_callbacks, entries);
    if entries.len() > 0 {
        let (next, outcome) = member_loaded(names, sections, handler, use_callbacks, entries[0]);
        assert(keys_of(entries)[0] == entries[0].0);
        if names.contains(entries[0].0) {
            lemma_slot_found(names, entries[0].0);
        }
        assert(next[index] == sections[index]);
        assert(next.len() == sections.len());
        if outcome is Ok {
            assert forall|key: Seq<char>| keys_of(entries.drop_first()).contains(
                key,
            ) implies keys_of(entries).contains(key) by {
                let k = choose|k: int|
                    0 <= k < keys_of(entries.drop_first()).len() && keys_of(
                        entries.drop_first(),
                    )[k] == key;
                assert(keys_of(entries)[k + 1] == key);
            }
            lemma_missing_key(names, next, handler, use_callbacks, entries.drop_first(), index);
        }
    }
}

/// Missing-key tolerance, for the bytes of a document: a registered section
/// that the decoded document does not name is in the same state after
/// `load`, whether the bytes were empty, did not decode, held no mapping, or
/// were loaded.
pub proof fn lemma_missing_key_in_document<S: KonfigSection>(
    names: Seq<Seq<char>>,
    sections: Seq<S>,
    handler: FormatHandler,
    use_callbacks: bool,
    data: Seq<u8>,
    index: int,
)
    requires
        names.len() == sections.len(),
        0 <= index < sections.len(),
        data.len() > 0 ==> match handler.unmarshaled(data) {
            Ok(tree) => match members(tree) {
                Some(entries) => !keys_of(entries).contains(names[index]),
                None => true,
            },
            Err(_) => true,
        },
    ensures
        loaded(names, sections, handler, use_callbacks, data).0.len() == sections.len(),
        loaded(names, sections, handler, use_callbacks, data).0[index] == sections[index],
{
    if data.len() > 0 {
        if let Ok(tree) = handler.unmarshaled(data) {
            if let Some(entries) = members(tree) {
                lemma_missing_key(names, sections, handler, use_callbacks, entries, index);
            }
        }
    }
}

/// Idempotence of saving: what `save` gives is decided by the names, the
/// sections' states and the handler. So whatever two saves give on the same
/// manager, with no change between them, is the same: both fail alike, or
/// both give the same bytes, which decode alike.
pub proof fn lemma_save_repeats<S: KonfigSection>(
    names: Seq<Seq<char>>,
    sections: Seq<S>,
    handler: FormatHandler,
    first: Result<Seq<u8>, ErrorView>,
    second: Result<Seq<u8>, ErrorView>,
)
    requires
        first == saved(names, sections, handler),
        second == saved(names, sections, handler),
    ensures
        first == second,
        first is Ok ==> handler.unmarshaled(first->Ok_0) == handler.unmarshaled(second->Ok_0),
{
}

/// Decoding `data` gives back the members that were `written`: the bytes
/// decode to a mapping that holds those members, each key once, in whatever
/// order. Bytes for at least one member are not empty.
pub open spec fn reads_back(handler: FormatHandler, data: Seq<u8>, written: Seq<Member>) -> bool {
    &&& written.len() > 0 ==> data.len() > 0
    &&& match handler.unmarshaled(data) {
        Ok(tree) => match members(tree) {
            Some(read) => distinct_keys(read) && same_members(read, written),
            None => false,
        },
        Err(_) => false,
    }
}

/// Loading what was saved from `target` into `fresh` gives `target` back, and
/// the callbacks, where enabled, accept it.
pub open spec fn restores<S: KonfigSection>(
    handler: FormatHandler,
    use_callbacks: bool,
    target: S,
    fresh: S,
) -> bool {
    match section_tree(target, handler) {
        Err(_) => false,
        Ok(tree) => match handler.marshaled(tree) {
            Err(_) => false,
            Ok(bytes) => section_loaded(fresh, bytes, &handler, use_callbacks) == (
                target,
                Ok::<(), ErrorView>(()),
            ),
        },
    }
}

/// The sections while a document is being read back: those that the members
/// read so far name are restored, the others are still fresh.
pub open spec fn partly_restored<S>(
    names: Seq<Seq<char>>,
    fresh: Seq<S>,
    target: Seq<S>,
    done: Seq<Member>,
) -> Seq<S> {
    Seq::new(
        fresh.len(),
        |i: int|
            if keys_of(done).contains(names[i]) {
                target[i]
            } else {
                fresh[i]
            },
    )
}

/// Where every section gives a tree, the members collected from `start` on
/// are those trees under the sections' names, in registration order.
pub proof fn lemma_collected_members<S: KonfigSection>(
    names: Seq<Seq<char>>,
    sections: Seq<S>,
    handler: FormatHandler,
    start: int,
)
    requires
        0 <= start <= sections.len(),
        collected_from(names, sections, handler, start) is Ok,
    ensures
        collected_from(names, sections, handler, start)->Ok_0.len() == sections.len() - start,
        forall|k: int|
            0 <= k < sections.len() - start ==> section_tree(
                #[trigger] sections[start + k],
                handler,
            ) == Ok::<Value, ErrorView>(
                collected_from(names, sections, handler, start)->Ok_0[k].1,
            ) && collected_from(names, sections, handler, start)->Ok_0[k].0 == names[start + k],
    decreases sections.len() - start,
{
    if start < sections.len() {
        let tree = section_tree(sections[start], handler)->Ok_0;
        let rest = collected_from(names, sections, handler, start + 1);
        lemma_collected_members(names, sections, handler, start + 1);
        let all = collected_from(names, sections, handler, start)->Ok_0;
        assert(all == seq![(names[start], tree)] + rest->Ok_0);
        assert forall|k: int| 0 <= k < sections.len() - start implies section_tree(
            #[trigger] sections[start + k],
            handler,
        ) == Ok::<Value, ErrorView>(all[k].1) && all[k].0 == names[start + k] by {
            if k > 0 {
                assert(all[k] == rest->Ok_0[k - 1]);
                assert(sections[start + 1 + (k - 1)] == sections[start + k]);
            }
        }
    }
}

proof fn lemma_restore_from<S: KonfigSection>(
    names: Seq<Seq<char>>,
    target: Seq<S>,
    fresh: Seq<S>,
    handler: FormatHandler,
    use_callbacks: bool,
    written: Seq<Member>,
    read: Seq<Member>,
    k: int,
)
    requires
        names.len() == target.len(),
        target.len() == fresh.len(),
        distinct(names),
        collected(names, target, handler) == Ok::<Seq<Member>, ErrorView>(written),
        distinct_keys(read),
        same_members(read, written),
        forall|i: int|
            0 <= i < target.len() ==> restores(
                handler,
                use_callbacks,
                #[trigger] target[i],
                fresh[i],
            ),
        0 <= k <= read.len(),
    ensures
        members_loaded(
            names,
            partly_restored(names, fresh, target, read.take(k)),
            handler,
            use_callbacks,
            read.skip(k),
        ) == (target, Ok::<(), ErrorView>(())),
    decreases read.len() - k,
{
    let n = target.len() as int;
    lemma_collected_members(names, target, handler, 0);
    assert forall|i: int| 0 <= i < n implies written[i].0 == names[i] && section_tree(
        target[i],
        handler,
    ) == Ok::<Value, ErrorView>(written[i].1) by {
        assert(target[0 + i] == target[i]);
    }
    let state = partly_restored(names, fresh, target, read.take(k));
    if k == read.len() {
        assert(read.take(k) =~= read);
        assert forall|i: int| 0 <= i < n implies state[i] == target[i] by {
            assert(written.contains(written[i]));
            assert(read.contains(written[i]));
            let j = choose|j: int| 0 <= j < read.len() && read[j] == written[i];
            assert(keys_of(read)[j] == names[i]);
        }
        assert(state =~= target);
        assert(read.skip(k).len() == 0);
    } else {
        let rest = read.skip(k);
        let member = read[k];
        assert(rest[0] == member);
        assert(read.contains(member));
        assert(written.contains(member));
        let i = choose|i: int| 0 <= i < written.len() && written[i] == member;
        assert(member.0 == names[i]);
        assert(is_first(names, names[i], i));
        lemma_slot_is_first(names, names[i], i);
        assert(!keys_of(read.take(k)).contains(names[i])) by {
            if keys_of(read.take(k)).contains(names[i]) {
                let j = choose|j: int|
                    0 <= j < keys_of(read.take(k)).len() && keys_of(read.take(k))[j] == names[i];
                assert(read[j].0 == read[k].0);
            }
        }
        assert(state[i] == fresh[i]);
        assert(restores(handler, use_callbacks, target[i], fresh[i]));
        let next = state.update(i, target[i]);
        assert(member_loaded(names, state, handler, use_callbacks, member) == (
            next,
            Ok::<(), ErrorView>(()),
        ));
        let after = partly_restored(names, fresh, target, read.take(k + 1));
        assert forall|x: int| 0 <= x < n implies next[x] == after[x] by {
            let before_keys = keys_of(read.take(k));
            let after_keys = keys_of(read.take(k + 1));
            assert(after_keys.len() == k + 1);
            assert(after_keys[k] == names[i]);
            if before_keys.contains(names[x]) {
                let j = choose|j: int| 0 <= j < before_keys.len() && before_keys[j] == names[x];
                assert(after_keys[j] == names[x]);
            }
            if after_keys.contains(names[x]) && x != i {
                let j = choose|j: int| 0 <= j < after_keys.len() && after_keys[j] == names[x];
                assert(j != k);
                assert(before_keys[j] == names[x]);
            }
        }
        assert(next =~= after);
        assert(rest.drop_first() =~= read.skip(k + 1));
        lemma_restore_from(names, target, fresh, handler, use_callbacks, written, read, k + 1);
    }
}

/// Round trip: save the sections `target`, then load the bytes into a
/// manager that holds sections `fresh` under the same names. Where the
/// handler reads back the members that were written, and each fresh section
/// accepts what was saved for it, loading succeeds and every section is in
/// the state that was saved, whatever the order in which the document lists
/// its members.
pub proof fn lemma_round_trip<S: KonfigSection>(
    names: Seq<Seq<char>>,
    target: Seq<S>,
    fresh: Seq<S>,
    handler: FormatHandler,
    use_callbacks: bool,
    data: Seq<u8>,
)
    requires
        names.len() == target.len(),
        target.len() == fresh.len(),
        distinct(names),
        saved(names, target, handler) == Ok::<Seq<u8>, ErrorView>(data),
        reads_back(handler, data, collected(names, target, handler)->Ok_0),
        forall|i: int|
            0 <= i < target.len() ==> restores(
                handler,
                use_callbacks,
                #[trigger] target[i],
                fresh[i],
            ),
    ensures
        loaded(names, fresh, handler, use_callbacks, data) == (target, Ok::<(), ErrorView>(())),
{
    let written = collected(names, target, handler)->Ok_0;
    lemma_collected_members(names, target, handler, 0);
    if data.len() == 0 {
        assert(target.len() == 0);
        assert(fresh =~= target);
    } else {
        let tree = handler.unmarshaled(data)->Ok_0;
        let read = members(tree)->0;
        lemma_restore_from(names, target, fresh, handler, use_callbacks, written, read, 0);
        assert(read.take(0) =~= Seq::<Member>::empty());
        assert(partly_restored(names, fresh, target, read.take(0)) =~= fresh);
        assert(read.skip(0) =~= read);
    }
}

/// Format equivalence: the same sections saved through two handlers, and
/// each document loaded through its own handler into fresh sections under
/// the same names, end in equal states, where each handler reads back what
/// it wrote and the fresh sections accept it.
pub proof fn lemma_format_equivalence<S: KonfigSection>(
    names: Seq<Seq<char>>,
    target: Seq<S>,
    fresh_one: Seq<S>,
    fresh_two: Seq<S>,
    one: FormatHandler,
    two: FormatHandler,
    use_callbacks: bool,
    data_one: Seq<u8>,
    data_two: Seq<u8>,
)
    requires
        names.len() == target.len(),
        target.len() == fresh_one.len(),
        target.len() == fresh_two.len(),
        distinct(names),
        saved(names, target, one) == Ok::<Seq<u8>, ErrorView>(data_one),
        saved(names, target, two) == Ok::<Seq<u8>, ErrorView>(data_two),
        reads_back(one, data_one, collected(names, target, one)->Ok_0),
        reads_back(two, data_two, collected(names, target, two)->Ok_0),
        forall|i: int|
            0 <= i < target.len() ==> restores(one, use_callbacks, #[trigger] target[i], fresh_one[i]),
        forall|i: int|
            0 <= i < target.len() ==> restores(two, use_callbacks, #[trigger] target[i], fresh_two[i]),
    ensures
        loaded(names, fresh_one, one, use_callbacks, data_one) == loaded(
            names,
            fresh_two,
            two,
            use_callbacks,
            data_two,
        ),
        loaded(names, fresh_one, one, use_callbacks, data_one).0 == target,
{
    lemma_round_trip(names, target, fresh_one, one, use_callbacks, data_one);
    lemma_round_trip(names, target, fresh_two, two, use_callbacks, data_two);
}

} // verus!
