//! What a configuration structure provides to take part in loading and
//! saving.

use crate::error::{bytes_outcome, unit_outcome, ErrorView, KonfigError};
use crate::format::FormatHandler;
use std::borrow::Cow;
use vstd::prelude::*;

verus! {

/// A named, independently encodable configuration structure.
///
/// Beside each operation stands the name of what it returns, as a function of
/// the section's state and the operation's arguments; an implementation is
/// held to those names. `validate` and `on_load` read the section only, so
/// calling them changes nothing; `update_from_bytes` alone replaces the state.
///
/// A verified implementation defines each name as what its operation really
/// returns. The bodies given here say nothing of the result; they are there
/// so that an implementation written without Verus need not mention the
/// names, and nothing is ever proved from them.
pub trait KonfigSection: Sized {
    /// What `name` returns.
    open spec fn name_of(&self) -> Seq<char> {
        arbitrary()
    }

    /// What `validate` returns in this state.
    open spec fn validate_result(&self) -> Result<(), ErrorView> {
        arbitrary()
    }

    /// What `on_load` returns in this state.
    open spec fn on_load_result(&self) -> Result<(), ErrorView> {
        arbitrary()
    }

    /// What `to_bytes` returns in this state for `format`.
    open spec fn to_bytes_result(&self, format: &FormatHandler) -> Result<Seq<u8>, ErrorView> {
        arbitrary()
    }

    /// The state that `update_from_bytes` leaves behind, and what it returns.
    open spec fn update_result(&self, bytes: Seq<u8>, format: &FormatHandler) -> (
        Self,
        Result<(), ErrorView>,
    ) {
        arbitrary()
    }

    /// The identifier of the section: the key under which its data lies in a
    /// document.
    fn name(&self) -> (r: Cow<'_, str>)
        ensures
            r@ == self.name_of(),
    ;

    /// Checks the state; reports a `ValidationError` where it is not
    /// acceptable.
    fn validate(&self) -> (r: Result<(), KonfigError>)
        ensures
            unit_outcome(r) == self.validate_result(),
    ;

    /// Runs after the state was replaced by loaded data.
    fn on_load(&self) -> (r: Result<(), KonfigError>)
        ensures
            unit_outcome(r) == self.on_load_result(),
    ;

    /// Encodes the current state in `format`.
    fn to_bytes(&self, format: &FormatHandler) -> (r: Result<Vec<u8>, KonfigError>)
        ensures
            bytes_outcome(r) == self.to_bytes_result(format),
    ;

    /// Replaces the state by what `bytes` hold in `format`.
    fn update_from_bytes(&mut self, bytes: &[u8], format: &FormatHandler) -> (r: Result<
        (),
        KonfigError,
    >)
        ensures
            (*final(self), unit_outcome(r)) == old(self).update_result(bytes@, format),
    ;
}

/// What loading decides for one section once its callbacks have answered:
/// the first failure among the update, then (with callbacks enabled) the
/// validation, then the load hook.
pub open spec fn settled(
    use_callbacks: bool,
    updated: Result<(), ErrorView>,
    validated: Result<(), ErrorView>,
    hooked: Result<(), ErrorView>,
) -> Result<(), ErrorView> {
    if updated is Err {
        updated
    } else if !use_callbacks {
        Ok(())
    } else if validated is Err {
        validated
    } else {
        hooked
    }
}

/// The state of `section` after it was loaded from `bytes`, and the outcome.
pub open spec fn section_loaded<S: KonfigSection>(
    section: S,
    bytes: Seq<u8>,
    format: &FormatHandler,
    use_callbacks: bool,
) -> (S, Result<(), ErrorView>) {
    let (next, updated) = section.update_result(bytes, format);
    (next, settled(use_callbacks, updated, next.validate_result(), next.on_load_result()))
}

/// The name of `section` as an owned string.
pub fn owned_name<S: KonfigSection>(section: &S) -> (r: String)
    ensures
        r@ == section.name_of(),
{
    match section.name() {
        Cow::Borrowed(text) => text.to_owned(),
        Cow::Owned(text) => text,
    }
}

/// Loads one section from `bytes`: replaces its state and, with callbacks
/// enabled, validates it and then runs its load hook. The hook does not run
/// where validation fails, and neither runs where the update fails.
pub fn load_section<S: KonfigSection>(
    section: &mut S,
    bytes: &[u8],
    format: &FormatHandler,
    use_callbacks: bool,
) -> (r: Result<(), KonfigError>)
    ensures
        (*final(section), unit_outcome(r)) == section_loaded(
            *old(section),
            bytes@,
            format,
            use_callbacks,
        ),
{
    match section.update_from_bytes(bytes, format) {
        Err(e) => Err(e),
        Ok(()) => {
            if use_callbacks {
                match section.validate() {
                    Err(e) => Err(e),
                    Ok(()) => section.on_load(),
                }
            } else {
                Ok(())
            }
        },
    }
}

} // verus!
