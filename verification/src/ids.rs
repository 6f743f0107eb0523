//! Identifiers of external sessions, tasks and tool requests.

use uuid::Uuid;
use vstd::prelude::*;

verus! {

#[verifier::external_type_specification]
#[verifier::external_body]
pub struct ExUuid(uuid::Uuid);

/// `<Uuid as Clone>::clone`: the same id.
pub assume_specification[ <uuid::Uuid as Clone>::clone ](id: &Uuid) -> (r: Uuid)
    ensures
        r == *id,
;

/// The id of a session in the external (cloud) system.
pub type ExternalSessionId = Uuid;

/// The id of a task in the external (cloud) system.
pub type ExternalTaskId = Uuid;

/// `Uuid::new_v4()`: a fresh random id. It is random, so nothing is stated
/// of it.
#[verifier::external_body]
pub(crate) fn fresh_uuid() -> Uuid {
    Uuid::new_v4()
}

/// The hyphenated text of an id, as `Uuid`'s `Display` writes it.
pub uninterp spec fn uuid_text(id: Uuid) -> Seq<char>;

/// `id.to_string()`: the id's hyphenated text.
#[verifier::external_body]
pub(crate) fn uuid_to_string(id: &Uuid) -> (r: String)
    ensures
        r@ == uuid_text(*id),
{
    id.to_string()
}

/// The id that `Uuid::parse_str` reads from a text, or `None` when the text
/// spells no id.
pub uninterp spec fn parsed_uuid(text: Seq<char>) -> Option<Uuid>;

/// `Uuid::parse_str(text).ok()`: the id the text spells, if any.
#[verifier::external_body]
pub(crate) fn parse_uuid(text: &str) -> (r: Option<Uuid>)
    ensures
        r == parsed_uuid(text@),
{
    Uuid::parse_str(text).ok()
}

/// A fresh random id in hyphenated form: the text of some id, which one is
/// left open since it is random.
pub(crate) fn fresh_request_id() -> (r: String)
    ensures
        exists|id: Uuid| r@ == #[trigger] uuid_text(id),
{
    let id = fresh_uuid();
    let r = uuid_to_string(&id);
    assert(r@ == uuid_text(id));
    r
}

} // verus!
