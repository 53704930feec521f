//! What becomes of a payload: it is handled as a request, or refused.

use vstd::prelude::*;

use crate::transport::json;

verus! {

/// Why a request was refused.
#[derive(Clone, Copy, Debug, PartialEq, Eq, Structural)]
pub enum ErrorCode {
    /// The payload is not a request.
    InvalidRequest,
}

/// The error part of a refusal.
pub struct ErrorPayload {
    pub code: ErrorCode,
    pub message: String,
}

/// The answer to a payload that is not a request.
pub struct Refusal {
    /// Names the request that is refused.
    pub id: String,
    pub error: ErrorPayload,
}

/// What to do with a payload.
pub enum Dispatch<R> {
    /// Hand the request to the engine and send back what it answers.
    Handle(R),
    /// Send back a refusal.
    Refuse(Refusal),
}

/// The id of a refused request: that of the payload if it could be made out,
/// else `0`.
pub open spec fn refusal_id(found: Option<Seq<char>>) -> Seq<char> {
    match found {
        Some(id) => id,
        None => "0"@,
    }
}

/// The string under the key `id`, given the members of a JSON text.
pub open spec fn id_member(
    members: Option<Map<Seq<char>, Option<Seq<char>>>>,
) -> Option<Seq<char>> {
    match members {
        Some(map) => if map.dom().contains("id"@) {
            map["id"@]
        } else {
            None
        },
        None => None,
    }
}

/// Whether `refusal` is the refusal under `id`. Its message is fixed: nothing of
/// the payload but the id, and nothing of the parser, is told to the host.
pub open spec fn is_refusal(refusal: Refusal, id: Seq<char>) -> bool {
    &&& refusal.id@ == id
    &&& refusal.error.code == ErrorCode::InvalidRequest
    &&& refusal.error.message@ == "invalid request"@
}

/// A refusal tells the host nothing but the id: two payloads that are refused
/// under the same id get the same answer.
pub proof fn law_refusal_tells_only_the_id(a: Refusal, b: Refusal, id: Seq<char>)
    requires
        is_refusal(a, id),
        is_refusal(b, id),
    ensures
        a.id@ == b.id@,
        a.error.code == b.error.code,
        a.error.message@ == b.error.message@,
{
}

/// The refusal of a payload whose id is `found`.
pub fn refuse(found: Option<String>) -> (refusal: Refusal)
    ensures
        is_refusal(
            refusal,
            refusal_id(
                match found {
                    Some(id) => Some(id@),
                    None => None,
                },
            ),
        ),
{
    let id: String = match found {
        Some(id) => id,
        None => "0".to_owned(),
    };
    Refusal {
        id,
        error: ErrorPayload {
            code: ErrorCode::InvalidRequest,
            message: "invalid request".to_owned(),
        },
    }
}

/// The id of a payload, if it is a JSON object with a string under `id`.
pub fn payload_id(payload: &[u8]) -> (found: Option<String>)
    ensures
        match found {
            Some(id) => id_member(json::json_members(payload@)) == Some(id@),
            None => id_member(json::json_members(payload@)) is None,
        },
{
    match json::parse(payload) {
        Ok(value) => match json::member(&value, "id") {
            Some(inner) => match json::text(inner) {
                Some(id) => Some(id.to_owned()),
                None => None,
            },
            None => None,
        },
        Err(_) => None,
    }
}

/// Decides what to do with `payload`, given the request that it was parsed
/// into, if it could be.
pub fn dispatch<R>(payload: &[u8], parsed: Option<R>) -> (decision: Dispatch<R>)
    ensures
        match parsed {
            Some(request) => decision == Dispatch::Handle(request),
            None => decision matches Dispatch::Refuse(refusal) && is_refusal(
                refusal,
                refusal_id(id_member(json::json_members(payload@))),
            ),
        },
{
    match parsed {
        Some(request) => Dispatch::Handle(request),
        None => Dispatch::Refuse(refuse(payload_id(payload))),
    }
}

/// A refusal answers to the id that the payload carries as a string under `id`,
/// as it stands there, whatever else the payload holds; to `0` if there is none.
pub proof fn law_refusal_answers_to_the_payload(
    members: Map<Seq<char>, Option<Seq<char>>>,
    id: Seq<char>,
)
    ensures
        members.contains_pair("id"@, Some(id)) ==> refusal_id(id_member(Some(members))) == id,
        !members.dom().contains("id"@) || members["id"@] is None ==> refusal_id(
            id_member(Some(members)),
        ) == "0"@,
        refusal_id(id_member(None)) == "0"@,
{
}

/// An id is made out exactly if there is a string under `id`; other members make
/// no difference.
pub proof fn law_only_the_id_matters(
    members: Map<Seq<char>, Option<Seq<char>>>,
    key: Seq<char>,
    value: Option<Seq<char>>,
)
    requires
        key != "id"@,
    ensures
        id_member(Some(members.insert(key, value))) == id_member(Some(members)),
        id_member(Some(members)) is Some <==> members.dom().contains("id"@) && members["id"@]
            is Some,
{
}

/// Every refusal carries its id unchanged, one error code and one message.
pub proof fn law_refusals_say_one_thing(refusal: Refusal, id: Seq<char>)
    ensures
        is_refusal(refusal, id) <==> refusal.id@ == id && refusal.error.code is InvalidRequest
            && refusal.error.message@ == "invalid request"@,
{
}

} // verus!
