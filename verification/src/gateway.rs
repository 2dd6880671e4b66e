use vstd::prelude::*;
use vstd::string::StringSliceAdditionalSpecFns;
use crate::json::append_json_string;
use crate::json::append_str;
use crate::json::json_string;

verus! {

// The two outbound collaborators are addressed and fed with byte strings
// built here; sending them over HTTP is not this library's work.

/// The callback address for a follow-up reply to an interaction, addressed
/// by the interaction's id and short-lived token.
pub open spec fn callback_url_spec(id: Seq<u8>, token: Seq<u8>) -> Seq<u8> {
    ("https://discord.com/api/v10/interactions/").spec_bytes() + id + ("/").spec_bytes() + token
        + ("/callback").spec_bytes()
}

pub fn callback_url(id: &[u8], token: &[u8]) -> (r: Vec<u8>)
    ensures
        r@ == callback_url_spec(id@, token@),
{
    let mut out: Vec<u8> = Vec::new();
    append_str(&mut out, "https://discord.com/api/v10/interactions/");
    crate::canonical::append_bytes(&mut out, id);
    append_str(&mut out, "/");
    crate::canonical::append_bytes(&mut out, token);
    append_str(&mut out, "/callback");
    assert(out@ =~= callback_url_spec(id@, token@));
    out
}

/// The body of a follow-up reply: the protocol's message-response payload
/// carrying the reply text as a JSON string.
pub open spec fn reply_payload_spec(message: Seq<u8>) -> Seq<u8> {
    ("{\"type\":4,\"data\":{\"content\":").spec_bytes() + json_string(message) + (
    "}}").spec_bytes()
}

pub fn reply_payload(message: &[u8]) -> (r: Vec<u8>)
    ensures
        r@ == reply_payload_spec(message@),
{
    let mut out: Vec<u8> = Vec::new();
    append_str(&mut out, "{\"type\":4,\"data\":{\"content\":");
    append_json_string(&mut out, message);
    append_str(&mut out, "}}");
    assert(out@ =~= reply_payload_spec(message@));
    out
}

/// The command-registration address of an application.
pub open spec fn registration_url_spec(application_id: Seq<u8>) -> Seq<u8> {
    ("https://discord.com/api/v10/applications/").spec_bytes() + application_id + (
    "/commands").spec_bytes()
}

pub fn registration_url(application_id: &[u8]) -> (r: Vec<u8>)
    ensures
        r@ == registration_url_spec(application_id@),
{
    let mut out: Vec<u8> = Vec::new();
    append_str(&mut out, "https://discord.com/api/v10/applications/");
    crate::canonical::append_bytes(&mut out, application_id);
    append_str(&mut out, "/commands");
    assert(out@ =~= registration_url_spec(application_id@));
    out
}

} // verus!
