//! Properties of a ping's outcome, stated over the models that `answer_ping` and
//! `request_ip` are specified with.
use vstd::prelude::*;
use crate::error::{PorkbunErrorView, INVALID_API_KEY_MESSAGE};
use crate::json::json_object_members;
use crate::response::{decode_members, member_text, ping_outcome, Members};

verus! {

/// A body in the success shape yields its IP address exactly, untransformed.
pub proof fn success_reply_yields_ip(body: Seq<u8>, members: Members, ip: Seq<char>)
    requires
        json_object_members(body) == Some(members),
        member_text(members, "status"@) is Some,
        member_text(members, "yourIp"@) == Some(ip),
    ensures
        ping_outcome(Ok(body)) == Ok::<Seq<char>, PorkbunErrorView>(ip),
{
}

/// A body in the failure shape whose message is the provider's text for a bad
/// key yields the credentials error.
pub proof fn invalid_key_reply_is_credentials_error(body: Seq<u8>, members: Members)
    requires
        json_object_members(body) == Some(members),
        member_text(members, "status"@) is Some,
        member_text(members, "yourIp"@) is None,
        member_text(members, "message"@) == Some(INVALID_API_KEY_MESSAGE@),
    ensures
        ping_outcome(Ok(body)) == Err::<Seq<char>, PorkbunErrorView>(PorkbunErrorView::InvalidCredentialsError),
{
}

/// A body that is no JSON object, or one in neither shape, yields the decode error.
pub proof fn unrecognised_reply_is_decode_error(body: Seq<u8>)
    requires
        match json_object_members(body) {
            None => true,
            Some(members) => decode_members(members) is None,
        },
    ensures
        ping_outcome(Ok(body)) == Err::<Seq<char>, PorkbunErrorView>(PorkbunErrorView::ResponseDecodeError),
{
}

/// A transport failure reaches the caller unchanged, its diagnostic included.
pub proof fn transport_failure_passes_unchanged(error: PorkbunErrorView)
    ensures
        ping_outcome(Err(error)) == Err::<Seq<char>, PorkbunErrorView>(error),
{
}

/// The outcome depends on the transport's answer alone: two pings answered alike
/// end alike, with nothing carried from one to the next.
pub proof fn same_answer_same_outcome(first: Result<Seq<u8>, PorkbunErrorView>, second: Result<Seq<u8>, PorkbunErrorView>)
    requires
        first == second,
    ensures
        ping_outcome(first) == ping_outcome(second),
{
}

} // verus!
