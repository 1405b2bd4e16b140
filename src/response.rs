//! The two shapes of a ping reply, told apart by the fields they carry.
use vstd::prelude::*;
use crate::error::{classify_message, match_error_string, PorkbunError, PorkbunErrorView};
use crate::json::{decode_json_object, json_object_members};

verus! {

/// A decoded JSON object: each member's key and, for a string value, its text.
pub type Members = Seq<(Seq<char>, Option<Seq<char>>)>;

/// The reply to a ping with valid credentials.
pub struct PingSuccessResponse {
    pub status: String,
    pub your_ip: String,
}

/// The reply to a request that the provider refused.
pub struct PorkbunFailureResponse {
    pub status: String,
    pub message: String,
}

/// A ping reply, with the shape that it was decoded as made explicit.
pub enum PingResponse {
    Success(PingSuccessResponse),
    Failure(PorkbunFailureResponse),
}

/// Mathematical model of [`PingResponse`].
pub enum PingResponseView {
    Success { status: Seq<char>, your_ip: Seq<char> },
    Failure { status: Seq<char>, message: Seq<char> },
}

impl View for PingResponse {
    type V = PingResponseView;

    open spec fn view(&self) -> PingResponseView {
        match self {
            PingResponse::Success(s) => PingResponseView::Success { status: s.status@, your_ip: s.your_ip@ },
            PingResponse::Failure(f) => PingResponseView::Failure { status: f.status@, message: f.message@ },
        }
    }
}

/// Model of a result that carries an IP address or an error.
pub open spec fn outcome_view(r: Result<String, PorkbunError>) -> Result<Seq<char>, PorkbunErrorView> {
    match r {
        Ok(ip) => Ok(ip@),
        Err(e) => Err(e@),
    }
}

/// Model of what a transport hands back: the reply body or an error.
pub open spec fn sent_view(sent: Result<Vec<u8>, PorkbunError>) -> Result<Seq<u8>, PorkbunErrorView> {
    match sent {
        Ok(body) => Ok(body@),
        Err(e) => Err(e@),
    }
}

/// The string text of the first member named `key`, if that member holds a string.
pub open spec fn member_text(members: Members, key: Seq<char>) -> Option<Seq<char>>
    decreases members.len(),
{
    if members.len() == 0 {
        None
    } else if members[0].0 == key {
        members[0].1
    } else {
        member_text(members.drop_first(), key)
    }
}

/// Shape probing: the success shape (`status` and `yourIp`, both strings) is tried
/// first, then the failure shape (`status` and `message`); otherwise nothing.
pub open spec fn decode_members(members: Members) -> Option<PingResponseView> {
    match (member_text(members, "status"@), member_text(members, "yourIp"@), member_text(members, "message"@)) {
        (Some(status), Some(your_ip), _) => Some(PingResponseView::Success { status, your_ip }),
        (Some(status), None, Some(message)) => Some(PingResponseView::Failure { status, message }),
        _ => None,
    }
}

/// What a decoded reply means to the caller.
pub open spec fn reply_outcome(response: PingResponseView) -> Result<Seq<char>, PorkbunErrorView> {
    match response {
        PingResponseView::Success { your_ip, .. } => Ok(your_ip),
        PingResponseView::Failure { message, .. } => Err(classify_message(message)),
    }
}

/// What a reply body means to the caller, given the JSON object it decodes to.
pub open spec fn members_outcome(members: Option<Members>) -> Result<Seq<char>, PorkbunErrorView> {
    match members {
        None => Err(PorkbunErrorView::ResponseDecodeError),
        Some(m) => match decode_members(m) {
            None => Err(PorkbunErrorView::ResponseDecodeError),
            Some(response) => reply_outcome(response),
        },
    }
}

/// What the transport's answer to a ping means to the caller: its error unchanged,
/// or the meaning of the reply body.
pub open spec fn ping_outcome(sent: Result<Seq<u8>, PorkbunErrorView>) -> Result<Seq<char>, PorkbunErrorView> {
    match sent {
        Err(e) => Err(e),
        Ok(body) => members_outcome(json_object_members(body)),
    }
}

/// Returns the text of the first member named `key`, if it holds a string.
pub fn find_member_text(members: &Vec<(String, Option<String>)>, key: &str) -> (r: Option<String>)
    ensures
        r.deep_view() == member_text(members.deep_view(), key@),
{
    let wanted = key.to_owned();
    let mut i: usize = 0;
    assert(members.deep_view().skip(0) =~= members.deep_view());
    while i < members.len()
        invariant
            i <= members.len(),
            wanted@ == key@,
            member_text(members.deep_view(), key@) == member_text(members.deep_view().skip(i as int), key@),
        decreases members.len() - i,
    {
        let ghost rest = members.deep_view().skip(i as int);
        assert(rest.drop_first() =~= members.deep_view().skip(i + 1));
        if members[i].0 == wanted {
            return match &members[i].1 {
                Some(text) => Some(text.clone()),
                None => None,
            };
        }
        i = i + 1;
    }
    assert(members.deep_view().skip(i as int).len() == 0);
    None
}

/// Decodes a JSON object as a ping reply, trying the success shape first.
pub fn decode_ping_response(members: &Vec<(String, Option<String>)>) -> (r: Option<PingResponse>)
    ensures
        match r {
            Some(response) => decode_members(members.deep_view()) == Some(response@),
            None => decode_members(members.deep_view()) is None,
        },
{
    let status = find_member_text(members, "status");
    let your_ip = find_member_text(members, "yourIp");
    let message = find_member_text(members, "message");
    match (status, your_ip, message) {
        (Some(status), Some(your_ip), _) => Some(PingResponse::Success(PingSuccessResponse { status, your_ip })),
        (Some(status), None, Some(message)) => Some(PingResponse::Failure(PorkbunFailureResponse { status, message })),
        _ => None,
    }
}

/// The IP address of a success reply, or the error that a failure reply reports.
pub fn ping_result(response: PingResponse) -> (r: Result<String, PorkbunError>)
    ensures
        outcome_view(r) == reply_outcome(response@),
{
    match response {
        PingResponse::Success(success) => Ok(success.your_ip),
        PingResponse::Failure(failure) => Err(match_error_string(failure.message.as_str())),
    }
}

/// Interprets what the transport handed back: its error passes unchanged, a body
/// is decoded and classified.
pub fn answer_ping(sent: Result<Vec<u8>, PorkbunError>) -> (r: Result<String, PorkbunError>)
    ensures
        outcome_view(r) == ping_outcome(sent_view(sent)),
{
    match sent {
        Err(e) => Err(e),
        Ok(body) => match decode_json_object(body.as_slice()) {
            Err(_) => Err(PorkbunError::ResponseDecodeError),
            Ok(members) => match decode_ping_response(&members) {
                None => Err(PorkbunError::ResponseDecodeError),
                Some(response) => ping_result(response),
            },
        },
    }
}

} // verus!
