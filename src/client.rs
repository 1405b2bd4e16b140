//! The ping request: credentials framed as JSON, sent through a transport.
use vstd::prelude::*;
use crate::error::{PorkbunError, PorkbunErrorView};
use crate::json::{json_string_literal, quote_json_string};
use crate::response::{answer_ping, outcome_view, ping_outcome, sent_view};

verus! {

/// The provider's ping endpoint.
pub const PING_URL: &'static str = "https://api-ipv4.porkbun.com/api/json/v3/ping";

/// The API key pair that authenticates every request.
pub struct Credentials {
    pub api_key: String,
    pub api_secret: String,
}

/// Sends a JSON body to a URL and hands back the raw reply body.
///
/// A failure to send is reported as `PorkbunError::WebRequestError` with a
/// diagnostic, a reply body that cannot be read as
/// `PorkbunError::ResponseDecodeError`; an HTTP error status is not inspected. The production implementation talks HTTPS; a stand-in can
/// return a prepared body without touching the network.
pub trait HttpClient {
    fn post_json(&self, url: &str, body: &str) -> Result<Vec<u8>, PorkbunError>;
}

/// The request body for a key and a secret already written as JSON string literals.
pub open spec fn credentials_frame(key_literal: Seq<char>, secret_literal: Seq<char>) -> Seq<char> {
    "{\"apikey\":"@ + key_literal + ",\"secretapikey\":"@ + secret_literal + "}"@
}

/// Frames the two credential literals as the JSON object the provider expects.
pub fn frame_credentials(key_literal: &str, secret_literal: &str) -> (r: String)
    ensures
        r@ == credentials_frame(key_literal@, secret_literal@),
{
    let mut body = String::from_str("{\"apikey\":");
    body.append(key_literal);
    body.append(",\"secretapikey\":");
    body.append(secret_literal);
    body.append("}");
    body
}

/// The JSON request body for `credentials`.
pub fn credentials_json(credentials: &Credentials) -> (r: String)
    ensures
        r@ == credentials_frame(
            json_string_literal(credentials.api_key@),
            json_string_literal(credentials.api_secret@),
        ),
{
    let key = quote_json_string(credentials.api_key.as_str()).unwrap();
    let secret = quote_json_string(credentials.api_secret.as_str()).unwrap();
    frame_credentials(key.as_str(), secret.as_str())
}

/// What a ping sends: where, and with which body.
pub struct PingRequest {
    pub url: String,
    pub body: String,
}

/// The ping request for `credentials`: the ping endpoint and the credentials body.
pub fn ping_request(credentials: &Credentials) -> (r: PingRequest)
    ensures
        r.url@ == PING_URL@,
        r.body@ == credentials_frame(
            json_string_literal(credentials.api_key@),
            json_string_literal(credentials.api_secret@),
        ),
{
    PingRequest { url: String::from_str(PING_URL), body: credentials_json(credentials) }
}

/// Asks the provider, through `client`, for the caller's public IP address.
///
/// Sends [`ping_request`] once through `client`, with no retry, and returns what
/// [`answer_ping`] makes of the transport's answer; nothing fails before the send.
pub fn request_ip<T: HttpClient>(client: &T, credentials: &Credentials) -> (r: Result<String, PorkbunError>)
    ensures
        exists|sent: Result<Seq<u8>, PorkbunErrorView>| outcome_view(r) == ping_outcome(sent),
{
    let request = ping_request(credentials);
    let sent = client.post_json(request.url.as_str(), request.body.as_str());
    let ghost sent_model = sent_view(sent);
    let r = answer_ping(sent);
    assert(outcome_view(r) == ping_outcome(sent_model));
    r
}

} // verus!
