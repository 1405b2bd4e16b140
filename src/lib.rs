//! Client for the Porkbun DNS API ping endpoint: builds the authenticated
//! request, hands it to an injectable transport and classifies the reply.

pub mod client;
pub mod error;
pub mod json;
pub mod laws;
pub mod response;

pub use client::{
    credentials_json, frame_credentials, ping_request, request_ip, Credentials, HttpClient, PingRequest, PING_URL,
};
pub use error::{match_error_string, PorkbunError, PorkbunErrorView, INVALID_API_KEY_MESSAGE};
pub use response::{
    answer_ping, decode_ping_response, find_member_text, ping_result, PingResponse, PingSuccessResponse,
    PorkbunFailureResponse,
};
