use vstd::prelude::*;

use crate::errors::{outcome_view, text_result, ApiError, ApiErrorView, ClientError, ClientErrorView};

verus! {

/// Update calls the DNS-hosting API accepts per minute.
pub const GANDI_RATE_LIMIT: u32 = 30;

/// Longest wait, in seconds, added at random before a call once the limit is reached.
pub const GANDI_DELAY_JITTER: u64 = 20;

/// Status of an accepted update.
pub const STATUS_CREATED: u16 = 201;

/// Status of a call whose API key was refused.
pub const STATUS_UNAUTHORIZED: u16 = 401;

/// Status of a call that the API forbade.
pub const STATUS_FORBIDDEN: u16 = 403;

/// Value of the authorization header that carries `api_key`.
pub fn auth_header_value(api_key: &str) -> (r: String)
    ensures
        r@ == "Apikey "@ + api_key@,
{
    let mut v = String::from_str("Apikey ");
    v.append(api_key);
    v
}

/// The resource of one record set: a domain, a record name and a record type.
pub struct GandiAPI<'t> {
    pub base_url: &'t str,
    pub fqdn: &'t str,
    pub rrset_name: &'t str,
    pub rrset_type: &'t str,
}

/// Address of the record set `(fqdn, name, rtype)` under the API at `base`.
pub open spec fn record_url(base: Seq<char>, fqdn: Seq<char>, name: Seq<char>, rtype: Seq<char>) -> Seq<char> {
    base + "/v5/livedns/domains/"@ + fqdn + "/records/"@ + name + "/"@ + rtype
}

impl<'t> GandiAPI<'t> {
    /// Address of this record set.
    pub fn url(&self) -> (r: String)
        ensures
            r@ == record_url(self.base_url@, self.fqdn@, self.rrset_name@, self.rrset_type@),
    {
        let mut u = String::from_str(self.base_url);
        u.append("/v5/livedns/domains/");
        u.append(self.fqdn);
        u.append("/records/");
        u.append(self.rrset_name);
        u.append("/");
        u.append(self.rrset_type);
        u
    }
}

/// Body of an update call: the addresses of the record set and its time-to-live.
#[derive(Debug)]
pub struct APIPayload {
    pub rrset_values: Vec<String>,
    pub rrset_ttl: u32,
}

/// What an [`APIPayload`] holds, as plain values.
pub struct APIPayloadView {
    pub rrset_values: Seq<Seq<char>>,
    pub rrset_ttl: u32,
}

impl View for APIPayload {
    type V = APIPayloadView;

    open spec fn view(&self) -> APIPayloadView {
        APIPayloadView { rrset_values: self.rrset_values.deep_view(), rrset_ttl: self.rrset_ttl }
    }
}

/// The answer to an update call: its status, and the `message` of its JSON
/// body, or why the body could not be read.
#[derive(Debug)]
pub struct HttpReply {
    pub status: u16,
    pub message: Result<String, String>,
}

/// What an [`HttpReply`] holds, as plain values.
pub struct HttpReplyView {
    pub status: u16,
    pub message: Result<Seq<char>, Seq<char>>,
}

impl View for HttpReply {
    type V = HttpReplyView;

    open spec fn view(&self) -> HttpReplyView {
        HttpReplyView { status: self.status, message: text_result(self.message) }
    }
}

/// The view of an update call's end: an answer, or why none came.
pub open spec fn reply_view(r: Result<HttpReply, String>) -> Result<HttpReplyView, Seq<char>> {
    match r {
        Ok(h) => Ok(h@),
        Err(m) => Err(m@),
    }
}

/// The result of an update call that ended in `reply`: the API's message on
/// status 201, the refusal on any other status, and a request error where no
/// answer came or its body could not be read (a 401 needs no body).
pub open spec fn classify(reply: Result<HttpReplyView, Seq<char>>) -> Result<Seq<char>, ClientErrorView> {
    match reply {
        Err(m) => Err(ClientErrorView::Request(m)),
        Ok(h) => if h.status == 401 {
            Err(ClientErrorView::Api(ApiErrorView::Unauthorized))
        } else {
            match h.message {
                Err(m) => Err(ClientErrorView::Request(m)),
                Ok(msg) => if h.status == 201 {
                    Ok(msg)
                } else if h.status == 403 {
                    Err(ClientErrorView::Api(ApiErrorView::Forbidden { message: msg }))
                } else {
                    Err(ClientErrorView::Api(ApiErrorView::Unknown(h.status, msg)))
                },
            }
        },
    }
}

/// Turns the end of an update call into the update's result.
pub fn classify_reply(reply: &Result<HttpReply, String>) -> (r: Result<String, ClientError>)
    ensures
        outcome_view(r) == classify(reply_view(*reply)),
{
    match reply {
        Err(m) => Err(ClientError::Request(m.clone())),
        Ok(h) => {
            if h.status == STATUS_UNAUTHORIZED {
                Err(ClientError::Api(ApiError::Unauthorized()))
            } else {
                match &h.message {
                    Err(m) => Err(ClientError::Request(m.clone())),
                    Ok(msg) => {
                        if h.status == STATUS_CREATED {
                            Ok(msg.clone())
                        } else if h.status == STATUS_FORBIDDEN {
                            Err(ClientError::Api(ApiError::Forbidden { message: msg.clone() }))
                        } else {
                            Err(ClientError::Api(ApiError::Unknown(h.status, msg.clone())))
                        }
                    },
                }
            }
        },
    }
}

} // verus!
