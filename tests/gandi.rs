use gandi_live_dns::errors::{ApiError, ClientError};
use gandi_live_dns::gandi::{auth_header_value, classify_reply, GandiAPI, HttpReply, GANDI_DELAY_JITTER, GANDI_RATE_LIMIT};

fn reply(status: u16, message: &str) -> Result<HttpReply, String> {
    Ok(HttpReply { status, message: Ok(message.to_string()) })
}

#[test]
fn url_names_domain_record_and_type() {
    let api = GandiAPI { base_url: "https://api.gandi.net", fqdn: "example.com", rrset_name: "@", rrset_type: "A" };
    assert_eq!(api.url(), "https://api.gandi.net/v5/livedns/domains/example.com/records/@/A");
}

#[test]
fn auth_header_carries_key() {
    assert_eq!(auth_header_value("xxx"), "Apikey xxx");
}

#[test]
fn rate_limit_constants() {
    assert_eq!(GANDI_RATE_LIMIT, 30);
    assert_eq!(GANDI_DELAY_JITTER, 20);
}

#[test]
fn created_is_success_with_message() {
    assert_eq!(classify_reply(&reply(201, "DNS Record Created")), Ok("DNS Record Created".to_string()));
}

#[test]
fn unauthorized_needs_no_body() {
    let r = Ok(HttpReply { status: 401, message: Err("not json".to_string()) });
    assert_eq!(classify_reply(&r), Err(ClientError::Api(ApiError::Unauthorized())));
}

#[test]
fn forbidden_carries_message() {
    assert_eq!(
        classify_reply(&reply(403, "no access")),
        Err(ClientError::Api(ApiError::Forbidden { message: "no access".to_string() }))
    );
}

#[test]
fn other_status_is_unknown() {
    assert_eq!(
        classify_reply(&reply(500, "Something went wrong")),
        Err(ClientError::Api(ApiError::Unknown(500, "Something went wrong".to_string())))
    );
    assert_eq!(
        classify_reply(&reply(200, "")),
        Err(ClientError::Api(ApiError::Unknown(200, "".to_string())))
    );
}

#[test]
fn transport_failure_is_request_error() {
    assert_eq!(
        classify_reply(&Err("connection refused".to_string())),
        Err(ClientError::Request("connection refused".to_string()))
    );
}

#[test]
fn unreadable_body_is_request_error() {
    let r = Ok(HttpReply { status: 201, message: Err("expected value".to_string()) });
    assert_eq!(classify_reply(&r), Err(ClientError::Request("expected value".to_string())));
}
