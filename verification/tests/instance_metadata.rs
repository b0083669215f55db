use std::time::Duration;

use opentelemetry_aws::{Client, EC2InstanceIdentityDocument, EC2InstanceMetadataClient, Error};
use opentelemetry_aws::instance_metadata::parse_identity_document;

#[test]
fn fetch_returns_http_error_when_no_service_answers() {
    // Nothing listens at this address, so the single GET request cannot
    // complete and the failure is classified at the transport layer.
    let client = EC2InstanceMetadataClient::with_custom_url("http://127.0.0.1:9".to_string());
    let got = client.get_instance_identity_document(Duration::from_secs(1));

    match got {
        Err(Error::HttpRequestFailed(msg)) => assert!(!msg.is_empty()),
        _ => panic!("expected a transport failure"),
    }
}

#[test]
fn fetch_with_zero_timeout_returns_http_error() {
    let client = EC2InstanceMetadataClient::with_custom_url("http://127.0.0.1:9".to_string());
    let got = client.get_instance_identity_document(Duration::from_secs(0));

    assert!(matches!(got, Err(Error::HttpRequestFailed(_))));
}

#[test]
fn parse_decodes_a_full_document() {
    let got = parse_identity_document(
        "{\"accountId\":\"123456789012\",\"architecture\":\"x86_64\",\"availabilityZone\":\"eu-west-1a\",\"billingProducts\":null,\"devpayProductCodes\":null,\"marketplaceProductCodes\":null,\"imageId\":\"ami-5fb8c835\",\"instanceId\":\"i-1234567890abcdef0\",\"instanceType\":\"t2.micro\",\"kernelId\":null,\"pendingTime\":\"2024-07-22T06:33:13Z\",\"privateIp\":\"10.0.0.45\",\"ramdiskId\":null,\"region\":\"eu-west-1\",\"version\":\"2017-09-30\"}",
    )
    .unwrap();

    let expected = EC2InstanceIdentityDocument {
        region: "eu-west-1".to_string(),
        account_id: "123456789012".to_string(),
        architecture: "x86_64".to_string(),
        availability_zone: "eu-west-1a".to_string(),
        image_id: "ami-5fb8c835".to_string(),
        instance_id: "i-1234567890abcdef0".to_string(),
        instance_type: "t2.micro".to_string(),
        private_ip: "10.0.0.45".to_string(),
    };

    assert_eq!(expected, got);
}

#[test]
fn empty_body_is_a_deserialization_error() {
    // A non-success status answers with no payload; decoding the empty
    // body is exactly where that surfaces, as a deserialization error.
    let got = parse_identity_document("");
    assert!(matches!(got, Err(Error::Deserialization(_))));
}

#[test]
fn unparsable_body_is_a_deserialization_error() {
    let got = parse_identity_document("this is not json");
    match got {
        Err(Error::Deserialization(msg)) => assert!(!msg.is_empty()),
        _ => panic!("expected a deserialization error"),
    }
}

#[test]
fn parse_decodes_a_partial_document_with_defaults() {
    let got = parse_identity_document("{\"accountId\":\"123456789012\",\"region\":\"eu-west-1\"}")
        .unwrap();

    assert_eq!(got.account_id, "123456789012");
    assert_eq!(got.region, "eu-west-1");
    assert_eq!(got.private_ip, "");
    assert_eq!(got.instance_id, "");
    assert_eq!(got.instance_type, "");
    assert_eq!(got.image_id, "");
    assert_eq!(got.architecture, "");
    assert_eq!(got.availability_zone, "");
}

#[test]
fn parse_decodes_an_empty_object_as_the_default_document() {
    let got = parse_identity_document("{}").unwrap();
    assert_eq!(got, EC2InstanceIdentityDocument::default());
}

#[test]
fn parse_ignores_unrecognized_members_of_any_shape() {
    let got = parse_identity_document(
        "{\"instanceId\":\"i-0\",\"billingProducts\":null,\"extra\":[1,2],\"nested\":{\"a\":1},\"count\":7}",
    )
    .unwrap();
    assert_eq!(got.instance_id, "i-0");
    assert_eq!(got.account_id, "");
}

#[test]
fn parse_rejects_a_non_object_body() {
    let got = parse_identity_document("[\"accountId\"]");
    assert!(matches!(got, Err(Error::Deserialization(_))));
}

#[test]
fn parse_rejects_a_non_string_recognized_member() {
    let got = parse_identity_document("{\"accountId\":123456789012}");
    assert!(matches!(got, Err(Error::Deserialization(_))));

    let got = parse_identity_document("{\"privateIp\":null}");
    assert!(matches!(got, Err(Error::Deserialization(_))));
}
