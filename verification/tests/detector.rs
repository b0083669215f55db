use std::time::Duration;

use opentelemetry_aws::{
    Client, EC2InstanceIdentityDocument, EC2InstanceMetadataClient, EC2ResourceDetector, Error,
    KeyValue, Resource,
};

struct TestClient {
    available: bool,
    document: EC2InstanceIdentityDocument,
}

impl Client for TestClient {
    fn get_instance_identity_document(
        &self,
        _: Duration,
    ) -> Result<EC2InstanceIdentityDocument, Error> {
        if self.available {
            Ok(self.document.clone())
        } else {
            Err(Error::HttpRequestFailed("something went wrong".to_string()))
        }
    }
}

fn sample_document() -> EC2InstanceIdentityDocument {
    EC2InstanceIdentityDocument {
        instance_id: "i-1234567890abcdef0".to_string(),
        account_id: "123456789012".to_string(),
        image_id: "ami-5fb8c835".to_string(),
        instance_type: "t2.micro".to_string(),
        architecture: "x86_64".to_string(),
        availability_zone: "eu-west-1a".to_string(),
        private_ip: "10.0.0.45".to_string(),
        region: "eu-west-1".to_string(),
    }
}

fn expected_sample_attributes() -> Resource {
    Resource::new(vec![
        KeyValue::new("cloud.provider", "aws".to_string()),
        KeyValue::new("cloud.platform", "aws_ec2".to_string()),
        KeyValue::new("cloud.account.id", "123456789012".to_string()),
        KeyValue::new("cloud.region", "eu-west-1".to_string()),
        KeyValue::new("cloud.availability_zone", "eu-west-1a".to_string()),
        KeyValue::new("host.id", "i-1234567890abcdef0".to_string()),
        KeyValue::new("host.type", "t2.micro".to_string()),
        KeyValue::new("host.image.id", "ami-5fb8c835".to_string()),
    ])
}

#[test]
fn test_aws_ec2_detector() {
    let client = TestClient { available: true, document: sample_document() };

    let expected = expected_sample_attributes();

    let detector = EC2ResourceDetector::with_client(client);
    let got = detector.detect(Duration::from_secs(15));

    assert_eq!(expected, got)
}

#[test]
fn test_aws_ec2_detector_returns_empty_when_error_retrieving_document() {
    let client = TestClient {
        available: false,
        document: EC2InstanceIdentityDocument::default(),
    };

    let detector = EC2ResourceDetector::with_client(client);
    let got = detector.detect(Duration::from_secs(15));

    assert_eq!(Resource::empty(), got)
}

#[test]
fn detect_end_to_end_from_the_example_body() {
    let body = "{\"accountId\":\"123456789012\",\"architecture\":\"x86_64\",\"availabilityZone\":\"eu-west-1a\",\"imageId\":\"ami-5fb8c835\",\"instanceId\":\"i-1234567890abcdef0\",\"instanceType\":\"t2.micro\",\"privateIp\":\"10.0.0.45\",\"region\":\"eu-west-1\"}";
    let document = opentelemetry_aws::instance_metadata::parse_identity_document(body).unwrap();

    let detector = EC2ResourceDetector::with_client(TestClient { available: true, document });
    let got = detector.detect(Duration::from_secs(10));

    assert_eq!(expected_sample_attributes(), got);
}

#[test]
fn detect_returns_empty_when_the_service_is_unreachable() {
    let client = EC2InstanceMetadataClient::with_custom_url("http://127.0.0.1:9".to_string());
    let detector = EC2ResourceDetector::with_client(client);
    let got = detector.detect(Duration::from_secs(1));

    assert_eq!(Resource::empty(), got);
}

#[test]
fn detect_never_projects_private_ip_or_architecture() {
    let client = TestClient { available: true, document: sample_document() };
    let detector = EC2ResourceDetector::with_client(client);
    let got = detector.detect(Duration::from_secs(15));

    assert_eq!(got.len(), 8);
    for kv in got.attributes() {
        assert_ne!(kv.key, "private.ip");
        assert_ne!(kv.key, "architecture");
        assert_ne!(kv.key, "10.0.0.45");
        assert_ne!(kv.key, "x86_64");
        assert_ne!(kv.value, "10.0.0.45");
        assert_ne!(kv.value, "x86_64");
    }
}

#[test]
fn detect_is_idempotent_against_an_unchanged_source() {
    let detector = EC2ResourceDetector::with_client(TestClient {
        available: true,
        document: sample_document(),
    });

    let first = detector.detect(Duration::from_secs(10));
    let second = detector.detect(Duration::from_secs(10));

    assert_eq!(first, second);
    assert_eq!(first.len(), 8);
}

#[test]
fn empty_resource_has_no_pairs() {
    let empty = Resource::empty();
    assert_eq!(empty.len(), 0);
    assert!(empty.attributes().is_empty());
}
