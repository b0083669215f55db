//! The EC2 instance metadata client: one time-bounded GET request against
//! the metadata service, and the decoding of its response body into an
//! identity document.
//!
//! The decoding rules are the library's own logic and are verified: a body
//! decodes exactly when it is a JSON object each of whose recognized
//! members, if present, is a string; absent members default to the empty
//! string; unrecognized members are ignored. The HTTP transport and the
//! JSON parser itself are outside collaborators, reached through the
//! trusted items here and in [`crate::json`].

use vstd::prelude::*;
use vstd::string::StringExecFns;
use std::time::Duration;
use crate::json::{
    json_of, object_get, object_view, parse_json_text, value_as_object, value_as_str, value_view,
    JsonView,
};

verus! {

/// The decoded instance identity document. Absent members of the source
/// body leave the corresponding field as the empty string.
#[derive(Debug, Clone)]
pub struct EC2InstanceIdentityDocument {
    pub private_ip: String,
    pub instance_id: String,
    pub instance_type: String,
    pub account_id: String,
    pub image_id: String,
    pub architecture: String,
    pub region: String,
    pub availability_zone: String,
}

/// The mathematical content of an identity document: the characters of
/// each of its eight fields.
pub ghost struct IdentityDocumentView {
    pub private_ip: Seq<char>,
    pub instance_id: Seq<char>,
    pub instance_type: Seq<char>,
    pub account_id: Seq<char>,
    pub image_id: Seq<char>,
    pub architecture: Seq<char>,
    pub region: Seq<char>,
    pub availability_zone: Seq<char>,
}

impl View for EC2InstanceIdentityDocument {
    type V = IdentityDocumentView;

    open spec fn view(&self) -> IdentityDocumentView {
        IdentityDocumentView {
            private_ip: self.private_ip@,
            instance_id: self.instance_id@,
            instance_type: self.instance_type@,
            account_id: self.account_id@,
            image_id: self.image_id@,
            architecture: self.architecture@,
            region: self.region@,
            availability_zone: self.availability_zone@,
        }
    }
}

impl PartialEq for EC2InstanceIdentityDocument {
    fn eq(&self, other: &Self) -> (r: bool) {
        self.private_ip == other.private_ip && self.instance_id == other.instance_id
            && self.instance_type == other.instance_type && self.account_id == other.account_id
            && self.image_id == other.image_id && self.architecture == other.architecture
            && self.region == other.region && self.availability_zone == other.availability_zone
    }
}

impl vstd::std_specs::cmp::PartialEqSpecImpl for EC2InstanceIdentityDocument {
    open spec fn obeys_eq_spec() -> bool {
        true
    }

    open spec fn eq_spec(&self, other: &Self) -> bool {
        self@ == other@
    }
}

impl Default for EC2InstanceIdentityDocument {
    /// The default document has every field empty, as an absent member
    /// of a body would leave it.
    fn default() -> (r: Self)
        ensures
            r@ == empty_document(),
    {
        EC2InstanceIdentityDocument {
            private_ip: String::new(),
            instance_id: String::new(),
            instance_type: String::new(),
            account_id: String::new(),
            image_id: String::new(),
            architecture: String::new(),
            region: String::new(),
            availability_zone: String::new(),
        }
    }
}

/// The document whose fields are all empty.
pub open spec fn empty_document() -> IdentityDocumentView {
    IdentityDocumentView {
        private_ip: Seq::empty(),
        instance_id: Seq::empty(),
        instance_type: Seq::empty(),
        account_id: Seq::empty(),
        image_id: Seq::empty(),
        architecture: Seq::empty(),
        region: Seq::empty(),
        availability_zone: Seq::empty(),
    }
}

/// A classified fetch failure: the request itself failed, or its body did
/// not decode into the document shape. Each carries a diagnostic message.
#[derive(Debug, Clone)]
pub enum Error {
    HttpRequestFailed(String),
    Deserialization(String),
}

/// The diagnostic message carried by a failure, whatever its kind.
pub open spec fn error_message(e: Error) -> Seq<char> {
    match e {
        Error::HttpRequestFailed(m) => m@,
        Error::Deserialization(m) => m@,
    }
}

/// The abstract fetch capability: one attempt at obtaining the identity
/// document, bounded by the timeout. Production code goes through the
/// real transport; tests may substitute canned outcomes. Nothing is
/// promised of an arbitrary implementation: the detector built on top
/// states what it does with every possible outcome.
pub trait Client {
    fn get_instance_identity_document(&self, timeout: Duration) -> Result<
        EC2InstanceIdentityDocument,
        Error,
    >;
}

/// The external name of each recognized document member.
pub open spec fn key_private_ip() -> Seq<char> {
    "privateIp"@
}

pub open spec fn key_instance_id() -> Seq<char> {
    "instanceId"@
}

pub open spec fn key_instance_type() -> Seq<char> {
    "instanceType"@
}

pub open spec fn key_account_id() -> Seq<char> {
    "accountId"@
}

pub open spec fn key_image_id() -> Seq<char> {
    "imageId"@
}

pub open spec fn key_architecture() -> Seq<char> {
    "architecture"@
}

pub open spec fn key_region() -> Seq<char> {
    "region"@
}

pub open spec fn key_availability_zone() -> Seq<char> {
    "availabilityZone"@
}

/// A recognized member is acceptable when it is absent or a string.
pub open spec fn member_ok(m: Map<Seq<char>, JsonView>, key: Seq<char>) -> bool {
    m.dom().contains(key) ==> m[key] is Text
}

/// The characters a recognized member contributes: its string when
/// present, the empty string when absent.
pub open spec fn member_text(m: Map<Seq<char>, JsonView>, key: Seq<char>) -> Seq<char> {
    if m.dom().contains(key) {
        m[key]->Text_0
    } else {
        Seq::empty()
    }
}

/// A parsed body has the document shape when it is an object and every
/// recognized member, if present, is a string. Unrecognized members do
/// not matter.
pub open spec fn document_shape_ok(j: JsonView) -> bool {
    &&& j is Object
    &&& member_ok(j->Object_0, key_private_ip())
    &&& member_ok(j->Object_0, key_instance_id())
    &&& member_ok(j->Object_0, key_instance_type())
    &&& member_ok(j->Object_0, key_account_id())
    &&& member_ok(j->Object_0, key_image_id())
    &&& member_ok(j->Object_0, key_architecture())
    &&& member_ok(j->Object_0, key_region())
    &&& member_ok(j->Object_0, key_availability_zone())
}

/// The document drawn from an object with the document shape.
pub open spec fn document_of_object(m: Map<Seq<char>, JsonView>) -> IdentityDocumentView {
    IdentityDocumentView {
        private_ip: member_text(m, key_private_ip()),
        instance_id: member_text(m, key_instance_id()),
        instance_type: member_text(m, key_instance_type()),
        account_id: member_text(m, key_account_id()),
        image_id: member_text(m, key_image_id()),
        architecture: member_text(m, key_architecture()),
        region: member_text(m, key_region()),
        availability_zone: member_text(m, key_availability_zone()),
    }
}

/// A body decodes exactly when it is valid JSON of the document shape.
pub open spec fn parse_ok(b: Seq<char>) -> bool {
    &&& json_of(b) is Some
    &&& document_shape_ok(json_of(b)->Some_0)
}

/// The document a decodable body yields.
pub open spec fn parsed_document(b: Seq<char>) -> IdentityDocumentView {
    document_of_object(json_of(b)->Some_0->Object_0)
}

/// Reads one recognized member out of the parsed object: the empty string
/// when absent, its characters when it is a string, and `None` — a decode
/// failure — when it is present with any other shape.
fn member_string(m: &serde_json::Map<String, serde_json::Value>, key: &str) -> (r: Option<String>)
    ensures
        r is Some <==> member_ok(object_view(*m), key@),
        r is Some ==> r->Some_0@ == member_text(object_view(*m), key@),
{
    match object_get(m, key) {
        None => Some(String::new()),
        Some(v) => match value_as_str(v) {
            Some(s) => Some(String::from_str(s)),
            None => None,
        },
    }
}

/// Decodes a parsed JSON value into the identity document, succeeding
/// exactly on values of the document shape.
pub fn decode_document(v: &serde_json::Value) -> (r: Option<EC2InstanceIdentityDocument>)
    ensures
        r is Some <==> document_shape_ok(value_view(*v)),
        r is Some ==> r->Some_0@ == document_of_object(value_view(*v)->Object_0),
{
    let m = match value_as_object(v) {
        Some(m) => m,
        None => {
            return None;
        },
    };
    let private_ip = match member_string(m, "privateIp") {
        Some(s) => s,
        None => {
            return None;
        },
    };
    let instance_id = match member_string(m, "instanceId") {
        Some(s) => s,
        None => {
            return None;
        },
    };
    let instance_type = match member_string(m, "instanceType") {
        Some(s) => s,
        None => {
            return None;
        },
    };
    let account_id = match member_string(m, "accountId") {
        Some(s) => s,
        None => {
            return None;
        },
    };
    let image_id = match member_string(m, "imageId") {
        Some(s) => s,
        None => {
            return None;
        },
    };
    let architecture = match member_string(m, "architecture") {
        Some(s) => s,
        None => {
            return None;
        },
    };
    let region = match member_string(m, "region") {
        Some(s) => s,
        None => {
            return None;
        },
    };
    let availability_zone = match member_string(m, "availabilityZone") {
        Some(s) => s,
        None => {
            return None;
        },
    };
    Some(
        EC2InstanceIdentityDocument {
            private_ip,
            instance_id,
            instance_type,
            account_id,
            image_id,
            architecture,
            region,
            availability_zone,
        },
    )
}

/// Decodes a response body into the identity document. Succeeds exactly
/// on bodies that are valid JSON of the document shape; every failure is
/// a decode failure carrying a non-empty diagnostic message.
pub fn parse_identity_document(body: &str) -> (r: Result<EC2InstanceIdentityDocument, Error>)
    ensures
        r is Ok <==> parse_ok(body@),
        r is Ok ==> r->Ok_0@ == parsed_document(body@),
        r is Err ==> r->Err_0 is Deserialization && error_message(r->Err_0).len() > 0,
{
    match parse_json_text(body) {
        Err(msg) => Err(Error::Deserialization(msg)),
        Ok(value) => match decode_document(&value) {
            Some(doc) => Ok(doc),
            None => {
                proof {
                    reveal_strlit("failed to deserialize document: not an object of strings");
                }
                Err(
                    Error::Deserialization(
                        String::from_str(
                            "failed to deserialize document: not an object of strings",
                        ),
                    ),
                )
            },
        },
    }
}

/// The reusable transport handle: a `reqwest::blocking::Client`, held in
/// a wrapper of its own that the verifier treats as opaque. Nothing the
/// contracts say depends on what is inside it.
#[verifier::external_body]
struct HttpHandle {
    inner: reqwest::blocking::Client,
}

/// Relies on `reqwest::blocking::Client::default`: builds a client with
/// default settings; the handle is reusable across calls.
#[verifier::external_body]
fn new_http_client() -> HttpHandle {
    HttpHandle { inner: reqwest::blocking::Client::default() }
}

/// Relies on `reqwest::blocking::Client::get`, `RequestBuilder::timeout`,
/// `RequestBuilder::send` and `Response::text`: one GET request to the
/// given URL, the whole of it bounded by the timeout. The outcome depends
/// on the network, so nothing is promised of it beyond a non-empty
/// diagnostic message on failure: a request that could not complete is a
/// transport failure, a body that could not be read out is a decode
/// failure.
#[verifier::external_body]
fn http_get(handle: &HttpHandle, url: &str, timeout: Duration) -> (r: Result<String, Error>)
    ensures
        r is Err ==> error_message(r->Err_0).len() > 0,
{
    let response = match handle.inner.get(url).timeout(timeout).send() {
        Ok(response) => response,
        Err(e) => {
            return Err(Error::HttpRequestFailed(format!("HTTP request failed: {e:?}")));
        },
    };
    match response.text() {
        Ok(body) => Ok(body),
        Err(e) => Err(Error::Deserialization(format!("failed to deserialize document: {e:?}"))),
    }
}

/// The client against the real metadata service: a base address and a
/// reusable transport handle.
pub struct EC2InstanceMetadataClient {
    url: String,
    http: HttpHandle,
}

/// The standard link-local address of the metadata service.
pub open spec fn default_metadata_address() -> Seq<char> {
    "http://169.254.169.254"@
}

/// The request path of the identity document.
pub open spec fn identity_document_path() -> Seq<char> {
    "/latest/dynamic/instance-identity/document"@
}

/// The full request target for a given base address.
fn document_url(base: &str) -> (r: String)
    ensures
        r@ == base@ + identity_document_path(),
{
    let mut url = String::from_str(base);
    url.append("/latest/dynamic/instance-identity/document");
    url
}

impl EC2InstanceMetadataClient {
    /// The base address requests are issued against.
    pub closed spec fn base_url(&self) -> Seq<char> {
        self.url@
    }

    /// Builds a client against the given base address instead of the
    /// standard one, so that a local stand-in service can answer.
    pub fn with_custom_url(url: String) -> (r: Self)
        ensures
            r.base_url() == url@,
    {
        EC2InstanceMetadataClient { url, http: new_http_client() }
    }

    /// One fetch of the identity document: a single GET request, bounded
    /// by the timeout, and a decode of whatever body came back. On
    /// success the document is the faithful decoding of some body of the
    /// document shape; on failure the error carries a non-empty message.
    pub fn fetch_identity_document(&self, timeout: Duration) -> (r: Result<
        EC2InstanceIdentityDocument,
        Error,
    >)
        ensures
            r is Ok ==> exists|b: Seq<char>| parse_ok(b) && r->Ok_0@ == parsed_document(b),
            r is Err ==> error_message(r->Err_0).len() > 0,
    {
        let url = document_url(self.url.as_str());
        match http_get(&self.http, url.as_str(), timeout) {
            Err(e) => Err(e),
            Ok(body) => {
                let parsed = parse_identity_document(body.as_str());
                proof {
                    if parsed is Ok {
                        assert(parse_ok(body@) && parsed->Ok_0@ == parsed_document(body@));
                    }
                }
                parsed
            },
        }
    }
}

impl Default for EC2InstanceMetadataClient {
    /// The default client points at the standard metadata address.
    fn default() -> (r: Self)
        ensures
            r.base_url() == default_metadata_address(),
    {
        EC2InstanceMetadataClient {
            url: String::from_str("http://169.254.169.254"),
            http: new_http_client(),
        }
    }
}

impl Client for EC2InstanceMetadataClient {
    fn get_instance_identity_document(&self, timeout: Duration) -> Result<
        EC2InstanceIdentityDocument,
        Error,
    > {
        self.fetch_identity_document(timeout)
    }
}

} // verus!
