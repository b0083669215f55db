//! The resource detector: one fetch of the identity document, projected
//! into a fixed, ordered set of standardized attributes; any failure
//! collapses into the empty set.

use vstd::prelude::*;
use vstd::string::StringExecFns;
use std::time::Duration;
use crate::instance_metadata::{
    parse_ok, parsed_document, Client, EC2InstanceIdentityDocument, EC2InstanceMetadataClient,
    Error, IdentityDocumentView,
};

verus! {

/// One resource attribute: a standardized key and its value.
#[derive(Debug, Clone)]
pub struct KeyValue {
    pub key: String,
    pub value: String,
}

impl KeyValue {
    pub fn new(key: &str, value: String) -> (r: Self)
        ensures
            r@ == (key@, value@),
    {
        KeyValue { key: String::from_str(key), value }
    }
}

impl View for KeyValue {
    type V = (Seq<char>, Seq<char>);

    open spec fn view(&self) -> (Seq<char>, Seq<char>) {
        (self.key@, self.value@)
    }
}

impl PartialEq for KeyValue {
    fn eq(&self, other: &Self) -> (r: bool) {
        self.key == other.key && self.value == other.value
    }
}

impl vstd::std_specs::cmp::PartialEqSpecImpl for KeyValue {
    open spec fn obeys_eq_spec() -> bool {
        true
    }

    open spec fn eq_spec(&self, other: &Self) -> bool {
        self@ == other@
    }
}

/// An ordered attribute set: either empty, or the eight standardized
/// pairs drawn from an identity document.
#[derive(Debug)]
pub struct Resource {
    attrs: Vec<KeyValue>,
}

impl View for Resource {
    type V = Seq<(Seq<char>, Seq<char>)>;

    closed spec fn view(&self) -> Seq<(Seq<char>, Seq<char>)> {
        self.attrs@.map_values(|kv: KeyValue| kv@)
    }
}

impl Resource {
    /// The attribute set with no pairs at all.
    pub fn empty() -> (r: Self)
        ensures
            r@ == Seq::<(Seq<char>, Seq<char>)>::empty(),
    {
        let r = Resource { attrs: Vec::new() };
        proof {
            assert(r@ =~= Seq::<(Seq<char>, Seq<char>)>::empty());
        }
        r
    }

    /// An attribute set holding exactly the given pairs, in order.
    pub fn new(attrs: Vec<KeyValue>) -> (r: Self)
        ensures
            r@ == attrs@.map_values(|kv: KeyValue| kv@),
    {
        Resource { attrs }
    }

    /// The pairs, in order.
    pub fn attributes(&self) -> (r: &Vec<KeyValue>)
        ensures
            r@.map_values(|kv: KeyValue| kv@) == self@,
    {
        &self.attrs
    }

    /// How many pairs the set holds.
    pub fn len(&self) -> (r: usize)
        ensures
            r == self@.len(),
    {
        self.attrs.len()
    }
}

impl PartialEq for Resource {
    fn eq(&self, other: &Self) -> (r: bool) {
        if self.attrs.len() != other.attrs.len() {
            proof {
                assert(self@.len() != other@.len());
            }
            return false;
        }
        for i in 0..self.attrs.len()
            invariant
                self.attrs.len() == other.attrs.len(),
                forall|j: int| 0 <= j < i ==> self.attrs@[j]@ == other.attrs@[j]@,
        {
            if !(self.attrs[i] == other.attrs[i]) {
                proof {
                    assert(self@[i as int] != other@[i as int]);
                }
                return false;
            }
        }
        proof {
            assert(self@ =~= other@);
        }
        true
    }
}

impl vstd::std_specs::cmp::PartialEqSpecImpl for Resource {
    open spec fn obeys_eq_spec() -> bool {
        true
    }

    open spec fn eq_spec(&self, other: &Self) -> bool {
        self@ == other@
    }
}

/// The standardized attribute keys, in the order they are produced.
pub open spec fn attr_cloud_provider() -> Seq<char> {
    "cloud.provider"@
}

pub open spec fn attr_cloud_platform() -> Seq<char> {
    "cloud.platform"@
}

pub open spec fn attr_cloud_account_id() -> Seq<char> {
    "cloud.account.id"@
}

pub open spec fn attr_cloud_region() -> Seq<char> {
    "cloud.region"@
}

pub open spec fn attr_cloud_availability_zone() -> Seq<char> {
    "cloud.availability_zone"@
}

pub open spec fn attr_host_id() -> Seq<char> {
    "host.id"@
}

pub open spec fn attr_host_type() -> Seq<char> {
    "host.type"@
}

pub open spec fn attr_host_image_id() -> Seq<char> {
    "host.image.id"@
}

/// The eight standardized pairs drawn from a document, in their fixed
/// order. The `private_ip` and `architecture` fields are deliberately not
/// drawn on.
pub open spec fn attributes_of(d: IdentityDocumentView) -> Seq<(Seq<char>, Seq<char>)> {
    seq![
        (attr_cloud_provider(), "aws"@),
        (attr_cloud_platform(), "aws_ec2"@),
        (attr_cloud_account_id(), d.account_id),
        (attr_cloud_region(), d.region),
        (attr_cloud_availability_zone(), d.availability_zone),
        (attr_host_id(), d.instance_id),
        (attr_host_type(), d.instance_type),
        (attr_host_image_id(), d.image_id),
    ]
}

/// What a fetch outcome turns into: the empty set on any failure, the
/// eight pairs of the document on success.
pub open spec fn detected_attributes(outcome: Option<IdentityDocumentView>) -> Seq<
    (Seq<char>, Seq<char>),
> {
    match outcome {
        Some(d) => attributes_of(d),
        None => Seq::empty(),
    }
}

/// The document of a fetch result, when it has one.
pub open spec fn outcome_of(result: Result<EC2InstanceIdentityDocument, Error>) -> Option<
    IdentityDocumentView,
> {
    match result {
        Ok(d) => Some(d@),
        Err(_) => None,
    }
}

/// Projects a fetch result into the attribute set: exactly the eight
/// standardized pairs on success, the empty set on either failure kind.
pub fn resource_from_result(result: Result<EC2InstanceIdentityDocument, Error>) -> (r: Resource)
    ensures
        r@ == detected_attributes(outcome_of(result)),
{
    let doc = match result {
        Ok(doc) => doc,
        Err(_) => {
            return Resource::empty();
        },
    };
    let ghost d = doc@;
    let attrs: Vec<KeyValue> = vec![
        KeyValue::new("cloud.provider", String::from_str("aws")),
        KeyValue::new("cloud.platform", String::from_str("aws_ec2")),
        KeyValue::new("cloud.account.id", doc.account_id),
        KeyValue::new("cloud.region", doc.region),
        KeyValue::new("cloud.availability_zone", doc.availability_zone),
        KeyValue::new("host.id", doc.instance_id),
        KeyValue::new("host.type", doc.instance_type),
        KeyValue::new("host.image.id", doc.image_id),
    ];
    let r = Resource::new(attrs);
    proof {
        assert(r@ =~= attributes_of(d));
    }
    r
}

/// The detector: holds a fetch capability and projects whatever it
/// returns. Detection never raises an error to its caller.
pub struct EC2ResourceDetector<C: Client> {
    client: C,
}

impl<C: Client> EC2ResourceDetector<C> {
    /// The fetch capability the detector was built around.
    pub closed spec fn spec_client(&self) -> C {
        self.client
    }

    /// Builds a detector around an explicitly supplied client, for tests
    /// and for alternate deployment targets.
    pub fn with_client(client: C) -> (r: Self)
        ensures
            r.spec_client() == client,
    {
        EC2ResourceDetector { client }
    }

    /// One detection: a single fetch, bounded by the timeout, projected
    /// into the attribute set. Whatever the fetch returns, the result is
    /// either empty or the eight standardized pairs of some document.
    pub fn detect(&self, timeout: Duration) -> (r: Resource)
        ensures
            r@ == Seq::<(Seq<char>, Seq<char>)>::empty() || exists|d: IdentityDocumentView|
                r@ == attributes_of(d),
    {
        let result = self.client.get_instance_identity_document(timeout);
        let r = resource_from_result(result);
        proof {
            if result is Ok {
                assert(r@ == attributes_of(result->Ok_0@));
            }
        }
        r
    }
}

impl EC2ResourceDetector<EC2InstanceMetadataClient> {
    /// Builds a detector around the default client, pointing at the
    /// standard metadata address.
    pub fn new() -> (r: Self)
        ensures
            r.spec_client().base_url() == crate::instance_metadata::default_metadata_address(),
    {
        EC2ResourceDetector { client: EC2InstanceMetadataClient::default() }
    }
}

impl Default for EC2ResourceDetector<EC2InstanceMetadataClient> {
    /// The default detector is the one against the standard address.
    fn default() -> (r: Self)
        ensures
            r.spec_client().base_url() == crate::instance_metadata::default_metadata_address(),
    {
        EC2ResourceDetector::new()
    }
}

/// Every well-formed body round-trips into exactly the eight standardized
/// pairs, in their fixed order, with the values drawn verbatim from the
/// decoded document.
pub proof fn lemma_success_round_trip(b: Seq<char>)
    requires
        parse_ok(b),
    ensures
        detected_attributes(Some(parsed_document(b))) == attributes_of(parsed_document(b)),
        attributes_of(parsed_document(b)).len() == 8,
        attributes_of(parsed_document(b))[0] == (attr_cloud_provider(), "aws"@),
        attributes_of(parsed_document(b))[1] == (attr_cloud_platform(), "aws_ec2"@),
        attributes_of(parsed_document(b))[2] == (
            attr_cloud_account_id(),
            parsed_document(b).account_id,
        ),
        attributes_of(parsed_document(b))[3] == (attr_cloud_region(), parsed_document(b).region),
        attributes_of(parsed_document(b))[4] == (
            attr_cloud_availability_zone(),
            parsed_document(b).availability_zone,
        ),
        attributes_of(parsed_document(b))[5] == (attr_host_id(), parsed_document(b).instance_id),
        attributes_of(parsed_document(b))[6] == (
            attr_host_type(),
            parsed_document(b).instance_type,
        ),
        attributes_of(parsed_document(b))[7] == (
            attr_host_image_id(),
            parsed_document(b).image_id,
        ),
{
}

/// Every failed fetch, of either kind, is swallowed into the empty
/// attribute set.
pub proof fn lemma_failure_swallowed(result: Result<EC2InstanceIdentityDocument, Error>)
    requires
        result is Err,
    ensures
        detected_attributes(outcome_of(result)) == Seq::<(Seq<char>, Seq<char>)>::empty(),
{
}

/// A body that is not valid JSON, or not of the document shape, never
/// decodes: together with the contract of
/// [`crate::instance_metadata::parse_identity_document`], such a body
/// always yields a decode failure, distinguishable from a transport one.
pub proof fn lemma_bad_body_never_decodes(b: Seq<char>)
    requires
        crate::json::json_of(b) is None || !crate::instance_metadata::document_shape_ok(
            crate::json::json_of(b)->Some_0,
        ),
    ensures
        !parse_ok(b),
{
}

/// The produced attributes never draw on the document's `private_ip` or
/// `architecture` fields: two documents that agree everywhere else
/// produce the same attribute set.
pub proof fn lemma_private_fields_omitted(d1: IdentityDocumentView, d2: IdentityDocumentView)
    requires
        d1.instance_id == d2.instance_id,
        d1.instance_type == d2.instance_type,
        d1.account_id == d2.account_id,
        d1.image_id == d2.image_id,
        d1.region == d2.region,
        d1.availability_zone == d2.availability_zone,
    ensures
        attributes_of(d1) == attributes_of(d2),
{
    assert(attributes_of(d1) =~= attributes_of(d2));
}

/// Detection is a function of the fetch outcome alone: equal outcomes —
/// in particular, repeated fetches of an unchanged document — produce
/// identical attribute sets, and no detector or client state enters in.
pub proof fn lemma_detection_deterministic(
    o1: Option<IdentityDocumentView>,
    o2: Option<IdentityDocumentView>,
)
    requires
        o1 == o2,
    ensures
        detected_attributes(o1) == detected_attributes(o2),
{
}

} // verus!
