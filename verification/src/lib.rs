//! Detector of AWS EC2 resource attributes.
//!
//! The library queries the EC2 instance metadata service for the instance
//! identity document and projects it into a fixed, ordered set of
//! standardized resource attributes. Any failure along the way collapses
//! into an empty attribute set: detection never raises an error.

pub mod json;
pub mod instance_metadata;
pub mod detector;

pub use instance_metadata::Client;
pub use instance_metadata::EC2InstanceIdentityDocument;
pub use instance_metadata::EC2InstanceMetadataClient;
pub use instance_metadata::Error;
pub use detector::EC2ResourceDetector;
pub use detector::KeyValue;
pub use detector::Resource;
