//! A safety wrapper around a hardware video-acceleration image-mapping
//! facility.
//!
//! The native API (map, unmap, destroy-image) is an opaque external
//! collaborator; it is represented here by an explicit display/session model
//! that records every native call it is asked to make, so that the
//! resource-lifetime discipline of the wrapper — exactly one map, and
//! eventually exactly one unmap followed by exactly one destroy, per mapped
//! image — is stated in contracts and proved.

pub mod display;
pub mod error;
pub mod image;
pub mod picture;
