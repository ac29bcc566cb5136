//! Names shared by the samples: operations, protocols, Chariott registration
//! details, media types and constraint types.

pub mod chariott;
pub mod constraint_type;
pub mod digital_twin_operation;
pub mod digital_twin_protocol;
pub mod mime_type;
