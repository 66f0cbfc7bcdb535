//! Codec kernel of a gateway between DIS PDUs and their bit-packed C-DIS form, with the
//! decisions of the gateway's pipeline.

pub mod wire;
pub mod model;
pub mod enumerations;
pub mod naming;
pub mod records;
pub mod float_bits;
pub mod comment;
pub mod other;
pub mod signal;
pub mod receiver;
pub mod fire;
pub mod service_request;
pub mod body;
pub mod pdu;
pub mod bit_buffer;
pub mod cdis;
pub mod gateway;
pub mod site;
