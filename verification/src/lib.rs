//! In-memory record of a single outbound echo probe and its response,
//! tracked across TTL-indexed rounds of a network path trace.

pub mod probe;
