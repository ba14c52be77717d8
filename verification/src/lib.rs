//! Decoding of OpenAPI 3.0 documents whose encoding, JSON or YAML, is not declared.
//!
//! The text is sniffed for its most probable encoding, that codec is tried first and
//! the other one second, and if both fail their diagnostics are returned together.

pub mod codec;
pub mod decode;
pub mod document;
pub mod error;
pub mod laws;
pub mod schema;
pub mod sniff;
pub mod trace;

pub use decode::{attempt, decode_in_order, parse_openapi_content, settle};
pub use error::{aggregate, AggregatedError, DecodeError};
pub use schema::{match_schema, Info, ParsedSpec, SchemaGap};
pub use sniff::{guess, is_whitespace, sniff, FormatGuess, Sniff};
pub use trace::{parse_openapi_content_debug, DecodeEvent, DecodeReport};
