//! Column projection of a tabular dataset: a fixed list of field positions is
//! kept from every record, in a fixed order, and the result is wrapped in a
//! response envelope.

pub mod error;
pub mod handler;
pub mod projection;
pub mod tabular;

pub use error::HandlerError;
pub use handler::{check_status, envelope, handle, project_document, Envelope};
pub use projection::{project_rows, select, MIN_FIELDS, OUTPUT_FIELDS};
