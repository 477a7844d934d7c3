//! Alert events and their grouping into compatibility, mother and child groups.

pub mod model;
pub mod semantic;
pub mod subject;
pub mod grouping;
pub mod query_text;
pub mod queries;
pub mod projection;
pub mod selection;
pub mod summary;
