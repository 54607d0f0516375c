//! Lookup of well-known network port metadata (service name, description,
//! transport protocol) from a registry table in CSV form.
pub mod protocol;
pub mod record;
pub mod csv_source;
pub mod table;
pub mod dataset;
pub mod registry;
pub mod laws;

pub use protocol::TransportProtocol;
pub use record::PortDescEntry;
pub use registry::PortDescription;
