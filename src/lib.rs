//! Connection admission for a proxy's administrative listener: the TLS
//! states a connection can carry, the HTTP fallback policy applied after
//! protocol detection, the observability labels attached to each
//! connection, and the merging of metric reports.

pub mod admission;
pub mod labels;
pub mod report;
pub mod respond;
pub mod text;
pub mod tls;
