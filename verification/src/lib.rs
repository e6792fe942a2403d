//! Statistics of B.A.T.M.A.N. advanced mesh interfaces, gathered from the
//! report of `batctl` and from the interface's settings files, and kept as
//! one set of gauges per interface.

pub mod device;
pub mod metric;
pub mod number;
pub mod registry;
pub mod report;
pub mod scrape;
pub mod settings;
pub mod text;
