//! Safe handles over a remote function call runtime: wide-character text,
//! error records, connections, function modules and their parameters,
//! structures and tables, stored dates, and the health of pooled connections.
pub mod connection;
pub mod date;
pub mod error;
pub mod function;
pub mod parameter;
pub mod pool;
pub mod rc;
pub mod structure;
pub mod table;
pub mod uc;

pub use crate::connection::{RfcConnection, RfcConnectionBuilder};
pub use crate::error::RfcErrorInfo;
pub use crate::function::RfcFunction;
pub use crate::parameter::RfcParameter;
pub use crate::structure::RfcStructure;
pub use crate::table::RfcTable;
