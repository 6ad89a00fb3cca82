//! Input validation for untrusted text: entity encoding for markup, SQL and
//! document-query guards, a combined validator, a simulated parameterised
//! statement and a capacity-bounded admission list.

pub mod boundary;
pub mod document;
pub mod limiter;
pub mod sanitize;
pub mod sql;
pub mod statement;
pub mod text;
pub mod validate;

pub use document::{prevent_nosql_injection, Document, Member};
pub use sanitize::sanitize_input;
pub use sql::prevent_sql_injection;
pub use statement::PreparedStatement;
pub use limiter::RateLimiter;
