//! The decisions of a resilient HTTP client layer that stands between a
//! caller and a web API which asks for a session, hands out anti-forgery
//! tokens and enforces a rate budget.
//!
//! The library holds the records and takes the decisions; it never sends,
//! sleeps or locks. A client keeps each layer behind a lock of its own, takes
//! the lock only for the length of one call, and does what the call says.
//!
//! - `rate_limit`: the rate budget, the hold on requests while it is used
//!   up, and the retries after a rate-limited response.
//! - `auth`: the credential and the anti-forgery token, the retry after a
//!   stale token, and the wait after a write conflict.
//! - `pipeline`: the order of the layers.
//! - `headers`, `decimal`, `text`, `status`: reading headers, numbers, text
//!   and status codes.
//! - `configs`, `model`, `plan`: the configuration endpoints, their answers,
//!   and the plan of an upload or a purge.

pub mod auth;
pub mod configs;
pub mod decimal;
pub mod headers;
pub mod model;
pub mod pipeline;
pub mod plan;
pub mod rate_limit;
pub mod status;
pub mod text;
