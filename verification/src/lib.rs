//! Core of a text-clip sharing service: a user submits a piece of text and
//! receives a short random code; anyone holding the code can retrieve the
//! text, subject to an optional password and an optional expiration time.
//!
//! The crate is organised bottom-up:
//! - [`field`]: the validated value types a clip is made of;
//! - [`clip`]: the clip record itself and field-level validation errors;
//! - [`store`]: the storage port, an in-memory shortcode-keyed store;
//! - [`service`]: creation and retrieval, enforcing uniqueness, expiration,
//!   password policy and hit counting.

pub mod clip;
pub mod field;
pub mod service;
pub mod store;
