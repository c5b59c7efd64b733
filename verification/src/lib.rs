//! Safe, verified core of a handle-based security-negotiation (GSSAPI-style)
//! binding: the status-word decoder, the object-identifier wrapper, the
//! owned/borrowed native-buffer discipline, and the identity-handle
//! (principal name) ownership model.
//!
//! Every native entry point of the underlying library returns a two-word
//! status (a bit-flagged major word and a mechanism-specific minor word)
//! together with operation-specific opaque handles or buffers.  The native
//! calls themselves are foreign code and live outside this crate; what is
//! verified here is everything this layer decides on its own: how the two
//! status words are decoded into a typed result, when a native reference
//! must be released (exactly once, never through the absent sentinel), which
//! buffers own their region and which merely borrow it, and how a principal
//! is rendered for diagnostics without ever failing the caller.

pub mod buf;
pub mod error;
pub mod name;
pub mod oid;
pub mod text;
