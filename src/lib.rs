//! Core of a TLS-terminating reverse proxy: URI redirect resolution, header
//! sanitisation, the redirect-following forwarder, the proxy request builder,
//! and the accept-side state machines (TLS handshake and retrying accept loop).

pub mod errors;
pub mod follow_redirects;
pub mod headers;
pub mod listener;
pub mod proxy;
pub mod tls;
mod text;
pub mod uri;
