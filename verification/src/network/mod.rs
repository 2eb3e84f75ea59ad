//! Network layer: raw HTTP request building and response parsing, and the
//! errors of the TCP layer.
pub mod chunked_laws;
pub mod http;
pub mod tcp;
