//! Decodes a PEM-encoded X.509 certificate named on the command line and
//! renders the to-be-signed part of it as text.

pub mod error;

pub use error::{result_view, CertError, ErrorKind, NOT_A_FILE_MESSAGE, USAGE_MESSAGE};
pub mod x509;
pub mod decoder;

pub use decoder::{decode_certificate, execute, FileProcessor};
pub mod laws;
