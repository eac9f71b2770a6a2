use vstd::prelude::*;

verus! {

/// Text of the error for an invocation without exactly one argument.
pub const USAGE_MESSAGE: &'static str =
    "Error: did not receive a single argument, please invoke cert-decoder as follows: ./cert-decoder /path/to/cert.";

/// Text of the error for a path that does not name a regular file.
pub const NOT_A_FILE_MESSAGE: &'static str =
    "Error: path given as argument is not a regular file, it must be a path to a certificate!";

/// The stage of the pipeline at which an invocation failed.
#[derive(Clone, Copy, Debug, PartialEq, Eq, Structural)]
pub enum ErrorKind {
    /// Not exactly one argument was given.
    Usage,
    /// The argument does not name a regular file.
    NotAFile,
    /// The file could not be read.
    Io,
    /// The file's text holds no decodable PEM block.
    Pem,
    /// The PEM block does not hold a DER-encoded X.509 certificate.
    X509,
}

/// A failed invocation: its stage, and the text shown to the user.
#[derive(Clone, Debug)]
pub struct CertError {
    pub kind: ErrorKind,
    pub message: String,
}

impl View for CertError {
    type V = (ErrorKind, Seq<char>);

    open spec fn view(&self) -> (ErrorKind, Seq<char>) {
        (self.kind, self.message@)
    }
}

/// The mathematical value of an invocation's result: the rendered text, or
/// the error's stage and text.
pub open spec fn result_view(r: Result<String, CertError>) -> Result<Seq<char>, (ErrorKind, Seq<char>)> {
    match r {
        Ok(s) => Ok(s@),
        Err(e) => Err(e@),
    }
}

impl CertError {
    /// Builds an error of the given stage with the given text.
    pub fn new(kind: ErrorKind, message: String) -> (r: CertError)
        ensures
            r@ == (kind, message@),
    {
        CertError { kind, message }
    }

    /// The error for an invocation without exactly one argument.
    pub fn usage() -> (r: CertError)
        ensures
            r@ == (ErrorKind::Usage, USAGE_MESSAGE@),
    {
        CertError { kind: ErrorKind::Usage, message: USAGE_MESSAGE.to_owned() }
    }

    /// The error for a path that does not name a regular file.
    pub fn not_a_file() -> (r: CertError)
        ensures
            r@ == (ErrorKind::NotAFile, NOT_A_FILE_MESSAGE@),
    {
        CertError { kind: ErrorKind::NotAFile, message: NOT_A_FILE_MESSAGE.to_owned() }
    }

    /// The text shown to the user for this error.
    pub fn to_string(&self) -> (r: String)
        ensures
            r@ == self.message@,
    {
        self.message.clone()
    }
}

} // verus!
