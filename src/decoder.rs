use vstd::prelude::*;

use crate::error::{result_view, CertError, ErrorKind, NOT_A_FILE_MESSAGE, USAGE_MESSAGE};
use crate::x509::{pem_contents, read_pem, render_tbs, tbs_rendering};

verus! {

/// The outcome of a decoded PEM block: its DER bytes, or a PEM error with the
/// parser's text.
pub open spec fn pem_outcome(r: Result<Seq<u8>, Seq<char>>) -> Result<Seq<u8>, (ErrorKind, Seq<char>)> {
    match r {
        Ok(der) => Ok(der),
        Err(e) => Err((ErrorKind::Pem, e)),
    }
}

/// The outcome of parsing DER bytes: the rendered text, or an X.509 error with
/// the parser's text.
pub open spec fn rendering_outcome(r: Result<Seq<char>, Seq<char>>) -> Result<Seq<char>, (ErrorKind, Seq<char>)> {
    match r {
        Ok(s) => Ok(s),
        Err(e) => Err((ErrorKind::X509, e)),
    }
}

/// The outcome of a read: the file's text, or an I/O error with its text.
pub open spec fn read_outcome(r: Result<Seq<char>, Seq<char>>) -> Result<Seq<char>, (ErrorKind, Seq<char>)> {
    match r {
        Ok(s) => Ok(s),
        Err(e) => Err((ErrorKind::Io, e)),
    }
}

/// What decoding a certificate's text yields: the PEM block is decoded, then
/// its bytes are parsed and rendered; the first failure is the result.
pub open spec fn decoding(text: Seq<char>) -> Result<Seq<char>, (ErrorKind, Seq<char>)> {
    match pem_outcome(pem_contents(text)) {
        Err(e) => Err(e),
        Ok(der) => rendering_outcome(tbs_rendering(der)),
    }
}

/// What an invocation with `arg_count` arguments yields, where the path check
/// answered `is_file` and reading the file gave `read`.
pub open spec fn invocation(
    arg_count: int,
    is_file: bool,
    read: Result<Seq<char>, Seq<char>>,
) -> Result<Seq<char>, (ErrorKind, Seq<char>)> {
    if arg_count != 1 {
        Err((ErrorKind::Usage, USAGE_MESSAGE@))
    } else if !is_file {
        Err((ErrorKind::NotAFile, NOT_A_FILE_MESSAGE@))
    } else {
        match read_outcome(read) {
            Err(e) => Err(e),
            Ok(text) => decoding(text),
        }
    }
}

/// The view of a result that holds a text or an error's text.
pub open spec fn text_view(r: Result<String, String>) -> Result<Seq<char>, Seq<char>> {
    match r {
        Ok(s) => Ok(s@),
        Err(e) => Err(e@),
    }
}

/// Access to the file system that the decoder needs; tests put a fixed answer
/// in its place.
pub trait FileProcessor {
    /// Whether `answer` is a reply this processor may give when asked if
    /// `path` names a regular file. By default any answer may come, as from
    /// the file system itself.
    open spec fn is_file_reply(&self, path: Seq<char>, answer: bool) -> bool {
        true
    }

    /// Whether `answer` is a reply this processor may give when asked for the
    /// text of the file at `path`. By default any answer may come.
    open spec fn read_reply(&self, path: Seq<char>, answer: Result<Seq<char>, Seq<char>>) -> bool {
        true
    }

    /// Whether `path` names an existing regular file.
    fn is_file(&self, path: &str) -> (r: bool)
        ensures
            self.is_file_reply(path@, r),
    ;

    /// The whole text of the file at `path`, or the text of the failure.
    fn read_to_string(&self, path: &str) -> (r: Result<String, String>)
        ensures
            self.read_reply(path@, text_view(r)),
    ;
}

/// Succeeds exactly when one argument was given.
pub fn check_arguments(args: &Vec<String>) -> (r: Result<(), CertError>)
    ensures
        r is Ok <==> args.len() == 1,
        r is Err ==> r->Err_0@ == (ErrorKind::Usage, USAGE_MESSAGE@),
{
    if args.len() != 1 {
        Err(CertError::usage())
    } else {
        Ok(())
    }
}

/// Succeeds exactly when the path check found a regular file.
pub fn check_path(is_file: bool) -> (r: Result<(), CertError>)
    ensures
        r is Ok <==> is_file,
        r is Err ==> r->Err_0@ == (ErrorKind::NotAFile, NOT_A_FILE_MESSAGE@),
{
    if is_file {
        Ok(())
    } else {
        Err(CertError::not_a_file())
    }
}

/// Turns the result of reading the file into the file's text or an I/O error.
pub fn check_read(read: Result<String, String>) -> (r: Result<String, CertError>)
    ensures
        result_view(r) == read_outcome(text_view(read)),
{
    match read {
        Ok(text) => Ok(text),
        Err(e) => Err(CertError::new(ErrorKind::Io, e)),
    }
}

/// Turns the result of decoding a PEM block into its bytes or a PEM error.
pub fn check_pem(decoded: Result<Vec<u8>, String>) -> (r: Result<Vec<u8>, CertError>)
    ensures
        match (decoded, r) {
            (Ok(d), Ok(b)) => b@ == d@,
            (Err(e), Err(c)) => c@ == (ErrorKind::Pem, e@),
            _ => false,
        },
{
    match decoded {
        Ok(der) => Ok(der),
        Err(e) => Err(CertError::new(ErrorKind::Pem, e)),
    }
}

/// Turns the result of parsing and rendering a certificate into its text or
/// an X.509 error.
pub fn check_rendering(rendered: Result<String, String>) -> (r: Result<String, CertError>)
    ensures
        result_view(r) == rendering_outcome(text_view(rendered)),
{
    match rendered {
        Ok(text) => Ok(text),
        Err(e) => Err(CertError::new(ErrorKind::X509, e)),
    }
}

/// Parses DER bytes as an X.509 certificate and renders its to-be-signed part.
pub fn render_certificate(der: &Vec<u8>) -> (r: Result<String, CertError>)
    ensures
        result_view(r) == rendering_outcome(tbs_rendering(der@)),
{
    let rendered = render_tbs(der);
    check_rendering(rendered)
}

/// Decodes the first PEM block of `text` and renders the certificate it holds.
pub fn decode_certificate(text: &str) -> (r: Result<String, CertError>)
    ensures
        result_view(r) == decoding(text@),
        text@.len() == 0 ==> r is Err && r->Err_0.kind == ErrorKind::Pem,
{
    let der = match check_pem(read_pem(text)) {
        Ok(der) => der,
        Err(e) => return Err(e),
    };
    render_certificate(&der)
}

/// Runs the decoder on the arguments (the program's name left out): checks
/// that exactly one was given and that it names a regular file, reads that
/// file and decodes the certificate in it. Returns the rendered text.
pub fn execute<P: FileProcessor>(processor: P, args: Vec<String>) -> (r: Result<String, CertError>)
    ensures
        exists|is_file: bool, read: Result<Seq<char>, Seq<char>>|
            result_view(r) == invocation(args.len() as int, is_file, read),
        args.len() != 1 ==> result_view(r) == Err::<Seq<char>, (ErrorKind, Seq<char>)>(
            (ErrorKind::Usage, USAGE_MESSAGE@),
        ),
        args.len() == 1 ==> !(r is Err && r->Err_0.kind == ErrorKind::Usage),
        args.len() == 1 ==> exists|is_file: bool, read: Result<Seq<char>, Seq<char>>|
            processor.is_file_reply(args[0]@, is_file) && (is_file ==> processor.read_reply(
                args[0]@,
                read,
            )) && result_view(r) == invocation(1, is_file, read),
{
    if let Err(e) = check_arguments(&args) {
        let r: Result<String, CertError> = Err(e);
        assert(result_view(r) == invocation(args.len() as int, false, Err(Seq::empty())));
        return r;
    }
    let path = args[0].as_str();
    assert(path@ == args[0]@);
    let is_file = processor.is_file(path);
    if let Err(e) = check_path(is_file) {
        assert(processor.is_file_reply(args[0]@, false));
        let r: Result<String, CertError> = Err(e);
        assert(result_view(r) == invocation(args.len() as int, false, Err(Seq::empty())));
        return r;
    }
    let read = processor.read_to_string(path);
    let ghost read_seen = text_view(read);
    let text = match check_read(read) {
        Ok(text) => text,
        Err(e) => {
            let r: Result<String, CertError> = Err(e);
            assert(result_view(r) == invocation(args.len() as int, true, read_seen));
            return r;
        },
    };
    let r = decode_certificate(text.as_str());
    assert(result_view(r) == invocation(args.len() as int, true, read_seen));
    r
}

} // verus!
