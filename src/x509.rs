use vstd::prelude::*;

verus! {

/// What `x509_parser::pem::parse_x509_pem` makes of a text: the base64-decoded
/// contents of its first PEM block, or the text of the parse error.
pub uninterp spec fn pem_contents(text: Seq<char>) -> Result<Seq<u8>, Seq<char>>;

/// What parsing DER bytes with `x509_parser::parse_x509_certificate` yields:
/// the pretty debug text of the certificate's to-be-signed part, or the text
/// of the parse error.
pub uninterp spec fn tbs_rendering(der: Seq<u8>) -> Result<Seq<char>, Seq<char>>;

/// Relies on x509_parser::pem::parse_x509_pem to find the first PEM block of
/// the text and decode its base64 body; the outcome depends on the text alone,
/// and a text without any line (the empty text) has no PEM header.
#[verifier::external_body]
pub(crate) fn read_pem(text: &str) -> (r: Result<Vec<u8>, String>)
    ensures
        match r {
            Ok(der) => pem_contents(text@) == Ok::<Seq<u8>, Seq<char>>(der@),
            Err(e) => pem_contents(text@) == Err::<Seq<u8>, Seq<char>>(e@),
        },
        text@.len() == 0 ==> r is Err,
{
    match x509_parser::pem::parse_x509_pem(text.as_bytes()) {
        Ok((_, pem)) => Ok(pem.contents),
        Err(e) => Err(e.to_string()),
    }
}

/// Relies on x509_parser::parse_x509_certificate to decode DER bytes as an
/// X.509 certificate, and on the derived `Debug` of its `TbsCertificate` to
/// render the to-be-signed part; the outcome depends on the bytes alone.
#[verifier::external_body]
pub(crate) fn render_tbs(der: &Vec<u8>) -> (r: Result<String, String>)
    ensures
        match r {
            Ok(s) => tbs_rendering(der@) == Ok::<Seq<char>, Seq<char>>(s@),
            Err(e) => tbs_rendering(der@) == Err::<Seq<char>, Seq<char>>(e@),
        },
{
    match x509_parser::parse_x509_certificate(der) {
        Ok((_, cert)) => Ok(format!("{:#?}", cert.tbs_certificate)),
        Err(e) => Err(e.to_string()),
    }
}

} // verus!
