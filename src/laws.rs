use vstd::prelude::*;

use crate::decoder::{decoding, invocation};
use crate::error::{result_view, CertError, ErrorKind, NOT_A_FILE_MESSAGE, USAGE_MESSAGE};
use crate::x509::{pem_contents, tbs_rendering};

verus! {

/// Any number of arguments other than one gives the usage error, whatever the
/// file system would have answered.
pub proof fn law_wrong_argument_count(
    arg_count: int,
    is_file: bool,
    read: Result<Seq<char>, Seq<char>>,
)
    requires
        arg_count >= 0,
        arg_count != 1,
    ensures
        invocation(arg_count, is_file, read) == Err::<Seq<char>, (ErrorKind, Seq<char>)>(
            (ErrorKind::Usage, USAGE_MESSAGE@),
        ),
{
}

/// With one argument that is not a regular file, the result is the path error,
/// whatever reading would have given.
pub proof fn law_not_a_file(read: Result<Seq<char>, Seq<char>>)
    ensures
        invocation(1, false, read) == Err::<Seq<char>, (ErrorKind, Seq<char>)>(
            (ErrorKind::NotAFile, NOT_A_FILE_MESSAGE@),
        ),
{
}

/// A file whose text holds no decodable PEM block gives a PEM error and no
/// rendered text.
pub proof fn law_not_pem(text: Seq<char>)
    requires
        pem_contents(text) is Err,
    ensures
        invocation(1, true, Ok(text)) == Err::<Seq<char>, (ErrorKind, Seq<char>)>(
            (ErrorKind::Pem, pem_contents(text)->Err_0),
        ),
{
}

/// A PEM block whose bytes are not a certificate gives an X.509 error and no
/// rendered text.
pub proof fn law_not_a_certificate(text: Seq<char>)
    requires
        pem_contents(text) is Ok,
        tbs_rendering(pem_contents(text)->Ok_0) is Err,
    ensures
        invocation(1, true, Ok(text)) == Err::<Seq<char>, (ErrorKind, Seq<char>)>(
            (ErrorKind::X509, tbs_rendering(pem_contents(text)->Ok_0)->Err_0),
        ),
{
}

/// A file holding a PEM-encoded certificate gives the rendering of the
/// certificate's to-be-signed part.
pub proof fn law_certificate(text: Seq<char>)
    requires
        pem_contents(text) is Ok,
        tbs_rendering(pem_contents(text)->Ok_0) is Ok,
    ensures
        invocation(1, true, Ok(text)) == Ok::<Seq<char>, (ErrorKind, Seq<char>)>(
            tbs_rendering(pem_contents(text)->Ok_0)->Ok_0,
        ),
{
}

/// Two decodings of the same text give the same result, text for text: the
/// rendering holds nothing but what the text determines.
pub proof fn law_repeatable(
    text: Seq<char>,
    first: Result<String, CertError>,
    second: Result<String, CertError>,
)
    requires
        result_view(first) == decoding(text),
        result_view(second) == decoding(text),
    ensures
        first is Ok <==> second is Ok,
        first is Ok ==> first->Ok_0@ == second->Ok_0@,
        first is Err ==> first->Err_0@ == second->Err_0@,
{
}

} // verus!
