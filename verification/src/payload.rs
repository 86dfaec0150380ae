use vstd::prelude::*;

use crate::text::{has_prefix, strip_prefix};

verus! {

/// What the `base64` crate's standard engine (RFC 4648 alphabet, padding
/// required), read through its `DecoderReader`, makes of the characters of
/// `data`: the decoded bytes, or the text of the error it rejects them with.
pub uninterp spec fn base64_standard_decode(data: Seq<char>) -> Result<Seq<u8>, Seq<char>>;

/// Decodes `data` with `base64::read::DecoderReader` over the
/// `base64::engine::general_purpose::STANDARD` engine, copied out with
/// `std::io::copy`. The contract claims that the outcome, the bytes or the
/// displayed text of the error, is the standard decoding of the input and
/// depends on nothing else.
#[verifier::external_body]
fn read_standard_base64(data: &str) -> (res: Result<Vec<u8>, String>)
    ensures
        match res {
            Ok(bytes) => base64_standard_decode(data@) == Ok::<Seq<u8>, Seq<char>>(bytes@),
            Err(text) => base64_standard_decode(data@) == Err::<Seq<u8>, Seq<char>>(text@),
        },
{
    let mut input = std::io::Cursor::new(data);
    let mut output = Vec::new();
    let engine = base64::engine::general_purpose::STANDARD;
    let mut decoder = base64::read::DecoderReader::new(&mut input, &engine);
    match std::io::copy(&mut decoder, &mut output) {
        Ok(_) => Ok(output),
        Err(e) => Err(e.to_string()),
    }
}

/// Why a payload handed over by the web UI could not be turned into bytes.
#[derive(Debug, Clone, PartialEq, Eq)]
pub enum PayloadError {
    /// The data does not start with the expected data-URL header.
    InvalidDataUrl,
    /// The base64 body was rejected; the decoder's own explanation.
    Base64(String),
}

impl PayloadError {
    /// The message the shell reports for this error.
    pub fn message(&self) -> (m: String)
        ensures
            self is InvalidDataUrl ==> m@ == "Failed to parse data URL"@,
            self matches PayloadError::Base64(e) ==> m@ == "Failed to decode base64: "@ + e@,
    {
        match self {
            PayloadError::InvalidDataUrl => String::from_str("Failed to parse data URL"),
            PayloadError::Base64(e) => String::from_str("Failed to decode base64: ").concat(e.as_str()),
        }
    }
}

/// The header of a data URL whose body is base64 of an arbitrary byte stream.
pub open spec fn octet_stream_data_url_header() -> Seq<char> {
    "application/octet-stream;charset=utf-8;base64,"@
}

fn octet_stream_data_url_header_str() -> (s: &'static str)
    ensures
        s@ == octet_stream_data_url_header(),
{
    "application/octet-stream;charset=utf-8;base64,"
}

/// The base64 body of an octet-stream data URL, or `None` without the header.
pub open spec fn data_url_body(data: Seq<char>) -> Option<Seq<char>> {
    if has_prefix(data, octet_stream_data_url_header()) {
        Some(data.skip(octet_stream_data_url_header().len() as int))
    } else {
        None
    }
}

/// `res` is what decoding `data` as standard base64 gives: its bytes, or a
/// `Base64` error carrying the decoder's text.
pub open spec fn base64_outcome(data: Seq<char>, res: Result<Vec<u8>, PayloadError>) -> bool {
    match base64_standard_decode(data) {
        Ok(bytes) => res matches Ok(v) && v@ == bytes,
        Err(text) => res matches Err(PayloadError::Base64(e)) && e@ == text,
    }
}

/// A data URL has a body exactly when it starts with the octet-stream base64
/// header, and the body is everything after that header.
pub proof fn lemma_data_url_body(data: Seq<char>)
    ensures
        data_url_body(data) is Some <==> has_prefix(data, "application/octet-stream;charset=utf-8;base64,"@),
        data_url_body(data) matches Some(body) ==>
            data == "application/octet-stream;charset=utf-8;base64,"@ + body,
{
    let header = "application/octet-stream;charset=utf-8;base64,"@;
    if has_prefix(data, header) {
        assert(data =~= header + data.skip(header.len() as int));
    }
}

/// Decoding succeeds exactly where the base64 decoder accepts the text, with
/// the bytes it produces; otherwise the error is a `Base64` error carrying the
/// decoder's own text, never `InvalidDataUrl`.
pub proof fn lemma_base64_outcome(data: Seq<char>, res: Result<Vec<u8>, PayloadError>)
    requires
        base64_outcome(data, res),
    ensures
        res is Ok <==> base64_standard_decode(data) is Ok,
        res matches Ok(v) ==> base64_standard_decode(data) == Ok::<Seq<u8>, Seq<char>>(v@),
        res matches Err(e) ==> (e matches PayloadError::Base64(t)
            && base64_standard_decode(data) == Err::<Seq<u8>, Seq<char>>(t@)),
{
}

/// A data URL made of the octet-stream header followed by any body carries
/// exactly that body, so `decode_data_url` decodes it as `decode_base64`
/// decodes the body alone.
pub proof fn lemma_header_then_body(body: Seq<char>)
    ensures
        data_url_body(octet_stream_data_url_header() + body) == Some(body),
{
    let header = octet_stream_data_url_header();
    let data = header + body;
    assert(header =~= data.subrange(0, header.len() as int));
    assert(data.skip(header.len() as int) =~= body);
}

/// Decodes standard base64.
pub fn decode_base64(data: &str) -> (res: Result<Vec<u8>, PayloadError>)
    ensures
        base64_outcome(data@, res),
{
    match read_standard_base64(data) {
        Ok(bytes) => Ok(bytes),
        Err(e) => Err(PayloadError::Base64(e)),
    }
}

/// The bytes carried by an octet-stream data URL such as the web UI hands
/// over for a download.
pub fn decode_data_url(data: &str) -> (res: Result<Vec<u8>, PayloadError>)
    ensures
        data_url_body(data@) is None ==> res == Err::<Vec<u8>, PayloadError>(PayloadError::InvalidDataUrl),
        data_url_body(data@) matches Some(body) ==> base64_outcome(body, res),
{
    let header = octet_stream_data_url_header_str();
    match strip_prefix(data, header) {
        None => Err(PayloadError::InvalidDataUrl),
        Some(body) => {
            assert(body@ =~= data@.skip(header@.len() as int));
            decode_base64(body)
        },
    }
}

} // verus!
