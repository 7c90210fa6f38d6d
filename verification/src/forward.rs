//! The forward pipeline: a batch is compressed, encoded as text and wrapped
//! into the two form fields of one upload; the collector's reply is then
//! judged. Every failure ends the attempt and nothing else.

use crate::toml::Service;
use vstd::prelude::*;

verus! {

/// Why one forwarding attempt was given up. The batch is dropped in each case.
#[derive(Clone, Copy, Debug, PartialEq, Eq, Structural)]
pub enum ForwardError {
    /// The compressor reported an error.
    Compression,
    /// The compressed batch is too long for its text form to be held in memory.
    Encoding,
    /// The request did not reach the collector or no reply came back.
    Transport,
    /// The collector answered with a status outside 200..=299.
    Status(u16),
    /// The collector accepted the upload but its reply body could not be read.
    Body,
}

/// What the compressor makes of `data`: a zlib stream at the default level,
/// or nothing where it reports an error.
pub uninterp spec fn zlib_compressed(data: Seq<u8>) -> Option<Seq<u8>>;

/// The base64 text of `data`, standard alphabet, padded.
pub uninterp spec fn base64_standard(data: Seq<u8>) -> Seq<char>;

/// Number of characters in the padded base64 text of `len` bytes.
pub open spec fn encoded_len(len: nat) -> nat {
    4 * ((len + 2) / 3)
}

/// Whether the text form of `len` bytes fits in one allocation.
pub open spec fn encodable(len: nat) -> bool {
    encoded_len(len) <= isize::MAX
}

/// A character of base64 text: a symbol of the standard alphabet or the
/// padding sign.
pub open spec fn base64_char(c: char) -> bool {
    ||| 'A' <= c <= 'Z'
    ||| 'a' <= c <= 'z'
    ||| '0' <= c <= '9'
    ||| c == '+'
    ||| c == '/'
    ||| c == '='
}

/// Base64 text of the right length for `len` bytes.
pub open spec fn base64_text(text: Seq<char>, len: nat) -> bool {
    &&& text.len() == encoded_len(len)
    &&& forall|i: int| 0 <= i < text.len() ==> base64_char(#[trigger] text[i])
}

/// `std::io::Error`, the compressor's error. It is carried, never looked into.
#[verifier::external_type_specification]
#[verifier::external_body]
pub struct ExIoError(std::io::Error);

/// Runs `flate2::write::ZlibEncoder` (`new` at `Compression::default()`,
/// `write_all`, `finish`) over `src` into an empty vector.
///
/// Trusted: the outcome depends on the bytes of `src` alone, since the
/// encoder writes into memory. Whether it reports an error, and the bytes
/// it leaves in the vector when it does not, are what `zlib_compressed`
/// names. Nothing is claimed about which inputs it accepts.
#[verifier::external_body]
fn zlib_compress(src: &[u8]) -> (out: Result<Vec<u8>, std::io::Error>)
    ensures
        match out {
            Ok(bytes) => zlib_compressed(src@) == Some(bytes@),
            Err(_) => zlib_compressed(src@) is None,
        },
{
    let mut encoder = flate2::write::ZlibEncoder::new(Vec::new(), flate2::Compression::default());
    std::io::Write::write_all(&mut encoder, src)?;
    encoder.finish()
}

/// Calls `base64::Engine::encode` on `base64::engine::general_purpose::STANDARD`.
///
/// Trusted: the returned string is the base64 text of `bytes`; it has four
/// characters for every three bytes begun, each a symbol of the standard
/// alphabet or the padding sign. The engine panics when it cannot allocate
/// the text, so inputs whose text would exceed `isize::MAX` characters are
/// excluded.
#[verifier::external_body]
fn base64_encode(bytes: &[u8]) -> (text: String)
    requires
        encodable(bytes@.len()),
    ensures
        text@ == base64_standard(bytes@),
        base64_text(text@, bytes@.len()),
{
    base64::Engine::encode(&base64::engine::general_purpose::STANDARD, bytes)
}

/// Compresses a batch: the compressor's stream where it makes one, and
/// the compression failure exactly where it makes none.
pub fn compress(src: &[u8]) -> (out: Result<Vec<u8>, ForwardError>)
    ensures
        match out {
            Ok(bytes) => zlib_compressed(src@) == Some(bytes@),
            Err(e) => zlib_compressed(src@) is None && e == ForwardError::Compression,
        },
{
    match zlib_compress(src) {
        Ok(bytes) => Ok(bytes),
        Err(_) => Err(ForwardError::Compression),
    }
}

/// Decides whether `len` bytes can be encoded.
pub fn can_encode(len: usize) -> (ok: bool)
    ensures
        ok == encodable(len as nat),
{
    let groups: usize = len / 3 + if len % 3 == 0 { 0 } else { 1 };
    let limit: usize = (isize::MAX as usize) / 4;
    groups <= limit
}

/// Encodes compressed bytes as text, or refuses when the text would not fit.
pub fn encode(compressed: &[u8]) -> (out: Result<String, ForwardError>)
    ensures
        match out {
            Ok(text) => {
                &&& encodable(compressed@.len())
                &&& text@ == base64_standard(compressed@)
                &&& base64_text(text@, compressed@.len())
            },
            Err(e) => !encodable(compressed@.len()) && e == ForwardError::Encoding,
        },
{
    if can_encode(compressed.len()) {
        Ok(base64_encode(compressed))
    } else {
        Err(ForwardError::Encoding)
    }
}

/// One upload, ready to be posted: the collector's address and the two form
/// fields of the request body.
#[derive(Clone, Debug, PartialEq, Eq)]
pub struct Upload {
    /// Where the request goes.
    pub url: String,
    /// Form field `from`: the sender identifier.
    pub from: String,
    /// Form field `code`: the encoded, compressed batch.
    pub code: String,
}

/// Mathematical value of an [`Upload`].
pub struct UploadView {
    pub url: Seq<char>,
    pub from: Seq<char>,
    pub code: Seq<char>,
}

impl View for Upload {
    type V = UploadView;

    open spec fn view(&self) -> UploadView {
        UploadView { url: self.url@, from: self.from@, code: self.code@ }
    }
}

/// The upload that carries `compressed` to `service`, when it can be encoded.
pub open spec fn upload_of(service: Service, compressed: Seq<u8>) -> Result<
    UploadView,
    ForwardError,
> {
    if encodable(compressed.len()) {
        Ok(
            UploadView {
                url: service.url@,
                from: service.uuid@,
                code: base64_standard(compressed),
            },
        )
    } else {
        Err(ForwardError::Encoding)
    }
}

/// View of an upload result.
pub open spec fn upload_view(out: Result<Upload, ForwardError>) -> Result<
    UploadView,
    ForwardError,
> {
    match out {
        Ok(upload) => Ok(upload@),
        Err(e) => Err(e),
    }
}

/// Wraps already compressed bytes into the upload for `service`.
pub fn wrap(service: &Service, compressed: &[u8]) -> (out: Result<Upload, ForwardError>)
    ensures
        upload_view(out) == upload_of(*service, compressed@),
        out matches Ok(upload) ==> base64_text(upload.code@, compressed@.len()),
{
    match encode(compressed) {
        Ok(code) => Ok(Upload { url: service.url.clone(), from: service.uuid.clone(), code }),
        Err(e) => Err(e),
    }
}

/// The outcome of preparing the upload of `batch` for `service`: the upload
/// of the compressed batch, a compression failure exactly where the
/// compressor makes no stream, an encoding failure exactly where the stream
/// is too long.
pub open spec fn prepared(service: Service, batch: Seq<u8>) -> Result<UploadView, ForwardError> {
    match zlib_compressed(batch) {
        Some(compressed) => upload_of(service, compressed),
        None => Err(ForwardError::Compression),
    }
}

/// Turns a batch into the upload for `service`.
pub fn prepare_upload(service: &Service, batch: &[u8]) -> (out: Result<Upload, ForwardError>)
    ensures
        upload_view(out) == prepared(*service, batch@),
        out matches Ok(upload) ==> base64_text(
            upload.code@,
            zlib_compressed(batch@).unwrap().len(),
        ),
{
    match compress(batch) {
        Ok(compressed) => wrap(service, compressed.as_slice()),
        Err(e) => Err(e),
    }
}

/// What came back from posting an upload.
#[derive(Clone, Debug, PartialEq, Eq)]
pub enum Reply {
    /// The request failed before any status was received.
    Unanswered,
    /// The collector answered; `body` is its text, if it could be read.
    Answered { status: u16, body: Option<String> },
}

/// Whether an HTTP status reports success.
pub open spec fn is_success(status: u16) -> bool {
    200 <= status <= 299
}

/// The verdict on a reply: the body of a successful answer, or the failure.
pub open spec fn verdict(reply: Reply) -> Result<String, ForwardError> {
    match reply {
        Reply::Unanswered => Err(ForwardError::Transport),
        Reply::Answered { status, body } => if !is_success(status) {
            Err(ForwardError::Status(status))
        } else {
            match body {
                Some(text) => Ok(text),
                None => Err(ForwardError::Body),
            }
        },
    }
}

/// Judges the collector's reply to one upload.
pub fn conclude(reply: Reply) -> (out: Result<String, ForwardError>)
    ensures
        out == verdict(reply),
{
    match reply {
        Reply::Unanswered => Err(ForwardError::Transport),
        Reply::Answered { status, body } => {
            if status < 200 || status > 299 {
                Err(ForwardError::Status(status))
            } else {
                match body {
                    Some(text) => Ok(text),
                    None => Err(ForwardError::Body),
                }
            }
        },
    }
}

impl Upload {
    /// The body of the request as name and value pairs, in the order in
    /// which they are sent: `from` carries the sender identifier, `code`
    /// the encoded batch.
    pub fn form_fields(&self) -> (fields: [(&str, &str); 2])
        ensures
            fields[0].0@ == "from"@,
            fields[0].1@ == self.from@,
            fields[1].0@ == "code"@,
            fields[1].1@ == self.code@,
    {
        [("from", self.from.as_str()), ("code", self.code.as_str())]
    }
}

impl ForwardError {
    /// The text that tells this failure from the others in a log.
    pub open spec fn text(self) -> Seq<char> {
        match self {
            ForwardError::Compression => "Compression error"@,
            ForwardError::Encoding => "Encoding error"@,
            ForwardError::Transport => "HTTP request error"@,
            ForwardError::Status(_) => "HTTP status is not a success"@,
            ForwardError::Body => "Failed to read response"@,
        }
    }

    /// The text that tells this failure from the others in a log.
    pub fn message(&self) -> (text: &'static str)
        ensures
            text@ == self.text(),
    {
        match self {
            ForwardError::Compression => "Compression error",
            ForwardError::Encoding => "Encoding error",
            ForwardError::Transport => "HTTP request error",
            ForwardError::Status(_) => "HTTP status is not a success",
            ForwardError::Body => "Failed to read response",
        }
    }
}

/// Two failures with the same text are of the same kind: each kind of
/// failure has a text of its own.
pub proof fn lemma_failure_texts_differ(a: ForwardError, b: ForwardError)
    requires
        a.text() == b.text(),
    ensures
        a is Compression <==> b is Compression,
        a is Encoding <==> b is Encoding,
        a is Transport <==> b is Transport,
        a is Status <==> b is Status,
        a is Body <==> b is Body,
{
    reveal_strlit("Compression error");
    reveal_strlit("Encoding error");
    reveal_strlit("HTTP request error");
    reveal_strlit("HTTP status is not a success");
    reveal_strlit("Failed to read response");
    assert("Compression error"@.len() == 17);
    assert("Encoding error"@.len() == 14);
    assert("HTTP request error"@.len() == 18);
    assert("HTTP status is not a success"@.len() == 28);
    assert("Failed to read response"@.len() == 23);
    assert(a.text().len() == b.text().len());
}

/// Where the compressor makes a stream that can be encoded, the upload is
/// owed: it goes to the service's URL, its field `from` is the sender
/// identifier and its field `code` the base64 text of the stream. An
/// answer with a success status and a readable body then concludes the
/// attempt with success.
pub proof fn lemma_upload_is_owed(service: Service, batch: Seq<u8>, status: u16, body: String)
    requires
        zlib_compressed(batch) matches Some(stream) && encodable(stream.len()),
        is_success(status),
    ensures
        prepared(service, batch) == Ok::<UploadView, ForwardError>(
            UploadView {
                url: service.url@,
                from: service.uuid@,
                code: base64_standard(zlib_compressed(batch).unwrap()),
            },
        ),
        verdict(Reply::Answered { status, body: Some(body) }) == Ok::<String, ForwardError>(body),
{
}

} // verus!
