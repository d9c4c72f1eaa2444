//! Extraction of the report from the bytes of a PNG file.
//!
//! Reading the file is the caller's business: the functions here take the
//! bytes, or the failure to get them. Decoding the container is done by the
//! `png` crate; what it finds is given the name [`decoded_text_chunks`], and
//! everything around the decoding is verified against that name.

use crate::report::{chunk_views, format_report, report, Chunk, ChunkView};
use vstd::prelude::*;
use vstd::string::StringExecFns;

verus! {

/// Why no report could be made for a file.
#[derive(Clone, Debug, PartialEq, Eq)]
pub enum ExtractError {
    /// The file could not be opened or read; holds the reason.
    Io(String),
    /// The bytes are not a sound PNG container up to the image data: wrong
    /// signature, malformed chunk, checksum mismatch, or early end. Holds the
    /// decoder's reason.
    Format(String),
}

/// The error of the `png` decoder.
#[verifier::external_type_specification]
#[verifier::external_body]
pub struct ExDecodingError(png::DecodingError);

/// The eight bytes that every PNG file begins with.
pub open spec fn signature() -> Seq<u8> {
    seq![137u8, 80u8, 78u8, 71u8, 13u8, 10u8, 26u8, 10u8]
}

/// Whether `data` begins with the PNG signature.
pub open spec fn has_signature(data: Seq<u8>) -> bool {
    data.len() >= 8 && data.take(8) == signature()
}

/// The `tEXt` chunks that the `png` decoder collects from `data` while it
/// reads the metadata in front of the image data, in file order; `None` where
/// the decoder rejects `data`.
pub uninterp spec fn decoded_text_chunks(data: Seq<u8>) -> Option<Seq<ChunkView>>;

/// Runs `png::Decoder::new(data).read_info()` and hands out the entries of
/// `uncompressed_latin1_text` of the resulting `Info`, each as a [`Chunk`].
///
/// Trusted: the outcome is the value named [`decoded_text_chunks`], and
/// data that does not begin with the signature is rejected.
#[verifier::external_body]
fn read_text_chunks(data: &[u8]) -> (res: Result<Vec<Chunk>, png::DecodingError>)
    ensures
        match res {
            Ok(chunks) => decoded_text_chunks(data@) == Some(chunk_views(chunks@)),
            Err(_) => decoded_text_chunks(data@) is None,
        },
        !has_signature(data@) ==> res is Err,
{
    let reader = png::Decoder::new(data).read_info()?;
    let found = &reader.info().uncompressed_latin1_text;
    Ok(found.iter().map(|c| Chunk::new(c.keyword.clone(), c.text.clone())).collect())
}

/// The message of a decoder error, as its `Display` impl writes it.
#[verifier::external_body]
fn decoding_error_text(error: &png::DecodingError) -> (text: String) {
    error.to_string()
}

impl ExtractError {
    /// The reason that the error holds.
    pub fn description(&self) -> (text: String)
        ensures
            text@ == self.reason(),
    {
        match self {
            ExtractError::Io(reason) => reason.clone(),
            ExtractError::Format(reason) => reason.clone(),
        }
    }

    /// The reason that the error holds, as a sequence of characters.
    pub open spec fn reason(&self) -> Seq<char> {
        match self {
            ExtractError::Io(reason) => reason@,
            ExtractError::Format(reason) => reason@,
        }
    }
}

/// What is returned for an outcome of the decoding: the report of the chunks
/// found, or a format error with the decoder's reason.
pub open spec fn outcome_of_decoding(
    decoded: Result<Seq<ChunkView>, Seq<char>>,
    res: Result<String, ExtractError>,
) -> bool {
    match decoded {
        Ok(chunks) => res matches Ok(text) && text@ == report(chunks),
        Err(reason) => res matches Err(ExtractError::Format(r)) && r@ == reason,
    }
}

/// Turns the outcome of the decoding into the outcome of the extraction:
/// chunks become their report, a decoder failure becomes a format error that
/// carries the decoder's reason. No chunks give the empty report.
pub fn report_of_decoding(decoded: Result<Vec<Chunk>, String>) -> (res: Result<
    String,
    ExtractError,
>)
    ensures
        match decoded {
            Ok(chunks) => outcome_of_decoding(Ok(chunk_views(chunks@)), res),
            Err(reason) => outcome_of_decoding(Err(reason@), res),
        },
{
    match decoded {
        Ok(chunks) => Ok(format_report(&chunks)),
        Err(reason) => Err(ExtractError::Format(reason)),
    }
}

/// The report of the PNG file whose bytes are `data`.
///
/// Succeeds exactly where the decoder accepts `data`, with the report of the
/// chunks it found; everything else is a format error, and a report is never
/// returned in part. Data without the signature is always a format error.
pub fn get_png_metadata(data: &[u8]) -> (res: Result<String, ExtractError>)
    ensures
        match decoded_text_chunks(data@) {
            Some(chunks) => res matches Ok(text) && text@ == report(chunks),
            None => res matches Err(ExtractError::Format(_)),
        },
        !has_signature(data@) ==> res matches Err(ExtractError::Format(_)),
{
    let decoded = match read_text_chunks(data) {
        Ok(chunks) => Ok(chunks),
        Err(error) => Err(decoding_error_text(&error)),
    };
    report_of_decoding(decoded)
}

/// What `extract` returns for a file that was read, or could not be.
pub open spec fn extracted(
    file: Result<Seq<u8>, Seq<char>>,
    res: Result<String, ExtractError>,
) -> bool {
    match file {
        Ok(data) => match decoded_text_chunks(data) {
            Some(chunks) => res matches Ok(text) && text@ == report(chunks),
            None => res matches Err(ExtractError::Format(_)),
        },
        Err(reason) => res matches Err(ExtractError::Io(r)) && r@ == reason,
    }
}

/// The report for a file, given what reading it gave: its bytes, or the
/// reason why it could not be read.
///
/// A file that could not be read is an I/O error with that reason. A file
/// that was read is handled as [`get_png_metadata`] says.
pub fn extract(file: Result<Vec<u8>, String>) -> (res: Result<String, ExtractError>)
    ensures
        match file {
            Ok(data) => extracted(Ok(data@), res),
            Err(reason) => extracted(Err(reason@), res),
        },
        file matches Ok(data) ==> (!has_signature(data@) ==> res matches Err(
            ExtractError::Format(_),
        )),
{
    match file {
        Ok(data) => get_png_metadata(data.as_slice()),
        Err(reason) => Err(ExtractError::Io(reason)),
    }
}

/// The text that is shown for an outcome of the extraction: the report, or
/// one line that begins with `ERROR: ` and holds the error's reason.
pub open spec fn display_of(outcome: Result<String, ExtractError>) -> Seq<char> {
    match outcome {
        Ok(text) => text@,
        Err(error) => "ERROR: "@ + error.reason(),
    }
}

/// The text to show for an outcome of the extraction. An empty report gives
/// an empty text, not an error line.
pub fn display_text(outcome: &Result<String, ExtractError>) -> (text: String)
    ensures
        text@ == display_of(*outcome),
{
    match outcome {
        Ok(report) => report.clone(),
        Err(error) => {
            let mut line = String::from_str("ERROR: ");
            let reason = error.description();
            line.append(reason.as_str());
            line
        },
    }
}

} // verus!
