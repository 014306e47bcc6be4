//! Files as they were found: their fingerprints, their text, and the JSON in them.
use super::types::{
    malformed, AdapterBindingProofError, BindingFault, FileFingerprintScan, FileFingerprintScanView,
    ObservedFile, ObservedFileView,
};
use crate::fingerprint::{fingerprint, stable_content_fingerprint};
use crate::json::{Json, JsonView, Members};
use crate::outcome::outcome;
use crate::outside::{json_of, parse_json, utf8_text};
use crate::text::{cat3, cat5};
use vstd::prelude::*;
use vstd::string::*;
use vstd::utf8::{decode_utf8, valid_utf8};

verus! {

/// A file that could not be read.
pub open spec fn read_fault(label: Seq<char>, path: Seq<char>, e: Seq<char>) -> BindingFault {
    BindingFault::Io("read "@ + label + " `"@ + path + "`: "@ + e)
}

/// A file that the system could not tell about.
pub open spec fn metadata_fault(label: Seq<char>, path: Seq<char>, e: Seq<char>) -> BindingFault {
    BindingFault::Io("metadata "@ + label + " `"@ + path + "`: "@ + e)
}

pub fn read_failed(label: &str, path: &str, e: &str) -> (r: AdapterBindingProofError)
    ensures
        r.deep_view() == read_fault(label@, path@, e@),
{
    let mut m = cat5("read ", label, " `", path, "`: ");
    m.append(e);
    AdapterBindingProofError::Io(m)
}

pub fn metadata_failed(label: &str, path: &str, e: &str) -> (r: AdapterBindingProofError)
    ensures
        r.deep_view() == metadata_fault(label@, path@, e@),
{
    let mut m = cat5("metadata ", label, " `", path, "`: ");
    m.append(e);
    AdapterBindingProofError::Io(m)
}

pub open spec fn file_scan(path: Seq<char>, bytes: Seq<u8>) -> FileFingerprintScanView {
    FileFingerprintScanView {
        path,
        byte_len: bytes.len() as u64,
        fingerprint: fingerprint(bytes),
    }
}

/// The length and fingerprint of a file.
pub open spec fn fingerprinted(file: ObservedFileView, label: Seq<char>) -> Result<
    FileFingerprintScanView,
    BindingFault,
> {
    match file.read_error {
        Some(e) => Err(read_fault(label, file.path, e)),
        None => Ok(file_scan(file.path, file.contents)),
    }
}

pub fn scan_file_fingerprint(file: &ObservedFile, label: &str) -> (r: Result<
    FileFingerprintScan,
    AdapterBindingProofError,
>)
    ensures
        outcome(r) == fingerprinted(file.deep_view(), label@),
{
    match &file.read_error {
        Some(e) => Err(read_failed(label, file.path.as_str(), e.as_str())),
        None => {
            assert(file.contents.deep_view() =~= file.contents@);
            Ok(
                FileFingerprintScan {
                    path: file.path.clone(),
                    byte_len: file.contents.len() as u64,
                    fingerprint: stable_content_fingerprint(file.contents.as_slice()),
                },
            )
        },
    }
}

/// What `std::fs::read_to_string` says of bytes that are not UTF-8.
pub const NOT_UTF8: &'static str = "stream did not contain valid UTF-8";

/// The text of a file.
pub open spec fn text_of(file: ObservedFileView, label: Seq<char>) -> Result<
    Seq<char>,
    BindingFault,
> {
    match file.read_error {
        Some(e) => Err(read_fault(label, file.path, e)),
        None => if valid_utf8(file.contents) {
            Ok(decode_utf8(file.contents))
        } else {
            Err(read_fault(label, file.path, NOT_UTF8@))
        },
    }
}

pub fn read_text(file: &ObservedFile, label: &str) -> (r: Result<String, AdapterBindingProofError>)
    ensures
        outcome(r) == text_of(file.deep_view(), label@),
{
    match &file.read_error {
        Some(e) => Err(read_failed(label, file.path.as_str(), e.as_str())),
        None => {
            assert(file.contents.deep_view() =~= file.contents@);
            match utf8_text(file.contents.as_slice()) {
                Ok(s) => Ok(s),
                Err(_) => Err(read_failed(label, file.path.as_str(), NOT_UTF8)),
            }
        },
    }
}

/// What a file must hold: JSON.
pub open spec fn parsed_file(label: Seq<char>, parsed: Result<JsonView, Seq<char>>) -> Result<
    JsonView,
    BindingFault,
> {
    match parsed {
        Ok(v) => Ok(v),
        Err(e) => malformed(label + " JSON parse: "@ + e),
    }
}

/// What is made of the JSON of a file, or of the message of a failure to read it.
pub fn json_or_refuse(label: &str, parsed: Result<Json, String>) -> (r: Result<
    Json,
    AdapterBindingProofError,
>)
    ensures
        outcome(r) == parsed_file(
            label@,
            match parsed {
                Ok(j) => Ok(j@),
                Err(e) => Err(e@),
            },
        ),
{
    match parsed {
        Ok(j) => Ok(j),
        Err(e) => Err(
            AdapterBindingProofError::MalformedInput(cat3(label, " JSON parse: ", e.as_str())),
        ),
    }
}

/// The JSON in a file.
pub open spec fn json_file(file: ObservedFileView, label: Seq<char>) -> Result<
    JsonView,
    BindingFault,
> {
    match text_of(file, label) {
        Err(f) => Err(f),
        Ok(text) => parsed_file(label, json_of(text)),
    }
}

pub fn read_json_file(file: &ObservedFile, label: &str) -> (r: Result<
    Json,
    AdapterBindingProofError,
>)
    ensures
        outcome(r) == json_file(file.deep_view(), label@),
{
    match read_text(file, label) {
        Err(e) => Err(e),
        Ok(text) => json_or_refuse(label, parse_json(text.as_str())),
    }
}

/// A file by its length and fingerprint, as it is stored.
pub open spec fn file_scan_json(s: FileFingerprintScanView) -> JsonView {
    JsonView::Object(
        Seq::empty().push(("path"@, JsonView::Text(s.path))).push(
            ("byte_len"@, JsonView::Int(s.byte_len as int)),
        ).push(("fingerprint"@, JsonView::Text(s.fingerprint))),
    )
}

impl FileFingerprintScan {
    pub fn to_json(&self) -> (r: Json)
        ensures
            r@ == file_scan_json(self.deep_view()),
    {
        Members::new().text("path", self.path.as_str()).integer(
            "byte_len",
            self.byte_len as i128,
        ).text("fingerprint", self.fingerprint.as_str()).done()
    }
}

}
