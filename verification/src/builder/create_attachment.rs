//! Files that a message carries.

use vstd::prelude::*;
use crate::error::Error;
use crate::http::url::{parse_url, segments_of, url_parsed, ParsedUrl};

verus! {

/// A file that the platform already holds, named by its identifier.
#[derive(Clone, Copy, Debug, PartialEq, Eq, Structural)]
pub struct ExistingAttachment {
    pub id: u64,
}

/// A file to send with a message: its contents and its name.
#[derive(Clone, Debug, PartialEq, Eq)]
pub struct CreateAttachment {
    pub data: Vec<u8>,
    pub filename: String,
}

impl CreateAttachment {
    /// The file with the given contents and name.
    pub fn bytes(data: Vec<u8>, filename: &str) -> (r: CreateAttachment)
        ensures
            r.data == data,
            r.filename@ == filename@,
    {
        CreateAttachment { data, filename: filename.to_owned() }
    }

    /// The file with the contents `data` that were read from a path whose last
    /// part is `file_name`. A path without a last part, such as a directory's that
    /// ends in `..`, is refused.
    pub fn from_path(data: Vec<u8>, file_name: Option<&str>) -> (r: Result<CreateAttachment, Error>)
        ensures
            match file_name {
                Some(name) => r matches Ok(file) && file.data == data && file.filename@ == name@,
                None => r matches Err(Error::Io(reason)) && reason@
                    == "attachment path must not be a directory"@,
            },
    {
        match file_name {
            Some(name) => Ok(CreateAttachment::bytes(data, name)),
            None => Err(Error::Io("attachment path must not be a directory".to_owned())),
        }
    }

    /// The address to download from, given what parsing `url` gave: the parsed
    /// address, or the refusal of the text, with the text in the error.
    pub fn target(url: &str, parsed: Option<ParsedUrl>) -> (r: Result<ParsedUrl, Error>)
        ensures
            match parsed {
                Some(address) => r == Ok::<ParsedUrl, Error>(address),
                None => r matches Err(Error::Url(text)) && text@ == url@,
            },
    {
        match parsed {
            Some(address) => Ok(address),
            None => Err(Error::Url(url.to_owned())),
        }
    }

    /// Reads `url` as the address to download a file from. Text that is no
    /// absolute address is refused, with the text in the error.
    pub fn download_target(url: &str) -> (r: Result<ParsedUrl, Error>)
        ensures
            match r {
                Ok(parsed) => url_parsed(url@) == Some(
                    (parsed.text@, segments_of(parsed.segments)),
                ),
                Err(e) => {
                    &&& url_parsed(url@) is None
                    &&& e matches Error::Url(text)
                    &&& text@ == url@
                },
            },
    {
        let parsed = match parse_url(url) {
            Ok(parsed) => Some(parsed),
            Err(_) => None,
        };
        CreateAttachment::target(url, parsed)
    }

    /// The file with the contents `data` that were downloaded from `url`: its name
    /// is the last segment of the address's path. An address without path segments
    /// is refused, with the address in the error.
    pub fn downloaded(url: &ParsedUrl, data: Vec<u8>) -> (r: Result<CreateAttachment, Error>)
        ensures
            match url.segments {
                Some(segments) => if segments@.len() > 0 {
                    r matches Ok(file) && file.data == data && file.filename == segments@.last()
                } else {
                    r matches Err(Error::Url(text)) && text == url.text
                },
                None => r matches Err(Error::Url(text)) && text == url.text,
            },
    {
        match &url.segments {
            Some(segments) => {
                if segments.len() > 0 {
                    let name = segments[segments.len() - 1].clone();
                    Ok(CreateAttachment { data, filename: name })
                } else {
                    Err(Error::Url(url.text.clone()))
                }
            },
            None => Err(Error::Url(url.text.clone())),
        }
    }
}

} // verus!
