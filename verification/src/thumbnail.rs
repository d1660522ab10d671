//! Where a mod's thumbnail comes from: picture data sent along in base64, or
//! a picture file to copy.

use crate::error::{message_of, ErrorKind, LibraryError};
use vstd::prelude::*;
use vstd::string::StringExecFns;

verus! {

/// The name of the thumbnail inside a mod directory.
pub const THUMBNAIL_FILE_NAME: &'static str = "thumbnail.png";

/// The error type of the decoders of the `base64` crate.
#[verifier::external_type_specification]
#[verifier::external_body]
pub struct ExDecodeError(base64::DecodeError);

/// The bytes that `text` stands for in standard base64 with padding, as the
/// `base64` crate decodes it; `None` where the crate rejects the text.
pub uninterp spec fn base64_decoding(text: Seq<char>) -> Option<Seq<u8>>;

/// Decodes `text` with `Engine::decode` of the engine
/// `base64::engine::general_purpose::STANDARD`. The outcome depends on the
/// text alone.
#[verifier::external_body]
fn decode_standard(text: &str) -> (decoded: Result<Vec<u8>, base64::DecodeError>)
    ensures
        match decoded {
            Ok(bytes) => base64_decoding(text@) == Some(bytes@),
            Err(_) => base64_decoding(text@) is None,
        },
{
    base64::Engine::decode(&base64::engine::general_purpose::STANDARD, text)
}

/// The message of a `base64::DecodeError`, as its `Display` impl writes it.
/// Nothing is claimed of the text.
#[verifier::external_body]
fn describe(error: &base64::DecodeError) -> (message: String) {
    error.to_string()
}

/// Where the thumbnail of a mod comes from.
#[derive(Debug, Clone, PartialEq, Eq)]
pub enum ThumbnailSource {
    /// Write these bytes.
    Bytes(Vec<u8>),
    /// Copy the file at this path.
    CopyFrom(String),
}

/// The mathematical value of a [`ThumbnailSource`].
pub enum ThumbnailSourceView {
    Bytes(Seq<u8>),
    CopyFrom(Seq<char>),
}

impl View for ThumbnailSource {
    type V = ThumbnailSourceView;

    open spec fn view(&self) -> ThumbnailSourceView {
        match *self {
            ThumbnailSource::Bytes(bytes) => ThumbnailSourceView::Bytes(bytes@),
            ThumbnailSource::CopyFrom(path) => ThumbnailSourceView::CopyFrom(path@),
        }
    }
}

/// What a call without a mod directory is told.
pub open spec fn no_directory_message() -> Seq<char> {
    "Mod directory does not exist"@
}

/// What opens the message of a call with a path at which no file lies; the
/// path follows.
pub open spec fn no_file_message() -> Seq<char> {
    "Thumbnail path does not exist"@
}

/// What a call without path and picture data is told.
pub open spec fn no_source_message() -> Seq<char> {
    "No thumbnail provided"@
}

/// The message of a failure to choose a source, where the library words it:
/// `None` for picture data that is no base64, whose message is the decoder's.
pub open spec fn refusal_message(
    is_directory: bool,
    thumbnail_path: Seq<char>,
    base64: Seq<char>,
) -> Option<Seq<char>> {
    if !is_directory {
        Some(no_directory_message())
    } else if base64.len() > 0 {
        None
    } else if thumbnail_path.len() > 0 {
        Some(no_file_message() + thumbnail_path)
    } else {
        Some(no_source_message())
    }
}

/// The source of a thumbnail, or the kind of the failure, given what the
/// picture data stands for, if it stands for anything: picture data wins over
/// a path; a path counts only where a file lies at it; a missing mod directory
/// stops everything.
pub open spec fn thumbnail_choice(
    is_directory: bool,
    thumbnail_path: Seq<char>,
    source_is_file: bool,
    base64: Seq<char>,
    decoded: Option<Seq<u8>>,
) -> Result<ThumbnailSourceView, ErrorKind> {
    if !is_directory {
        Err(ErrorKind::InvalidPath)
    } else if base64.len() > 0 {
        match decoded {
            Some(bytes) => Ok(ThumbnailSourceView::Bytes(bytes)),
            None => Err(ErrorKind::SerializationError),
        }
    } else if thumbnail_path.len() > 0 {
        if source_is_file {
            Ok(ThumbnailSourceView::CopyFrom(thumbnail_path))
        } else {
            Err(ErrorKind::InvalidPath)
        }
    } else {
        Err(ErrorKind::InvalidPath)
    }
}

/// The value or the kind of failure of an outcome.
pub open spec fn outcome_view(outcome: Result<ThumbnailSource, LibraryError>) -> Result<
    ThumbnailSourceView,
    ErrorKind,
> {
    match outcome {
        Ok(source) => Ok(source@),
        Err(error) => Err(error.kind()),
    }
}

/// What decoding made of picture data: the bytes, or the decoder's complaint.
pub open spec fn decoded_view(decoded: Result<Vec<u8>, String>) -> Option<Seq<u8>> {
    match decoded {
        Ok(bytes) => Some(bytes@),
        Err(_) => None,
    }
}

/// Decides where the thumbnail of a mod comes from, given what decoding made
/// of the picture data. Where no picture data was handed in, `decoded` is not
/// looked at.
pub fn thumbnail_from(
    is_directory: bool,
    thumbnail_path: &str,
    source_is_file: bool,
    base64: &str,
    decoded: Result<Vec<u8>, String>,
) -> (outcome: Result<ThumbnailSource, LibraryError>)
    ensures
        outcome_view(outcome) == thumbnail_choice(
            is_directory,
            thumbnail_path@,
            source_is_file,
            base64@,
            decoded_view(decoded),
        ),
        outcome matches Err(error) ==> message_of(error) == (match refusal_message(
            is_directory,
            thumbnail_path@,
            base64@,
        ) {
            Some(message) => message,
            None => decoded->Err_0@,
        }),
{
    if !is_directory {
        return Err(LibraryError::InvalidPath(String::from_str("Mod directory does not exist")));
    }
    if !base64.is_empty() {
        match decoded {
            Ok(bytes) => Ok(ThumbnailSource::Bytes(bytes)),
            Err(complaint) => Err(LibraryError::SerializationError(complaint)),
        }
    } else if !thumbnail_path.is_empty() {
        if source_is_file {
            Ok(ThumbnailSource::CopyFrom(thumbnail_path.to_owned()))
        } else {
            let mut message = String::from_str("Thumbnail path does not exist");
            message.append(thumbnail_path);
            Err(LibraryError::InvalidPath(message))
        }
    } else {
        Err(LibraryError::InvalidPath(String::from_str("No thumbnail provided")))
    }
}

/// Decides where the thumbnail of a mod comes from, given whether the mod
/// directory is there, the path and the picture data that were handed in, and
/// whether a file lies at the path. Picture data that is no base64 fails with
/// `SerializationError`; a missing directory, a missing file and a call
/// without path and data fail with `InvalidPath`.
pub fn set_thumbnail(
    is_directory: bool,
    thumbnail_path: &str,
    source_is_file: bool,
    base64: &str,
) -> (outcome: Result<ThumbnailSource, LibraryError>)
    ensures
        outcome_view(outcome) == thumbnail_choice(
            is_directory,
            thumbnail_path@,
            source_is_file,
            base64@,
            base64_decoding(base64@),
        ),
        outcome matches Err(error) ==> (refusal_message(is_directory, thumbnail_path@, base64@)
            matches Some(message) ==> message_of(error) == message),
{
    let decoded = match decode_standard(base64) {
        Ok(bytes) => Ok(bytes),
        Err(error) => Err(describe(&error)),
    };
    thumbnail_from(is_directory, thumbnail_path, source_is_file, base64, decoded)
}

} // verus!
