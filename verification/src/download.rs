//! The decisions of a download: the size ceiling, which is enforced on what
//! the server announces and again on every chunk, and the file name that the
//! response suggests. The transfer itself is the caller's business.

use crate::error::{message_of, ErrorKind, LibraryError};
use crate::text::{
    chars_of, decimal, find_char, lemma_position_of, position_of, push_decimal, skip_leading,
    stands_at, string_of, trim_bounds, trimmed, without_leading, Trim,
};
use vstd::prelude::*;
use vstd::string::StringExecFns;

verus! {

/// The largest payload that a download may bring, in bytes.
pub const MAX_DOWNLOAD_SIZE: usize = 104857600;

/// The time after which a download is given up, in seconds.
pub const DOWNLOAD_TIMEOUT_SECS: u64 = 120;

/// How far a download has come: what to tell the progress listener.
#[derive(Debug, Clone, Copy, PartialEq, Eq)]
pub struct DownloadProgress {
    /// The bytes received so far.
    pub downloaded: u64,
    /// The size that the server announced, 0 where it announced none.
    pub total: u64,
}

/// A download in progress: the bytes received so far, never more than the limit.
#[derive(Debug)]
pub struct Download {
    limit: usize,
    total: u64,
    received: Vec<u8>,
}

/// The size that a server announced, 0 where it announced none.
pub open spec fn announced_size(announced: Option<u64>) -> u64 {
    match announced {
        Some(size) => size,
        None => 0,
    }
}

/// A byte count as the failure reports it: the count itself, or the largest
/// `u64` where it is larger than that.
pub open spec fn capped(count: int) -> u64 {
    if count > u64::MAX {
        u64::MAX
    } else {
        count as u64
    }
}

impl Download {
    /// What holds of every download that `begin` made: it has taken no more
    /// than its limit.
    pub closed spec fn within_limit(self) -> bool {
        self.received.len() <= self.limit
    }

    /// The largest number of bytes that this download accepts.
    pub closed spec fn limit(self) -> usize {
        self.limit
    }

    /// The size that the server announced, 0 where it announced none.
    pub closed spec fn total(self) -> u64 {
        self.total
    }

    /// The bytes received so far.
    pub closed spec fn received(self) -> Seq<u8> {
        self.received@
    }

    /// Starts a download of which the server announced this size. Fails with
    /// `PayloadTooLarge`, before a byte is taken, where the announced size is
    /// over the limit.
    pub fn begin(announced: Option<u64>, limit: usize) -> (outcome: Result<Download, LibraryError>)
        ensures
            match outcome {
                Ok(download) => {
                    &&& download.within_limit()
                    &&& announced_size(announced) <= limit
                    &&& download.limit() == limit
                    &&& download.total() == announced_size(announced)
                    &&& download.received() == Seq::<u8>::empty()
                },
                Err(error) => {
                    &&& announced_size(announced) > limit
                    &&& error == (LibraryError::PayloadTooLarge {
                        size: announced_size(announced),
                        limit: limit as u64,
                    })
                },
            },
    {
        let total: u64 = match announced {
            Some(size) => size,
            None => 0,
        };
        if total > limit as u64 {
            return Err(LibraryError::PayloadTooLarge { size: total, limit: limit as u64 });
        }
        Ok(Download { limit, total, received: Vec::new() })
    }

    /// Takes the next chunk. Fails with `PayloadTooLarge`, and keeps what it
    /// had, where the chunk would bring the download over the limit. Else the
    /// chunk is appended, and the progress to report is returned: the count of
    /// bytes received, which never goes down, and the announced size.
    pub fn accept(&mut self, chunk: &[u8]) -> (outcome: Result<DownloadProgress, LibraryError>)
        requires
            old(self).within_limit(),
        ensures
            final(self).within_limit(),
            final(self).limit() == old(self).limit(),
            final(self).total() == old(self).total(),
            match outcome {
                Ok(progress) => {
                    &&& old(self).received().len() + chunk@.len() <= old(self).limit()
                    &&& final(self).received() == old(self).received() + chunk@
                    &&& progress.downloaded == final(self).received().len()
                    &&& progress.total == old(self).total()
                },
                Err(error) => {
                    &&& old(self).received().len() + chunk@.len() > old(self).limit()
                    &&& final(self).received() == old(self).received()
                    &&& error == (LibraryError::PayloadTooLarge {
                        size: capped((old(self).received().len() + chunk@.len()) as int),
                        limit: old(self).limit() as u64,
                    })
                },
            },
    {
        let room: usize = self.limit - self.received.len();
        if chunk.len() > room {
            let have: u64 = self.received.len() as u64;
            let more: u64 = chunk.len() as u64;
            let size: u64 = if more > u64::MAX - have {
                u64::MAX
            } else {
                have + more
            };
            return Err(LibraryError::PayloadTooLarge { size, limit: self.limit as u64 });
        }
        self.received.extend_from_slice(chunk);
        Ok(DownloadProgress { downloaded: self.received.len() as u64, total: self.total })
    }

    /// Ends the download and hands out what was received.
    pub fn finish(self) -> (bytes: Vec<u8>)
        requires
            self.within_limit(),
        ensures
            bytes@ == self.received(),
            bytes@.len() <= self.limit(),
    {
        self.received
    }
}

/// Whether a response with this status brings the payload: the statuses from
/// 200 to 299 do.
pub open spec fn is_success(status: u16) -> bool {
    200 <= status <= 299
}

/// The message for a response that brings no payload:
/// `HTTP <status>: <reason>`, a line break, `Body: <body>`.
pub open spec fn status_message(status: u16, reason: Seq<char>, body: Seq<char>) -> Seq<char> {
    "HTTP "@ + decimal(status as nat) + ": "@ + reason + "\nBody: "@ + body
}

/// Lets a download go on where the response has a success status, and fails
/// with `HttpError` where it has another, with the status, its reason phrase
/// and the body of the response in the message.
pub fn check_status(status: u16, reason: &str, body: &str) -> (outcome: Result<(), LibraryError>)
    ensures
        is_success(status) ==> outcome is Ok,
        !is_success(status) ==> outcome is Err && outcome->Err_0.kind() == ErrorKind::HttpError
            && message_of(outcome->Err_0) == status_message(status, reason@, body@),
{
    if 200 <= status && status <= 299 {
        return Ok(());
    }
    let mut message = String::from_str("HTTP ");
    push_decimal(&mut message, status as u64);
    message.append(": ");
    message.append(reason);
    message.append("\nBody: ");
    message.append(body);
    Err(LibraryError::HttpError(message))
}

/// The key that opens the file-name part of a `Content-Disposition` header.
pub open spec fn filename_key() -> Seq<char> {
    seq!['f', 'i', 'l', 'e', 'n', 'a', 'm', 'e', '=']
}

/// The file name that one part of a `Content-Disposition` header gives: the
/// part is trimmed of white space; where it then opens with `filename=`, every
/// leading `filename=` is dropped and the rest is trimmed of double quotes.
pub open spec fn part_file_name(part: Seq<char>) -> Option<Seq<char>> {
    let inner = trimmed(part, Trim::Space);
    if filename_key().is_prefix_of(inner) {
        Some(trimmed(without_leading(inner, filename_key()), Trim::Quote))
    } else {
        None
    }
}

/// The file name that a `Content-Disposition` header gives: that of the first
/// of its parts, which `;` separates, that gives one.
pub open spec fn disposition_file_name(header: Seq<char>) -> Option<Seq<char>>
    decreases header.len(),
{
    let cut = position_of(header, ';');
    match part_file_name(header.take(cut)) {
        Some(name) => Some(name),
        None => if 0 <= cut < header.len() {
            disposition_file_name(header.skip(cut + 1))
        } else {
            None
        },
    }
}

/// The file name that a download suggests: the one that the
/// `Content-Disposition` header gives, else the last segment of the address
/// that answered.
pub open spec fn suggested_file_name(disposition: Option<Seq<char>>, last_segment: Seq<char>) -> Seq<
    char,
> {
    match disposition {
        Some(header) => match disposition_file_name(header) {
            Some(name) => name,
            None => last_segment,
        },
        None => last_segment,
    }
}

/// Reads the file name out of a `Content-Disposition` header.
pub fn file_name_from_disposition(header: &str) -> (name: Option<String>)
    ensures
        name.deep_view() == disposition_file_name(header@),
{
    let chars = chars_of(header);
    let key = chars_of("filename=");
    proof {
        reveal_strlit("filename=");
        assert(chars@.skip(0) =~= chars@);
    }
    let mut start: usize = 0;
    loop
        invariant
            start <= chars.len(),
            chars@ == header@,
            key@ == filename_key(),
            disposition_file_name(header@) == disposition_file_name(chars@.skip(start as int)),
        decreases chars.len() - start,
    {
        let cut = find_char(&chars, start, ';');
        let ghost rest = chars@.skip(start as int);
        let ghost part = chars@.subrange(start as int, cut as int);
        proof {
            lemma_position_of(rest, ';');
            assert(rest.take(cut - start) =~= part);
        }
        let (a, b) = trim_bounds(&chars, start, cut, Trim::Space);
        let ghost inner = chars@.subrange(a as int, b as int);
        let opens = b - a >= key.len() && stands_at(&chars, &key, a);
        proof {
            if b - a >= key.len() {
                assert(inner.subrange(0, key@.len() as int) =~= chars@.subrange(
                    a as int,
                    a + key@.len(),
                ));
            }
        }
        if opens {
            let from = skip_leading(&chars, a, b, &key);
            let (c, d) = trim_bounds(&chars, from, b, Trim::Quote);
            return Some(string_of(&chars, c, d));
        }
        if cut >= chars.len() {
            return None;
        }
        proof {
            assert(rest.skip(cut - start + 1) =~= chars@.skip(cut + 1));
        }
        start = cut + 1;
    }
}

/// The file name that a download suggests, given the `Content-Disposition`
/// header of the response, if it has one, and the last path segment of the
/// address that answered.
pub fn file_name_hint(disposition: Option<&str>, last_segment: &str) -> (name: String)
    ensures
        name@ == suggested_file_name(disposition.deep_view(), last_segment@),
{
    let given = match disposition {
        Some(header) => file_name_from_disposition(header),
        None => None,
    };
    match given {
        Some(name) => name,
        None => last_segment.to_owned(),
    }
}

} // verus!
