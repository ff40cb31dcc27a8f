//! The generic format sniffer: the `infer` crate's magic-number matchers,
//! consulted for what the signature table does not know.
//!
//! Every buffer is handed to the sniffer but for two kinds, on which its
//! matchers could fail rather than answer. Its Zstandard matcher calls
//! itself once for each skippable frame that a buffer opens with, so a
//! buffer with a chain of more than `MAX_FRAMES` such frames is kept from
//! it. And its matchers add to lengths that they read from the buffer,
//! which cannot go wrong where `usize` has 64 bits; where it has 32, a
//! frame that could not be addressed, and a buffer that opens with a ZIP
//! local file header, are kept from it too.

use crate::classify::Sniffed;
use crate::signature::{bytes_at, has_bytes_at, zip_local};
use vstd::prelude::*;

verus! {

/// The longest chain of skippable frames that is handed to the sniffer.
pub const MAX_FRAMES: usize = 1024;

/// The largest buffer length that 32 bits can hold.
pub const NARROW_MAX: u64 = 0xFFFF_FFFF;

/// What `infer::get` returns for a buffer: the MIME type and the file
/// extension of the first of its matchers that accepts the buffer, or
/// nothing if none does.
pub uninterp spec fn sniffed_kind(data: Seq<u8>) -> Option<(Seq<char>, Seq<char>)>;

/// What `str::to_uppercase` returns for a string.
pub uninterp spec fn uppercase_of(text: Seq<char>) -> Seq<char>;

/// True when `data` opens with the header of a Zstandard skippable frame:
/// a magic from 0x184D2A50 to 0x184D2A5F, little-endian, and a length.
pub open spec fn skippable_frame_start(data: Seq<u8>) -> bool {
    &&& data.len() >= 8
    &&& 0x50 <= data[0] <= 0x5F
    &&& data[1] == 0x2A
    &&& data[2] == 0x4D
    &&& data[3] == 0x18
}

/// The length of the content of the frame that `data` opens with: the
/// bytes 4 to 7 of its header, little-endian.
pub open spec fn frame_length(data: Seq<u8>) -> int {
    data[4] + data[5] * 0x100 + data[6] * 0x1_0000 + data[7] * 0x100_0000
}

/// True when the chain of skippable frames that `data` opens with ends
/// after `limit` frames at most: `data` opens with no frame, or with a
/// frame that reaches beyond its end, or with a frame after which the rest
/// ends after one frame less. A frame whose end no `usize` could hold ends
/// nothing.
pub open spec fn chain_ends_within(data: Seq<u8>, limit: nat) -> bool
    decreases limit,
{
    if !skippable_frame_start(data) {
        true
    } else if limit == 0 || 8 + frame_length(data) > usize::MAX {
        false
    } else if data.len() < 8 + frame_length(data) {
        true
    } else {
        chain_ends_within(data.skip(8 + frame_length(data)), (limit - 1) as nat)
    }
}

/// True on a machine with a `usize` of 32 bits for a buffer that opens with
/// a ZIP local file header.
pub open spec fn narrow_zip(data: Seq<u8>) -> bool {
    usize::MAX <= NARROW_MAX && bytes_at(data, 0, zip_local())
}

/// The buffers that are handed to the sniffer.
pub open spec fn sniffable(data: Seq<u8>) -> bool {
    chain_ends_within(data, MAX_FRAMES as nat) && !narrow_zip(data)
}

/// The sniffer's report on a buffer, with the extension in upper case as
/// the format label; nothing for a buffer that is kept from the sniffer.
pub open spec fn sniffer_report(data: Seq<u8>) -> Option<(Seq<char>, Seq<char>)> {
    if sniffable(data) {
        match sniffed_kind(data) {
            Some((mime, extension)) => Some((mime, uppercase_of(extension))),
            None => None,
        }
    } else {
        None
    }
}

/// Calls `infer::get` and reads the MIME type and the extension off the
/// type that it returns. Taken on trust: the result is determined by the
/// buffer alone, since the matchers are a fixed table that is tried in a
/// fixed order, and `sniffed_kind` is the name for it. On a `sniffable`
/// buffer the Zstandard matcher follows `MAX_FRAMES` frames at most,
/// and no sum of an offset and a length leaves the range of `usize`.
#[verifier::external_body]
fn sniff(data: &[u8]) -> (kind: Option<(String, String)>)
    requires
        sniffable(data@),
    ensures
        kind is Some <==> sniffed_kind(data@) is Some,
        kind matches Some((mime, extension)) ==> sniffed_kind(data@) == Some(
            (mime@, extension@),
        ),
{
    match infer::get(data) {
        Some(kind) => Some((kind.mime_type().to_string(), kind.extension().to_string())),
        None => None,
    }
}

/// Calls `str::to_uppercase`, which gives the upper-case equivalent of a
/// string as Unicode defines it. Taken on trust: the result depends on the
/// string alone, and `uppercase_of` is the name for it.
#[verifier::external_body]
fn to_uppercase(text: &str) -> (upper: String)
    ensures
        upper@ == uppercase_of(text@),
{
    text.to_uppercase()
}

/// Follows the chain of skippable frames that `data` opens with, for
/// `MAX_FRAMES` frames at most.
pub fn chain_is_short(data: &[u8]) -> (short: bool)
    ensures
        short == chain_ends_within(data@, MAX_FRAMES as nat),
{
    let mut offset: usize = 0;
    let mut left: usize = MAX_FRAMES;
    assert(data@.skip(0) =~= data@);
    loop
        invariant
            offset <= data@.len(),
            left <= MAX_FRAMES,
            chain_ends_within(data@, MAX_FRAMES as nat) == chain_ends_within(
                data@.skip(offset as int),
                left as nat,
            ),
        decreases left,
    {
        let ghost rest = data@.skip(offset as int);
        let room = data.len() - offset;
        if room < 8 || data[offset] < 0x50 || data[offset] > 0x5F || data[offset + 1] != 0x2A
            || data[offset + 2] != 0x4D || data[offset + 3] != 0x18 {
            return true;
        }
        if left == 0 {
            return false;
        }
        let length: u64 = data[offset + 4] as u64 + data[offset + 5] as u64 * 0x100 + data[offset
            + 6] as u64 * 0x1_0000 + data[offset + 7] as u64 * 0x100_0000;
        let frame: u64 = 8 + length;
        if frame > usize::MAX as u64 {
            return false;
        }
        if (room as u64) < frame {
            return true;
        }
        assert(rest.skip(frame as int) =~= data@.skip(offset + frame));
        offset = offset + frame as usize;
        left = left - 1;
    }
}

/// Tests for a buffer that opens with a ZIP local file header on a machine
/// with a `usize` of 32 bits.
fn is_narrow_zip(data: &[u8]) -> (found: bool)
    ensures
        found == narrow_zip(data@),
{
    usize::MAX as u64 <= NARROW_MAX && has_bytes_at(data, 0, &[0x50, 0x4B, 0x03, 0x04])
}

/// Asks the sniffer about `data`, unless the buffer is one that is kept
/// from it, and labels the answer.
pub fn sniff_format(data: &[u8]) -> (report: Option<Sniffed>)
    ensures
        report is Some <==> sniffer_report(data@) is Some,
        report matches Some(s) ==> sniffer_report(data@) == Some((s.mime@, s.label@)),
{
    if !chain_is_short(data) || is_narrow_zip(data) {
        return None;
    }
    match sniff(data) {
        Some((mime, extension)) => {
            let label = to_uppercase(extension.as_str());
            Some(Sniffed { mime, label })
        },
        None => None,
    }
}

} // verus!
