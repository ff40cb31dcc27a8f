//! The signature table: fixed byte patterns at fixed offsets that identify
//! archive formats, and two further magics of compressed streams.

use vstd::prelude::*;

verus! {

/// True when `pattern` stands in `data` at `offset`.
pub open spec fn bytes_at(data: Seq<u8>, offset: int, pattern: Seq<u8>) -> bool {
    &&& 0 <= offset
    &&& offset + pattern.len() <= data.len()
    &&& data.subrange(offset, offset + pattern.len()) == pattern
}

/// The ZIP local file header magic.
pub open spec fn zip_local() -> Seq<u8> {
    seq![0x50u8, 0x4B, 0x03, 0x04]
}

/// The ZIP end-of-central-directory magic, which opens an empty archive.
pub open spec fn zip_empty() -> Seq<u8> {
    seq![0x50u8, 0x4B, 0x05, 0x06]
}

/// "Rar!" and the two bytes that follow it.
pub open spec fn rar_magic() -> Seq<u8> {
    seq![0x52u8, 0x61, 0x72, 0x21, 0x1A, 0x07]
}

/// "7z" and the four bytes that follow it.
pub open spec fn seven_zip_magic() -> Seq<u8> {
    seq![0x37u8, 0x7A, 0xBC, 0xAF, 0x27, 0x1C]
}

/// The two identification bytes of a gzip member.
pub open spec fn gzip_magic() -> Seq<u8> {
    seq![0x1Fu8, 0x8B]
}

/// "ustar", which a POSIX tar header holds at offset 257.
pub open spec fn tar_magic() -> Seq<u8> {
    seq![0x75u8, 0x73, 0x74, 0x61, 0x72]
}

/// "BZh".
pub open spec fn bzip2_magic() -> Seq<u8> {
    seq![0x42u8, 0x5A, 0x68]
}

/// The six bytes that open an xz stream.
pub open spec fn xz_magic() -> Seq<u8> {
    seq![0xFDu8, 0x37, 0x7A, 0x58, 0x5A, 0x00]
}

/// "CD001", which an ISO 9660 volume descriptor holds at offset 32769.
pub open spec fn iso_magic() -> Seq<u8> {
    seq![0x43u8, 0x44, 0x30, 0x30, 0x31]
}

/// "MSCF".
pub open spec fn cab_magic() -> Seq<u8> {
    seq![0x4Du8, 0x53, 0x43, 0x46]
}

/// The two identification bytes of an ARJ header.
pub open spec fn arj_magic() -> Seq<u8> {
    seq![0x60u8, 0xEA]
}

/// "-l", which an LZH header holds at offset 2.
pub open spec fn lzh_magic() -> Seq<u8> {
    seq![0x2Du8, 0x6C]
}

/// The magic of a Zstandard frame.
pub open spec fn zstd_magic() -> Seq<u8> {
    seq![0x28u8, 0xB5, 0x2F, 0xFD]
}

/// The magic of an LZ4 frame.
pub open spec fn lz4_magic() -> Seq<u8> {
    seq![0x04u8, 0x22, 0x4D, 0x18]
}

/// The name of the first entry of the table that `data` matches, in the
/// table's priority order. An entry matches only where its whole pattern
/// lies within the data; the tar and ISO entries ask for one byte beyond
/// their pattern.
pub open spec fn signature_name(data: Seq<u8>) -> Option<Seq<char>> {
    if bytes_at(data, 0, zip_local()) || bytes_at(data, 0, zip_empty()) {
        Some("ZIP"@)
    } else if bytes_at(data, 0, rar_magic()) {
        Some("RAR"@)
    } else if bytes_at(data, 0, seven_zip_magic()) {
        Some("7Z"@)
    } else if bytes_at(data, 0, gzip_magic()) {
        Some("GZIP"@)
    } else if data.len() > 262 && bytes_at(data, 257, tar_magic()) {
        Some("TAR"@)
    } else if bytes_at(data, 0, bzip2_magic()) {
        Some("BZIP2"@)
    } else if bytes_at(data, 0, xz_magic()) {
        Some("XZ"@)
    } else if data.len() > 32774 && bytes_at(data, 32769, iso_magic()) {
        Some("ISO"@)
    } else if bytes_at(data, 0, cab_magic()) {
        Some("CAB"@)
    } else if bytes_at(data, 0, arj_magic()) {
        Some("ARJ"@)
    } else if bytes_at(data, 2, lzh_magic()) {
        Some("LZH"@)
    } else {
        None
    }
}

/// True when `data` starts with the Zstandard or the LZ4 frame magic.
pub open spec fn compressed_signature(data: Seq<u8>) -> bool {
    bytes_at(data, 0, zstd_magic()) || bytes_at(data, 0, lz4_magic())
}

/// Compares the bytes of `data` from `offset` on with `pattern`.
pub fn has_bytes_at(data: &[u8], offset: usize, pattern: &[u8]) -> (found: bool)
    ensures
        found == bytes_at(data@, offset as int, pattern@),
{
    if data.len() < offset || data.len() - offset < pattern.len() {
        return false;
    }
    let mut i: usize = 0;
    while i < pattern.len()
        invariant
            i <= pattern@.len(),
            offset + pattern@.len() <= data@.len() <= usize::MAX,
            forall|j: int| 0 <= j < i ==> data@[offset + j] == pattern@[j],
        decreases pattern@.len() - i,
    {
        if data[offset + i] != pattern[i] {
            return false;
        }
        i += 1;
    }
    assert(data@.subrange(offset as int, offset + pattern@.len()) =~= pattern@);
    true
}

/// Looks `data` up in the signature table and names the archive format of
/// the first entry that matches.
pub fn check_magic_number(data: &[u8]) -> (name: Option<String>)
    ensures
        name is Some <==> signature_name(data@) is Some,
        name matches Some(n) ==> signature_name(data@) == Some(n@),
{
    if has_bytes_at(data, 0, &[0x50, 0x4B, 0x03, 0x04]) || has_bytes_at(
        data,
        0,
        &[0x50, 0x4B, 0x05, 0x06],
    ) {
        return Some("ZIP".to_owned());
    }
    if has_bytes_at(data, 0, &[0x52, 0x61, 0x72, 0x21, 0x1A, 0x07]) {
        return Some("RAR".to_owned());
    }
    if has_bytes_at(data, 0, &[0x37, 0x7A, 0xBC, 0xAF, 0x27, 0x1C]) {
        return Some("7Z".to_owned());
    }
    if has_bytes_at(data, 0, &[0x1F, 0x8B]) {
        return Some("GZIP".to_owned());
    }
    if data.len() > 262 && has_bytes_at(data, 257, &[0x75, 0x73, 0x74, 0x61, 0x72]) {
        return Some("TAR".to_owned());
    }
    if has_bytes_at(data, 0, &[0x42, 0x5A, 0x68]) {
        return Some("BZIP2".to_owned());
    }
    if has_bytes_at(data, 0, &[0xFD, 0x37, 0x7A, 0x58, 0x5A, 0x00]) {
        return Some("XZ".to_owned());
    }
    if data.len() > 32774 && has_bytes_at(data, 32769, &[0x43, 0x44, 0x30, 0x30, 0x31]) {
        return Some("ISO".to_owned());
    }
    if has_bytes_at(data, 0, &[0x4D, 0x53, 0x43, 0x46]) {
        return Some("CAB".to_owned());
    }
    if has_bytes_at(data, 0, &[0x60, 0xEA]) {
        return Some("ARJ".to_owned());
    }
    if has_bytes_at(data, 2, &[0x2D, 0x6C]) {
        return Some("LZH".to_owned());
    }
    None
}

/// Tests the first four bytes against the Zstandard and LZ4 magics.
pub fn is_compressed_format(data: &[u8]) -> (found: bool)
    ensures
        found == compressed_signature(data@),
{
    has_bytes_at(data, 0, &[0x28, 0xB5, 0x2F, 0xFD]) || has_bytes_at(
        data,
        0,
        &[0x04, 0x22, 0x4D, 0x18],
    )
}

} // verus!
