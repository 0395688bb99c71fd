//! Binary decoder for TIFF structural metadata.
//!
//! Every decode step consumes a byte buffer at a cursor position and either
//! produces a typed model value together with the position just past what it
//! consumed, or a `TiffError`; no step panics and no step returns a partial
//! result. Each executable function is pinned to a total spec-level parse
//! function of the buffer alone, so decoding the same buffer twice always
//! yields equal results.
//!
//! Multi-byte integer fields are read in the byte order declared by the
//! header's marker; the marker itself occupies one byte per character, so
//! its own read is order-independent.

use crate::model::FileView;
use crate::model::IfdView;
use crate::model::TiffByteOrder;
use crate::model::TiffDataType;
use crate::model::TiffError;
use crate::model::TiffFile;
use crate::model::TiffHeader;
use crate::model::TiffIfd;
use crate::model::TiffIfdEntry;
use crate::model::TiffTag;
use crate::model::spec_byte_order_from_u16;
use crate::model::spec_data_type_from_u16;
use crate::model::spec_ifd_views;
use crate::model::spec_tag_from_u16;
use vstd::prelude::*;

verus! {

/// The 16-bit integer whose bytes stand at `pos` and `pos + 1`, composed in
/// the given byte order.
pub open spec fn spec_u16_at(order: TiffByteOrder, s: Seq<u8>, pos: int) -> u16
    recommends
        0 <= pos,
        pos + 2 <= s.len(),
{
    match order {
        TiffByteOrder::BigEndian => (s[pos] * 256 + s[pos + 1]) as u16,
        TiffByteOrder::LittleEndian => (s[pos + 1] * 256 + s[pos]) as u16,
    }
}

/// The 32-bit integer whose bytes stand at `pos` through `pos + 3`, composed
/// in the given byte order.
pub open spec fn spec_u32_at(order: TiffByteOrder, s: Seq<u8>, pos: int) -> u32
    recommends
        0 <= pos,
        pos + 4 <= s.len(),
{
    match order {
        TiffByteOrder::BigEndian => (s[pos] * 0x1000000 + s[pos + 1] * 0x10000 + s[pos + 2] * 0x100
            + s[pos + 3]) as u32,
        TiffByteOrder::LittleEndian => (s[pos + 3] * 0x1000000 + s[pos + 2] * 0x10000 + s[pos + 1]
            * 0x100 + s[pos]) as u32,
    }
}

/// Reads the 16-bit field at `pos` in the given byte order.
fn read_u16_at(input: &[u8], order: TiffByteOrder, pos: usize) -> (v: u16)
    requires
        pos + 2 <= input@.len(),
    ensures
        v == spec_u16_at(order, input@, pos as int),
{
    let b0 = input[pos] as u16;
    let b1 = input[pos + 1] as u16;
    match order {
        TiffByteOrder::BigEndian => b0 * 256 + b1,
        TiffByteOrder::LittleEndian => b1 * 256 + b0,
    }
}

/// Reads the 32-bit field at `pos` in the given byte order.
fn read_u32_at(input: &[u8], order: TiffByteOrder, pos: usize) -> (v: u32)
    requires
        pos + 4 <= input@.len(),
    ensures
        v == spec_u32_at(order, input@, pos as int),
{
    let b0 = input[pos] as u32;
    let b1 = input[pos + 1] as u32;
    let b2 = input[pos + 2] as u32;
    let b3 = input[pos + 3] as u32;
    match order {
        TiffByteOrder::BigEndian => b0 * 0x1000000 + b1 * 0x10000 + b2 * 0x100 + b3,
        TiffByteOrder::LittleEndian => b3 * 0x1000000 + b2 * 0x10000 + b1 * 0x100 + b0,
    }
}

/// What decoding an 8-byte header at `pos` yields: the header and the
/// position just past it, or the first applicable error. The marker bytes
/// are checked first, then the version field, read in the marker's own byte
/// order, must be 42.
pub open spec fn spec_parse_header(s: Seq<u8>, pos: int) -> Result<(TiffHeader, int), TiffError> {
    if pos + 8 > s.len() {
        Err(TiffError::TruncatedInput)
    } else {
        match spec_byte_order_from_u16(spec_u16_at(TiffByteOrder::BigEndian, s, pos)) {
            Err(e) => Err(e),
            Ok(order) => {
                if spec_u16_at(order, s, pos + 2) != 42 {
                    Err(TiffError::InvalidVersion)
                } else {
                    Ok(
                        (
                            TiffHeader {
                                byte_order: order,
                                version: 42,
                                first_ifd_offset: spec_u32_at(order, s, pos + 4),
                            },
                            pos + 8,
                        ),
                    )
                }
            },
        }
    }
}

/// Decodes the 8-byte file prologue at `pos`: byte-order marker, version
/// (must be 42), and the absolute offset of the first IFD. Consumes exactly
/// 8 bytes on success and never returns a partial header.
pub fn parse_header(input: &[u8], pos: usize) -> (r: Result<(TiffHeader, usize), TiffError>)
    ensures
        match r {
            Ok((header, end)) => spec_parse_header(input@, pos as int) == Ok::<
                (TiffHeader, int),
                TiffError,
            >((header, end as int)) && end == pos + 8,
            Err(e) => spec_parse_header(input@, pos as int) == Err::<(TiffHeader, int), TiffError>(
                e,
            ),
        },
{
    if input.len() < 8 || pos > input.len() - 8 {
        return Err(TiffError::TruncatedInput);
    }
    let marker = read_u16_at(input, TiffByteOrder::BigEndian, pos);
    let byte_order = match TiffByteOrder::from_u16(marker) {
        Ok(order) => order,
        Err(e) => {
            return Err(e);
        },
    };
    let version = read_u16_at(input, byte_order, pos + 2);
    if version != 42 {
        return Err(TiffError::InvalidVersion);
    }
    let first_ifd_offset = read_u32_at(input, byte_order, pos + 4);
    Ok((TiffHeader { byte_order, version, first_ifd_offset }, pos + 8))
}

/// What decoding one 12-byte directory entry at `pos` yields: tag code and
/// field-type code are looked up in the registered tables, and an
/// unrecognized tag is reported before an unrecognized type.
pub open spec fn spec_parse_entry(order: TiffByteOrder, s: Seq<u8>, pos: int) -> Result<
    TiffIfdEntry,
    TiffError,
> {
    if pos + 12 > s.len() {
        Err(TiffError::TruncatedInput)
    } else {
        match spec_tag_from_u16(spec_u16_at(order, s, pos)) {
            Err(e) => Err(e),
            Ok(tag) => match spec_data_type_from_u16(spec_u16_at(order, s, pos + 2)) {
                Err(e) => Err(e),
                Ok(field_type) => Ok(
                    TiffIfdEntry {
                        tag,
                        field_type,
                        count: spec_u32_at(order, s, pos + 4),
                        value_offset: spec_u32_at(order, s, pos + 8),
                    },
                ),
            },
        }
    }
}

/// Decodes one 12-byte directory record at `pos`: 2 bytes tag code, 2 bytes
/// field-type code, 4 bytes value count, 4 bytes value-or-offset. Consumes
/// exactly 12 bytes on success; fails if either code is unrecognized.
pub fn parse_directory_entry(input: &[u8], byte_order: TiffByteOrder, pos: usize) -> (r: Result<
    (TiffIfdEntry, usize),
    TiffError,
>)
    ensures
        match r {
            Ok((entry, end)) => spec_parse_entry(byte_order, input@, pos as int) == Ok::<
                TiffIfdEntry,
                TiffError,
            >(entry) && end == pos + 12,
            Err(e) => spec_parse_entry(byte_order, input@, pos as int) == Err::<
                TiffIfdEntry,
                TiffError,
            >(e),
        },
{
    if input.len() < 12 || pos > input.len() - 12 {
        return Err(TiffError::TruncatedInput);
    }
    let tag_code = read_u16_at(input, byte_order, pos);
    let type_code = read_u16_at(input, byte_order, pos + 2);
    let tag = match TiffTag::from_u16(tag_code) {
        Ok(tag) => tag,
        Err(e) => {
            return Err(e);
        },
    };
    let field_type = match TiffDataType::from_u16(type_code) {
        Ok(field_type) => field_type,
        Err(e) => {
            return Err(e);
        },
    };
    let count = read_u32_at(input, byte_order, pos + 4);
    let value_offset = read_u32_at(input, byte_order, pos + 8);
    Ok((TiffIfdEntry { tag, field_type, count, value_offset }, pos + 12))
}

/// What decoding `n` consecutive 12-byte entries starting at `pos` yields:
/// the entries in on-disk order, or the error of the first entry that fails.
pub open spec fn spec_parse_entries(order: TiffByteOrder, s: Seq<u8>, pos: int, n: nat) -> Result<
    Seq<TiffIfdEntry>,
    TiffError,
>
    decreases n,
{
    if n == 0 {
        Ok(Seq::empty())
    } else {
        match spec_parse_entry(order, s, pos) {
            Err(e) => Err(e),
            Ok(entry) => match spec_parse_entries(order, s, pos + 12, (n - 1) as nat) {
                Err(e) => Err(e),
                Ok(rest) => Ok(seq![entry] + rest),
            },
        }
    }
}

/// Entries that each decode on their own decode as a region: if entry `k`
/// decodes to `entries[k]` for every `k < n`, the whole region of `n`
/// entries decodes to `entries`.
proof fn lemma_parse_entries_ok(
    order: TiffByteOrder,
    s: Seq<u8>,
    pos: int,
    n: nat,
    entries: Seq<TiffIfdEntry>,
)
    requires
        entries.len() == n,
        forall|k: int|
            0 <= k < n ==> spec_parse_entry(order, s, pos + 12 * k) == Ok::<
                TiffIfdEntry,
                TiffError,
            >(entries[k]),
    ensures
        spec_parse_entries(order, s, pos, n) == Ok::<Seq<TiffIfdEntry>, TiffError>(entries),
    decreases n,
{
    if n == 0 {
        assert(entries =~= Seq::<TiffIfdEntry>::empty());
    } else {
        let tail = entries.subrange(1, n as int);
        assert(spec_parse_entry(order, s, pos + 12 * 0) == Ok::<TiffIfdEntry, TiffError>(
            entries[0],
        ));
        assert forall|k: int|
            0 <= k < n - 1 implies spec_parse_entry(order, s, pos + 12 + 12 * k) == Ok::<
            TiffIfdEntry,
            TiffError,
        >(tail[k]) by {
            assert(spec_parse_entry(order, s, pos + 12 * (k + 1)) == Ok::<TiffIfdEntry, TiffError>(
                entries[k + 1],
            ));
            assert(pos + 12 + 12 * k == pos + 12 * (k + 1));
        }
        lemma_parse_entries_ok(order, s, pos + 12, (n - 1) as nat, tail);
        assert(entries =~= seq![entries[0]] + tail);
    }
}

/// A region of entries fails with the error of its first failing entry: if
/// entries `0..j` decode and entry `j` fails with `e`, the whole region of
/// `n > j` entries fails with `e`.
proof fn lemma_parse_entries_err(
    order: TiffByteOrder,
    s: Seq<u8>,
    pos: int,
    n: nat,
    j: nat,
    entries: Seq<TiffIfdEntry>,
    e: TiffError,
)
    requires
        j < n,
        entries.len() == j,
        forall|k: int|
            0 <= k < j ==> spec_parse_entry(order, s, pos + 12 * k) == Ok::<
                TiffIfdEntry,
                TiffError,
            >(entries[k]),
        spec_parse_entry(order, s, pos + 12 * j) == Err::<TiffIfdEntry, TiffError>(e),
    ensures
        spec_parse_entries(order, s, pos, n) == Err::<Seq<TiffIfdEntry>, TiffError>(e),
    decreases j,
{
    if j == 0 {
        assert(spec_parse_entry(order, s, pos) == Err::<TiffIfdEntry, TiffError>(e));
    } else {
        let tail = entries.subrange(1, j as int);
        assert(spec_parse_entry(order, s, pos + 12 * 0) == Ok::<TiffIfdEntry, TiffError>(
            entries[0],
        ));
        assert forall|k: int|
            0 <= k < j - 1 implies spec_parse_entry(order, s, pos + 12 + 12 * k) == Ok::<
            TiffIfdEntry,
            TiffError,
        >(tail[k]) by {
            assert(spec_parse_entry(order, s, pos + 12 * (k + 1)) == Ok::<TiffIfdEntry, TiffError>(
                entries[k + 1],
            ));
            assert(pos + 12 + 12 * k == pos + 12 * (k + 1));
        }
        assert(pos + 12 + 12 * (j - 1) == pos + 12 * j);
        lemma_parse_entries_err(order, s, pos + 12, (n - 1) as nat, (j - 1) as nat, tail, e);
    }
}

/// What decoding one IFD at `pos` yields: the declared entry count `n`, the
/// `n * 12`-byte entry region, and the trailing next-IFD offset, together
/// with the position just past the directory. The whole region of
/// `2 + n * 12 + 4` bytes must be present before any entry is examined.
pub open spec fn spec_parse_ifd(order: TiffByteOrder, s: Seq<u8>, pos: int) -> Result<
    (IfdView, int),
    TiffError,
> {
    if pos + 2 > s.len() {
        Err(TiffError::TruncatedInput)
    } else {
        let n = spec_u16_at(order, s, pos) as int;
        if pos + 2 + n * 12 + 4 > s.len() {
            Err(TiffError::TruncatedInput)
        } else {
            match spec_parse_entries(order, s, pos + 2, n as nat) {
                Err(e) => Err(e),
                Ok(entries) => Ok(
                    (
                        IfdView {
                            num_entries: spec_u16_at(order, s, pos),
                            directory_entries: entries,
                            next_ifd_offset: spec_u32_at(order, s, pos + 2 + n * 12),
                        },
                        pos + 2 + n * 12 + 4,
                    ),
                ),
            }
        }
    }
}

/// Decodes one Image File Directory at `pos`: a 2-byte entry count `n`,
/// exactly `n` 12-byte entries, and the 4-byte offset of the next IFD.
/// Fails with a truncation error when fewer than `n * 12 + 4` bytes follow
/// the count, and never returns a directory whose entry count disagrees
/// with the entries it holds.
pub fn parse_ifd(input: &[u8], byte_order: TiffByteOrder, pos: usize) -> (r: Result<
    (TiffIfd, usize),
    TiffError,
>)
    ensures
        match r {
            Ok((ifd, end)) => spec_parse_ifd(byte_order, input@, pos as int) == Ok::<
                (IfdView, int),
                TiffError,
            >((ifd@, end as int)) && ifd.well_formed(),
            Err(e) => spec_parse_ifd(byte_order, input@, pos as int) == Err::<
                (IfdView, int),
                TiffError,
            >(e),
        },
{
    if input.len() < 2 || pos > input.len() - 2 {
        return Err(TiffError::TruncatedInput);
    }
    let num_entries = read_u16_at(input, byte_order, pos);
    let n = num_entries as usize;
    let remaining = input.len() - (pos + 2);
    if remaining < n * 12 + 4 {
        return Err(TiffError::TruncatedInput);
    }
    let mut entries: Vec<TiffIfdEntry> = Vec::new();
    let mut j: usize = 0;
    while j < n
        invariant
            j <= n,
            n == spec_u16_at(byte_order, input@, pos as int),
            pos + 2 + n * 12 + 4 <= input@.len(),
            input@.len() <= usize::MAX,
            entries@.len() == j,
            forall|k: int|
                0 <= k < j ==> spec_parse_entry(byte_order, input@, pos + 2 + 12 * k) == Ok::<
                    TiffIfdEntry,
                    TiffError,
                >(entries@[k]),
        decreases n - j,
    {
        let entry_pos = pos + 2 + j * 12;
        match parse_directory_entry(input, byte_order, entry_pos) {
            Ok((entry, _)) => {
                entries.push(entry);
            },
            Err(e) => {
                proof {
                    lemma_parse_entries_err(
                        byte_order,
                        input@,
                        pos + 2,
                        n as nat,
                        j as nat,
                        entries@,
                        e,
                    );
                }
                return Err(e);
            },
        }
        j = j + 1;
    }
    let next_pos = pos + 2 + n * 12;
    let next_ifd_offset = read_u32_at(input, byte_order, next_pos);
    let ifd = TiffIfd { num_entries, directory_entries: entries, next_ifd_offset };
    proof {
        lemma_parse_entries_ok(byte_order, input@, pos + 2, n as nat, ifd.directory_entries@);
        assert(spec_parse_ifd(byte_order, input@, pos as int) matches Ok((v, end)) && v =~= ifd@
            && end == next_pos + 4);
    }
    Ok((ifd, next_pos + 4))
}

/// What following the IFD chain from `offset` yields: the views of the
/// directories in chain order. An offset of 0 ends the chain; an offset
/// already in `visited` is a cycle. `fuel` bounds the recursion; the
/// top-level call supplies one unit per buffer byte, more than the distinct
/// in-bounds offsets a chain can visit before revisiting one, so exhausting
/// it also means an offset recurred.
pub open spec fn spec_parse_ifd_chain(
    order: TiffByteOrder,
    s: Seq<u8>,
    offset: u32,
    visited: Seq<u32>,
    fuel: nat,
) -> Result<Seq<IfdView>, TiffError>
    decreases fuel,
{
    if offset == 0 {
        Ok(Seq::empty())
    } else if visited.contains(offset) {
        Err(TiffError::IfdCycleDetected)
    } else if fuel == 0 {
        Err(TiffError::IfdCycleDetected)
    } else {
        match spec_parse_ifd(order, s, offset as int) {
            Err(e) => Err(e),
            Ok((ifd, _)) => match spec_parse_ifd_chain(
                order,
                s,
                ifd.next_ifd_offset,
                visited.push(offset),
                (fuel - 1) as nat,
            ) {
                Err(e) => Err(e),
                Ok(rest) => Ok(seq![ifd] + rest),
            },
        }
    }
}

/// Whether `offset` occurs in the list of already visited IFD offsets.
fn visited_contains(visited: &Vec<u32>, offset: u32) -> (b: bool)
    ensures
        b == visited@.contains(offset),
{
    let mut i: usize = 0;
    while i < visited.len()
        invariant
            i <= visited@.len(),
            forall|k: int| 0 <= k < i ==> visited@[k] != offset,
        decreases visited@.len() - i,
    {
        if visited[i] == offset {
            return true;
        }
        i = i + 1;
    }
    false
}

/// Follows the IFD chain starting at `offset`, collecting each directory in
/// order, with `visited` holding the offsets already decoded.
fn parse_ifd_chain(
    input: &[u8],
    byte_order: TiffByteOrder,
    offset: u32,
    visited: Vec<u32>,
    fuel: usize,
) -> (r: Result<Vec<TiffIfd>, TiffError>)
    ensures
        match r {
            Ok(ifds) => spec_parse_ifd_chain(byte_order, input@, offset, visited@, fuel as nat)
                == Ok::<Seq<IfdView>, TiffError>(spec_ifd_views(ifds@)),
            Err(e) => spec_parse_ifd_chain(byte_order, input@, offset, visited@, fuel as nat)
                == Err::<Seq<IfdView>, TiffError>(e),
        },
    decreases fuel,
{
    if offset == 0 {
        let ifds: Vec<TiffIfd> = Vec::new();
        proof {
            assert(spec_ifd_views(ifds@) =~= Seq::<IfdView>::empty());
        }
        return Ok(ifds);
    }
    if visited_contains(&visited, offset) {
        return Err(TiffError::IfdCycleDetected);
    }
    if fuel == 0 {
        return Err(TiffError::IfdCycleDetected);
    }
    let (ifd, _) = match parse_ifd(input, byte_order, offset as usize) {
        Ok(parsed) => parsed,
        Err(e) => {
            return Err(e);
        },
    };
    let mut seen = visited;
    seen.push(offset);
    let next_offset = ifd.next_ifd_offset;
    match parse_ifd_chain(input, byte_order, next_offset, seen, fuel - 1) {
        Ok(rest) => {
            let ghost rest_snapshot = rest@;
            let mut ifds: Vec<TiffIfd> = Vec::new();
            ifds.push(ifd);
            let mut tail = rest;
            ifds.append(&mut tail);
            proof {
                assert(spec_ifd_views(ifds@) =~= seq![ifd@] + spec_ifd_views(rest_snapshot));
            }
            Ok(ifds)
        },
        Err(e) => Err(e),
    }
}

/// What decoding a whole TIFF buffer yields: the header decoded at the
/// start of the buffer, then every IFD reached from `first_ifd_offset` by
/// following next-IFD offsets until one is 0 or recurs.
pub open spec fn spec_parse_tiff(s: Seq<u8>) -> Result<FileView, TiffError> {
    match spec_parse_header(s, 0) {
        Err(e) => Err(e),
        Ok((header, _)) => match spec_parse_ifd_chain(
            header.byte_order,
            s,
            header.first_ifd_offset,
            Seq::empty(),
            s.len(),
        ) {
            Err(e) => Err(e),
            Ok(ifds) => Ok(FileView { header, ifds }),
        },
    }
}

/// Decodes a TIFF buffer: the 8-byte header, then the chain of IFDs it
/// points to, in order, until a next-IFD offset of 0. A next-IFD offset
/// that points back at an already decoded directory fails with
/// `IfdCycleDetected` instead of looping, and any failure aborts the whole
/// decode without a partial result.
pub fn parse_tiff(input: &[u8]) -> (r: Result<TiffFile, TiffError>)
    ensures
        match r {
            Ok(file) => spec_parse_tiff(input@) == Ok::<FileView, TiffError>(file@),
            Err(e) => spec_parse_tiff(input@) == Err::<FileView, TiffError>(e),
        },
{
    let (header, _) = match parse_header(input, 0) {
        Ok(parsed) => parsed,
        Err(e) => {
            return Err(e);
        },
    };
    let visited: Vec<u32> = Vec::new();
    proof {
        assert(visited@ =~= Seq::<u32>::empty());
    }
    match parse_ifd_chain(input, header.byte_order, header.first_ifd_offset, visited, input.len()) {
        Ok(ifds) => Ok(TiffFile { header, ifds }),
        Err(e) => Err(e),
    }
}

/// A region of entries that decodes holds exactly as many entries as were
/// asked for.
proof fn lemma_parse_entries_len(
    order: TiffByteOrder,
    s: Seq<u8>,
    pos: int,
    n: nat,
    entries: Seq<TiffIfdEntry>,
)
    requires
        spec_parse_entries(order, s, pos, n) == Ok::<Seq<TiffIfdEntry>, TiffError>(entries),
    ensures
        entries.len() == n,
    decreases n,
{
    if n > 0 {
        let rest = spec_parse_entries(order, s, pos + 12, (n - 1) as nat);
        lemma_parse_entries_len(order, s, pos + 12, (n - 1) as nat, rest->Ok_0);
    }
}

/// Every directory in a chain that decodes holds exactly as many entries as
/// its declared count.
proof fn lemma_chain_ifds_well_formed(
    order: TiffByteOrder,
    s: Seq<u8>,
    offset: u32,
    visited: Seq<u32>,
    fuel: nat,
    ifds: Seq<IfdView>,
)
    requires
        spec_parse_ifd_chain(order, s, offset, visited, fuel) == Ok::<Seq<IfdView>, TiffError>(
            ifds,
        ),
    ensures
        forall|i: int|
            0 <= i < ifds.len() ==> (#[trigger] ifds[i]).directory_entries.len()
                == ifds[i].num_entries,
    decreases fuel,
{
    if offset != 0 {
        let parsed = spec_parse_ifd(order, s, offset as int);
        let ifd = parsed->Ok_0.0;
        let n = spec_u16_at(order, s, offset as int) as nat;
        lemma_parse_entries_len(
            order,
            s,
            offset + 2,
            n,
            spec_parse_entries(order, s, offset + 2, n)->Ok_0,
        );
        let rest = spec_parse_ifd_chain(
            order,
            s,
            ifd.next_ifd_offset,
            visited.push(offset),
            (fuel - 1) as nat,
        );
        lemma_chain_ifds_well_formed(
            order,
            s,
            ifd.next_ifd_offset,
            visited.push(offset),
            (fuel - 1) as nat,
            rest->Ok_0,
        );
        assert(ifds == seq![ifd] + rest->Ok_0);
    }
}

/// Every directory produced by a successful whole-file decode holds exactly
/// as many entries as its declared count: a decode never yields a directory
/// whose entry count disagrees with the entries behind it.
pub proof fn lemma_parse_tiff_ifds_well_formed(s: Seq<u8>, file: FileView)
    requires
        spec_parse_tiff(s) == Ok::<FileView, TiffError>(file),
    ensures
        forall|i: int|
            0 <= i < file.ifds.len() ==> (#[trigger] file.ifds[i]).directory_entries.len()
                == file.ifds[i].num_entries,
{
    let header = spec_parse_header(s, 0)->Ok_0.0;
    lemma_chain_ifds_well_formed(
        header.byte_order,
        s,
        header.first_ifd_offset,
        Seq::empty(),
        s.len(),
        file.ifds,
    );
}

/// Decoding is a pure function of the buffer: any two results that satisfy
/// the decoder's contract on the same buffer are equal, so decoding the
/// same buffer twice yields structurally equal results.
pub proof fn lemma_parse_tiff_deterministic(
    s: Seq<u8>,
    r1: Result<FileView, TiffError>,
    r2: Result<FileView, TiffError>,
)
    requires
        r1 == spec_parse_tiff(s),
        r2 == spec_parse_tiff(s),
    ensures
        r1 == r2,
{
}

} // verus!
