//! The archive index: a header and the entries it announces, in one of two
//! on-disk layouts.

use crate::bytes::{has_bytes, read_u16_at, read_u32_at, u16_at, u32_of};
use crate::text::{chars_of, decimal, push_decimal, push_str, string_of, utf8_string};
use vstd::prelude::*;
use vstd::utf8::{decode_utf8, valid_utf8};

verus! {

/// What can go wrong while an archive is read.
#[derive(Debug, Copy, Clone, PartialEq, Eq, Structural)]
pub enum MPKError {
    /// The index announces a layout that is neither 1 nor 2.
    InvalidInfoHeader,
    /// The index ends before its header, or before the last entry that the
    /// header announces.
    ReadError,
    /// An entry's name is not UTF-8.
    InvalidName,
    /// An entry is marked as a folder and yet has a size.
    FolderWithData,
    /// No data file is there for an entry's file number.
    MissingDataFile,
    /// An entry's span reaches beyond the end of its data file.
    TruncatedEntry,
    /// An entry's bytes end inside the header or the footer of its codec.
    TruncatedPayload,
    /// A block announces a size that is negative, or beyond what a buffer
    /// can hold.
    InvalidSize,
    /// A block holds a run of `FF` bytes too long for the block codec to be
    /// given it.
    Lz4RunTooLong,
    /// The block codec rejected an entry's bytes.
    Lz4Error,
    /// The LZMA decoder rejected an entry's bytes.
    LzmaError,
    /// An entry's zlib stream could not be inflated.
    ZlibError,
}

/// An entry of the first layout, as a value.
pub struct RecordV1 {
    pub name: Seq<char>,
    pub offset: u32,
    pub size: u32,
    pub is_folder: bool,
    pub file_number: u32,
}

/// An entry of the second layout, as a value. It has no name of its own,
/// only a type tag of three bytes and a hash.
pub struct RecordV2 {
    pub type_tag: Seq<u8>,
    pub offset: u32,
    pub size: u32,
    pub flags: u32,
    pub content_hash: u32,
    pub file_number: u32,
}

/// An entry of either layout, as a value.
pub enum Record {
    V1(RecordV1),
    V2(RecordV2),
}

/// The folder bit of a flag word.
pub open spec fn folder_bit(flags: u32) -> bool {
    flags & 1 == 1
}

/// The file number in a flag word: all but the folder bit.
pub open spec fn file_number_of(flags: u32) -> u32 {
    flags >> 1
}

/// `s` with every `/` turned into `_`.
pub open spec fn underscored(s: Seq<char>) -> Seq<char> {
    Seq::new(
        s.len(),
        |i: int|
            if s[i] == '/' {
                '_'
            } else {
                s[i]
            },
    )
}

impl Record {
    /// Whether the entry is a folder.
    pub open spec fn is_folder(self) -> bool {
        match self {
            Record::V1(r) => r.is_folder,
            Record::V2(r) => folder_bit(r.flags),
        }
    }

    /// The number of the data file that holds the entry.
    pub open spec fn file_number(self) -> u32 {
        match self {
            Record::V1(r) => r.file_number,
            Record::V2(r) => r.file_number,
        }
    }

    /// The length of the entry's span.
    pub open spec fn size(self) -> u32 {
        match self {
            Record::V1(r) => r.size,
            Record::V2(r) => r.size,
        }
    }

    /// Where the entry's span starts in its data file.
    pub open spec fn offset(self) -> u32 {
        match self {
            Record::V1(r) => r.offset,
            Record::V2(r) => r.offset,
        }
    }

    /// The name under which the entry is shown and stored. An entry of the
    /// first layout has it on record. For one of the second layout it is made
    /// up: a folder is called by its type tag, with `/` turned into `_`, and
    /// a file `file_<file number>_<hash>.<type tag>`.
    pub open spec fn name(self) -> Seq<char> {
        match self {
            Record::V1(r) => r.name,
            Record::V2(r) => if folder_bit(r.flags) {
                underscored(decode_utf8(r.type_tag))
            } else {
                "file_"@ + decimal(r.file_number as nat) + "_"@ + decimal(r.content_hash as nat)
                    + "."@ + decode_utf8(r.type_tag)
            },
        }
    }

    /// What holds of every entry that was read from an index: a folder has no
    /// size, and a type tag is three bytes of UTF-8.
    pub open spec fn valid(self) -> bool {
        match self {
            Record::V1(r) => r.is_folder ==> r.size == 0,
            Record::V2(r) => {
                &&& folder_bit(r.flags) ==> r.size == 0
                &&& r.file_number == file_number_of(r.flags)
                &&& r.type_tag.len() == 3
                &&& valid_utf8(r.type_tag)
            },
        }
    }
}

/// An entry of the first layout.
#[derive(Debug)]
pub struct MPKFileEntryV1 {
    name: String,
    offset: u32,
    size: u32,
    is_folder: bool,
    file_number: u32,
}

/// An entry of the second layout.
#[derive(Debug)]
pub struct MPKFileEntryV2 {
    name: [u8; 3],
    offset: u32,
    size: u32,
    flags: u32,
    hash: u32,
    file_number: u32,
}

/// An entry of the index.
#[derive(Debug)]
pub enum MPKFileEntry {
    V1(MPKFileEntryV1),
    V2(MPKFileEntryV2),
}

impl View for MPKFileEntryV1 {
    type V = RecordV1;

    closed spec fn view(&self) -> RecordV1 {
        RecordV1 {
            name: self.name@,
            offset: self.offset,
            size: self.size,
            is_folder: self.is_folder,
            file_number: self.file_number,
        }
    }
}

impl View for MPKFileEntryV2 {
    type V = RecordV2;

    closed spec fn view(&self) -> RecordV2 {
        RecordV2 {
            type_tag: self.name@,
            offset: self.offset,
            size: self.size,
            flags: self.flags,
            content_hash: self.hash,
            file_number: self.file_number,
        }
    }
}

impl View for MPKFileEntry {
    type V = Record;

    open spec fn view(&self) -> Record {
        match self {
            MPKFileEntry::V1(file) => Record::V1(file@),
            MPKFileEntry::V2(file) => Record::V2(file@),
        }
    }
}

impl MPKFileEntryV1 {
    #[verifier::type_invariant]
    spec fn inv(self) -> bool {
        Record::V1(self@).valid()
    }
}

impl MPKFileEntryV2 {
    #[verifier::type_invariant]
    spec fn inv(self) -> bool {
        Record::V2(self@).valid()
    }
}

impl MPKFileEntry {
    /// Whether the entry is a folder.
    pub fn is_folder(&self) -> (r: bool)
        ensures
            r == self@.is_folder(),
    {
        match self {
            MPKFileEntry::V1(file) => file.is_folder,
            MPKFileEntry::V2(file) => file.flags & 1 == 1,
        }
    }

    /// The number of the data file that holds the entry.
    pub fn file_number(&self) -> (r: u32)
        ensures
            r == self@.file_number(),
    {
        match self {
            MPKFileEntry::V1(file) => file.file_number,
            MPKFileEntry::V2(file) => file.file_number,
        }
    }

    /// The length of the entry's span, which is 0 for a folder.
    pub fn size(&self) -> (r: u32)
        ensures
            r == self@.size(),
            self@.is_folder() ==> r == 0,
    {
        match self {
            MPKFileEntry::V1(file) => {
                proof {
                    use_type_invariant(file);
                }
                file.size
            },
            MPKFileEntry::V2(file) => {
                proof {
                    use_type_invariant(file);
                }
                file.size
            },
        }
    }

    /// Where the entry's span starts in its data file.
    pub fn offset(&self) -> (r: u32)
        ensures
            r == self@.offset(),
    {
        match self {
            MPKFileEntry::V1(file) => file.offset,
            MPKFileEntry::V2(file) => file.offset,
        }
    }

    /// The name under which the entry is shown and stored.
    pub fn name(&self) -> (r: String)
        ensures
            r@ == self@.name(),
            self@.valid(),
    {
        match self {
            MPKFileEntry::V1(file) => {
                proof {
                    use_type_invariant(file);
                }
                file.name.clone()
            },
            MPKFileEntry::V2(file) => {
                proof {
                    use_type_invariant(file);
                }
                let tag = match utf8_string(file.name.as_slice()) {
                    Some(tag) => tag,
                    None => vstd::pervasive::unreached(),
                };
                let mut out: Vec<char> = Vec::new();
                if file.flags & 1 == 1 {
                    let chars = chars_of(tag.as_str());
                    let mut i: usize = 0;
                    while i < chars.len()
                        invariant
                            i <= chars@.len(),
                            out@ == underscored(chars@).take(i as int),
                        decreases chars@.len() - i,
                    {
                        let c = chars[i];
                        out.push(
                            if c == '/' {
                                '_'
                            } else {
                                c
                            },
                        );
                        assert(underscored(chars@).take(i + 1) == underscored(chars@).take(
                            i as int,
                        ).push(underscored(chars@)[i as int]));
                        i += 1;
                    }
                    assert(underscored(chars@).take(i as int) == underscored(chars@));
                } else {
                    push_str(&mut out, "file_");
                    push_decimal(&mut out, file.file_number);
                    push_str(&mut out, "_");
                    push_decimal(&mut out, file.hash);
                    push_str(&mut out, ".");
                    push_str(&mut out, tag.as_str());
                }
                string_of(out.as_slice())
            },
        }
    }
}

/// The header of an index, as a value.
pub struct Header {
    pub version: u32,
    pub file_count: u32,
}

/// An index, as a value: its header and its entries in the order in which
/// they are on disk.
pub struct Index {
    pub header: Header,
    pub entries: Seq<Record>,
}

/// The entry of the first layout at `pos`, with its length in bytes: a
/// 16-bit length, the name of that many bytes, then offset, size and flags.
pub open spec fn record_v1_at(data: Seq<u8>, pos: int) -> Result<(Record, nat), MPKError> {
    match u16_at(data, pos) {
        None => Err(MPKError::ReadError),
        Some(n) => {
            let at = pos + 2 + n;
            if !has_bytes(data, at, 12) {
                Err(MPKError::ReadError)
            } else {
                let name = data.subrange(pos + 2, at);
                let size = u32_of(data, at + 4);
                let flags = u32_of(data, at + 8);
                if folder_bit(flags) && size != 0 {
                    Err(MPKError::FolderWithData)
                } else if !valid_utf8(name) {
                    Err(MPKError::InvalidName)
                } else {
                    Ok(
                        (
                            Record::V1(
                                RecordV1 {
                                    name: decode_utf8(name),
                                    offset: u32_of(data, at),
                                    size,
                                    is_folder: folder_bit(flags),
                                    file_number: file_number_of(flags),
                                },
                            ),
                            (14 + n) as nat,
                        ),
                    )
                }
            }
        },
    }
}

/// The entry of the second layout at `pos`, with its length in bytes: size,
/// flags, one byte that is passed over, the type tag of three bytes, the
/// hash and the offset.
pub open spec fn record_v2_at(data: Seq<u8>, pos: int) -> Result<(Record, nat), MPKError> {
    if !has_bytes(data, pos, 20) {
        Err(MPKError::ReadError)
    } else {
        let size = u32_of(data, pos);
        let flags = u32_of(data, pos + 4);
        let type_tag = data.subrange(pos + 9, pos + 12);
        if folder_bit(flags) && size != 0 {
            Err(MPKError::FolderWithData)
        } else if !valid_utf8(type_tag) {
            Err(MPKError::InvalidName)
        } else {
            Ok(
                (
                    Record::V2(
                        RecordV2 {
                            type_tag,
                            offset: u32_of(data, pos + 16),
                            size,
                            flags,
                            content_hash: u32_of(data, pos + 12),
                            file_number: file_number_of(flags),
                        },
                    ),
                    20,
                ),
            )
        }
    }
}

/// The entry at `pos` in the layout that the header announces.
pub open spec fn record_at(data: Seq<u8>, pos: int, version: u32) -> Result<
    (Record, nat),
    MPKError,
> {
    if version == 1 {
        record_v1_at(data, pos)
    } else {
        record_v2_at(data, pos)
    }
}

/// `done`, followed by the `count` entries that start at `pos`; the error of
/// the first entry that cannot be read, where there is one.
pub open spec fn records_from(
    data: Seq<u8>,
    pos: int,
    count: nat,
    version: u32,
    done: Seq<Record>,
) -> Result<Seq<Record>, MPKError>
    decreases count,
{
    if count == 0 {
        Ok(done)
    } else {
        match record_at(data, pos, version) {
            Ok((record, len)) => records_from(
                data,
                pos + len,
                (count - 1) as nat,
                version,
                done.push(record),
            ),
            Err(e) => Err(e),
        }
    }
}

/// The header that an index starts with: the layout version and the number
/// of entries, 32 bits each.
pub open spec fn header_of(data: Seq<u8>) -> Result<Header, MPKError> {
    if has_bytes(data, 0, 8) {
        Ok(Header { version: u32_of(data, 0), file_count: u32_of(data, 4) })
    } else {
        Err(MPKError::ReadError)
    }
}

/// The index that `data` holds.
pub open spec fn index_of(data: Seq<u8>) -> Result<Index, MPKError> {
    match header_of(data) {
        Err(e) => Err(e),
        Ok(header) => if header.version != 1 && header.version != 2 {
            Err(MPKError::InvalidInfoHeader)
        } else {
            match records_from(
                data,
                8,
                header.file_count as nat,
                header.version,
                Seq::empty(),
            ) {
                Ok(entries) => Ok(Index { header, entries }),
                Err(e) => Err(e),
            }
        },
    }
}

/// Whether every entry of `records` is valid.
pub open spec fn all_valid(records: Seq<Record>) -> bool {
    forall|i: int| 0 <= i < records.len() ==> (#[trigger] records[i]).valid()
}

/// Reading `count` entries after `done` adds exactly `count` entries, each of
/// them valid.
pub proof fn records_from_adds_count(
    data: Seq<u8>,
    pos: int,
    count: nat,
    version: u32,
    done: Seq<Record>,
)
    requires
        all_valid(done),
    ensures
        records_from(data, pos, count, version, done) matches Ok(all) ==> all.len() == done.len()
            + count && all_valid(all),
    decreases count,
{
    if count > 0 {
        match record_at(data, pos, version) {
            Ok((record, len)) => {
                records_from_adds_count(
                    data,
                    pos + len,
                    (count - 1) as nat,
                    version,
                    done.push(record),
                );
            },
            Err(_) => {},
        }
    }
}

/// An index that can be read holds exactly as many entries as its header
/// announces, the header announces layout 1 or 2, and no folder among the
/// entries has a size.
pub proof fn index_matches_header(data: Seq<u8>)
    ensures
        index_of(data) matches Ok(index) ==> {
            &&& index.header.version == 1 || index.header.version == 2
            &&& index.entries.len() == index.header.file_count
            &&& all_valid(index.entries)
            &&& forall|i: int|
                0 <= i < index.entries.len() && (#[trigger] index.entries[i]).is_folder()
                    ==> index.entries[i].size() == 0
        },
{
    match header_of(data) {
        Ok(header) => {
            records_from_adds_count(
                data,
                8,
                header.file_count as nat,
                header.version,
                Seq::empty(),
            );
        },
        Err(_) => {},
    }
}

/// The header of an index.
#[derive(Debug)]
pub struct MPKFileHeader {
    version: u32,
    file_count: u32,
}

impl View for MPKFileHeader {
    type V = Header;

    closed spec fn view(&self) -> Header {
        Header { version: self.version, file_count: self.file_count }
    }
}

impl MPKFileHeader {
    /// Reads the header off the start of an index.
    pub fn read_header(data: &[u8]) -> (r: Result<MPKFileHeader, MPKError>)
        ensures
            match header_of(data@) {
                Ok(header) => r matches Ok(h) && h@ == header,
                Err(e) => r matches Err(x) && x == e,
            },
    {
        let version = match read_u32_at(data, 0) {
            Some(version) => version,
            None => {
                return Err(MPKError::ReadError);
            },
        };
        let file_count = match read_u32_at(data, 4) {
            Some(file_count) => file_count,
            None => {
                return Err(MPKError::ReadError);
            },
        };
        Ok(Self { version, file_count })
    }

    /// The layout version.
    pub fn version(&self) -> (r: u32)
        ensures
            r == self@.version,
    {
        self.version
    }

    /// The number of entries that the header announces.
    pub fn file_count(&self) -> (r: u32)
        ensures
            r == self@.file_count,
    {
        self.file_count
    }
}

/// Whether reading an entry returned what `expected` describes: the entry
/// and the position after it, or the error.
pub open spec fn entry_read(
    r: Result<(MPKFileEntry, usize), MPKError>,
    expected: Result<(Record, nat), MPKError>,
    pos: int,
) -> bool {
    match expected {
        Ok((record, len)) => r matches Ok((entry, next)) && entry@ == record && next == pos + len,
        Err(e) => r matches Err(x) && x == e,
    }
}

/// Reads the entry of the first layout at `pos`.
pub fn read_entry_v1(data: &[u8], pos: usize) -> (r: Result<(MPKFileEntry, usize), MPKError>)
    ensures
        entry_read(r, record_v1_at(data@, pos as int), pos as int),
{
    let name_length: usize = match read_u16_at(data, pos) {
        Some(n) => n as usize,
        None => {
            return Err(MPKError::ReadError);
        },
    };
    if data.len() - pos - 2 < name_length || data.len() - pos - 2 - name_length < 12 {
        return Err(MPKError::ReadError);
    }
    let at: usize = pos + 2 + name_length;
    let offset = match read_u32_at(data, at) {
        Some(v) => v,
        None => vstd::pervasive::unreached(),
    };
    let size = match read_u32_at(data, at + 4) {
        Some(v) => v,
        None => vstd::pervasive::unreached(),
    };
    let flags = match read_u32_at(data, at + 8) {
        Some(v) => v,
        None => vstd::pervasive::unreached(),
    };
    let is_folder = flags & 1 == 1;
    let file_number = flags >> 1;
    if is_folder && size != 0 {
        return Err(MPKError::FolderWithData);
    }
    match utf8_string(&data[pos + 2..at]) {
        Some(name) => Ok(
            (MPKFileEntry::V1(MPKFileEntryV1 { name, offset, size, is_folder, file_number }), at + 12),
        ),
        None => Err(MPKError::InvalidName),
    }
}

/// Reads the entry of the second layout at `pos`.
pub fn read_entry_v2(data: &[u8], pos: usize) -> (r: Result<(MPKFileEntry, usize), MPKError>)
    ensures
        entry_read(r, record_v2_at(data@, pos as int), pos as int),
{
    if pos > data.len() || data.len() - pos < 20 {
        return Err(MPKError::ReadError);
    }
    let size = match read_u32_at(data, pos) {
        Some(v) => v,
        None => vstd::pervasive::unreached(),
    };
    let flags = match read_u32_at(data, pos + 4) {
        Some(v) => v,
        None => vstd::pervasive::unreached(),
    };
    let name: [u8; 3] = [data[pos + 9], data[pos + 10], data[pos + 11]];
    let hash = match read_u32_at(data, pos + 12) {
        Some(v) => v,
        None => vstd::pervasive::unreached(),
    };
    let offset = match read_u32_at(data, pos + 16) {
        Some(v) => v,
        None => vstd::pervasive::unreached(),
    };
    let file_number = flags >> 1;
    if flags & 1 == 1 && size != 0 {
        return Err(MPKError::FolderWithData);
    }
    assert(name@ == data@.subrange(pos + 9, pos + 12));
    if utf8_string(name.as_slice()).is_none() {
        return Err(MPKError::InvalidName);
    }
    Ok((MPKFileEntry::V2(MPKFileEntryV2 { name, offset, size, flags, hash, file_number }), pos + 20))
}

/// The entries of an index as values.
pub open spec fn records_of(files: Seq<MPKFileEntry>) -> Seq<Record> {
    files.map_values(|file: MPKFileEntry| file@)
}

/// An index that was read: the header and the entries.
#[derive(Debug)]
pub struct MPKFileReader {
    header: MPKFileHeader,
    files: Vec<MPKFileEntry>,
}

impl View for MPKFileReader {
    type V = Index;

    closed spec fn view(&self) -> Index {
        Index { header: self.header@, entries: records_of(self.files@) }
    }
}

impl MPKFileReader {
    /// Reads an index. The header must announce layout 1 or 2
    /// (`InvalidInfoHeader` otherwise, whatever the number of entries), and
    /// every entry that it announces must be there in full (`ReadError`),
    /// be without a size where it is a folder (`FolderWithData`) and have a
    /// name, or a type tag, that is UTF-8 (`InvalidName`). The entries keep
    /// the order in which they are on disk.
    pub fn new(index: &[u8]) -> (r: Result<MPKFileReader, MPKError>)
        ensures
            match index_of(index@) {
                Ok(parsed) => r matches Ok(reader) && reader@ == parsed,
                Err(e) => r matches Err(x) && x == e,
            },
            r matches Ok(reader) ==> reader@.entries.len() == reader@.header.file_count
                && all_valid(reader@.entries),
    {
        proof {
            index_matches_header(index@);
        }
        let header = match MPKFileHeader::read_header(index) {
            Ok(header) => header,
            Err(e) => {
                return Err(e);
            },
        };
        if header.version != 1 && header.version != 2 {
            return Err(MPKError::InvalidInfoHeader);
        }
        let mut files: Vec<MPKFileEntry> = Vec::new();
        let mut pos: usize = 8;
        let mut i: u32 = 0;
        assert(records_of(files@) == Seq::<Record>::empty());
        while i < header.file_count
            invariant
                i <= header.file_count,
                header.version == 1 || header.version == 2,
                header_of(index@) == Ok::<Header, MPKError>(header@),
                records_from(
                    index@,
                    8,
                    header.file_count as nat,
                    header.version,
                    Seq::empty(),
                ) == records_from(
                    index@,
                    pos as int,
                    (header.file_count - i) as nat,
                    header.version,
                    records_of(files@),
                ),
            decreases header.file_count - i,
        {
            let entry = if header.version == 1 {
                read_entry_v1(index, pos)
            } else {
                read_entry_v2(index, pos)
            };
            match entry {
                Ok((file, next)) => {
                    assert(records_of(files@.push(file)) == records_of(files@).push(file@));
                    files.push(file);
                    pos = next;
                },
                Err(e) => {
                    return Err(e);
                },
            }
            i += 1;
        }
        Ok(MPKFileReader { header, files })
    }

    /// The header.
    pub fn header(&self) -> (r: &MPKFileHeader)
        ensures
            r@ == self@.header,
    {
        &self.header
    }

    /// The entries, in the order of the index.
    pub fn files(&self) -> (r: &Vec<MPKFileEntry>)
        ensures
            records_of(r@) == self@.entries,
    {
        &self.files
    }
}

} // verus!
