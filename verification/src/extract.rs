//! Extraction: which data file an entry lies in, which bytes of it are the
//! entry's, and what becomes of each entry of an index, in order.

use crate::codec::{
    bytes_of, decode, decoded, zlib_stream, zlib_stream_of, DecodedPayload, Payload,
};
use crate::index::{records_of, MPKError, MPKFileEntry, MPKFileReader, Record};
use crate::text::{decimal, push_decimal, push_str, string_of};
use std::collections::HashMap;
use vstd::prelude::*;
use vstd::slice::slice_to_vec;

verus! {

/// The name of the data file with a number: the base name of the index, the
/// number unless it is 0, and the extension `.mpk`.
pub open spec fn data_file_name_of(basename: Seq<char>, file_number: u32) -> Seq<char> {
    if file_number == 0 {
        basename + ".mpk"@
    } else {
        basename + decimal(file_number as nat) + ".mpk"@
    }
}

/// The name of the data file that holds the entries with `file_number`. It
/// lies beside the index, whose name without extension is `basename`.
pub fn data_file_name(basename: &str, file_number: u32) -> (r: String)
    ensures
        r@ == data_file_name_of(basename@, file_number),
{
    let mut name: Vec<char> = Vec::new();
    push_str(&mut name, basename);
    if file_number != 0 {
        push_decimal(&mut name, file_number);
    }
    push_str(&mut name, ".mpk");
    string_of(name.as_slice())
}

/// The data file with number 0 is called after the index alone, and every
/// other one has its number, in decimal, between that name and the
/// extension.
pub proof fn data_file_names(basename: Seq<char>, file_number: u32)
    ensures
        data_file_name_of(basename, 0) == basename + ".mpk"@,
        file_number > 0 ==> data_file_name_of(basename, file_number) == basename + decimal(
            file_number as nat,
        ) + ".mpk"@,
{
}

/// Whether a table of slots gives the data files, in the order in which they
/// were first asked for, the slots 0, 1, 2 and so on: each slot is below the
/// number of files, and no two files share one.
pub open spec fn slots_in_order(slots: Map<u32, usize>) -> bool {
    &&& slots.dom().finite()
    &&& forall|k: u32| slots.contains_key(k) ==> (#[trigger] slots[k]) < slots.len()
    &&& forall|j: u32, k: u32|
        slots.contains_key(j) && slots.contains_key(k) && #[trigger] slots[j] == #[trigger] slots[k]
            ==> j == k
}

/// What the table says of a data file.
#[derive(Debug, Copy, Clone, PartialEq, Eq, Structural)]
pub struct Resolved {
    /// The slot of the data file.
    pub slot: usize,
    /// Whether the file was asked for for the first time, and so has to be
    /// opened.
    pub first: bool,
}

/// The data files of a split archive that are open: each gets a slot when it
/// is first asked for, and keeps it.
pub struct SplitFileTable {
    slots: HashMap<u32, usize>,
}

impl View for SplitFileTable {
    type V = Map<u32, usize>;

    closed spec fn view(&self) -> Map<u32, usize> {
        self.slots@
    }
}

impl SplitFileTable {
    /// A table without files.
    pub fn new() -> (table: SplitFileTable)
        ensures
            table@ == Map::<u32, usize>::empty(),
            slots_in_order(table@),
    {
        broadcast use vstd::std_specs::hash::group_hash_axioms;

        SplitFileTable { slots: HashMap::new() }
    }

    /// The number of data files that were asked for.
    pub fn len(&self) -> (n: usize)
        ensures
            n == self@.len(),
    {
        broadcast use vstd::std_specs::hash::group_hash_axioms;

        self.slots.len()
    }

    /// The slot of the data file with `file_number`. A file that was asked
    /// for before keeps its slot, and the table stays as it is; a new file
    /// gets the next free slot. A table that started out empty so hands out
    /// the slots 0, 1, 2 and so on, each to one file.
    pub fn resolve(&mut self, file_number: u32) -> (r: Resolved)
        ensures
            old(self)@.contains_key(file_number) ==> !r.first && r.slot == old(self)@[file_number]
                && final(self)@ == old(self)@,
            !old(self)@.contains_key(file_number) ==> r.first && r.slot == old(self)@.len()
                && final(self)@ == old(self)@.insert(file_number, r.slot),
            slots_in_order(old(self)@) ==> slots_in_order(final(self)@),
    {
        broadcast use vstd::std_specs::hash::group_hash_axioms;

        let known = match self.slots.get(&file_number) {
            Some(slot) => Some(*slot),
            None => None,
        };
        match known {
            Some(slot) => Resolved { slot, first: false },
            None => {
                let slot: usize = self.slots.len();
                self.slots.insert(file_number, slot);
                Resolved { slot, first: true }
            },
        }
    }
}

/// A data file that is held in memory.
#[derive(Debug)]
pub struct DataFile {
    /// The number by which entries refer to the file.
    pub file_number: u32,
    /// What the file holds.
    pub bytes: Vec<u8>,
}

/// What the first of `files` with `file_number` holds.
pub open spec fn data_of(files: Seq<DataFile>, file_number: u32) -> Option<Seq<u8>>
    decreases files.len(),
{
    if files.len() == 0 {
        None
    } else if files[0].file_number == file_number {
        Some(files[0].bytes@)
    } else {
        data_of(files.drop_first(), file_number)
    }
}

/// The bytes of an entry in its data file: `size` bytes from `offset` on,
/// all of which must be there.
pub open spec fn span_of(data: Seq<u8>, record: Record) -> Result<Seq<u8>, MPKError> {
    if record.offset() + record.size() <= data.len() {
        Ok(data.subrange(record.offset() as int, record.offset() + record.size()))
    } else {
        Err(MPKError::TruncatedEntry)
    }
}

/// The name that an entry is stored under: the one that decoding came up
/// with, and the entry's own where it came up with none.
pub open spec fn output_name_of(record: Record, payload: Payload) -> Seq<char> {
    match payload.recovered_name {
        Some(name) => name,
        None => record.name(),
    }
}

/// What becomes of an entry, as a value.
pub enum Output {
    /// A folder of this name is made.
    Folder { path: Seq<char> },
    /// A file of this name is written.
    File { path: Seq<char>, payload: Payload },
}

impl Output {
    /// The MIME type that a file was named for, where its name was sniffed,
    /// and the empty string otherwise.
    pub open spec fn mime(self) -> Seq<char> {
        match self {
            Output::Folder { path: _ } => Seq::empty(),
            Output::File { path: _, payload } => payload.mime(),
        }
    }
}

/// What becomes of an entry.
#[derive(Debug)]
pub enum Extracted {
    /// A folder of this name is to be made.
    Folder { path: String },
    /// A file of this name is to be written.
    File { path: String, payload: DecodedPayload },
}

impl View for Extracted {
    type V = Output;

    open spec fn view(&self) -> Output {
        match self {
            Extracted::Folder { path } => Output::Folder { path: path@ },
            Extracted::File { path, payload } => Output::File { path: path@, payload: payload@ },
        }
    }
}

/// What becomes of a file entry whose bytes are `raw`, where inflating its
/// zlib stream gave `inflated` and sniffing gives `mime`.
pub open spec fn file_output(
    record: Record,
    raw: Seq<u8>,
    inflated: Option<Seq<u8>>,
    mime: Seq<char>,
) -> Result<Output, MPKError> {
    match decoded(raw, inflated, record.name(), mime) {
        Ok(payload) => Ok(Output::File { path: output_name_of(record, payload), payload }),
        Err(e) => Err(e),
    }
}

/// What becomes of an entry, given the data files, where inflating its zlib
/// stream gave `inflated` and sniffing gives `mime`. A folder is made under
/// the entry's name, and no data is read for it. A file needs its data file
/// (`MissingDataFile`) and its span in it (`TruncatedEntry`), and its bytes
/// must decode.
pub open spec fn entry_output(
    record: Record,
    files: Seq<DataFile>,
    inflated: Option<Seq<u8>>,
    mime: Seq<char>,
) -> Result<Output, MPKError> {
    if record.is_folder() {
        Ok(Output::Folder { path: record.name() })
    } else {
        match data_of(files, record.file_number()) {
            None => Err(MPKError::MissingDataFile),
            Some(data) => match span_of(data, record) {
                Ok(raw) => file_output(record, raw, inflated, mime),
                Err(e) => Err(e),
            },
        }
    }
}

/// The zlib stream that has to be inflated for an entry: there is one where
/// the entry is a file whose bytes can be read and are under the obfuscated
/// codec.
pub open spec fn entry_stream_of(record: Record, files: Seq<DataFile>) -> Option<Seq<u8>> {
    if record.is_folder() {
        None
    } else {
        match data_of(files, record.file_number()) {
            None => None,
            Some(data) => match span_of(data, record) {
                Ok(raw) => zlib_stream_of(raw),
                Err(_) => None,
            },
        }
    }
}

/// The error that stops the extraction at an entry, if one does.
#[verifier::opaque]
pub open spec fn entry_error(
    record: Record,
    files: Seq<DataFile>,
    inflated: Option<Seq<u8>>,
) -> Option<MPKError> {
    match entry_output(record, files, inflated, Seq::empty()) {
        Ok(_) => None,
        Err(e) => Some(e),
    }
}

/// Whether `out` is what becomes of `record`, for the MIME type that `out`
/// was named for, where it was named by sniffing.
#[verifier::opaque]
pub open spec fn becomes(
    record: Record,
    files: Seq<DataFile>,
    inflated: Option<Seq<u8>>,
    out: Output,
) -> bool {
    entry_output(record, files, inflated, out.mime()) == Ok::<Output, MPKError>(out)
}

/// The name that an entry is stored under.
pub fn output_name(file: &MPKFileEntry, payload: &DecodedPayload) -> (r: String)
    ensures
        r@ == output_name_of(file@, payload@),
{
    match &payload.recovered_name {
        Some(name) => name.clone(),
        None => file.name(),
    }
}

/// Cuts the bytes of an entry out of its data file.
pub fn read_span(data: &[u8], file: &MPKFileEntry) -> (r: Result<Vec<u8>, MPKError>)
    ensures
        match span_of(data@, file@) {
            Ok(raw) => r matches Ok(v) && v@ == raw,
            Err(e) => r matches Err(x) && x == e,
        },
{
    let offset: u64 = file.offset() as u64;
    let size: u64 = file.size() as u64;
    if offset + size <= data.len() as u64 {
        Ok(slice_to_vec(&data[offset as usize..(offset + size) as usize]))
    } else {
        Err(MPKError::TruncatedEntry)
    }
}

/// Finds what the first of `files` with `file_number` holds.
pub fn find_data_file(files: &Vec<DataFile>, file_number: u32) -> (r: Option<&Vec<u8>>)
    ensures
        match data_of(files@, file_number) {
            Some(data) => r matches Some(v) && v@ == data,
            None => r is None,
        },
{
    let mut i: usize = 0;
    assert(files@.skip(0) == files@);
    while i < files.len()
        invariant
            i <= files@.len(),
            data_of(files@, file_number) == data_of(files@.skip(i as int), file_number),
        decreases files@.len() - i,
    {
        if files[i].file_number == file_number {
            return Some(&files[i].bytes);
        }
        assert(files@.skip(i as int).drop_first() == files@.skip(i + 1));
        i += 1;
    }
    None
}

/// Turns the bytes of a file entry into what is written for it. `inflated`
/// is what inflating the entry's zlib stream gave.
pub fn extract_file(file: &MPKFileEntry, raw: Vec<u8>, inflated: Option<Vec<u8>>) -> (r: Result<
    Extracted,
    MPKError,
>)
    ensures
        match r {
            Ok(out) => file_output(file@, raw@, bytes_of(inflated), out@.mime()) == Ok::<
                Output,
                MPKError,
            >(out@),
            Err(e) => file_output(file@, raw@, bytes_of(inflated), Seq::empty()) == Err::<
                Output,
                MPKError,
            >(e),
        },
{
    match decode(raw, inflated, file) {
        Ok(payload) => {
            let path = output_name(file, &payload);
            Ok(Extracted::File { path, payload })
        },
        Err(e) => Err(e),
    }
}

/// The zlib stream that has to be inflated for an entry, where there is one.
pub fn entry_stream(file: &MPKFileEntry, files: &Vec<DataFile>) -> (r: Option<Vec<u8>>)
    ensures
        bytes_of(r) == entry_stream_of(file@, files@),
{
    if file.is_folder() {
        return None;
    }
    match find_data_file(files, file.file_number()) {
        Some(data) => match read_span(data.as_slice(), file) {
            Ok(raw) => zlib_stream(raw.as_slice()),
            Err(_) => None,
        },
        None => None,
    }
}

/// Extracts one entry, given the data files. `inflated` is what inflating
/// the entry's zlib stream gave.
pub fn extract_entry(file: &MPKFileEntry, files: &Vec<DataFile>, inflated: Option<Vec<u8>>) -> (r:
    Result<Extracted, MPKError>)
    ensures
        match r {
            Ok(out) => becomes(file@, files@, bytes_of(inflated), out@) && entry_error(
                file@,
                files@,
                bytes_of(inflated),
            ) is None,
            Err(e) => entry_error(file@, files@, bytes_of(inflated)) == Some(e),
        },
{
    proof {
        reveal(entry_error);
        reveal(becomes);
    }
    if file.is_folder() {
        return Ok(Extracted::Folder { path: file.name() });
    }
    let data = match find_data_file(files, file.file_number()) {
        Some(data) => data,
        None => {
            return Err(MPKError::MissingDataFile);
        },
    };
    match read_span(data.as_slice(), file) {
        Ok(raw) => extract_file(file, raw, inflated),
        Err(e) => Err(e),
    }
}

/// What inflating gave for the entry with index `i`: nothing where
/// `inflated` holds nothing for it.
pub open spec fn inflated_at(inflated: Seq<Option<Vec<u8>>>, i: int) -> Option<Seq<u8>> {
    if 0 <= i < inflated.len() {
        bytes_of(inflated[i])
    } else {
        None
    }
}

/// Whether `outputs` is what becomes of `records`, one for one and in order.
pub open spec fn extracted_all(
    records: Seq<Record>,
    files: Seq<DataFile>,
    inflated: Seq<Option<Vec<u8>>>,
    outputs: Seq<Output>,
) -> bool {
    &&& outputs.len() == records.len()
    &&& forall|i: int|
        0 <= i < records.len() ==> #[trigger] becomes(
            records[i],
            files,
            inflated_at(inflated, i),
            outputs[i],
        )
}

/// Whether the extraction of `records` stops with `e`: some entry fails with
/// it, and none before that entry fails.
pub open spec fn stopped_by(
    records: Seq<Record>,
    files: Seq<DataFile>,
    inflated: Seq<Option<Vec<u8>>>,
    e: MPKError,
) -> bool {
    exists|i: int|
        0 <= i < records.len() && #[trigger] entry_error(
            records[i],
            files,
            inflated_at(inflated, i),
        ) == Some(e) && forall|j: int|
            0 <= j < i ==> #[trigger] entry_error(records[j], files, inflated_at(inflated, j))
                is None
}

/// What was extracted, as values.
pub open spec fn outputs_of(extracted: Seq<Extracted>) -> Seq<Output> {
    extracted.map_values(|out: Extracted| out@)
}

/// A copy of what inflating gave for the entry with index `i`.
fn inflated_for(inflated: &Vec<Option<Vec<u8>>>, i: usize) -> (r: Option<Vec<u8>>)
    ensures
        bytes_of(r) == inflated_at(inflated@, i as int),
{
    if i < inflated.len() {
        match &inflated[i] {
            Some(bytes) => Some(slice_to_vec(bytes.as_slice())),
            None => None,
        }
    } else {
        None
    }
}

impl MPKFileReader {
    /// The zlib streams that have to be inflated before the entries can be
    /// extracted: one place for each entry, in the order of the index.
    pub fn zlib_streams(&self, files: &Vec<DataFile>) -> (r: Vec<Option<Vec<u8>>>)
        ensures
            r@.len() == self@.entries.len(),
            forall|i: int|
                0 <= i < r@.len() ==> inflated_at(r@, i) == #[trigger] entry_stream_of(
                    self@.entries[i],
                    files@,
                ),
    {
        let entries = self.files();
        let mut streams: Vec<Option<Vec<u8>>> = Vec::new();
        let mut i: usize = 0;
        while i < entries.len()
            invariant
                i <= entries@.len(),
                streams@.len() == i,
                records_of(entries@) == self@.entries,
                forall|j: int|
                    0 <= j < i ==> inflated_at(streams@, j) == #[trigger] entry_stream_of(
                        self@.entries[j],
                        files@,
                    ),
            decreases entries@.len() - i,
        {
            assert(self@.entries[i as int] == entries@[i as int]@);
            let stream = entry_stream(&entries[i], files);
            streams.push(stream);
            i += 1;
        }
        streams
    }

    /// Extracts every entry of the index, in the order of the index, from
    /// data files that are held in memory. `inflated` holds, in the place of
    /// each entry, what inflating its zlib stream gave. Stops at the first
    /// entry that fails, with its error.
    pub fn extract_files(&self, files: &Vec<DataFile>, inflated: &Vec<Option<Vec<u8>>>) -> (r:
        Result<Vec<Extracted>, MPKError>)
        ensures
            match r {
                Ok(all) => extracted_all(self@.entries, files@, inflated@, outputs_of(all@)),
                Err(e) => stopped_by(self@.entries, files@, inflated@, e),
            },
    {
        let entries = self.files();
        let mut all: Vec<Extracted> = Vec::new();
        let mut i: usize = 0;
        while i < entries.len()
            invariant
                i <= entries@.len(),
                all@.len() == i,
                records_of(entries@) == self@.entries,
                forall|j: int|
                    0 <= j < i ==> #[trigger] becomes(
                        self@.entries[j],
                        files@,
                        inflated_at(inflated@, j),
                        all@[j]@,
                    ),
                forall|j: int|
                    0 <= j < i ==> #[trigger] entry_error(
                        self@.entries[j],
                        files@,
                        inflated_at(inflated@, j),
                    ) is None,
            decreases entries@.len() - i,
        {
            assert(self@.entries[i as int] == entries@[i as int]@);
            match extract_entry(&entries[i], files, inflated_for(inflated, i)) {
                Ok(out) => {
                    all.push(out);
                },
                Err(e) => {
                    assert(entry_error(
                        self@.entries[i as int],
                        files@,
                        inflated_at(inflated@, i as int),
                    ) == Some(e));
                    return Err(e);
                },
            }
            i += 1;
        }
        assert(outputs_of(all@).len() == self@.entries.len());
        assert forall|j: int| 0 <= j < self@.entries.len() implies #[trigger] becomes(
            self@.entries[j],
            files@,
            inflated_at(inflated@, j),
            outputs_of(all@)[j],
        ) by {
            assert(outputs_of(all@)[j] == all@[j]@);
        }
        Ok(all)
    }
}

} // verus!
