//! The resource repository: a flat list of records that says, for each
//! resource of an archive, what it is called and where it belongs.

use crate::bytes::{
    has_bytes, read_u16_at, read_u32_at, remaining, u16_at, u16_of, u32_at, u32_of,
};
use crate::text::{chars_of, hex_byte, push_hex_byte, push_str, string_of, utf8_string};
use vstd::prelude::*;
use vstd::utf8::{decode_utf8, valid_utf8};

verus! {

/// What can go wrong while a repository is read.
#[derive(Debug, Copy, Clone, PartialEq, Eq, Structural)]
pub enum RepositoryError {
    /// The repository ends inside its header or inside a record.
    Truncated,
    /// A list or a name is not UTF-8.
    InvalidText,
    /// A record refers to a folder that the list of folders does not hold.
    UnknownFolder,
    /// A record refers to a type that the list of types does not hold.
    UnknownType,
}

/// A record of the repository, as a value.
pub struct FileRecord {
    pub unk1: u16,
    pub unk2: u16,
    pub flag: u8,
    pub uuid: Seq<u8>,
    pub name: Seq<char>,
    pub folder_index: u16,
    pub type_index: u16,
    pub dependent_resources: Seq<Seq<u8>>,
    pub folder_path: Seq<char>,
    pub type_label: Seq<char>,
}

/// A repository, as a value.
pub struct RepositoryRecord {
    pub version: u32,
    pub files: Seq<FileRecord>,
    pub resource_types: Seq<Seq<char>>,
    pub folder_paths: Seq<Seq<char>>,
}

/// The bytes of `b` in hexadecimal, two digits each.
pub open spec fn hex_bytes(b: Seq<u8>) -> Seq<char>
    decreases b.len(),
{
    if b.len() == 0 {
        Seq::empty()
    } else {
        hex_bytes(b.drop_last()) + hex_byte(b.last())
    }
}

/// The name under which the resource with the identifier `uuid` lies on
/// disk: a folder called after the first byte, and in it the identifier in
/// groups of four, two, two, two and six bytes.
pub open spec fn uuid_name(uuid: Seq<u8>) -> Seq<char> {
    hex_byte(uuid[0]) + seq!['/'] + hex_bytes(uuid.subrange(0, 4)) + seq!['-'] + hex_bytes(
        uuid.subrange(4, 6),
    ) + seq!['-'] + hex_bytes(uuid.subrange(6, 8)) + seq!['-'] + hex_bytes(uuid.subrange(8, 10))
        + seq!['-'] + hex_bytes(uuid.subrange(10, 16))
}

/// `s` with every backslash and every colon turned into `_`.
pub open spec fn sanitized(s: Seq<char>) -> Seq<char> {
    Seq::new(
        s.len(),
        |i: int|
            if s[i] == '\\' || s[i] == ':' {
                '_'
            } else {
                s[i]
            },
    )
}

/// `file` in the folder `folder`, with `/` between the two where it is
/// needed. A `file` that starts with `/` stands for itself.
pub open spec fn joined(folder: Seq<char>, file: Seq<char>) -> Seq<char> {
    if file.len() > 0 && file[0] == '/' {
        file
    } else if folder.len() == 0 || folder.last() == '/' {
        folder + file
    } else {
        folder + seq!['/'] + file
    }
}

impl FileRecord {
    /// The path at which the resource belongs: its name, cleaned of
    /// backslashes and colons and followed by a dot and the name of its
    /// type, in its folder.
    pub open spec fn path(self) -> Seq<char> {
        joined(self.folder_path, sanitized(self.name) + seq!['.'] + self.type_label)
    }
}

/// The pieces of `s` between the occurrences of `sep`. There is one piece
/// more than there are separators, and a piece may be empty.
pub open spec fn split_on(s: Seq<char>, sep: char) -> Seq<Seq<char>>
    decreases s.len(),
{
    if s.len() == 0 {
        seq![Seq::empty()]
    } else {
        let before = split_on(s.drop_last(), sep);
        if s.last() == sep {
            before.push(Seq::empty())
        } else {
            before.drop_last().push(before.last().push(s.last()))
        }
    }
}

/// The texts of strings.
pub open spec fn texts_of(strings: Seq<String>) -> Seq<Seq<char>> {
    strings.map_values(|s: String| s@)
}

/// Splits `s` at every `sep`.
pub fn split_text(s: &str, sep: char) -> (r: Vec<String>)
    ensures
        texts_of(r@) == split_on(s@, sep),
{
    let chars = chars_of(s);
    let mut pieces: Vec<String> = Vec::new();
    let mut current: Vec<char> = Vec::new();
    let mut i: usize = 0;
    assert(chars@.take(0) == Seq::<char>::empty());
    assert(texts_of(pieces@).push(current@) == seq![Seq::<char>::empty()]);
    while i < chars.len()
        invariant
            i <= chars@.len(),
            split_on(chars@.take(i as int), sep) == texts_of(pieces@).push(current@),
        decreases chars@.len() - i,
    {
        let c = chars[i];
        proof {
            let next = chars@.take(i + 1);
            assert(next.drop_last() == chars@.take(i as int));
            assert(next.last() == c);
            let before = texts_of(pieces@).push(current@);
            assert(before.drop_last() == texts_of(pieces@));
        }
        if c == sep {
            let piece = string_of(current.as_slice());
            assert(texts_of(pieces@.push(piece)) == texts_of(pieces@).push(piece@));
            pieces.push(piece);
            current = Vec::new();
        } else {
            current.push(c);
        }
        i += 1;
    }
    assert(chars@.take(i as int) == chars@);
    let piece = string_of(current.as_slice());
    assert(texts_of(pieces@.push(piece)) == texts_of(pieces@).push(piece@));
    pieces.push(piece);
    pieces
}

/// A record of the repository.
#[derive(Debug)]
pub struct File {
    unk1: u16,
    unk2: u16,
    flag: u8,
    uuid: [u8; 16],
    name: String,
    folder_index: u16,
    type_index: u16,
    dependent_resources: Vec<[u8; 16]>,
    folder_path: String,
    type_label: String,
}

/// The identifiers of resources, as values.
pub open spec fn uuids_of(uuids: Seq<[u8; 16]>) -> Seq<Seq<u8>> {
    uuids.map_values(|uuid: [u8; 16]| uuid@)
}

impl View for File {
    type V = FileRecord;

    closed spec fn view(&self) -> FileRecord {
        FileRecord {
            unk1: self.unk1,
            unk2: self.unk2,
            flag: self.flag,
            uuid: self.uuid@,
            name: self.name@,
            folder_index: self.folder_index,
            type_index: self.type_index,
            dependent_resources: uuids_of(self.dependent_resources@),
            folder_path: self.folder_path@,
            type_label: self.type_label@,
        }
    }
}

/// Appends the bytes of `uuid` from `from` up to `to` in hexadecimal.
fn push_hex_range(out: &mut Vec<char>, uuid: &[u8; 16], from: usize, to: usize)
    requires
        from <= to <= 16,
    ensures
        final(out)@ == old(out)@ + hex_bytes(uuid@.subrange(from as int, to as int)),
{
    let mut i: usize = from;
    assert(uuid@.subrange(from as int, from as int) == Seq::<u8>::empty());
    while i < to
        invariant
            from <= i <= to <= 16,
            out@ == old(out)@ + hex_bytes(uuid@.subrange(from as int, i as int)),
        decreases to - i,
    {
        assert(uuid@.subrange(from as int, i + 1).drop_last() == uuid@.subrange(
            from as int,
            i as int,
        ));
        push_hex_byte(out, uuid[i]);
        i += 1;
    }
}

impl File {
    /// The name under which the resource lies on disk.
    pub fn uuid_file_name(&self) -> (r: String)
        ensures
            r@ == uuid_name(self@.uuid),
            self@.uuid.len() == 16,
    {
        let mut out: Vec<char> = Vec::new();
        push_hex_byte(&mut out, self.uuid[0]);
        out.push('/');
        push_hex_range(&mut out, &self.uuid, 0, 4);
        out.push('-');
        push_hex_range(&mut out, &self.uuid, 4, 6);
        out.push('-');
        push_hex_range(&mut out, &self.uuid, 6, 8);
        out.push('-');
        push_hex_range(&mut out, &self.uuid, 8, 10);
        out.push('-');
        push_hex_range(&mut out, &self.uuid, 10, 16);
        string_of(out.as_slice())
    }

    /// The path at which the resource belongs.
    pub fn file_path(&self) -> (r: String)
        ensures
            r@ == self@.path(),
    {
        let name = chars_of(self.name.as_str());
        let mut file: Vec<char> = Vec::new();
        let mut i: usize = 0;
        while i < name.len()
            invariant
                i <= name@.len(),
                file@ == sanitized(name@).take(i as int),
            decreases name@.len() - i,
        {
            let c = name[i];
            file.push(
                if c == '\\' || c == ':' {
                    '_'
                } else {
                    c
                },
            );
            assert(sanitized(name@).take(i + 1) == sanitized(name@).take(i as int).push(
                sanitized(name@)[i as int],
            ));
            i += 1;
        }
        assert(sanitized(name@).take(i as int) == sanitized(name@));
        file.push('.');
        push_str(&mut file, self.type_label.as_str());
        if file[0] == '/' {
            return string_of(file.as_slice());
        }
        let mut out = chars_of(self.folder_path.as_str());
        if out.len() > 0 && out[out.len() - 1] != '/' {
            out.push('/');
        }
        let mut j: usize = 0;
        let ghost start = out@;
        while j < file.len()
            invariant
                j <= file@.len(),
                out@ == start + file@.take(j as int),
            decreases file@.len() - j,
        {
            out.push(file[j]);
            j += 1;
        }
        assert(file@.take(j as int) == file@);
        string_of(out.as_slice())
    }
}

/// The length of the part of a record that every record has: two unknown
/// words, the flag, the identifier, and five 16-bit fields (the length of
/// the name, the folder, the type, and the number of dependent resources).
pub const RECORD_FIXED_LEN: usize = 29;

/// The record at `pos`, and how many bytes it takes beyond the fixed part
/// (for its name and for the resources that it depends on). `types` and
/// `paths` are the lists that its indices refer to.
pub open spec fn file_at(
    data: Seq<u8>,
    pos: int,
    types: Seq<Seq<char>>,
    paths: Seq<Seq<char>>,
) -> Result<(FileRecord, nat), RepositoryError> {
    let name_at = pos + 23;
    let n = u16_of(data, pos + 21);
    let count = u16_of(data, name_at + n + 4);
    let deps_at = name_at + n + 6;
    if !has_bytes(data, pos, 23) || !has_bytes(data, name_at, n as int) {
        Err(RepositoryError::Truncated)
    } else if !valid_utf8(data.subrange(name_at, name_at + n)) {
        Err(RepositoryError::InvalidText)
    } else if !has_bytes(data, name_at + n, 6) || !has_bytes(data, deps_at, 16 * count) {
        Err(RepositoryError::Truncated)
    } else if u16_of(data, name_at + n) >= paths.len() {
        Err(RepositoryError::UnknownFolder)
    } else if u16_of(data, name_at + n + 2) >= types.len() {
        Err(RepositoryError::UnknownType)
    } else {
        Ok(
            (
                FileRecord {
                    unk1: u16_of(data, pos),
                    unk2: u16_of(data, pos + 2),
                    flag: data[pos + 4],
                    uuid: data.subrange(pos + 5, pos + 21),
                    name: decode_utf8(data.subrange(name_at, name_at + n)),
                    folder_index: u16_of(data, name_at + n),
                    type_index: u16_of(data, name_at + n + 2),
                    dependent_resources: Seq::new(
                        count as nat,
                        |i: int| data.subrange(deps_at + 16 * i, deps_at + 16 * i + 16),
                    ),
                    folder_path: paths[u16_of(data, name_at + n) as int],
                    type_label: types[u16_of(data, name_at + n + 2) as int],
                },
                (n + 16 * count) as nat,
            ),
        )
    }
}

/// `done`, followed by the records from `pos` to the end of `data`.
pub open spec fn files_from(
    data: Seq<u8>,
    pos: int,
    types: Seq<Seq<char>>,
    paths: Seq<Seq<char>>,
    done: Seq<FileRecord>,
) -> Result<Seq<FileRecord>, RepositoryError>
    decreases remaining(data, pos),
{
    if !has_bytes(data, pos, 1) {
        Ok(done)
    } else {
        match file_at(data, pos, types, paths) {
            Ok((file, extra)) => files_from(
                data,
                pos + RECORD_FIXED_LEN + extra,
                types,
                paths,
                done.push(file),
            ),
            Err(e) => Err(e),
        }
    }
}

/// The list of texts that the `n` bytes at `at` hold, with `;` between one
/// text and the next.
pub open spec fn text_list(data: Seq<u8>, at: int, n: int) -> Result<
    Seq<Seq<char>>,
    RepositoryError,
> {
    if !has_bytes(data, at, n) {
        Err(RepositoryError::Truncated)
    } else if !valid_utf8(data.subrange(at, at + n)) {
        Err(RepositoryError::InvalidText)
    } else {
        Ok(split_on(decode_utf8(data.subrange(at, at + n)), ';'))
    }
}

/// Where the list of folders starts and how long it is, from the length
/// field at `at`: 16 bits, unless they are all set; then the length is in
/// the 32 bits that follow.
pub open spec fn long_list_span(data: Seq<u8>, at: int) -> Option<(int, int)> {
    match u16_at(data, at) {
        None => None,
        Some(short) => if short == 0xFFFF {
            match u32_at(data, at + 2) {
                None => None,
                Some(long) => Some((at + 6, long as int)),
            }
        } else {
            Some((at + 2, short as int))
        },
    }
}

/// The repository that `data` holds: the version and two words that are
/// passed over, the list of types, the list of folders, and records up to
/// the end.
pub open spec fn repository_of(data: Seq<u8>) -> Result<RepositoryRecord, RepositoryError> {
    if !has_bytes(data, 0, 12) {
        Err(RepositoryError::Truncated)
    } else {
        let types_len = u16_of(data, 10);
        match text_list(data, 12, types_len as int) {
            Err(e) => Err(e),
            Ok(resource_types) => match long_list_span(data, 12 + types_len) {
                None => Err(RepositoryError::Truncated),
                Some((paths_at, paths_len)) => match text_list(data, paths_at, paths_len) {
                    Err(e) => Err(e),
                    Ok(folder_paths) => match files_from(
                        data,
                        paths_at + paths_len,
                        resource_types,
                        folder_paths,
                        Seq::empty(),
                    ) {
                        Err(e) => Err(e),
                        Ok(files) => Ok(
                            RepositoryRecord {
                                version: u32_of(data, 0),
                                files,
                                resource_types,
                                folder_paths,
                            },
                        ),
                    },
                },
            },
        }
    }
}

/// The records of a repository, as values.
pub open spec fn records_of(files: Seq<File>) -> Seq<FileRecord> {
    files.map_values(|file: File| file@)
}

/// A repository that was read.
#[derive(Debug)]
pub struct Repository {
    version: u32,
    files: Vec<File>,
    resource_types: Vec<String>,
    folder_paths: Vec<String>,
}

impl View for Repository {
    type V = RepositoryRecord;

    closed spec fn view(&self) -> RepositoryRecord {
        RepositoryRecord {
            version: self.version,
            files: records_of(self.files@),
            resource_types: texts_of(self.resource_types@),
            folder_paths: texts_of(self.folder_paths@),
        }
    }
}

/// Copies the sixteen bytes at `pos`.
fn read_uuid(data: &[u8], pos: usize) -> (r: [u8; 16])
    requires
        pos + 16 <= data@.len(),
    ensures
        r@ == data@.subrange(pos as int, pos + 16),
{
    let len: usize = data.len();
    let mut out: [u8; 16] = [0; 16];
    let mut i: usize = 0;
    while i < 16
        invariant
            i <= 16,
            len == data@.len(),
            pos + 16 <= len,
            forall|j: int| 0 <= j < i ==> out@[j] == data@[pos + j],
        decreases 16 - i,
    {
        out[i] = data[pos + i];
        i += 1;
    }
    assert(out@ == data@.subrange(pos as int, pos + 16));
    out
}

/// Reads the list of texts that the `n` bytes at `at` hold.
fn read_text_list(data: &[u8], at: usize, n: usize) -> (r: Result<Vec<String>, RepositoryError>)
    ensures
        match text_list(data@, at as int, n as int) {
            Ok(list) => r matches Ok(v) && texts_of(v@) == list,
            Err(e) => r matches Err(x) && x == e,
        },
{
    if at > data.len() || data.len() - at < n {
        return Err(RepositoryError::Truncated);
    }
    match utf8_string(&data[at..at + n]) {
        Some(text) => Ok(split_text(text.as_str(), ';')),
        None => Err(RepositoryError::InvalidText),
    }
}

/// Reads the record at `pos`. Returns it with the position after it.
fn read_file_at(data: &[u8], pos: usize, types: &Vec<String>, paths: &Vec<String>) -> (r: Result<
    (File, usize),
    RepositoryError,
>)
    ensures
        match file_at(data@, pos as int, texts_of(types@), texts_of(paths@)) {
            Ok((file, extra)) => r matches Ok((f, next)) && f@ == file && next == pos
                + RECORD_FIXED_LEN + extra,
            Err(e) => r matches Err(x) && x == e,
        },
{
    let len: usize = data.len();
    if pos > len || len - pos < 23 {
        return Err(RepositoryError::Truncated);
    }
    let unk1 = match read_u16_at(data, pos) {
        Some(v) => v,
        None => vstd::pervasive::unreached(),
    };
    let unk2 = match read_u16_at(data, pos + 2) {
        Some(v) => v,
        None => vstd::pervasive::unreached(),
    };
    let flag = data[pos + 4];
    let uuid = read_uuid(data, pos + 5);
    let n: usize = match read_u16_at(data, pos + 21) {
        Some(v) => v as usize,
        None => vstd::pervasive::unreached(),
    };
    let name_at: usize = pos + 23;
    if len - name_at < n {
        return Err(RepositoryError::Truncated);
    }
    let name = match utf8_string(&data[name_at..name_at + n]) {
        Some(name) => name,
        None => {
            return Err(RepositoryError::InvalidText);
        },
    };
    let fields_at: usize = name_at + n;
    if len - fields_at < 6 {
        return Err(RepositoryError::Truncated);
    }
    let folder_index = match read_u16_at(data, fields_at) {
        Some(v) => v,
        None => vstd::pervasive::unreached(),
    };
    let type_index = match read_u16_at(data, fields_at + 2) {
        Some(v) => v,
        None => vstd::pervasive::unreached(),
    };
    let count: usize = match read_u16_at(data, fields_at + 4) {
        Some(v) => v as usize,
        None => vstd::pervasive::unreached(),
    };
    let deps_at: usize = fields_at + 6;
    if len - deps_at < 16 * count {
        return Err(RepositoryError::Truncated);
    }
    if folder_index as usize >= paths.len() {
        return Err(RepositoryError::UnknownFolder);
    }
    if type_index as usize >= types.len() {
        return Err(RepositoryError::UnknownType);
    }
    let mut dependent_resources: Vec<[u8; 16]> = Vec::new();
    let mut i: usize = 0;
    while i < count
        invariant
            i <= count,
            len == data@.len(),
            deps_at + 16 * count <= len,
            dependent_resources@.len() == i,
            forall|j: int|
                0 <= j < i ==> (#[trigger] dependent_resources@[j])@ == data@.subrange(
                    deps_at + 16 * j,
                    deps_at + 16 * j + 16,
                ),
        decreases count - i,
    {
        dependent_resources.push(read_uuid(data, deps_at + 16 * i));
        i += 1;
    }
    assert(uuids_of(dependent_resources@) == Seq::new(
        count as nat,
        |i: int| data@.subrange(deps_at + 16 * i, deps_at + 16 * i + 16),
    ));
    let folder_path = paths[folder_index as usize].clone();
    let type_label = types[type_index as usize].clone();
    Ok(
        (
            File {
                unk1,
                unk2,
                flag,
                uuid,
                name,
                folder_index,
                type_index,
                dependent_resources,
                folder_path,
                type_label,
            },
            deps_at + 16 * count,
        ),
    )
}

impl Repository {
    /// Reads a repository. It must hold its header and both lists in full,
    /// and every record that starts must be there in full (`Truncated`);
    /// the lists and the names must be UTF-8 (`InvalidText`); and the
    /// folder and the type of every record must be in the lists
    /// (`UnknownFolder`, `UnknownType`).
    #[verifier::loop_isolation(false)]
    pub fn from_file(data: &[u8]) -> (r: Result<Repository, RepositoryError>)
        ensures
            match repository_of(data@) {
                Ok(repository) => r matches Ok(read) && read@ == repository,
                Err(e) => r matches Err(x) && x == e,
            },
    {
        let version = match read_u32_at(data, 0) {
            Some(v) => v,
            None => {
                return Err(RepositoryError::Truncated);
            },
        };
        let types_len: usize = match read_u16_at(data, 10) {
            Some(v) => v as usize,
            None => {
                return Err(RepositoryError::Truncated);
            },
        };
        let resource_types = match read_text_list(data, 12, types_len) {
            Ok(list) => list,
            Err(e) => {
                return Err(e);
            },
        };
        let size_at: usize = 12 + types_len;
        let short = match read_u16_at(data, size_at) {
            Some(v) => v,
            None => {
                return Err(RepositoryError::Truncated);
            },
        };
        let (paths_at, paths_len): (usize, usize) = if short == 0xFFFF {
            match read_u32_at(data, size_at + 2) {
                Some(long) => (size_at + 6, long as usize),
                None => {
                    return Err(RepositoryError::Truncated);
                },
            }
        } else {
            (size_at + 2, short as usize)
        };
        let folder_paths = match read_text_list(data, paths_at, paths_len) {
            Ok(list) => list,
            Err(e) => {
                return Err(e);
            },
        };
        let mut files: Vec<File> = Vec::new();
        assert(has_bytes(data@, paths_at as int, paths_len as int) && data@.len() == data.len());
        let mut pos: usize = paths_at + paths_len;
        assert(records_of(files@) == Seq::<FileRecord>::empty());
        while pos < data.len()
            invariant
                files_from(
                    data@,
                    paths_at + paths_len,
                    texts_of(resource_types@),
                    texts_of(folder_paths@),
                    Seq::empty(),
                ) == files_from(
                    data@,
                    pos as int,
                    texts_of(resource_types@),
                    texts_of(folder_paths@),
                    records_of(files@),
                ),
            decreases data@.len() - pos,
        {
            match read_file_at(data, pos, &resource_types, &folder_paths) {
                Ok((file, next)) => {
                    assert(records_of(files@.push(file)) == records_of(files@).push(file@));
                    files.push(file);
                    pos = next;
                },
                Err(e) => {
                    return Err(e);
                },
            }
        }
        Ok(Repository { version, files, resource_types, folder_paths })
    }

    /// The records, in the order of the repository.
    pub fn files(&self) -> (r: &Vec<File>)
        ensures
            records_of(r@) == self@.files,
    {
        &self.files
    }
}

} // verus!
