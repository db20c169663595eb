//! Compiled scripts: the interpreter's marshalled object stream, walked only
//! as far as it takes to find the name of the source file that a code object
//! was compiled from.

use crate::bytes::{
    has_bytes, i32_at, le_u16, read_i32_at, read_u16_at, read_u32_at, remaining, u32_at,
};
use crate::text::utf8_string;
use vstd::prelude::*;
use vstd::slice::slice_to_vec;
use vstd::utf8::{decode_utf8, valid_utf8};

verus! {

/// The interpreter release that wrote a compiled script.
#[allow(non_camel_case_types)]
#[derive(Debug, Copy, Clone, PartialEq, Eq, Structural)]
pub enum PythonVersion {
    Version2_0,
    Version2_1,
    Version2_2,
    Version2_3,
    Version2_4,
    Version2_5,
    Version2_6,
    Version2_7,
    Version3_0,
    Version3_1,
    Version3_2,
    Version3_3,
    Version3_4,
    Version3_5,
    Version3_6,
    Version3_7,
    Version3_8,
    Version3_9,
    Version3_10,
    Version3_11,
    Version3_12,
    Version3_13,
}

/// Why no file name came out of a compiled script.
#[derive(Debug, Copy, Clone, PartialEq, Eq, Structural)]
pub enum ScriptError {
    /// The buffer does not start with a known magic number followed by CR LF.
    UnrecognizedHeader,
    /// The release is known, but its code object layout is not decoded.
    UnsupportedVersion,
    /// The buffer ends inside the header or inside an object.
    Truncated,
    /// An object starts with a type tag that the walker does not know.
    UnsupportedTag(u8),
    /// The file name is not UTF-8.
    InvalidUtf8,
}

/// The release whose magic numbers include `magic`.
pub open spec fn version_of_magic(magic: int) -> Option<PythonVersion> {
    if magic == 50823 {
        Some(PythonVersion::Version2_0)
    } else if magic == 60202 {
        Some(PythonVersion::Version2_1)
    } else if magic == 60717 {
        Some(PythonVersion::Version2_2)
    } else if 62011 <= magic <= 62021 {
        Some(PythonVersion::Version2_3)
    } else if 62041 <= magic <= 62061 {
        Some(PythonVersion::Version2_4)
    } else if 62071 <= magic <= 62131 {
        Some(PythonVersion::Version2_5)
    } else if 62151 <= magic <= 62161 {
        Some(PythonVersion::Version2_6)
    } else if 62171 <= magic <= 62211 {
        Some(PythonVersion::Version2_7)
    } else if 3000 <= magic <= 3131 {
        Some(PythonVersion::Version3_0)
    } else if 3141 <= magic <= 3151 {
        Some(PythonVersion::Version3_1)
    } else if 3160 <= magic <= 3180 {
        Some(PythonVersion::Version3_2)
    } else if 3190 <= magic <= 3230 {
        Some(PythonVersion::Version3_3)
    } else if 3250 <= magic <= 3310 {
        Some(PythonVersion::Version3_4)
    } else if 3320 <= magic <= 3351 {
        Some(PythonVersion::Version3_5)
    } else if 3360 <= magic <= 3379 {
        Some(PythonVersion::Version3_6)
    } else if 3390 <= magic <= 3399 {
        Some(PythonVersion::Version3_7)
    } else if 3400 <= magic <= 3419 {
        Some(PythonVersion::Version3_8)
    } else if 3420 <= magic <= 3429 {
        Some(PythonVersion::Version3_9)
    } else if 3430 <= magic <= 3449 {
        Some(PythonVersion::Version3_10)
    } else if 3450 <= magic <= 3499 {
        Some(PythonVersion::Version3_11)
    } else if 3500 <= magic <= 3549 {
        Some(PythonVersion::Version3_12)
    } else if 3550 <= magic <= 3599 {
        Some(PythonVersion::Version3_13)
    } else {
        None
    }
}

/// The release that the first four bytes of a compiled script announce: a
/// little-endian magic number, then carriage return and line feed.
pub open spec fn header_version(data: Seq<u8>) -> Option<PythonVersion> {
    if data.len() >= 4 && data[2] == 0x0d && data[3] == 0x0a {
        version_of_magic(le_u16(data.subrange(0, 2)))
    } else {
        None
    }
}

/// The release for a magic number.
pub fn python_version_of_magic(magic: u16) -> (r: Option<PythonVersion>)
    ensures
        r == version_of_magic(magic as int),
{
    if magic == 50823 {
        Some(PythonVersion::Version2_0)
    } else if magic == 60202 {
        Some(PythonVersion::Version2_1)
    } else if magic == 60717 {
        Some(PythonVersion::Version2_2)
    } else if 62011 <= magic && magic <= 62021 {
        Some(PythonVersion::Version2_3)
    } else if 62041 <= magic && magic <= 62061 {
        Some(PythonVersion::Version2_4)
    } else if 62071 <= magic && magic <= 62131 {
        Some(PythonVersion::Version2_5)
    } else if 62151 <= magic && magic <= 62161 {
        Some(PythonVersion::Version2_6)
    } else if 62171 <= magic && magic <= 62211 {
        Some(PythonVersion::Version2_7)
    } else if 3000 <= magic && magic <= 3131 {
        Some(PythonVersion::Version3_0)
    } else if 3141 <= magic && magic <= 3151 {
        Some(PythonVersion::Version3_1)
    } else if 3160 <= magic && magic <= 3180 {
        Some(PythonVersion::Version3_2)
    } else if 3190 <= magic && magic <= 3230 {
        Some(PythonVersion::Version3_3)
    } else if 3250 <= magic && magic <= 3310 {
        Some(PythonVersion::Version3_4)
    } else if 3320 <= magic && magic <= 3351 {
        Some(PythonVersion::Version3_5)
    } else if 3360 <= magic && magic <= 3379 {
        Some(PythonVersion::Version3_6)
    } else if 3390 <= magic && magic <= 3399 {
        Some(PythonVersion::Version3_7)
    } else if 3400 <= magic && magic <= 3419 {
        Some(PythonVersion::Version3_8)
    } else if 3420 <= magic && magic <= 3429 {
        Some(PythonVersion::Version3_9)
    } else if 3430 <= magic && magic <= 3449 {
        Some(PythonVersion::Version3_10)
    } else if 3450 <= magic && magic <= 3499 {
        Some(PythonVersion::Version3_11)
    } else if 3500 <= magic && magic <= 3549 {
        Some(PythonVersion::Version3_12)
    } else if 3550 <= magic && magic <= 3599 {
        Some(PythonVersion::Version3_13)
    } else {
        None
    }
}

/// Reads the release off the header of a compiled script. A buffer of fewer
/// than four bytes, one without CR LF after the magic number, and an unknown
/// magic number all give nothing. Only the first four bytes are looked at.
pub fn detect_python_version_from_py_header(buffer: &[u8]) -> (r: Option<PythonVersion>)
    ensures
        r == header_version(buffer@),
{
    if buffer.len() < 4 {
        return None;
    }
    if buffer[2] != 0x0d || buffer[3] != 0x0a {
        return None;
    }
    match read_u16_at(buffer, 0) {
        Some(magic) => python_version_of_magic(magic),
        None => None,
    }
}

/// What follows a type tag in the object stream.
#[derive(Debug, Copy, Clone, PartialEq, Eq, Structural)]
pub enum TagKind {
    /// None, True, False, Ellipsis, Null, StopIteration: nothing follows.
    Singleton,
    /// A 32-bit integer or a back-reference: four bytes.
    Word,
    /// A binary float: eight bytes.
    BinaryFloat,
    /// A binary complex number: sixteen bytes.
    BinaryComplex,
    /// A long integer: a signed 32-bit digit count, then that many 16-bit
    /// digits (the sign of the count is the sign of the number).
    Long,
    /// A float in text: one length byte, then the text.
    Float,
    /// A complex number in text: two texts, each after its length byte.
    Complex,
    /// A string of bytes after a 32-bit length.
    Bytes,
    /// A string of bytes after a one-byte length.
    ShortBytes,
    /// A tuple, list, set or frozenset: a 32-bit count, then the items.
    Sequence,
    /// A small tuple: a one-byte count, then the items.
    SmallTuple,
    /// A code object.
    Code,
    /// Any other tag.
    Unsupported,
}

/// The tag of the null object.
pub const TYPE_NULL: u8 = 0x30;

/// The tag of `None`.
pub const TYPE_NONE: u8 = 0x4e;

/// The tag of `False`.
pub const TYPE_FALSE: u8 = 0x46;

/// The tag of `True`.
pub const TYPE_TRUE: u8 = 0x54;

/// The tag of `StopIteration`.
pub const TYPE_STOPITER: u8 = 0x53;

/// The tag of `Ellipsis`.
pub const TYPE_ELLIPSIS: u8 = 0x2e;

/// The tag of a 32-bit integer.
pub const TYPE_INT: u8 = 0x69;

/// The tag that older writers used for a back-reference to a string.
pub const TYPE_STRINGREF: u8 = 0x52;

/// The tag of a back-reference.
pub const TYPE_REF: u8 = 0x72;

/// The tag of a float in text.
pub const TYPE_FLOAT: u8 = 0x66;

/// The tag of a binary float.
pub const TYPE_BINARY_FLOAT: u8 = 0x67;

/// The tag of a complex number in text.
pub const TYPE_COMPLEX: u8 = 0x78;

/// The tag of a binary complex number.
pub const TYPE_BINARY_COMPLEX: u8 = 0x79;

/// The tag of a long integer.
pub const TYPE_LONG: u8 = 0x6c;

/// The tag of a string.
pub const TYPE_STRING: u8 = 0x73;

/// The tag of an interned string.
pub const TYPE_INTERNED: u8 = 0x74;

/// The tag of a Unicode string.
pub const TYPE_UNICODE: u8 = 0x75;

/// The tag of an ASCII string.
pub const TYPE_ASCII: u8 = 0x61;

/// The tag of an interned ASCII string.
pub const TYPE_ASCII_INTERNED: u8 = 0x41;

/// The tag of a short ASCII string.
pub const TYPE_SHORT_ASCII: u8 = 0x7a;

/// The tag of a short interned ASCII string.
pub const TYPE_SHORT_ASCII_INTERNED: u8 = 0x5a;

/// The tag of a tuple.
pub const TYPE_TUPLE: u8 = 0x28;

/// The tag of a small tuple.
pub const TYPE_SMALL_TUPLE: u8 = 0x29;

/// The tag of a list.
pub const TYPE_LIST: u8 = 0x5b;

/// The tag of a set.
pub const TYPE_SET: u8 = 0x3c;

/// The tag of a frozenset.
pub const TYPE_FROZENSET: u8 = 0x3e;

/// The tag of a code object.
pub const TYPE_CODE: u8 = 0x63;

/// The kind of object that a type tag (its low seven bits) announces.
pub open spec fn tag_kind(tag: u8) -> TagKind {
    if tag == TYPE_NONE || tag == TYPE_TRUE || tag == TYPE_FALSE || tag == TYPE_ELLIPSIS || tag
        == TYPE_NULL || tag == TYPE_STOPITER {
        TagKind::Singleton
    } else if tag == TYPE_INT || tag == TYPE_STRINGREF || tag == TYPE_REF {
        TagKind::Word
    } else if tag == TYPE_BINARY_FLOAT {
        TagKind::BinaryFloat
    } else if tag == TYPE_BINARY_COMPLEX {
        TagKind::BinaryComplex
    } else if tag == TYPE_LONG {
        TagKind::Long
    } else if tag == TYPE_FLOAT {
        TagKind::Float
    } else if tag == TYPE_COMPLEX {
        TagKind::Complex
    } else if tag == TYPE_STRING || tag == TYPE_UNICODE || tag == TYPE_INTERNED || tag
        == TYPE_ASCII || tag == TYPE_ASCII_INTERNED {
        TagKind::Bytes
    } else if tag == TYPE_SHORT_ASCII || tag == TYPE_SHORT_ASCII_INTERNED {
        TagKind::ShortBytes
    } else if tag == TYPE_TUPLE || tag == TYPE_LIST || tag == TYPE_SET || tag == TYPE_FROZENSET {
        TagKind::Sequence
    } else if tag == TYPE_SMALL_TUPLE {
        TagKind::SmallTuple
    } else if tag == TYPE_CODE {
        TagKind::Code
    } else {
        TagKind::Unsupported
    }
}

/// Sorts a type tag, already stripped of its reference flag, into its kind.
pub fn classify_tag(tag: u8) -> (kind: TagKind)
    ensures
        kind == tag_kind(tag),
{
    if tag == TYPE_NONE || tag == TYPE_TRUE || tag == TYPE_FALSE || tag == TYPE_ELLIPSIS || tag
        == TYPE_NULL || tag == TYPE_STOPITER {
        TagKind::Singleton
    } else if tag == TYPE_INT || tag == TYPE_STRINGREF || tag == TYPE_REF {
        TagKind::Word
    } else if tag == TYPE_BINARY_FLOAT {
        TagKind::BinaryFloat
    } else if tag == TYPE_BINARY_COMPLEX {
        TagKind::BinaryComplex
    } else if tag == TYPE_LONG {
        TagKind::Long
    } else if tag == TYPE_FLOAT {
        TagKind::Float
    } else if tag == TYPE_COMPLEX {
        TagKind::Complex
    } else if tag == TYPE_STRING || tag == TYPE_UNICODE || tag == TYPE_INTERNED || tag
        == TYPE_ASCII || tag == TYPE_ASCII_INTERNED {
        TagKind::Bytes
    } else if tag == TYPE_SHORT_ASCII || tag == TYPE_SHORT_ASCII_INTERNED {
        TagKind::ShortBytes
    } else if tag == TYPE_TUPLE || tag == TYPE_LIST || tag == TYPE_SET || tag == TYPE_FROZENSET {
        TagKind::Sequence
    } else if tag == TYPE_SMALL_TUPLE {
        TagKind::SmallTuple
    } else if tag == TYPE_CODE {
        TagKind::Code
    } else {
        TagKind::Unsupported
    }
}

/// What walking over one object, or over a run of objects, comes to.
pub enum Walk {
    /// The walk got through `len` bytes, counted from where it started, and
    /// brought back `payload`.
    Done { payload: Seq<u8>, len: nat },
    /// The buffer ended first.
    Truncated,
    /// The walk met an object with a tag of no known kind.
    UnsupportedTag { tag: u8 },
}

/// A walk over `n` bytes at `at` that are of no interest.
pub open spec fn skipped(data: Seq<u8>, at: int, n: int) -> Walk {
    if has_bytes(data, at, n) {
        Walk::Done { payload: Seq::empty(), len: n as nat }
    } else {
        Walk::Truncated
    }
}

/// A walk over `n` bytes at `at` that are the payload.
pub open spec fn taken(data: Seq<u8>, at: int, n: int) -> Walk {
    if has_bytes(data, at, n) {
        Walk::Done { payload: data.subrange(at, at + n), len: n as nat }
    } else {
        Walk::Truncated
    }
}

/// The walk `w`, made after `k` bytes that were already read.
pub open spec fn after(k: nat, w: Walk) -> Walk {
    match w {
        Walk::Done { payload, len } => Walk::Done { payload, len: k + len },
        other => other,
    }
}

/// The absolute value.
pub open spec fn magnitude(x: int) -> int {
    if x >= 0 {
        x
    } else {
        -x
    }
}

/// How a code object is laid out for a release.
pub struct CodeLayout {
    /// Bytes of fixed-size fields before the first object.
    pub header: nat,
    /// Objects before the file name (or, where the layout is not decoded,
    /// the objects that are walked at all).
    pub before: nat,
    /// Whether the layout is decoded as far as the file name.
    pub named: bool,
    /// Objects between the file name and the first line number.
    pub between: nat,
    /// Objects after the first line number.
    pub trailing: nat,
}

/// The layout of a code object. Two releases are decoded in full: 2.7 (the
/// bytecode, the constants, the names and three more tables; the file name;
/// the name; the first line number; the line table) and 3.11 (one more
/// header word for the flags; the bytecode, the constants, the names and two
/// tables on the local variables; the file name; the qualified name; the
/// first line number; two more tables). Of any other release only the
/// bytecode, the constants and the names are walked.
pub open spec fn code_layout(version: PythonVersion) -> CodeLayout {
    if version == PythonVersion::Version3_11 {
        CodeLayout { header: 20, before: 5, named: true, between: 1, trailing: 2 }
    } else if version == PythonVersion::Version2_7 {
        CodeLayout { header: 16, before: 6, named: true, between: 1, trailing: 1 }
    } else {
        CodeLayout { header: 16, before: 3, named: false, between: 0, trailing: 0 }
    }
}

/// The walk over the object whose tag byte is at `pos`. The high bit of the
/// tag is a flag that plays no part here. Only strings of bytes have a
/// payload of their own; a sequence hands up the payload of its last item
/// that has one, and a code object its file name.
pub open spec fn object_at(data: Seq<u8>, pos: int, version: PythonVersion) -> Walk
    decreases remaining(data, pos), 0nat,
{
    if !has_bytes(data, pos, 1) {
        Walk::Truncated
    } else {
        let tag = data[pos] & 0x7f;
        let at = pos + 1;
        match tag_kind(tag) {
            TagKind::Singleton => Walk::Done { payload: Seq::empty(), len: 1 },
            TagKind::Word => after(1, skipped(data, at, 4)),
            TagKind::BinaryFloat => after(1, skipped(data, at, 8)),
            TagKind::BinaryComplex => after(1, skipped(data, at, 16)),
            TagKind::Long => match i32_at(data, at) {
                Some(digits) => after(5, skipped(data, at + 4, 2 * magnitude(digits as int))),
                None => Walk::Truncated,
            },
            TagKind::Float => if has_bytes(data, at, 1) {
                after(2, skipped(data, at + 1, data[at] as int))
            } else {
                Walk::Truncated
            },
            TagKind::Complex => if has_bytes(data, at, 1) {
                let imag = at + 1 + data[at];
                if has_bytes(data, imag, 1) {
                    after((3 + data[at]) as nat, skipped(data, imag + 1, data[imag] as int))
                } else {
                    Walk::Truncated
                }
            } else {
                Walk::Truncated
            },
            TagKind::Bytes => match u32_at(data, at) {
                Some(n) => after(5, taken(data, at + 4, n as int)),
                None => Walk::Truncated,
            },
            TagKind::ShortBytes => if has_bytes(data, at, 1) {
                after(2, taken(data, at + 1, data[at] as int))
            } else {
                Walk::Truncated
            },
            TagKind::Sequence => match u32_at(data, at) {
                Some(n) => after(5, objects_at(data, at + 4, n as nat, Seq::empty(), version)),
                None => Walk::Truncated,
            },
            TagKind::SmallTuple => if has_bytes(data, at, 1) {
                after(2, objects_at(data, at + 1, data[at] as nat, Seq::empty(), version))
            } else {
                Walk::Truncated
            },
            TagKind::Code => after(1, code_at(data, at, version)),
            TagKind::Unsupported => Walk::UnsupportedTag { tag },
        }
    }
}

/// The walk over `count` objects in a row, the first at `pos`. Its payload is
/// that of the last object that has one, and `found` where none has.
pub open spec fn objects_at(
    data: Seq<u8>,
    pos: int,
    count: nat,
    found: Seq<u8>,
    version: PythonVersion,
) -> Walk
    decreases remaining(data, pos), count + 1,
{
    if count == 0 {
        Walk::Done { payload: found, len: 0 }
    } else if !has_bytes(data, pos, 1) {
        Walk::Truncated
    } else {
        match object_at(data, pos, version) {
            Walk::Done { payload, len } => after(
                len,
                objects_at(
                    data,
                    pos + len,
                    (count - 1) as nat,
                    if payload.len() > 0 {
                        payload
                    } else {
                        found
                    },
                    version,
                ),
            ),
            other => other,
        }
    }
}

/// The walk over the body of a code object, which starts at `at`, after the
/// tag. Its payload is the file name, where the layout is decoded that far.
pub open spec fn code_at(data: Seq<u8>, at: int, version: PythonVersion) -> Walk
    decreases remaining(data, at), 0nat,
{
    let layout = code_layout(version);
    if !has_bytes(data, at, layout.header as int) {
        Walk::Truncated
    } else {
        match objects_at(data, at + layout.header, layout.before, Seq::empty(), version) {
            Walk::Done { payload: _, len: lead } => if !layout.named {
                Walk::Done { payload: Seq::empty(), len: layout.header + lead }
            } else {
                let name_at = at + layout.header + lead;
                match object_at(data, name_at, version) {
                    Walk::Done { payload: file_name, len: name_len } => {
                        let rest_at = name_at + name_len;
                        match objects_at(data, rest_at, layout.between, Seq::empty(), version) {
                            Walk::Done { payload: _, len: mid } => if !has_bytes(
                                data,
                                rest_at + mid,
                                4,
                            ) {
                                Walk::Truncated
                            } else {
                                match objects_at(
                                    data,
                                    rest_at + mid + 4,
                                    layout.trailing,
                                    Seq::empty(),
                                    version,
                                ) {
                                    Walk::Done { payload: _, len: tail } => Walk::Done {
                                        payload: file_name,
                                        len: layout.header + lead + name_len + mid + 4 + tail,
                                    },
                                    other => other,
                                }
                            },
                            other => other,
                        }
                    },
                    other => other,
                }
            },
            other => other,
        }
    }
}

/// Whether a walk, where it is done, got through at least `least` bytes and
/// stayed inside the buffer that holds `room` bytes from its start on.
pub open spec fn walk_within(w: Walk, least: nat, room: nat) -> bool {
    w matches Walk::Done { payload: _, len } ==> least <= len <= room
}

/// A walk never leaves the buffer: an object takes at least its tag byte and
/// ends where the buffer ends or before, and so does a run of objects and
/// the body of a code object.
pub proof fn walks_stay_in_buffer(
    data: Seq<u8>,
    pos: int,
    count: nat,
    found: Seq<u8>,
    version: PythonVersion,
)
    ensures
        walk_within(object_at(data, pos, version), 1, remaining(data, pos)),
        walk_within(objects_at(data, pos, count, found, version), 0, remaining(data, pos)),
        walk_within(code_at(data, pos, version), 16, remaining(data, pos)),
    decreases remaining(data, pos), count + 2,
{
    if has_bytes(data, pos, 1) {
        let at = pos + 1;
        match tag_kind(data[pos] & 0x7f) {
            TagKind::Sequence => {
                if let Some(n) = u32_at(data, at) {
                    walks_stay_in_buffer(data, at + 4, n as nat, Seq::empty(), version);
                }
            },
            TagKind::SmallTuple => {
                if has_bytes(data, at, 1) {
                    walks_stay_in_buffer(data, at + 1, data[at] as nat, Seq::empty(), version);
                }
            },
            TagKind::Code => {
                walks_stay_in_buffer(data, at, 0, Seq::empty(), version);
            },
            _ => {},
        }
        if count > 0 {
            walks_stay_in_buffer(data, pos, 0, Seq::empty(), version);
            match object_at(data, pos, version) {
                Walk::Done { payload, len } => {
                    walks_stay_in_buffer(
                        data,
                        pos + len,
                        (count - 1) as nat,
                        if payload.len() > 0 {
                            payload
                        } else {
                            found
                        },
                        version,
                    );
                },
                _ => {},
            }
        }
        let layout = code_layout(version);
        if has_bytes(data, pos, layout.header as int) {
            let lead_at = pos + layout.header;
            walks_stay_in_buffer(data, lead_at, layout.before, Seq::empty(), version);
            match objects_at(data, lead_at, layout.before, Seq::empty(), version) {
                Walk::Done { payload: _, len: lead } => {
                    let name_at = lead_at + lead;
                    walks_stay_in_buffer(data, name_at, 0, Seq::empty(), version);
                    match object_at(data, name_at, version) {
                        Walk::Done { payload: _, len: name_len } => {
                            let rest_at = name_at + name_len;
                            let none = Seq::<u8>::empty();
                            walks_stay_in_buffer(data, rest_at, layout.between, none, version);
                            match objects_at(data, rest_at, layout.between, none, version) {
                                Walk::Done { payload: _, len: mid } => {
                                    walks_stay_in_buffer(
                                        data,
                                        rest_at + mid + 4,
                                        layout.trailing,
                                        Seq::empty(),
                                        version,
                                    );
                                },
                                _ => {},
                            }
                        },
                        _ => {},
                    }
                },
                _ => {},
            }
        }
    }
}

/// Whether a walk from `start` returned what `w` describes: the payload and
/// the position after the last byte walked, or the error.
pub open spec fn walked(r: Result<(Vec<u8>, usize), ScriptError>, w: Walk, start: int) -> bool {
    match w {
        Walk::Done { payload, len } => r matches Ok((p, next)) && p@ == payload && next as int
            == start + len,
        Walk::Truncated => r matches Err(e) && e == ScriptError::Truncated,
        Walk::UnsupportedTag { tag } => r matches Err(e) && e == ScriptError::UnsupportedTag(tag),
    }
}

/// Walks over `n` bytes at `at` of an object that starts at `start`.
fn skip_bytes(data: &[u8], start: usize, at: usize, n: u64) -> (r: Result<
    (Vec<u8>, usize),
    ScriptError,
>)
    requires
        start <= at <= data@.len(),
    ensures
        walked(r, after((at - start) as nat, skipped(data@, at as int, n as int)), start as int),
{
    if n <= (data.len() - at) as u64 {
        Ok((Vec::new(), at + n as usize))
    } else {
        Err(ScriptError::Truncated)
    }
}

/// Copies `n` bytes at `at` out of an object that starts at `start`.
fn take_bytes(data: &[u8], start: usize, at: usize, n: usize) -> (r: Result<
    (Vec<u8>, usize),
    ScriptError,
>)
    requires
        start <= at <= data@.len(),
    ensures
        walked(r, after((at - start) as nat, taken(data@, at as int, n as int)), start as int),
{
    if n <= data.len() - at {
        Ok((slice_to_vec(&data[at..at + n]), at + n))
    } else {
        Err(ScriptError::Truncated)
    }
}

/// Walks over the object whose tag is at `pos`. Returns its payload and the
/// position after it; `Truncated` where the buffer ends inside it (or `pos`
/// is not in the buffer), and `UnsupportedTag` where it, or an object inside
/// it, has a tag of no known kind, whichever comes first in the buffer.
pub fn read_py_object(data: &[u8], pos: usize, version: PythonVersion) -> (r: Result<
    (Vec<u8>, usize),
    ScriptError,
>)
    ensures
        walked(r, object_at(data@, pos as int, version), pos as int),
    decreases remaining(data@, pos as int), 0nat,
{
    if pos >= data.len() {
        return Err(ScriptError::Truncated);
    }
    let tag: u8 = data[pos] & 0x7f;
    let at: usize = pos + 1;
    match classify_tag(tag) {
        TagKind::Singleton => Ok((Vec::new(), at)),
        TagKind::Word => skip_bytes(data, pos, at, 4),
        TagKind::BinaryFloat => skip_bytes(data, pos, at, 8),
        TagKind::BinaryComplex => skip_bytes(data, pos, at, 16),
        TagKind::Long => match read_i32_at(data, at) {
            Some(digits) => {
                let wide: i64 = digits as i64;
                let count: i64 = if wide >= 0 {
                    wide
                } else {
                    -wide
                };
                skip_bytes(data, pos, at + 4, 2 * (count as u64))
            },
            None => Err(ScriptError::Truncated),
        },
        TagKind::Float => {
            if at < data.len() {
                skip_bytes(data, pos, at + 1, data[at] as u64)
            } else {
                Err(ScriptError::Truncated)
            }
        },
        TagKind::Complex => {
            if at < data.len() {
                let first: usize = data[at] as usize;
                if first < data.len() - at - 1 {
                    let imag: usize = at + 1 + first;
                    skip_bytes(data, pos, imag + 1, data[imag] as u64)
                } else {
                    Err(ScriptError::Truncated)
                }
            } else {
                Err(ScriptError::Truncated)
            }
        },
        TagKind::Bytes => match read_u32_at(data, at) {
            Some(n) => take_bytes(data, pos, at + 4, n as usize),
            None => Err(ScriptError::Truncated),
        },
        TagKind::ShortBytes => {
            if at < data.len() {
                take_bytes(data, pos, at + 1, data[at] as usize)
            } else {
                Err(ScriptError::Truncated)
            }
        },
        TagKind::Sequence => match read_u32_at(data, at) {
            Some(n) => read_py_objects(data, at + 4, n, version),
            None => Err(ScriptError::Truncated),
        },
        TagKind::SmallTuple => {
            if at < data.len() {
                read_py_objects(data, at + 1, data[at] as u32, version)
            } else {
                Err(ScriptError::Truncated)
            }
        },
        TagKind::Code => read_py_code(data, at, version),
        TagKind::Unsupported => Err(ScriptError::UnsupportedTag(tag)),
    }
}

/// Walks over `count` objects in a row, the first at `pos`. Returns the
/// payload of the last one that has one (an empty payload where none has) and
/// the position after the run, or the first error on the way.
pub fn read_py_objects(data: &[u8], pos: usize, count: u32, version: PythonVersion) -> (r: Result<
    (Vec<u8>, usize),
    ScriptError,
>)
    ensures
        walked(
            r,
            objects_at(data@, pos as int, count as nat, Seq::empty(), version),
            pos as int,
        ),
    decreases remaining(data@, pos as int), count + 1,
{
    let mut found: Vec<u8> = Vec::new();
    let mut cur: usize = pos;
    let mut i: u32 = 0;
    while i < count
        invariant
            pos <= cur,
            i <= count,
            objects_at(data@, pos as int, count as nat, Seq::empty(), version) == after(
                (cur - pos) as nat,
                objects_at(data@, cur as int, (count - i) as nat, found@, version),
            ),
        decreases count - i,
    {
        if cur >= data.len() {
            return Err(ScriptError::Truncated);
        }
        match read_py_object(data, cur, version) {
            Ok((payload, next)) => {
                if payload.len() > 0 {
                    found = payload;
                }
                cur = next;
            },
            Err(e) => {
                return Err(e);
            },
        }
        i += 1;
    }
    Ok((found, cur))
}

/// Walks over the body of a code object, which starts at `at`, after the
/// tag. Returns the file name and the position after the code object.
pub fn read_py_code(data: &[u8], at: usize, version: PythonVersion) -> (r: Result<
    (Vec<u8>, usize),
    ScriptError,
>)
    ensures
        walked(r, code_at(data@, at as int, version), at as int),
    decreases remaining(data@, at as int), 0nat,
{
    let newer = version == PythonVersion::Version3_11;
    let older = version == PythonVersion::Version2_7;
    let header: usize = if newer {
        20
    } else {
        16
    };
    if at > data.len() || data.len() - at < header {
        return Err(ScriptError::Truncated);
    }
    let before: u32 = if newer {
        5
    } else if older {
        6
    } else {
        3
    };
    let name_at: usize = match read_py_objects(data, at + header, before, version) {
        Ok((_, next)) => next,
        Err(e) => {
            return Err(e);
        },
    };
    if !newer && !older {
        return Ok((Vec::new(), name_at));
    }
    let (file_name, rest_at) = match read_py_object(data, name_at, version) {
        Ok(walk) => walk,
        Err(e) => {
            return Err(e);
        },
    };
    let line_at: usize = match read_py_objects(data, rest_at, 1, version) {
        Ok((_, next)) => next,
        Err(e) => {
            return Err(e);
        },
    };
    if line_at > data.len() || data.len() - line_at < 4 {
        return Err(ScriptError::Truncated);
    }
    let trailing: u32 = if newer {
        2
    } else {
        1
    };
    let end: usize = match read_py_objects(data, line_at + 4, trailing, version) {
        Ok((_, next)) => next,
        Err(e) => {
            return Err(e);
        },
    };
    Ok((file_name, end))
}

/// Whether the walker decodes the code objects of a release as far as the
/// file name.
pub open spec fn is_supported(version: PythonVersion) -> bool {
    version == PythonVersion::Version2_7 || version == PythonVersion::Version3_11
}

/// The file name that a compiled script was made from: the payload of the
/// object that follows the eight bytes of header, read as UTF-8. Each error
/// stands for the first thing that stops the search.
pub open spec fn file_name_of(data: Seq<u8>) -> Result<Seq<char>, ScriptError> {
    match header_version(data) {
        None => Err(ScriptError::UnrecognizedHeader),
        Some(version) => if !is_supported(version) {
            Err(ScriptError::UnsupportedVersion)
        } else if !has_bytes(data, 0, 8) {
            Err(ScriptError::Truncated)
        } else {
            match object_at(data, 8, version) {
                Walk::Done { payload, len: _ } => if valid_utf8(payload) {
                    Ok(decode_utf8(payload))
                } else {
                    Err(ScriptError::InvalidUtf8)
                },
                Walk::Truncated => Err(ScriptError::Truncated),
                Walk::UnsupportedTag { tag } => Err(ScriptError::UnsupportedTag(tag)),
            }
        },
    }
}

/// The file name that `recover_filename` hands out: the one that
/// `file_name_of` finds, unless it is empty.
pub open spec fn recovered_name(data: Seq<u8>) -> Option<Seq<char>> {
    match file_name_of(data) {
        Ok(name) => if name.len() > 0 {
            Some(name)
        } else {
            None
        },
        Err(_) => None,
    }
}

/// Finds the name of the source file in a compiled script, or says what
/// stopped the search. The name may be empty.
pub fn file_name_from_py_buffer(buffer: &[u8]) -> (r: Result<String, ScriptError>)
    ensures
        match file_name_of(buffer@) {
            Ok(name) => r matches Ok(s) && s@ == name,
            Err(e) => r matches Err(x) && x == e,
        },
{
    let version = match detect_python_version_from_py_header(buffer) {
        Some(version) => version,
        None => {
            return Err(ScriptError::UnrecognizedHeader);
        },
    };
    if version != PythonVersion::Version2_7 && version != PythonVersion::Version3_11 {
        return Err(ScriptError::UnsupportedVersion);
    }
    if buffer.len() < 8 {
        return Err(ScriptError::Truncated);
    }
    match read_py_object(buffer, 8, version) {
        Ok((payload, _)) => match utf8_string(payload.as_slice()) {
            Some(name) => Ok(name),
            None => Err(ScriptError::InvalidUtf8),
        },
        Err(e) => Err(e),
    }
}

/// The name of the source file of a compiled script, where there is one: a
/// script of a supported release whose outermost object can be walked and
/// yields a name that is UTF-8 and not empty. A buffer whose first four bytes
/// are no known header gives nothing whatever follows them.
pub fn recover_filename(pyc_bytes: &[u8]) -> (r: Option<String>)
    ensures
        match recovered_name(pyc_bytes@) {
            Some(name) => r matches Some(s) && s@ == name,
            None => r is None,
        },
{
    match file_name_from_py_buffer(pyc_bytes) {
        Ok(name) => if name.as_str().is_empty() {
            None
        } else {
            Some(name)
        },
        Err(_) => None,
    }
}

/// Whether a release is read off a header hangs on its first four bytes
/// alone, and a buffer whose header is not recognized yields no file name,
/// whatever else it holds.
pub proof fn header_decides(a: Seq<u8>, b: Seq<u8>)
    requires
        a.len() >= 4,
        b.len() >= 4,
        a.subrange(0, 4) == b.subrange(0, 4),
    ensures
        header_version(a) == header_version(b),
        header_version(a) is None ==> recovered_name(a) is None && recovered_name(b) is None,
{
    assert(a[2] == a.subrange(0, 4)[2] && b[2] == b.subrange(0, 4)[2]);
    assert(a[3] == a.subrange(0, 4)[3] && b[3] == b.subrange(0, 4)[3]);
    assert(a.subrange(0, 2) == a.subrange(0, 4).subrange(0, 2));
    assert(b.subrange(0, 2) == b.subrange(0, 4).subrange(0, 2));
}

} // verus!
