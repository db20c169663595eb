//! Naming by content: where an entry's bytes are all there is to go by, the
//! MIME type that their signature gives decides the extension of its name.

use crate::index::MPKFileEntry;
use crate::text::{chars_of, push_str, str_eq, string_of};
use vstd::prelude::*;

verus! {

/// The extensions that the table of MIME types hands out.
#[derive(Debug, Copy, Clone, PartialEq, Eq, Structural)]
pub enum Extension {
    Exe,
    Cpio,
    Ktx,
    Png,
    Dds,
    Bmp,
    Xml,
    Mat,
    Mo,
    C,
    Ttf,
    Zip,
    Jpg,
    Pcx,
    Mp3,
    Wav,
    Pem,
    Mp4,
    Txt,
    Dat,
}

impl Extension {
    /// The extension as it stands in a file name, without the dot.
    pub open spec fn text(self) -> Seq<char> {
        match self {
            Extension::Exe => "exe"@,
            Extension::Cpio => "cpio"@,
            Extension::Ktx => "ktx"@,
            Extension::Png => "png"@,
            Extension::Dds => "dds"@,
            Extension::Bmp => "bmp"@,
            Extension::Xml => "xml"@,
            Extension::Mat => "mat"@,
            Extension::Mo => "mo"@,
            Extension::C => "c"@,
            Extension::Ttf => "ttf"@,
            Extension::Zip => "zip"@,
            Extension::Jpg => "jpg"@,
            Extension::Pcx => "pcx"@,
            Extension::Mp3 => "mp3"@,
            Extension::Wav => "wav"@,
            Extension::Pem => "pem"@,
            Extension::Mp4 => "mp4"@,
            Extension::Txt => "txt"@,
            Extension::Dat => "dat"@,
        }
    }

    /// The extension as it stands in a file name, without the dot.
    pub fn as_str(self) -> (s: &'static str)
        ensures
            s@ == self.text(),
    {
        match self {
            Extension::Exe => "exe",
            Extension::Cpio => "cpio",
            Extension::Ktx => "ktx",
            Extension::Png => "png",
            Extension::Dds => "dds",
            Extension::Bmp => "bmp",
            Extension::Xml => "xml",
            Extension::Mat => "mat",
            Extension::Mo => "mo",
            Extension::C => "c",
            Extension::Ttf => "ttf",
            Extension::Zip => "zip",
            Extension::Jpg => "jpg",
            Extension::Pcx => "pcx",
            Extension::Mp3 => "mp3",
            Extension::Wav => "wav",
            Extension::Pem => "pem",
            Extension::Mp4 => "mp4",
            Extension::Txt => "txt",
            Extension::Dat => "dat",
        }
    }
}

/// What a MIME type says about the name of an entry.
#[derive(Debug, Copy, Clone, PartialEq, Eq, Structural)]
pub enum Sniff {
    /// `application/octet-stream`: there is no better name than the entry's
    /// own, which is kept as it is.
    Keep,
    /// A type of the table: the name gets this extension.
    Known(Extension),
    /// Any other type: the name gets the extension `dat`, and the caller is
    /// owed a warning.
    Unhandled,
}

impl Sniff {
    /// The extension that the name gets, if it gets one.
    pub open spec fn extension(self) -> Option<Extension> {
        match self {
            Sniff::Keep => None,
            Sniff::Known(extension) => Some(extension),
            Sniff::Unhandled => Some(Extension::Dat),
        }
    }

    /// The extension that the name gets, if it gets one.
    pub fn to_extension(self) -> (r: Option<Extension>)
        ensures
            r == self.extension(),
    {
        match self {
            Sniff::Keep => None,
            Sniff::Known(extension) => Some(extension),
            Sniff::Unhandled => Some(Extension::Dat),
        }
    }
}

/// The table of MIME types.
pub open spec fn sniff_of_mime(mime: Seq<char>) -> Sniff {
    if mime == "application/octet-stream"@ {
        Sniff::Keep
    } else if mime == "application/x-executable"@ {
        Sniff::Known(Extension::Exe)
    } else if mime == "application/x-cpio"@ {
        Sniff::Known(Extension::Cpio)
    } else if mime == "image/ktx"@ {
        Sniff::Known(Extension::Ktx)
    } else if mime == "image/png"@ {
        Sniff::Known(Extension::Png)
    } else if mime == "image/x-dds"@ {
        Sniff::Known(Extension::Dds)
    } else if mime == "image/x-win-bitmap"@ || mime == "image/bmp"@ {
        Sniff::Known(Extension::Bmp)
    } else if mime == "application/xml"@ || mime == "application/x-apple-systemprofiler+xml"@ {
        Sniff::Known(Extension::Xml)
    } else if mime == "text/x-matlab"@ {
        Sniff::Known(Extension::Mat)
    } else if mime == "text/x-modelica"@ {
        Sniff::Known(Extension::Mo)
    } else if mime == "text/x-csrc"@ {
        Sniff::Known(Extension::C)
    } else if mime == "font/ttf"@ || mime == "application/x-font-ttf"@ {
        Sniff::Known(Extension::Ttf)
    } else if mime == "application/zip"@ {
        Sniff::Known(Extension::Zip)
    } else if mime == "image/jpeg"@ {
        Sniff::Known(Extension::Jpg)
    } else if mime == "image/vnd.zbrush.pcx"@ {
        Sniff::Known(Extension::Pcx)
    } else if mime == "audio/mpeg"@ {
        Sniff::Known(Extension::Mp3)
    } else if mime == "audio/x-wav"@ || mime == "audio/vnd.wave"@ {
        Sniff::Known(Extension::Wav)
    } else if mime == "application/x-java-jce-keystore"@ {
        Sniff::Known(Extension::Pem)
    } else if mime == "video/mp4"@ {
        Sniff::Known(Extension::Mp4)
    } else if mime == "text/plain"@ {
        Sniff::Known(Extension::Txt)
    } else {
        Sniff::Unhandled
    }
}

/// Looks a MIME type up in the table.
pub fn classify_mime(mime: &str) -> (r: Sniff)
    ensures
        r == sniff_of_mime(mime@),
{
    if str_eq(mime, "application/octet-stream") {
        Sniff::Keep
    } else if str_eq(mime, "application/x-executable") {
        Sniff::Known(Extension::Exe)
    } else if str_eq(mime, "application/x-cpio") {
        Sniff::Known(Extension::Cpio)
    } else if str_eq(mime, "image/ktx") {
        Sniff::Known(Extension::Ktx)
    } else if str_eq(mime, "image/png") {
        Sniff::Known(Extension::Png)
    } else if str_eq(mime, "image/x-dds") {
        Sniff::Known(Extension::Dds)
    } else if str_eq(mime, "image/x-win-bitmap") || str_eq(mime, "image/bmp") {
        Sniff::Known(Extension::Bmp)
    } else if str_eq(mime, "application/xml") || str_eq(
        mime,
        "application/x-apple-systemprofiler+xml",
    ) {
        Sniff::Known(Extension::Xml)
    } else if str_eq(mime, "text/x-matlab") {
        Sniff::Known(Extension::Mat)
    } else if str_eq(mime, "text/x-modelica") {
        Sniff::Known(Extension::Mo)
    } else if str_eq(mime, "text/x-csrc") {
        Sniff::Known(Extension::C)
    } else if str_eq(mime, "font/ttf") || str_eq(mime, "application/x-font-ttf") {
        Sniff::Known(Extension::Ttf)
    } else if str_eq(mime, "application/zip") {
        Sniff::Known(Extension::Zip)
    } else if str_eq(mime, "image/jpeg") {
        Sniff::Known(Extension::Jpg)
    } else if str_eq(mime, "image/vnd.zbrush.pcx") {
        Sniff::Known(Extension::Pcx)
    } else if str_eq(mime, "audio/mpeg") {
        Sniff::Known(Extension::Mp3)
    } else if str_eq(mime, "audio/x-wav") || str_eq(mime, "audio/vnd.wave") {
        Sniff::Known(Extension::Wav)
    } else if str_eq(mime, "application/x-java-jce-keystore") {
        Sniff::Known(Extension::Pem)
    } else if str_eq(mime, "video/mp4") {
        Sniff::Known(Extension::Mp4)
    } else if str_eq(mime, "text/plain") {
        Sniff::Known(Extension::Txt)
    } else {
        Sniff::Unhandled
    }
}

/// Where `c` stands last in `s`, and -1 where it does not stand in it.
pub open spec fn last_index_of(s: Seq<char>, c: char) -> int
    decreases s.len(),
{
    if s.len() == 0 {
        -1
    } else if s.last() == c {
        s.len() - 1
    } else {
        last_index_of(s.drop_last(), c)
    }
}

/// The part of a file name before its extension: all that stands before the
/// last dot, and the whole name where it has no dot or only starts with one.
pub open spec fn stem_of(file: Seq<char>) -> Seq<char> {
    let dot = last_index_of(file, '.');
    if dot > 0 {
        file.take(dot)
    } else {
        file
    }
}

/// How many characters of a path, counted from its start, are its directory
/// part: all up to and with the last `/`.
pub open spec fn directory_len(name: Seq<char>) -> int {
    last_index_of(name, '/') + 1
}

/// `name` with the extension of its last component replaced by `extension`.
/// The directory part stays as it is.
pub open spec fn with_extension(name: Seq<char>, extension: Seq<char>) -> Seq<char> {
    let cut = directory_len(name);
    name.take(cut) + stem_of(name.skip(cut)) + seq!['.'] + extension
}

/// The name that an entry called `name` gets for what was sniffed.
pub open spec fn sniffed_name(name: Seq<char>, sniff: Sniff) -> Seq<char> {
    match sniff.extension() {
        None => name,
        Some(extension) => with_extension(name, extension.text()),
    }
}

/// Finds the last `c` in `s`.
pub fn find_last(s: &Vec<char>, c: char) -> (r: Option<usize>)
    ensures
        match r {
            Some(i) => i == last_index_of(s@, c) && i < s@.len(),
            None => last_index_of(s@, c) == -1,
        },
{
    let mut i: usize = s.len();
    assert(s@.take(i as int) == s@);
    while i > 0
        invariant
            i <= s@.len(),
            last_index_of(s@, c) == last_index_of(s@.take(i as int), c),
        decreases i,
    {
        if s[i - 1] == c {
            return Some(i - 1);
        }
        assert(s@.take(i as int).drop_last() == s@.take(i - 1));
        i -= 1;
    }
    None
}

/// Replaces the extension of the last component of `name`.
pub fn replace_extension(name: &str, extension: &str) -> (r: String)
    ensures
        r@ == with_extension(name@, extension@),
{
    let chars = chars_of(name);
    let len: usize = chars.len();
    let cut: usize = match find_last(&chars, '/') {
        Some(i) => i + 1,
        None => 0,
    };
    let mut out: Vec<char> = Vec::new();
    let mut file: Vec<char> = Vec::new();
    let mut i: usize = 0;
    while i < len
        invariant
            len == chars@.len(),
            i <= len,
            cut <= len,
            out@ == chars@.take(if i <= cut {
                i as int
            } else {
                cut as int
            }),
            file@ == chars@.subrange(cut as int, if i <= cut {
                cut as int
            } else {
                i as int
            }),
        decreases len - i,
    {
        if i < cut {
            out.push(chars[i]);
        } else {
            file.push(chars[i]);
        }
        i += 1;
    }
    assert(file@ == chars@.skip(cut as int));
    let keep: usize = match find_last(&file, '.') {
        Some(dot) => if dot > 0 {
            dot
        } else {
            file.len()
        },
        None => file.len(),
    };
    let mut j: usize = 0;
    while j < keep
        invariant
            j <= keep <= file@.len(),
            out@ == chars@.take(cut as int) + file@.take(j as int),
        decreases keep - j,
    {
        out.push(file[j]);
        j += 1;
    }
    assert(file@.take(file@.len() as int) == file@);
    out.push('.');
    push_str(&mut out, extension);
    string_of(out.as_slice())
}

/// `tree_magic_mini::from_u8`: the MIME type that the MIME database of the
/// machine gives for `bytes`. It goes by files on disk and by the
/// environment, so nothing is promised of it.
#[verifier::external_body]
fn mime_of(bytes: &[u8]) -> (mime: &'static str) {
    tree_magic_mini::from_u8(bytes)
}

/// Sniffs at `bytes`: the MIME type of their signature, and what the table
/// makes of it. A type that the table does not hold comes out as
/// `Unhandled`, for which the extension is `dat`.
pub fn infer_extension(bytes: &[u8]) -> (r: (Sniff, &'static str))
    ensures
        r.0 == sniff_of_mime(r.1@),
{
    let mime = mime_of(bytes);
    (classify_mime(mime), mime)
}

/// The name that `file` gets for a MIME type.
pub fn file_name_for_mime(file: &MPKFileEntry, mime: &str) -> (r: String)
    ensures
        r@ == sniffed_name(file@.name(), sniff_of_mime(mime@)),
{
    let name = file.name();
    match classify_mime(mime).to_extension() {
        Some(extension) => replace_extension(name.as_str(), extension.as_str()),
        None => name,
    }
}

/// Names `file` after what its bytes look like. Returns the name and the
/// MIME type that it was chosen for.
pub fn detect_file_name_with_extension(file: &MPKFileEntry, decompressed: &[u8]) -> (r: (
    String,
    &'static str,
))
    ensures
        r.0@ == sniffed_name(file@.name(), sniff_of_mime(r.1@)),
{
    let mime = mime_of(decompressed);
    (file_name_for_mime(file, mime), mime)
}

} // verus!
