//! The codecs that entries are stored under: telling them by their leading
//! marker, undoing them, and naming what comes out.

use crate::bytes::{has_bytes, i32_of, read_i32_at, read_u32_at, u32_of};
use crate::index::{MPKError, MPKFileEntry};
use crate::script::{file_name_from_py_buffer, file_name_of, ScriptError};
use crate::sniff::{
    classify_mime, detect_file_name_with_extension, sniff_of_mime, sniffed_name, Sniff,
};
use crate::text::{push_str, string_of};
use vstd::prelude::*;
use vstd::slice::slice_to_vec;

verus! {

/// The error of `lz4_flex`'s block decoder.
#[verifier::external_type_specification]
#[verifier::external_body]
pub struct ExLz4Error(lz4_flex::block::DecompressError);

/// The error of `lzma_rs`.
#[verifier::external_type_specification]
#[verifier::external_body]
pub struct ExLzmaError(lzma_rs::error::Error);

/// What `lz4_flex::decompress` makes of `block` when it is given `size` as
/// the least size of the output: the decoded bytes, or nothing where it
/// reports an error.
pub uninterp spec fn lz4_block_decoded(block: Seq<u8>, size: nat) -> Option<Seq<u8>>;

/// What `lzma_rs::lzma_decompress_with_options` makes of `stream` when it is
/// given `unpacked_size` in place of the size field of the header, no memory
/// limit, and no leave to stop at an incomplete stream: the decoded bytes, or
/// nothing where it reports an error.
pub uninterp spec fn lzma_decoded(stream: Seq<u8>, unpacked_size: u64) -> Option<Seq<u8>>;

/// The length from which on a run of `FF` bytes keeps a block from the
/// block decoder. A length in a block is spelt as a run of `FF` and one more
/// byte, which the decoder adds up; below this limit the sum, and every
/// position it is added to, stays within 32 bits.
pub const FF_RUN_LIMIT: usize = 8_388_608;

/// The length of the run of `FF` bytes that `s` ends in.
pub open spec fn trailing_ff(s: Seq<u8>) -> nat
    decreases s.len(),
{
    if s.len() == 0 || s.last() != 0xff {
        0
    } else {
        trailing_ff(s.drop_last()) + 1
    }
}

/// The length of the longest run of `FF` bytes in `s`.
pub open spec fn longest_ff_run(s: Seq<u8>) -> nat
    decreases s.len(),
{
    if s.len() == 0 {
        0
    } else if trailing_ff(s) > longest_ff_run(s.drop_last()) {
        trailing_ff(s)
    } else {
        longest_ff_run(s.drop_last())
    }
}

/// Whether the block decoder is given `block`: it holds no run of `FF` as
/// long as the limit.
pub open spec fn lz4_admits(block: Seq<u8>) -> bool {
    longest_ff_run(block) < FF_RUN_LIMIT
}

/// Whether the decoder of blocks with their size in front is given
/// `input`: it holds no run of `FF` as long as the limit, and the size in
/// front is one that a buffer of the machine can have.
pub open spec fn lz4_admits_prepended(input: Seq<u8>) -> bool {
    lz4_admits(input) && (input.len() >= 4 ==> u32_of(input, 0) <= isize::MAX)
}

/// Tells whether the block decoder is given `block`.
pub fn check_ff_runs(block: &[u8]) -> (r: bool)
    ensures
        r == lz4_admits(block@),
{
    let mut run: usize = 0;
    let mut longest: usize = 0;
    let mut i: usize = 0;
    while i < block.len()
        invariant
            i <= block@.len(),
            run <= i,
            longest <= i,
            run == trailing_ff(block@.take(i as int)),
            longest == longest_ff_run(block@.take(i as int)),
        decreases block@.len() - i,
    {
        assert(block@.take(i + 1).drop_last() == block@.take(i as int));
        if block[i] == 0xff {
            run += 1;
        } else {
            run = 0;
        }
        if run > longest {
            longest = run;
        }
        i += 1;
    }
    assert(block@.take(i as int) == block@);
    longest < FF_RUN_LIMIT
}

/// What `lz4_flex::decompress_size_prepended` makes of `input`: the first
/// four bytes are the size of the output, little-endian, and the rest is the
/// block. Fewer than four bytes are an error.
pub open spec fn lz4_prepended_decoded(input: Seq<u8>) -> Option<Seq<u8>> {
    if input.len() < 4 {
        None
    } else {
        lz4_block_decoded(input.skip(4), u32_of(input, 0) as nat)
    }
}

/// `lz4_flex::decompress`: decodes one block into a buffer of `size` bytes
/// and cuts the buffer down to what was written. With the checked decoder
/// that the crate builds by default, a block that does not fit is an error.
/// The decoder adds up the bytes of a length in 32 bits without a check, so
/// a block with a long run of `FF` is kept from it, and so is a size beyond
/// what a buffer can hold, which the allocation would panic on.
#[verifier::external_body]
fn lz4_decompress(block: &[u8], size: usize) -> (r: Result<
    Vec<u8>,
    lz4_flex::block::DecompressError,
>)
    requires
        lz4_admits(block@),
        size <= isize::MAX,
    ensures
        match lz4_block_decoded(block@, size as nat) {
            Some(out) => r matches Ok(v) && v@ == out,
            None => r is Err,
        },
{
    lz4_flex::decompress(block, size)
}

/// `lz4_flex::decompress_size_prepended`: reads the size off the first four
/// bytes and hands the rest to `lz4_flex::decompress`. An input with a long
/// run of `FF` is kept from it, as a block is from that function, and so is
/// one that announces a size beyond what a buffer can hold, which the
/// allocation would panic on.
#[verifier::external_body]
fn lz4_decompress_size_prepended(input: &[u8]) -> (r: Result<
    Vec<u8>,
    lz4_flex::block::DecompressError,
>)
    requires
        lz4_admits_prepended(input@),
    ensures
        match lz4_prepended_decoded(input@) {
            Some(out) => r matches Ok(v) && v@ == out,
            None => r is Err,
        },
{
    lz4_flex::decompress_size_prepended(input)
}

/// `lzma_rs::lzma_decompress_with_options`, from a buffer into a buffer, with
/// the unpacked size provided.
#[verifier::external_body]
fn lzma_decompress(stream: &[u8], unpacked_size: u64) -> (r: Result<Vec<u8>, lzma_rs::error::Error>)
    ensures
        match lzma_decoded(stream@, unpacked_size) {
            Some(out) => r matches Ok(v) && v@ == out,
            None => r is Err,
        },
{
    let options = lzma_rs::decompress::Options {
        unpacked_size: lzma_rs::decompress::UnpackedSize::UseProvided(Some(unpacked_size)),
        memlimit: None,
        allow_incomplete: false,
    };
    let mut out = Vec::new();
    match lzma_rs::lzma_decompress_with_options(
        &mut std::io::Cursor::new(stream),
        &mut out,
        &options,
    ) {
        Ok(()) => Ok(out),
        Err(e) => Err(e),
    }
}

/// How an entry's bytes are stored.
#[derive(Debug, Copy, Clone, PartialEq, Eq, Structural)]
pub enum Codec {
    /// `ZZZ4`: a block with its decoded size in front.
    Zzz4,
    /// `CCCC`, `ZZZ4`: a size, a block, and a footer of twenty bytes.
    NestedZzz4,
    /// `CCCC`, `LZMA`: a size and an LZMA stream.
    NestedLzma,
    /// `CCCC` and anything else: the bytes are left as they are.
    NestedOther,
    /// `E2 06`: a zlib stream whose head is XOR-ed with a constant.
    ObfuscatedZlib,
    /// No marker: the bytes are left as they are.
    Stored,
}

/// The marker `ZZZ4`.
pub open spec fn marker_zzz4() -> Seq<u8> {
    seq![0x5au8, 0x5au8, 0x5au8, 0x34u8]
}

/// The marker `CCCC`.
pub open spec fn marker_cccc() -> Seq<u8> {
    seq![0x43u8, 0x43u8, 0x43u8, 0x43u8]
}

/// The marker `LZMA`.
pub open spec fn marker_lzma() -> Seq<u8> {
    seq![0x4cu8, 0x5au8, 0x4du8, 0x41u8]
}

/// Whether the four bytes at `pos` are `marker`.
pub open spec fn marked(raw: Seq<u8>, pos: int, marker: Seq<u8>) -> bool {
    has_bytes(raw, pos, 4) && raw.subrange(pos, pos + 4) == marker
}

/// The codec that the leading bytes announce. The markers are tried in a
/// fixed order, and bytes shorter than four carry no marker at all.
pub open spec fn codec_of(raw: Seq<u8>) -> Codec {
    if raw.len() < 4 {
        Codec::Stored
    } else if marked(raw, 0, marker_zzz4()) {
        Codec::Zzz4
    } else if marked(raw, 0, marker_cccc()) {
        if marked(raw, 4, marker_zzz4()) {
            Codec::NestedZzz4
        } else if marked(raw, 4, marker_lzma()) {
            Codec::NestedLzma
        } else {
            Codec::NestedOther
        }
    } else if raw[0] == 0xe2 && raw[1] == 0x06 {
        Codec::ObfuscatedZlib
    } else {
        Codec::Stored
    }
}

/// Whether the four bytes at `pos` are `a`, `b`, `c`, `d`.
fn has_marker(raw: &[u8], pos: usize, a: u8, b: u8, c: u8, d: u8) -> (r: bool)
    ensures
        r == marked(raw@, pos as int, seq![a, b, c, d]),
{
    if pos <= raw.len() && raw.len() - pos >= 4 {
        let r = raw[pos] == a && raw[pos + 1] == b && raw[pos + 2] == c && raw[pos + 3] == d;
        proof {
            let found = raw@.subrange(pos as int, pos + 4);
            let marker = seq![a, b, c, d];
            if r {
                assert(found =~= marker);
            } else {
                assert(found[0] != marker[0] || found[1] != marker[1] || found[2] != marker[2]
                    || found[3] != marker[3]);
            }
        }
        r
    } else {
        false
    }
}

/// Tells the codec of an entry's bytes by their leading marker.
pub fn detect_codec(raw: &[u8]) -> (codec: Codec)
    ensures
        codec == codec_of(raw@),
{
    if raw.len() < 4 {
        Codec::Stored
    } else if has_marker(raw, 0, 0x5a, 0x5a, 0x5a, 0x34) {
        Codec::Zzz4
    } else if has_marker(raw, 0, 0x43, 0x43, 0x43, 0x43) {
        if has_marker(raw, 4, 0x5a, 0x5a, 0x5a, 0x34) {
            Codec::NestedZzz4
        } else if has_marker(raw, 4, 0x4c, 0x5a, 0x4d, 0x41) {
            Codec::NestedLzma
        } else {
            Codec::NestedOther
        }
    } else if raw[0] == 0xe2 && raw[1] == 0x06 {
        Codec::ObfuscatedZlib
    } else {
        Codec::Stored
    }
}

/// The constant that the head of an obfuscated stream is XOR-ed with.
pub const XOR_KEY: u8 = 154;

/// How many leading bytes of an obfuscated stream of `n` bytes are XOR-ed.
pub open spec fn xor_len(n: int) -> int {
    let skew = (n - 8) % 37;
    if 128 - skew < n {
        128 - skew
    } else {
        n
    }
}

/// How many leading bytes of an obfuscated stream of `n` bytes are the zlib
/// stream: all of them where all are XOR-ed, and all but a trailer of eight
/// bytes otherwise.
pub open spec fn inflate_len(n: int) -> int {
    if xor_len(n) == n {
        n
    } else {
        n - 8
    }
}

/// `buffer` with its first `k` bytes XOR-ed with the key.
pub open spec fn xor_head(buffer: Seq<u8>, k: int) -> Seq<u8> {
    Seq::new(
        buffer.len(),
        |i: int|
            if i < k {
                buffer[i] ^ XOR_KEY
            } else {
                buffer[i]
            },
    )
}

/// The zlib stream inside an obfuscated entry: the whole entry, marker and
/// all, with its head XOR-ed back and its trailer cut off.
pub open spec fn deobfuscated(raw: Seq<u8>) -> Seq<u8> {
    xor_head(raw, xor_len(raw.len() as int)).take(inflate_len(raw.len() as int))
}

/// Recovers the zlib stream of an obfuscated entry.
pub fn deobfuscate(raw: &[u8]) -> (r: Vec<u8>)
    ensures
        r@ == deobfuscated(raw@),
{
    let n: usize = raw.len();
    let skew: usize = if n >= 8 {
        (n - 8) % 37
    } else {
        n + 29
    };
    let head: usize = if 128 - skew < n {
        128 - skew
    } else {
        n
    };
    let end: usize = if head == n {
        n
    } else {
        n - 8
    };
    let mut out: Vec<u8> = Vec::new();
    let mut i: usize = 0;
    while i < end
        invariant
            n == raw@.len(),
            i <= end <= n,
            head == xor_len(n as int),
            out@ == xor_head(raw@, head as int).take(i as int),
        decreases end - i,
    {
        out.push(
            if i < head {
                raw[i] ^ XOR_KEY
            } else {
                raw[i]
            },
        );
        assert(xor_head(raw@, head as int).take(i + 1) == xor_head(raw@, head as int).take(
            i as int,
        ).push(xor_head(raw@, head as int)[i as int]));
        i += 1;
    }
    out
}

/// The size of a nested LZMA stream as the decoder is given it: the signed
/// 32-bit field, widened to 64 bits with its sign.
pub open spec fn widened(size: i32) -> u64 {
    if size >= 0 {
        size as u64
    } else {
        (size + 0x1_0000_0000_0000_0000) as u64
    }
}

/// The zlib stream that has to be inflated before `raw` can be decoded:
/// there is one where the codec is the obfuscated one.
pub open spec fn zlib_stream_of(raw: Seq<u8>) -> Option<Seq<u8>> {
    if codec_of(raw) == Codec::ObfuscatedZlib {
        Some(deobfuscated(raw))
    } else {
        None
    }
}

/// What undoing the codec of `raw` gives, where inflating its zlib stream
/// gave `inflated` (nothing where the stream could not be inflated, or where
/// there is none). `Stored` bytes and those in an unknown nested codec come
/// out as they are. A nested codec needs its size field, and a nested `ZZZ4`
/// block its footer of twenty bytes after the block (`TruncatedPayload`) and
/// a size that is not negative (`InvalidSize`); what the footer holds is of
/// no account. A block with a run of `FF` as long as the limit is not
/// decoded (`Lz4RunTooLong`), nor one with a size in front that no buffer
/// of the machine can have (`InvalidSize`).
pub open spec fn unpacked(raw: Seq<u8>, inflated: Option<Seq<u8>>) -> Result<Seq<u8>, MPKError> {
    match codec_of(raw) {
        Codec::Zzz4 => if !lz4_admits(raw.skip(4)) {
            Err(MPKError::Lz4RunTooLong)
        } else if raw.len() >= 8 && u32_of(raw, 4) > isize::MAX {
            Err(MPKError::InvalidSize)
        } else {
            match lz4_prepended_decoded(raw.skip(4)) {
                Some(out) => Ok(out),
                None => Err(MPKError::Lz4Error),
            }
        },
        Codec::NestedZzz4 => if raw.len() < 32 {
            Err(MPKError::TruncatedPayload)
        } else if i32_of(raw, 8) < 0 {
            Err(MPKError::InvalidSize)
        } else if !lz4_admits(raw.subrange(12, raw.len() - 20)) {
            Err(MPKError::Lz4RunTooLong)
        } else {
            match lz4_block_decoded(raw.subrange(12, raw.len() - 20), i32_of(raw, 8) as nat) {
                Some(out) => Ok(out),
                None => Err(MPKError::Lz4Error),
            }
        },
        Codec::NestedLzma => if raw.len() < 12 {
            Err(MPKError::TruncatedPayload)
        } else {
            match lzma_decoded(raw.skip(12), widened(i32_of(raw, 8))) {
                Some(out) => Ok(out),
                None => Err(MPKError::LzmaError),
            }
        },
        Codec::ObfuscatedZlib => match inflated {
            Some(out) => Ok(out),
            None => Err(MPKError::ZlibError),
        },
        Codec::NestedOther | Codec::Stored => Ok(raw),
    }
}

/// What a buffer holds, where there is one.
pub open spec fn bytes_of(buffer: Option<Vec<u8>>) -> Option<Seq<u8>> {
    match buffer {
        Some(bytes) => Some(bytes@),
        None => None,
    }
}

/// The zlib stream that has to be inflated before `raw` can be decoded,
/// where there is one.
pub fn zlib_stream(raw: &[u8]) -> (r: Option<Vec<u8>>)
    ensures
        match zlib_stream_of(raw@) {
            Some(stream) => r matches Some(v) && v@ == stream,
            None => r is None,
        },
{
    match detect_codec(raw) {
        Codec::ObfuscatedZlib => Some(deobfuscate(raw)),
        _ => None,
    }
}

/// Undoes the codec of an entry's bytes. `inflated` is what inflating the
/// entry's zlib stream gave: nothing where it could not be inflated, or
/// where the entry has none.
pub fn unpack(raw: &[u8], inflated: Option<Vec<u8>>) -> (r: Result<Vec<u8>, MPKError>)
    ensures
        match unpacked(raw@, bytes_of(inflated)) {
            Ok(out) => r matches Ok(v) && v@ == out,
            Err(e) => r matches Err(x) && x == e,
        },
{
    match detect_codec(raw) {
        Codec::Zzz4 => {
            let packed = &raw[4..raw.len()];
            if !check_ff_runs(packed) {
                return Err(MPKError::Lz4RunTooLong);
            }
            match read_u32_at(raw, 4) {
                Some(size) => {
                    if size as u64 > isize::MAX as u64 {
                        return Err(MPKError::InvalidSize);
                    }
                    assert(packed@.subrange(0, 4) == raw@.subrange(4, 8));
                },
                None => {},
            }
            match lz4_decompress_size_prepended(packed) {
                Ok(out) => Ok(out),
                Err(_) => Err(MPKError::Lz4Error),
            }
        },
        Codec::NestedZzz4 => {
            if raw.len() < 32 {
                return Err(MPKError::TruncatedPayload);
            }
            let size: i32 = match read_i32_at(raw, 8) {
                Some(size) => size,
                None => vstd::pervasive::unreached(),
            };
            if size < 0 {
                return Err(MPKError::InvalidSize);
            }
            let block = &raw[12..raw.len() - 20];
            if !check_ff_runs(block) {
                return Err(MPKError::Lz4RunTooLong);
            }
            match lz4_decompress(block, size as usize) {
                Ok(out) => Ok(out),
                Err(_) => Err(MPKError::Lz4Error),
            }
        },
        Codec::NestedLzma => {
            let size: i32 = match read_i32_at(raw, 8) {
                Some(size) => size,
                None => {
                    return Err(MPKError::TruncatedPayload);
                },
            };
            let wide: u64 = if size >= 0 {
                size as u64
            } else {
                u64::MAX - ((-(size as i64) - 1) as u64)
            };
            match lzma_decompress(&raw[12..raw.len()], wide) {
                Ok(out) => Ok(out),
                Err(_) => Err(MPKError::LzmaError),
            }
        },
        Codec::ObfuscatedZlib => match inflated {
            Some(out) => Ok(out),
            None => Err(MPKError::ZlibError),
        },
        Codec::NestedOther | Codec::Stored => Ok(slice_to_vec(raw)),
    }
}

/// What an entry comes to once it is decoded, as a value.
pub struct Payload {
    /// The bytes to store.
    pub bytes: Seq<u8>,
    /// The name to store them under, where it is not the entry's own.
    pub recovered_name: Option<Seq<char>>,
    /// The MIME type that the name was chosen for, where it was sniffed.
    pub sniffed_mime: Option<Seq<char>>,
}

impl Payload {
    /// The MIME type that the name was chosen for, and the empty string
    /// where the name was not sniffed.
    pub open spec fn mime(self) -> Seq<char> {
        match self.sniffed_mime {
            Some(mime) => mime,
            None => Seq::empty(),
        }
    }

    /// Whether a warning is owed for the payload: its name was sniffed, and
    /// the MIME type is none that the table holds.
    pub open spec fn unhandled(self) -> bool {
        self.sniffed_mime matches Some(mime) && sniff_of_mime(mime) == Sniff::Unhandled
    }
}

/// What an entry comes to once it is decoded.
#[derive(Debug)]
pub struct DecodedPayload {
    /// The bytes to store.
    pub bytes: Vec<u8>,
    /// The name to store them under, where it is not the entry's own.
    pub recovered_name: Option<String>,
    /// The MIME type that the name was chosen for, where it was sniffed.
    pub sniffed_mime: Option<&'static str>,
}

impl View for DecodedPayload {
    type V = Payload;

    open spec fn view(&self) -> Payload {
        Payload {
            bytes: self.bytes@,
            recovered_name: match self.recovered_name {
                Some(name) => Some(name@),
                None => None,
            },
            sniffed_mime: match self.sniffed_mime {
                Some(mime) => Some(mime@),
                None => None,
            },
        }
    }
}

impl DecodedPayload {
    /// The MIME type to warn of: the one that the name was chosen for, where
    /// the table does not hold it.
    pub fn unhandled_mime(&self) -> (r: Option<&'static str>)
        ensures
            r is Some <==> self@.unhandled(),
            r is Some ==> r == self.sniffed_mime,
    {
        match self.sniffed_mime {
            Some(mime) => match classify_mime(mime) {
                Sniff::Unhandled => Some(mime),
                _ => None,
            },
            None => None,
        }
    }
}

/// The name of a script that was compiled from `file_name`.
pub open spec fn script_name(file_name: Seq<char>) -> Seq<char> {
    "Script/Python/"@ + file_name + "c"@
}

/// What the bytes that came out of a codec are stored as. `raw` is what
/// went into the codec, `name` the entry's name, and `mime` what sniffing at
/// the bytes gives. Only what was in an LZMA stream or in an obfuscated zlib
/// stream is ever renamed. The former is named by sniffing. The latter is
/// searched for the name of a script: where a name is found, the script goes
/// under `Script/Python/`; where the search runs off the end of the bytes,
/// the entry is left as it was found, under its own name; and in every other
/// case the bytes are named by sniffing.
pub open spec fn named(
    codec: Codec,
    raw: Seq<u8>,
    bytes: Seq<u8>,
    name: Seq<char>,
    mime: Seq<char>,
) -> Payload {
    let sniffed = Payload {
        bytes,
        recovered_name: Some(sniffed_name(name, sniff_of_mime(mime))),
        sniffed_mime: Some(mime),
    };
    match codec {
        Codec::NestedLzma => sniffed,
        Codec::ObfuscatedZlib => match file_name_of(bytes) {
            Ok(file_name) => if file_name.len() > 0 {
                Payload {
                    bytes,
                    recovered_name: Some(script_name(file_name)),
                    sniffed_mime: None,
                }
            } else {
                sniffed
            },
            Err(ScriptError::Truncated) => Payload {
                bytes: raw,
                recovered_name: None,
                sniffed_mime: None,
            },
            Err(_) => sniffed,
        },
        _ => Payload { bytes, recovered_name: None, sniffed_mime: None },
    }
}

/// What an entry called `name`, with the bytes `raw`, is stored as, where
/// inflating its zlib stream gave `inflated` and sniffing gives `mime`.
pub open spec fn decoded(
    raw: Seq<u8>,
    inflated: Option<Seq<u8>>,
    name: Seq<char>,
    mime: Seq<char>,
) -> Result<Payload, MPKError> {
    match unpacked(raw, inflated) {
        Ok(bytes) => Ok(named(codec_of(raw), raw, bytes, name, mime)),
        Err(e) => Err(e),
    }
}

/// The payload for bytes that are named by sniffing.
fn sniffed_payload(bytes: Vec<u8>, file: &MPKFileEntry) -> (r: DecodedPayload)
    ensures
        r@.bytes == bytes@,
        r@.sniffed_mime is Some,
        r@.recovered_name == Some(sniffed_name(file@.name(), sniff_of_mime(r@.mime()))),
{
    let (name, mime) = detect_file_name_with_extension(file, bytes.as_slice());
    DecodedPayload { bytes, recovered_name: Some(name), sniffed_mime: Some(mime) }
}

/// Names the bytes that came out of a codec: `raw` went in, `bytes` came
/// out. The MIME type that sniffing gave, where the name hangs on it, is part
/// of what is returned.
pub fn name_unpacked(codec: Codec, raw: Vec<u8>, bytes: Vec<u8>, file: &MPKFileEntry) -> (r:
    DecodedPayload)
    ensures
        r@ == named(codec, raw@, bytes@, file@.name(), r@.mime()),
{
    match codec {
        Codec::NestedLzma => sniffed_payload(bytes, file),
        Codec::ObfuscatedZlib => match file_name_from_py_buffer(bytes.as_slice()) {
            Ok(file_name) => {
                if file_name.as_str().is_empty() {
                    sniffed_payload(bytes, file)
                } else {
                    let mut name: Vec<char> = Vec::new();
                    push_str(&mut name, "Script/Python/");
                    push_str(&mut name, file_name.as_str());
                    push_str(&mut name, "c");
                    DecodedPayload {
                        bytes,
                        recovered_name: Some(string_of(name.as_slice())),
                        sniffed_mime: None,
                    }
                }
            },
            Err(ScriptError::Truncated) => DecodedPayload {
                bytes: raw,
                recovered_name: None,
                sniffed_mime: None,
            },
            Err(_) => sniffed_payload(bytes, file),
        },
        _ => DecodedPayload { bytes, recovered_name: None, sniffed_mime: None },
    }
}

/// Decodes an entry: undoes the codec that its leading marker announces,
/// and names what comes out. The one codec that is not undone here is zlib:
/// the caller inflates what `zlib_stream` gives for the entry and hands in
/// what came of it as `inflated` (nothing where the stream could not be
/// inflated, or where the entry has none). Fails where the codec cannot be
/// undone, with the error that `unpacked` gives; an unknown codec is no
/// failure.
pub fn decode(raw: Vec<u8>, inflated: Option<Vec<u8>>, file: &MPKFileEntry) -> (r: Result<
    DecodedPayload,
    MPKError,
>)
    ensures
        match r {
            Ok(payload) => decoded(raw@, bytes_of(inflated), file@.name(), payload@.mime())
                == Ok::<Payload, MPKError>(payload@),
            Err(e) => unpacked(raw@, bytes_of(inflated)) == Err::<Seq<u8>, MPKError>(e),
        },
{
    let codec = detect_codec(raw.as_slice());
    match codec {
        Codec::NestedOther | Codec::Stored => Ok(
            DecodedPayload { bytes: raw, recovered_name: None, sniffed_mime: None },
        ),
        _ => match unpack(raw.as_slice(), inflated) {
            Ok(bytes) => Ok(name_unpacked(codec, raw, bytes, file)),
            Err(e) => Err(e),
        },
    }
}

/// At most the first 128 bytes of an obfuscated stream are XOR-ed, never
/// more than there are, and all of them where the stream has no more than 92
/// bytes.
pub proof fn xor_len_bounds(n: int)
    requires
        n >= 0,
    ensures
        0 <= xor_len(n) <= n,
        xor_len(n) <= 128,
        n <= 92 ==> xor_len(n) == n,
        0 <= inflate_len(n) <= n,
{
}

/// XOR-ing the head of a buffer with the key twice gives the buffer back:
/// the obfuscation is its own inverse.
pub proof fn xor_head_is_involution(buffer: Seq<u8>, k: int)
    ensures
        xor_head(xor_head(buffer, k), k) == buffer,
{
    assert forall|i: int| 0 <= i < buffer.len() implies xor_head(xor_head(buffer, k), k)[i]
        == buffer[i] by {
        let b = buffer[i];
        assert((b ^ 154u8) ^ 154u8 == b) by (bit_vector);
    }
    assert(xor_head(xor_head(buffer, k), k) =~= buffer);
}

/// Where the block codec turns `packed` (a size and a block) into
/// `payload`, the bytes `ZZZ4` followed by `packed` decode to `payload`,
/// under the entry's own name, whatever the length of `payload`. This holds
/// of every `packed` that the block codec is given.
pub proof fn zzz4_round_trip(
    packed: Seq<u8>,
    payload: Seq<u8>,
    inflated: Option<Seq<u8>>,
    name: Seq<char>,
    mime: Seq<char>,
)
    requires
        lz4_prepended_decoded(packed) == Some(payload),
        lz4_admits_prepended(packed),
    ensures
        codec_of(marker_zzz4() + packed) == Codec::Zzz4,
        unpacked(marker_zzz4() + packed, inflated) == Ok::<Seq<u8>, MPKError>(payload),
        decoded(marker_zzz4() + packed, inflated, name, mime) == Ok::<Payload, MPKError>(
            Payload { bytes: payload, recovered_name: None, sniffed_mime: None },
        ),
{
    let raw = marker_zzz4() + packed;
    assert(raw.subrange(0, 4) == marker_zzz4());
    assert(raw.skip(4) == packed);
    assert(raw.subrange(4, 8) == packed.subrange(0, 4));
}

/// A nested `ZZZ4` entry is decoded from the bytes between its size field
/// and its last twenty bytes, and from nothing else: what the footer holds
/// does not bear on the result.
pub proof fn nested_zzz4_drops_footer(
    size: Seq<u8>,
    block: Seq<u8>,
    footer: Seq<u8>,
    inflated: Option<Seq<u8>>,
)
    requires
        size.len() == 4,
        footer.len() == 20,
    ensures
        ({
            let raw = marker_cccc() + marker_zzz4() + size + block + footer;
            let n = crate::bytes::le_i32(size);
            &&& codec_of(raw) == Codec::NestedZzz4
            &&& unpacked(raw, inflated) == if n < 0 {
                Err::<Seq<u8>, MPKError>(MPKError::InvalidSize)
            } else if !lz4_admits(block) {
                Err(MPKError::Lz4RunTooLong)
            } else {
                match lz4_block_decoded(block, n as nat) {
                    Some(out) => Ok(out),
                    None => Err(MPKError::Lz4Error),
                }
            }
        }),
{
    let raw = marker_cccc() + marker_zzz4() + size + block + footer;
    assert(raw.subrange(0, 4) == marker_cccc());
    assert(raw.subrange(4, 8) == marker_zzz4());
    assert(raw.subrange(8, 12) == size);
    assert(raw.subrange(12, raw.len() - 20) == block);
    assert(marker_cccc() != marker_zzz4()) by {
        assert(marker_cccc()[0] != marker_zzz4()[0]);
    }
    crate::bytes::le_values_in_range(size);
}

} // verus!
