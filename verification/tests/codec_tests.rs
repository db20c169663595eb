use messiah_assets::codec::{
    check_ff_runs, decode, deobfuscate, detect_codec, unpack, zlib_stream, Codec, DecodedPayload,
};
use messiah_assets::index::MPKFileEntry;
use messiah_assets::index::{MPKError, MPKFileReader};
use std::io::Read;

/// Inflates what `zlib_stream` gives for an entry, as a caller of the library does.
fn inflated(raw: &[u8]) -> Option<Vec<u8>> {
    let stream = zlib_stream(raw)?;
    let mut out = Vec::new();
    match compress::zlib::Decoder::new(&stream[..]).read_to_end(&mut out) {
        Ok(_) => Some(out),
        Err(_) => None,
    }
}

fn undo(raw: &[u8]) -> Result<Vec<u8>, MPKError> {
    unpack(raw, inflated(raw))
}

fn decode_entry(raw: Vec<u8>, file: &MPKFileEntry) -> Result<DecodedPayload, MPKError> {
    let inflated = inflated(&raw);
    decode(raw, inflated, file)
}

fn reader_with(name: &str) -> MPKFileReader {
    let mut index = vec![1, 0, 0, 0, 1, 0, 0, 0];
    index.extend_from_slice(&(name.len() as u16).to_le_bytes());
    index.extend_from_slice(name.as_bytes());
    index.extend_from_slice(&[0; 12]);
    MPKFileReader::new(&index).unwrap()
}

fn sample(len: usize) -> Vec<u8> {
    (0..len).map(|i| ((i * 7 + i / 13) % 251) as u8).collect()
}

fn adler32(data: &[u8]) -> u32 {
    let mut a: u32 = 1;
    let mut b: u32 = 0;
    for byte in data {
        a = (a + *byte as u32) % 65521;
        b = (b + a) % 65521;
    }
    (b << 16) | a
}

/// A zlib stream that holds `data` in one stored block.
fn zlib_stored(data: &[u8]) -> Vec<u8> {
    let mut out = vec![0x78, 0x9c, 0x01];
    out.extend_from_slice(&(data.len() as u16).to_le_bytes());
    out.extend_from_slice(&(!(data.len() as u16)).to_le_bytes());
    out.extend_from_slice(data);
    out.extend_from_slice(&adler32(data).to_be_bytes());
    out
}

/// The stream as an obfuscated entry: its head XOR-ed, and a trailer of eight
/// bytes where the head is not all of it.
fn obfuscated(stream: &[u8]) -> Vec<u8> {
    let mut out = stream.to_vec();
    let head = 128 - stream.len() % 37;
    if stream.len() <= 92 || head >= stream.len() + 8 {
        for byte in out.iter_mut() {
            *byte ^= 154;
        }
        return out;
    }
    for byte in out.iter_mut().take(head) {
        *byte ^= 154;
    }
    out.extend_from_slice(&[1, 2, 3, 4, 5, 6, 7, 8]);
    out
}

fn older_script(file_name: &str) -> Vec<u8> {
    let mut out = vec![0x03, 0xf3, 0x0d, 0x0a, 1, 2, 3, 4, b'c'];
    out.extend_from_slice(&[0; 16]);
    out.extend_from_slice(&[b's', 0, 0, 0, 0]);
    for _ in 0..5 {
        out.extend_from_slice(&[b'(', 0, 0, 0, 0]);
    }
    out.push(b'z');
    out.push(file_name.len() as u8);
    out.extend_from_slice(file_name.as_bytes());
    out.extend_from_slice(&[b't', 1, 0, 0, 0, b'm', 1, 0, 0, 0, b's', 0, 0, 0, 0]);
    out
}

#[test]
fn codecs_are_told_by_their_marker() {
    assert_eq!(detect_codec(b"ZZZ4"), Codec::Zzz4);
    assert_eq!(detect_codec(b"ZZZ4 and more"), Codec::Zzz4);
    assert_eq!(detect_codec(b"CCCCZZZ4"), Codec::NestedZzz4);
    assert_eq!(detect_codec(b"CCCCLZMA...."), Codec::NestedLzma);
    assert_eq!(detect_codec(b"CCCCLZM"), Codec::NestedOther);
    assert_eq!(detect_codec(b"CCCC"), Codec::NestedOther);
    assert_eq!(detect_codec(b"CCCCABCD"), Codec::NestedOther);
    assert_eq!(detect_codec(&[0xe2, 0x06, 0, 0]), Codec::ObfuscatedZlib);
    assert_eq!(detect_codec(&[0xe2, 0x06, 0]), Codec::Stored);
    assert_eq!(detect_codec(&[0xe2, 0x06]), Codec::Stored);
    assert_eq!(detect_codec(b"ZZZ"), Codec::Stored);
    assert_eq!(detect_codec(b""), Codec::Stored);
    assert_eq!(detect_codec(b"plain bytes"), Codec::Stored);
    assert_eq!(detect_codec(b"ZZZ5...."), Codec::Stored);
}

#[test]
fn size_prepended_blocks_round_trip() {
    let reader = reader_with("a/b.bin");
    for len in [0usize, 1, 5, 64, 1000, 70_000] {
        let payload = sample(len);
        let mut raw = b"ZZZ4".to_vec();
        raw.extend(lz4_flex::compress_prepend_size(&payload));
        assert_eq!(undo(&raw), Ok(payload.clone()), "length {}", len);
        let decoded = decode_entry(raw, &reader.files()[0]).unwrap();
        assert_eq!(decoded.bytes, payload);
        assert_eq!(decoded.recovered_name, None);
        assert_eq!(decoded.sniffed_mime, None);
        assert_eq!(decoded.unhandled_mime(), None);
    }
}

#[test]
fn broken_blocks_are_errors() {
    assert_eq!(undo(b"ZZZ4"), Err(MPKError::Lz4Error));
    assert_eq!(undo(b"ZZZ4\x01\x00"), Err(MPKError::Lz4Error));
    assert_eq!(undo(b"ZZZ4\x10\x00\x00\x00"), Err(MPKError::Lz4Error));
    let mut raw = b"ZZZ4".to_vec();
    raw.extend(lz4_flex::compress_prepend_size(&sample(300)));
    raw.truncate(raw.len() - 10);
    assert_eq!(undo(&raw), Err(MPKError::Lz4Error));
}

#[test]
fn nested_block_loses_its_footer() {
    let payload = sample(500);
    let block = lz4_flex::compress(&payload);
    let mut raw = b"CCCCZZZ4".to_vec();
    raw.extend_from_slice(&(payload.len() as i32).to_le_bytes());
    raw.extend_from_slice(&block);
    let without_footer = raw.clone();
    raw.extend_from_slice(&[0xab; 20]);
    assert_eq!(undo(&raw), Ok(payload.clone()));
    let mut other = without_footer.clone();
    other.extend_from_slice(&sample(20));
    assert_eq!(undo(&other), Ok(payload.clone()));
    if let Ok(out) = undo(&without_footer) {
        assert_eq!(out[..], payload[..out.len()]);
    }
    let reader = reader_with("x");
    let decoded = decode_entry(raw, &reader.files()[0]).unwrap();
    assert_eq!(decoded.bytes, payload);
    assert_eq!(decoded.recovered_name, None);
}

#[test]
fn nested_block_needs_size_and_footer() {
    assert_eq!(undo(b"CCCCZZZ4"), Err(MPKError::TruncatedPayload));
    assert_eq!(undo(b"CCCCZZZ4\x01\x00\x00"), Err(MPKError::TruncatedPayload));
    let mut raw = b"CCCCZZZ4\x00\x00\x00\x00".to_vec();
    raw.extend_from_slice(&[0; 19]);
    assert_eq!(undo(&raw), Err(MPKError::TruncatedPayload));
    let mut negative = b"CCCCZZZ4\xff\xff\xff\xff".to_vec();
    negative.extend_from_slice(&[0; 20]);
    assert_eq!(undo(&negative), Err(MPKError::InvalidSize));
    let mut too_small = b"CCCCZZZ4\x02\x00\x00\x00".to_vec();
    too_small.extend(lz4_flex::compress(&sample(400)));
    too_small.extend_from_slice(&[0; 20]);
    assert_eq!(undo(&too_small), Err(MPKError::Lz4Error));
}

#[test]
fn nested_lzma_is_unpacked_and_sniffed() {
    let payload = sample(2000);
    let mut stream = Vec::new();
    let options = lzma_rs::compress::Options {
        unpacked_size: lzma_rs::compress::UnpackedSize::SkipWritingToHeader,
    };
    lzma_rs::lzma_compress_with_options(&mut &payload[..], &mut stream, &options).unwrap();
    let mut raw = b"CCCCLZMA".to_vec();
    raw.extend_from_slice(&(payload.len() as i32).to_le_bytes());
    raw.extend_from_slice(&stream);
    assert_eq!(undo(&raw), Ok(payload.clone()));
    let reader = reader_with("dir/blob.bin");
    let file = &reader.files()[0];
    let decoded = decode_entry(raw.clone(), file).unwrap();
    assert_eq!(decoded.bytes, payload);
    let mime = decoded.sniffed_mime.unwrap();
    assert_eq!(
        decoded.recovered_name,
        Some(messiah_assets::sniff::file_name_for_mime(file, mime))
    );
    assert_eq!(undo(b"CCCCLZMA\x01\x00"), Err(MPKError::TruncatedPayload));
    assert_eq!(undo(b"CCCCLZMA\x01\x00\x00\x00"), Err(MPKError::LzmaError));
    raw.truncate(raw.len() / 2);
    assert_eq!(undo(&raw), Err(MPKError::LzmaError));
}

#[test]
fn long_runs_are_kept_from_the_block_codec() {
    assert!(check_ff_runs(&[]));
    assert!(check_ff_runs(&[0xff; 1000]));
    assert!(check_ff_runs(&vec![0xff; 8_388_607]));
    assert!(!check_ff_runs(&vec![0xff; 8_388_608]));
    let mut broken_run = vec![0xff; 8_388_607];
    broken_run.push(0xfe);
    broken_run.extend_from_slice(&[0xff; 100]);
    assert!(check_ff_runs(&broken_run));
    let mut late_run = vec![0u8; 10];
    late_run.extend(vec![0xff; 8_388_608]);
    late_run.push(1);
    assert!(!check_ff_runs(&late_run));
    let mut packed = b"ZZZ4\x10\x00\x00\x00\xf0".to_vec();
    packed.extend(vec![0xff; 8_388_608]);
    assert_eq!(undo(&packed), Err(MPKError::Lz4RunTooLong));
    let mut nested = b"CCCCZZZ4\x10\x00\x00\x00\xf0".to_vec();
    nested.extend(vec![0xff; 8_388_608]);
    nested.extend_from_slice(&[0; 20]);
    assert_eq!(undo(&nested), Err(MPKError::Lz4RunTooLong));
    let mut short = b"ZZZ4\x10\x00\x00\x00\xf0".to_vec();
    short.extend(vec![0xff; 1000]);
    assert_eq!(undo(&short), Err(MPKError::Lz4Error));
}

#[test]
fn zlib_is_left_to_the_caller() {
    assert_eq!(zlib_stream(b"ZZZ4...."), None);
    assert_eq!(zlib_stream(b"plain"), None);
    assert_eq!(zlib_stream(&[0xe2, 0x06]), None);
    assert_eq!(zlib_stream(&[0xe2, 0x06, 0x81, 0x99]), Some(vec![0x78, 0x9c, 0x1b, 0x03]));
    let raw = [0xe2, 0x06, 0x81, 0x99];
    assert_eq!(unpack(&raw, None), Err(MPKError::ZlibError));
    assert_eq!(unpack(&raw, Some(vec![7, 8])), Ok(vec![7, 8]));
    assert_eq!(unpack(b"plain", Some(vec![7, 8])), Ok(b"plain".to_vec()));
    let reader = reader_with("x");
    assert!(matches!(
        decode(raw.to_vec(), None, &reader.files()[0]),
        Err(MPKError::ZlibError)
    ));
}

#[test]
fn unknown_and_missing_codecs_pass_through() {
    let reader = reader_with("keep/me.bin");
    for raw in [b"CCCCABCDrest".to_vec(), b"CCCC".to_vec(), b"plain".to_vec(), vec![], vec![0xe2, 0x06]] {
        assert_eq!(undo(&raw), Ok(raw.clone()));
        let decoded = decode_entry(raw.clone(), &reader.files()[0]).unwrap();
        assert_eq!(decoded.bytes, raw);
        assert_eq!(decoded.recovered_name, None);
        assert_eq!(decoded.sniffed_mime, None);
    }
}

#[test]
fn head_of_obfuscated_stream_is_xored() {
    for n in [0usize, 1, 4, 7, 8, 9, 44, 45, 92, 93, 100, 128, 129, 136, 200, 4000] {
        let raw = sample(n);
        let skew = if n >= 8 { (n - 8) % 37 } else { n + 29 };
        let head = (128 - skew).min(n);
        let end = if head == n { n } else { n - 8 };
        let out = deobfuscate(&raw);
        assert_eq!(out.len(), end, "length {}", n);
        for i in 0..end {
            let expected = if i < head { raw[i] ^ 154 } else { raw[i] };
            assert_eq!(out[i], expected, "length {}, byte {}", n, i);
        }
    }
    assert_eq!(deobfuscate(&sample(100)).len(), 100);
    assert_eq!(deobfuscate(&sample(92)).len(), 92);
    assert_eq!(deobfuscate(&sample(45)).len(), 45);
    let long = sample(129);
    let out = deobfuscate(&long);
    assert_eq!(out.len(), 121);
    assert_eq!(out[117], long[117] ^ 154);
    assert_eq!(out[118], long[118]);
}

#[test]
fn xor_twice_gives_the_buffer_back() {
    for n in [1usize, 50, 92] {
        let raw = sample(n);
        assert_eq!(deobfuscate(&deobfuscate(&raw)), raw);
    }
}

#[test]
fn obfuscated_script_goes_under_its_own_name() {
    let reader = reader_with("Script/0001");
    let file = &reader.files()[0];
    for name in ["main.py", "a/much/longer/path/to/some/module/that/fills/the/stream/up/to/more/than/the/head.py"] {
        let script = older_script(name);
        let raw = obfuscated(&zlib_stored(&script));
        assert_eq!(raw[0], 0xe2);
        assert_eq!(raw[1], 0x06);
        assert_eq!(detect_codec(&raw), Codec::ObfuscatedZlib);
        assert_eq!(undo(&raw), Ok(script.clone()));
        let decoded = decode_entry(raw, file).unwrap();
        assert_eq!(decoded.bytes, script);
        assert_eq!(decoded.recovered_name, Some(format!("Script/Python/{}c", name)));
        assert_eq!(decoded.sniffed_mime, None);
    }
}

#[test]
fn obfuscated_bytes_that_are_no_script_are_sniffed() {
    let reader = reader_with("Data/sound.bin");
    let file = &reader.files()[0];
    let payload = sample(60);
    let raw = obfuscated(&zlib_stored(&payload));
    let decoded = decode_entry(raw, file).unwrap();
    assert_eq!(decoded.bytes, payload);
    let mime = decoded.sniffed_mime.unwrap();
    assert_eq!(
        decoded.recovered_name,
        Some(messiah_assets::sniff::file_name_for_mime(file, mime))
    );
    let nameless = older_script("");
    let decoded = decode_entry(obfuscated(&zlib_stored(&nameless)), file).unwrap();
    assert_eq!(decoded.bytes, nameless);
    assert!(decoded.sniffed_mime.is_some());
}

#[test]
fn obfuscated_script_that_breaks_off_is_left_alone() {
    let reader = reader_with("Script/0002");
    let mut script = older_script("main.py");
    script.truncate(script.len() - 3);
    let raw = obfuscated(&zlib_stored(&script));
    let decoded = decode_entry(raw.clone(), &reader.files()[0]).unwrap();
    assert_eq!(decoded.bytes, raw);
    assert_eq!(decoded.recovered_name, None);
    assert_eq!(decoded.sniffed_mime, None);
}

#[test]
fn broken_zlib_stream_is_an_error() {
    let reader = reader_with("x");
    let mut stream = zlib_stored(&sample(40));
    stream.truncate(stream.len() - 10);
    let raw = obfuscated(&stream);
    assert_eq!(undo(&raw), Err(MPKError::ZlibError));
    assert!(matches!(decode_entry(raw, &reader.files()[0]), Err(MPKError::ZlibError)));
    let mut stream = zlib_stored(&sample(40));
    stream[5] ^= 0x01;
    assert_eq!(undo(&obfuscated(&stream)), Err(MPKError::ZlibError));
    assert_eq!(undo(&[0xe2, 0x06, 0, 0]), Err(MPKError::ZlibError));
    assert_eq!(undo(&[0xe2, 0x06, 0x9a, 0x9a]), Err(MPKError::ZlibError));
}
