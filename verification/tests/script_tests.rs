use messiah_assets::bytes::{read_i32_at, read_u16_at, read_u32_at};
use messiah_assets::script::{
    classify_tag, detect_python_version_from_py_header, file_name_from_py_buffer,
    python_version_of_magic, read_py_object, read_py_objects, recover_filename, PythonVersion,
    ScriptError, TagKind,
};

fn short_ascii(text: &str) -> Vec<u8> {
    let mut out = vec![b'z', text.len() as u8];
    out.extend_from_slice(text.as_bytes());
    out
}

fn empty_tuple() -> Vec<u8> {
    vec![b'(', 0, 0, 0, 0]
}

fn empty_string() -> Vec<u8> {
    vec![b's', 0, 0, 0, 0]
}

/// A compiled script of release 2.7 whose outermost code object names `file_name`.
fn older_script(file_name: &str) -> Vec<u8> {
    let mut out = vec![0x03, 0xf3, 0x0d, 0x0a, 1, 2, 3, 4];
    out.push(b'c');
    out.extend_from_slice(&[0; 16]);
    out.extend(empty_string());
    for _ in 0..5 {
        out.extend(empty_tuple());
    }
    out.extend(short_ascii(file_name));
    out.extend(vec![b't', 8, 0, 0, 0]);
    out.extend_from_slice(b"<module>");
    out.extend_from_slice(&[1, 0, 0, 0]);
    out.extend(empty_string());
    out
}

/// A compiled script of release 3.11 whose outermost code object names `file_name`.
fn newer_script(file_name: &str) -> Vec<u8> {
    let mut out = vec![0xa7, 0x0d, 0x0d, 0x0a, 0, 0, 0, 0];
    out.push(b'c' | 0x80);
    out.extend_from_slice(&[0; 20]);
    out.extend(empty_string());
    out.extend(vec![b')', 0]);
    out.extend(vec![b')', 0]);
    out.extend(vec![b')', 0]);
    out.extend(empty_string());
    out.extend(short_ascii(file_name));
    out.extend(short_ascii("<module>"));
    out.extend_from_slice(&[1, 0, 0, 0]);
    out.extend(empty_string());
    out.extend(empty_string());
    out
}

#[test]
fn little_endian_reads() {
    let data = [0x34, 0x12, 0x78, 0x56, 0xff, 0xff, 0xff, 0xff];
    assert_eq!(read_u16_at(&data, 0), Some(0x1234));
    assert_eq!(read_u16_at(&data, 2), Some(0x5678));
    assert_eq!(read_u32_at(&data, 0), Some(0x5678_1234));
    assert_eq!(read_u32_at(&data, 4), Some(0xffff_ffff));
    assert_eq!(read_i32_at(&data, 4), Some(-1));
    assert_eq!(read_i32_at(&data, 0), Some(0x5678_1234));
    assert_eq!(read_u32_at(&data, 5), None);
    assert_eq!(read_u16_at(&data, 7), None);
    assert_eq!(read_u16_at(&data, 8), None);
    assert_eq!(read_u32_at(&data, usize::MAX), None);
}

#[test]
fn magic_numbers_map_to_releases() {
    assert_eq!(python_version_of_magic(50823), Some(PythonVersion::Version2_0));
    assert_eq!(python_version_of_magic(62171), Some(PythonVersion::Version2_7));
    assert_eq!(python_version_of_magic(62211), Some(PythonVersion::Version2_7));
    assert_eq!(python_version_of_magic(62212), None);
    assert_eq!(python_version_of_magic(3000), Some(PythonVersion::Version3_0));
    assert_eq!(python_version_of_magic(3450), Some(PythonVersion::Version3_11));
    assert_eq!(python_version_of_magic(3499), Some(PythonVersion::Version3_11));
    assert_eq!(python_version_of_magic(3500), Some(PythonVersion::Version3_12));
    assert_eq!(python_version_of_magic(3599), Some(PythonVersion::Version3_13));
    assert_eq!(python_version_of_magic(3600), None);
    assert_eq!(python_version_of_magic(0xffff), None);
}

#[test]
fn header_needs_magic_and_line_end() {
    assert_eq!(
        detect_python_version_from_py_header(&[0x03, 0xf3, 0x0d, 0x0a]),
        Some(PythonVersion::Version2_7)
    );
    assert_eq!(
        detect_python_version_from_py_header(&[0xa7, 0x0d, 0x0d, 0x0a, 9, 9]),
        Some(PythonVersion::Version3_11)
    );
    assert_eq!(detect_python_version_from_py_header(&[0x03, 0xf3, 0x0a, 0x0d]), None);
    assert_eq!(detect_python_version_from_py_header(&[0x03, 0xf3, 0x0d]), None);
    assert_eq!(detect_python_version_from_py_header(&[]), None);
    assert_eq!(detect_python_version_from_py_header(&[0xff, 0xff, 0x0d, 0x0a]), None);
}

#[test]
fn tags_sort_into_kinds() {
    assert_eq!(classify_tag(b'N'), TagKind::Singleton);
    assert_eq!(classify_tag(b'S'), TagKind::Singleton);
    assert_eq!(classify_tag(b'i'), TagKind::Word);
    assert_eq!(classify_tag(b'R'), TagKind::Word);
    assert_eq!(classify_tag(b'g'), TagKind::BinaryFloat);
    assert_eq!(classify_tag(b'y'), TagKind::BinaryComplex);
    assert_eq!(classify_tag(b'l'), TagKind::Long);
    assert_eq!(classify_tag(b'f'), TagKind::Float);
    assert_eq!(classify_tag(b'x'), TagKind::Complex);
    assert_eq!(classify_tag(b'u'), TagKind::Bytes);
    assert_eq!(classify_tag(b'Z'), TagKind::ShortBytes);
    assert_eq!(classify_tag(b'<'), TagKind::Sequence);
    assert_eq!(classify_tag(b')'), TagKind::SmallTuple);
    assert_eq!(classify_tag(b'c'), TagKind::Code);
    assert_eq!(classify_tag(b'{'), TagKind::Unsupported);
    assert_eq!(classify_tag(b'?'), TagKind::Unsupported);
}

#[test]
fn recovers_name_from_older_script() {
    let script = older_script("a.py");
    assert_eq!(recover_filename(&script), Some("a.py".to_string()));
    assert_eq!(file_name_from_py_buffer(&script), Ok("a.py".to_string()));
}

#[test]
fn recovers_name_from_newer_script() {
    let script = newer_script("pkg/mod.py");
    assert_eq!(recover_filename(&script), Some("pkg/mod.py".to_string()));
}

#[test]
fn newer_code_object_has_one_object_before_the_line_number() {
    let mut code = vec![b'c'];
    code.extend_from_slice(&[0; 20]);
    code.extend_from_slice(&[b'N'; 5]);
    code.extend_from_slice(&[b'z', 1, b'f']);
    code.push(b'N');
    code.extend_from_slice(&[1, 0, 0, 0]);
    code.extend_from_slice(&[b'N'; 2]);
    let end = code.len();
    assert_eq!(
        read_py_object(&code, 0, PythonVersion::Version3_11),
        Ok((b"f".to_vec(), end))
    );
}

#[test]
fn unrecognized_magic_gives_nothing() {
    let mut script = older_script("a.py");
    script[0] = 0xff;
    script[1] = 0xff;
    assert_eq!(recover_filename(&script), None);
    assert_eq!(file_name_from_py_buffer(&script), Err(ScriptError::UnrecognizedHeader));
    assert_eq!(recover_filename(&[0xff, 0xff, 0x0d, 0x0a]), None);
    assert_eq!(recover_filename(&[0xff, 0xff, 0x0d, 0x0a, b'{', b'{']), None);
}

#[test]
fn unsupported_release_gives_nothing() {
    let mut script = older_script("a.py");
    script[0] = 0xd1;
    script[1] = 0xf2;
    assert_eq!(
        detect_python_version_from_py_header(&script),
        Some(PythonVersion::Version2_6)
    );
    assert_eq!(file_name_from_py_buffer(&script), Err(ScriptError::UnsupportedVersion));
    assert_eq!(recover_filename(&script), None);
}

#[test]
fn truncated_script_is_an_error() {
    let script = older_script("a.py");
    for cut in 4..script.len() {
        assert_eq!(
            file_name_from_py_buffer(&script[..cut]),
            Err(ScriptError::Truncated),
            "cut at {}",
            cut
        );
        assert_eq!(recover_filename(&script[..cut]), None);
    }
}

#[test]
fn unknown_tag_is_an_error() {
    let mut script = vec![0x03, 0xf3, 0x0d, 0x0a, 0, 0, 0, 0];
    script.push(b'{');
    assert_eq!(
        file_name_from_py_buffer(&script),
        Err(ScriptError::UnsupportedTag(b'{'))
    );
    assert_eq!(recover_filename(&script), None);
    let nested = [b'(', 2, 0, 0, 0, b'N', b'?' | 0x80];
    assert_eq!(
        read_py_object(&nested, 0, PythonVersion::Version2_7),
        Err(ScriptError::UnsupportedTag(b'?'))
    );
}

#[test]
fn empty_and_invalid_names() {
    assert_eq!(file_name_from_py_buffer(&older_script("")), Ok(String::new()));
    assert_eq!(recover_filename(&older_script("")), None);
    let mut script = vec![0x03, 0xf3, 0x0d, 0x0a, 0, 0, 0, 0];
    script.extend_from_slice(&[b'z', 2, 0xc3, 0x28]);
    assert_eq!(file_name_from_py_buffer(&script), Err(ScriptError::InvalidUtf8));
    assert_eq!(recover_filename(&script), None);
}

#[test]
fn objects_are_walked_by_kind() {
    let v = PythonVersion::Version2_7;
    assert_eq!(read_py_object(&[b'N'], 0, v), Ok((vec![], 1)));
    assert_eq!(read_py_object(&[b'i', 1, 2, 3, 4, 9], 0, v), Ok((vec![], 5)));
    assert_eq!(read_py_object(&[b'i', 1, 2, 3], 0, v), Err(ScriptError::Truncated));
    assert_eq!(read_py_object(&[b'g', 0, 0, 0, 0, 0, 0, 0, 0], 0, v), Ok((vec![], 9)));
    assert_eq!(read_py_object(&[b'y'; 17], 0, v), Ok((vec![], 17)));
    assert_eq!(read_py_object(&[b'y'; 16], 0, v), Err(ScriptError::Truncated));
    assert_eq!(read_py_object(&[b'f', 3, b'1', b'.', b'5'], 0, v), Ok((vec![], 5)));
    assert_eq!(read_py_object(&[b'f', 3, b'1', b'.'], 0, v), Err(ScriptError::Truncated));
    assert_eq!(
        read_py_object(&[b'x', 1, b'1', 2, b'2', b'3'], 0, v),
        Ok((vec![], 6))
    );
    assert_eq!(read_py_object(&[b'x', 1, b'1'], 0, v), Err(ScriptError::Truncated));
    assert_eq!(
        read_py_object(&[b'l', 2, 0, 0, 0, 1, 1, 2, 2], 0, v),
        Ok((vec![], 9))
    );
    assert_eq!(
        read_py_object(&[b'l', 0xfe, 0xff, 0xff, 0xff, 1, 1, 2, 2], 0, v),
        Ok((vec![], 9))
    );
    assert_eq!(
        read_py_object(&[b'l', 0xfe, 0xff, 0xff, 0xff, 1, 1, 2], 0, v),
        Err(ScriptError::Truncated)
    );
    assert_eq!(
        read_py_object(&[b'l', 0, 0, 0, 0x80], 0, v),
        Err(ScriptError::Truncated)
    );
    assert_eq!(
        read_py_object(&[b's', 2, 0, 0, 0, b'h', b'i'], 0, v),
        Ok((b"hi".to_vec(), 7))
    );
    assert_eq!(
        read_py_object(&[b'u' | 0x80, 2, 0, 0, 0, b'h', b'i'], 0, v),
        Ok((b"hi".to_vec(), 7))
    );
    assert_eq!(read_py_object(&[b's', 3, 0, 0, 0, b'h', b'i'], 0, v), Err(ScriptError::Truncated));
    assert_eq!(read_py_object(&[0, b'Z', 1, b'q'], 1, v), Ok((b"q".to_vec(), 4)));
    assert_eq!(read_py_object(&[b'N'], 1, v), Err(ScriptError::Truncated));
    assert_eq!(read_py_object(&[b'N'], 7, v), Err(ScriptError::Truncated));
}

#[test]
fn sequences_hand_up_the_last_payload() {
    let v = PythonVersion::Version3_11;
    let tuple = [b')', 4, b'z', 1, b'a', b'N', b'z', 1, b'b', b'z', 0];
    assert_eq!(read_py_object(&tuple, 0, v), Ok((b"b".to_vec(), 11)));
    let list = [b'[', 1, 0, 0, 0, b'(', 1, 0, 0, 0, b'z', 1, b'x'];
    assert_eq!(read_py_object(&list, 0, v), Ok((b"x".to_vec(), 13)));
    assert_eq!(read_py_object(&[b'<', 0, 0, 0, 0], 0, v), Ok((vec![], 5)));
    assert_eq!(read_py_object(&[b'>', 1, 0, 0, 0], 0, v), Err(ScriptError::Truncated));
    assert_eq!(read_py_objects(&[b'N', b'T', b'F'], 0, 3, v), Ok((vec![], 3)));
    assert_eq!(read_py_objects(&[b'N', b'T', b'F'], 0, 4, v), Err(ScriptError::Truncated));
    assert_eq!(read_py_objects(&[b'N'], 5, 0, v), Ok((vec![], 5)));
}

#[test]
fn code_of_other_release_has_no_name() {
    let script = older_script("a.py");
    let walked = read_py_object(&script, 8, PythonVersion::Version3_8);
    let code_start = 8 + 1 + 16 + 5 + 5 + 5;
    assert_eq!(walked, Ok((vec![], code_start)));
}
