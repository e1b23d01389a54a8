use pak_transcode::output::output_name;

#[test]
fn chained_pak_extensions_replace_only_the_last() {
    assert_eq!(
        output_name(&b"re_chunk_000.pak.sub_000.pak".to_vec()),
        b"re_chunk_000.pak.sub_000.uncompressed.pak".to_vec()
    );
}

#[test]
fn name_without_extension_gets_the_marker_appended() {
    assert_eq!(output_name(&b"archive".to_vec()), b"archive.uncompressed.pak".to_vec());
}

#[test]
fn leading_dot_is_not_an_extension_separator() {
    assert_eq!(output_name(&b".hidden".to_vec()), b".hidden.uncompressed.pak".to_vec());
}

#[test]
fn trailing_dot_counts_as_empty_extension() {
    assert_eq!(output_name(&b"data.".to_vec()), b"data.uncompressed.pak".to_vec());
}

#[test]
fn empty_name_becomes_the_bare_marker() {
    assert_eq!(output_name(&Vec::new()), b".uncompressed.pak".to_vec());
}
