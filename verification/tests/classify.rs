use pak_transcode::EntryClass;
use pak_transcode::names::classify;
use pak_transcode::names::ends_with;
use pak_transcode::names::is_tex_name;
use pak_transcode::names::tex_suffix_bytes;
use pak_transcode::select_attr;
use pak_transcode::DEFAULT_ATTR;

#[test]
fn suffix_bytes_spell_the_marker() {
    assert_eq!(tex_suffix_bytes(), b".tex.241106027".to_vec());
}

#[test]
fn ends_with_exact_match() {
    let data = b"a.tex.241106027".to_vec();
    let suffix = b".tex.241106027".to_vec();
    assert!(ends_with(&data, &suffix));
}

#[test]
fn ends_with_suffix_longer_than_data() {
    let data = b"x".to_vec();
    let suffix = b".tex.241106027".to_vec();
    assert!(!ends_with(&data, &suffix));
}

#[test]
fn ends_with_empty_suffix_always_holds() {
    let data = b"anything".to_vec();
    let suffix: Vec<u8> = Vec::new();
    assert!(ends_with(&data, &suffix));
}

#[test]
fn ends_with_mismatch_in_last_byte() {
    let data = b"a.tex.241106028".to_vec();
    let suffix = b".tex.241106027".to_vec();
    assert!(!ends_with(&data, &suffix));
}

#[test]
fn tex_name_with_marker_is_transformable() {
    assert!(is_tex_name(&b"natives/stm/a.tex.241106027".to_vec()));
    assert_eq!(
        classify(&Some(b"a.tex.241106027".to_vec())),
        EntryClass::Transformable
    );
}

#[test]
fn bare_marker_is_transformable() {
    assert_eq!(
        classify(&Some(b".tex.241106027".to_vec())),
        EntryClass::Transformable
    );
}

#[test]
fn other_names_pass_through() {
    assert_eq!(classify(&Some(b"c.dat".to_vec())), EntryClass::PassThrough);
    assert_eq!(
        classify(&Some(b"a.tex.2411060".to_vec())),
        EntryClass::PassThrough
    );
    assert_eq!(
        classify(&Some(b"a.tex.241106027.bak".to_vec())),
        EntryClass::PassThrough
    );
}

#[test]
fn unresolved_names_pass_through() {
    assert_eq!(classify(&None), EntryClass::PassThrough);
}

#[test]
fn attr_cloned_when_enabled() {
    assert_eq!(select_attr(true, 0xDEAD_BEEF), 0xDEAD_BEEF);
}

#[test]
fn attr_default_when_disabled() {
    assert_eq!(select_attr(false, 0xDEAD_BEEF), DEFAULT_ATTR);
    assert_eq!(DEFAULT_ATTR, 0);
}
