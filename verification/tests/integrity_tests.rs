use modpack_sync::error::ErrorKind;
use modpack_sync::integrity::{check_package, checking_message, checksum_of, to_hex_upper, verify};
use modpack_sync::modinfo::{Mod, ModpackConfig};

fn declared(name: &str, checksum: Option<&str>) -> Mod {
    let mut m = Mod::new(name.to_string(), name.to_string());
    m.checksum = checksum.map(|c| c.to_string());
    m
}

#[test]
fn sweep_repairs_the_mismatching_package_only() {
    let active = ModpackConfig {
        format: None,
        metadata: None,
        mods: vec![declared("M", Some("sha5")), declared("N", None), declared("O", Some("sha7"))],
    };
    let observed =
        vec![Some("sha6".to_string()), Some("anything".to_string()), Some("sha7".to_string())];
    let repairs = verify(&active, &observed);
    assert_eq!(repairs.len(), 1);
    assert_eq!(repairs[0].name, "M");
    assert_eq!(repairs[0].url, "files/M.pak");
    assert_eq!(repairs[0].filename, "M.pak");
    assert_eq!(repairs[0].reason, ErrorKind::ChecksumMismatch);
    assert_eq!(repairs[0].log, "Checksum for M did not match expected value. Redownloading..");
}

#[test]
fn package_without_checksum_is_never_repaired() {
    let plain = declared("N", None);
    assert!(check_package(&plain, &None).is_none());
    assert!(check_package(&plain, &Some("ABCDEF".to_string())).is_none());
    assert!(check_package(&plain, &Some(String::new())).is_none());
    let active = ModpackConfig { format: None, metadata: None, mods: vec![plain] };
    assert!(verify(&active, &vec![Some("x".to_string())]).is_empty());
    assert!(verify(&active, &vec![None]).is_empty());
    assert!(verify(&active, &vec![]).is_empty());
}

#[test]
fn missing_or_unreadable_file_is_repaired() {
    let m = declared("M", Some("AA"));
    let repair = check_package(&m, &None).unwrap();
    assert_eq!(repair.filename, "M.pak");
    assert_eq!(repair.reason, ErrorKind::IoError);
    let active = ModpackConfig {
        format: None,
        metadata: None,
        mods: vec![declared("M", Some("AA")), declared("K", Some("BB"))],
    };
    // The second package was not observed at all.
    let repairs = verify(&active, &vec![Some("AA".to_string())]);
    assert_eq!(repairs.len(), 1);
    assert_eq!(repairs[0].name, "K");
    assert_eq!(repairs[0].reason, ErrorKind::IoError);
}

#[test]
fn matching_checksum_needs_no_repair() {
    let m = declared("M", Some("AA"));
    assert!(check_package(&m, &Some("AA".to_string())).is_none());
    // The comparison is exact: another case of letters is another checksum.
    assert!(check_package(&m, &Some("aa".to_string())).is_some());
}

#[test]
fn sweep_keeps_manifest_order() {
    let active = ModpackConfig {
        format: None,
        metadata: None,
        mods: vec![
            declared("one", Some("1")),
            declared("two", Some("2")),
            declared("three", Some("3")),
        ],
    };
    let repairs = verify(&active, &vec![None, Some("2".to_string()), Some("x".to_string())]);
    let names: Vec<&str> = repairs.iter().map(|r| r.name.as_str()).collect();
    assert_eq!(names, vec!["one", "three"]);
}

#[test]
fn sweep_uses_the_source_override() {
    let mut m = declared("M", Some("AA"));
    m.custom_pak_name = Some("other".to_string());
    let repair = check_package(&m, &Some("BB".to_string())).unwrap();
    assert_eq!(repair.url, "files/other.pak");
    assert_eq!(repair.filename, "M.pak");
}

#[test]
fn checksum_of_known_contents() {
    assert_eq!(
        checksum_of(b""),
        "E3B0C44298FC1C149AFBF4C8996FB92427AE41E4649B934CA495991B7852B855"
    );
    assert_eq!(
        checksum_of(b"abc"),
        "BA7816BF8F01CFEA414140DE5DAE2223B00361A396177A9CB410FF61F20015AD"
    );
    assert_eq!(checksum_of(b"some archive bytes").len(), 64);
}

#[test]
fn hex_is_upper_case_high_digit_first() {
    assert_eq!(to_hex_upper(&[]), "");
    assert_eq!(to_hex_upper(&[0x00, 0x0f, 0xa5, 0xff, 0x10]), "000FA5FF10");
    assert_eq!(to_hex_upper(&[0x01, 0x23, 0x45, 0x67, 0x89, 0xab, 0xcd, 0xef]), "0123456789ABCDEF");
}

#[test]
fn checksum_of_feeds_the_sweep() {
    let contents = b"abc";
    let m =
        declared("M", Some("BA7816BF8F01CFEA414140DE5DAE2223B00361A396177A9CB410FF61F20015AD"));
    assert!(check_package(&m, &Some(checksum_of(contents))).is_none());
    assert!(check_package(&m, &Some(checksum_of(b"abd"))).is_some());
}

#[test]
fn checking_line_names_the_package() {
    assert_eq!(checking_message(&declared("M", None)), "Checking M..");
}
