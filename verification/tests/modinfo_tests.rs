use modpack_sync::error::ErrorKind;
use modpack_sync::modinfo::{
    get_modpack_config, get_modpack_version, read_mods, ManifestError, Mod, ModpackConfig,
    ModpackMetadata, SUPPORTED_FORMAT,
};

fn config(format: Option<i32>, version: Option<&str>, names: &[&str]) -> ModpackConfig {
    ModpackConfig {
        format,
        metadata: version.map(|v| ModpackMetadata { version: Some(v.to_string()) }),
        mods: names.iter().map(|n| Mod::new(n.to_string(), n.to_string())).collect(),
    }
}

#[test]
fn format_99_is_unsupported_and_gives_no_packages() {
    let read = read_mods(Ok(config(Some(99), Some("1.0"), &["a", "b"])));
    assert_eq!(read, Err(ManifestError::UnsupportedFormat));
    assert!(read.ok().is_none());
}

#[test]
fn format_up_to_three_is_accepted() {
    assert_eq!(SUPPORTED_FORMAT, 3);
    for format in [None, Some(-1), Some(0), Some(1), Some(3)] {
        let given = config(format, None, &["a"]);
        assert_eq!(read_mods(Ok(given.clone())), Ok(given));
    }
    assert_eq!(read_mods(Ok(config(Some(4), None, &[]))), Err(ManifestError::UnsupportedFormat));
    assert_eq!(
        read_mods(Ok(config(Some(i32::MAX), None, &[]))),
        Err(ManifestError::UnsupportedFormat)
    );
}

#[test]
fn undecodable_manifest_is_malformed() {
    let read = read_mods(Err("missing field `mods` at line 1 column 2".to_string()));
    assert_eq!(
        read,
        Err(ManifestError::MalformedManifest("missing field `mods` at line 1 column 2".to_string()))
    );
}

#[test]
fn manifest_error_kinds_and_messages() {
    assert_eq!(ManifestError::UnsupportedFormat.kind(), ErrorKind::UnsupportedFormat);
    assert_eq!(
        ManifestError::UnsupportedFormat.message(),
        "Unsupported modpack metadata version!  Please upgrade the launcher"
    );
    let bad = ManifestError::MalformedManifest("expected value".to_string());
    assert_eq!(bad.kind(), ErrorKind::MalformedManifest);
    assert_eq!(bad.message(), "expected value");
}

#[test]
fn modpack_version_reads_metadata() {
    assert_eq!(config(Some(3), Some("2.4.1"), &[]).modpack_version(), Some("2.4.1".to_string()));
    assert_eq!(config(Some(3), None, &[]).modpack_version(), None);
    let no_version =
        ModpackConfig { format: None, metadata: Some(ModpackMetadata { version: None }), mods: vec![] };
    assert_eq!(no_version.modpack_version(), None);
}

#[test]
fn version_line_for_each_case() {
    assert_eq!(get_modpack_version(&Some(Ok(config(None, Some("7"), &[])))), "7");
    assert_eq!(
        get_modpack_version(&Some(Ok(config(None, None, &[])))),
        "Mod config file is missing version metadata!"
    );
    let no_version =
        ModpackConfig { format: None, metadata: Some(ModpackMetadata { version: None }), mods: vec![] };
    assert_eq!(
        get_modpack_version(&Some(Ok(no_version))),
        "Mod config file is missing version metadata!"
    );
}

#[test]
fn version_line_keeps_the_reason_of_a_failure() {
    let unsupported = get_modpack_version(&Some(Err(ManifestError::UnsupportedFormat)));
    let corrupt = get_modpack_version(&Some(Err(ManifestError::MalformedManifest(
        "expected value at line 1 column 1".to_string(),
    ))));
    let missing = get_modpack_version(&Some(Err(ManifestError::MalformedManifest(
        "No such file or directory (os error 2)".to_string(),
    ))));
    let unconfigured = get_modpack_version(&None);
    assert_eq!(
        unsupported,
        "Unsupported modpack metadata version!  Please upgrade the launcher"
    );
    assert_eq!(unsupported, ManifestError::UnsupportedFormat.message());
    assert_eq!(corrupt, "No modpack config found, or file is corrupted");
    assert_eq!(missing, "No modpack config found, or file is corrupted");
    assert_eq!(unconfigured, "Starbound path is not configured!");
    assert_ne!(unsupported, corrupt);
    assert_ne!(unsupported, unconfigured);
    assert_ne!(corrupt, unconfigured);
}

#[test]
fn version_line_of_a_refused_manifest_asks_for_an_upgrade() {
    let read = read_mods(Ok(config(Some(99), Some("9.9"), &["a"])));
    assert_eq!(
        get_modpack_version(&Some(read)),
        "Unsupported modpack metadata version!  Please upgrade the launcher"
    );
    let accepted = read_mods(Ok(config(Some(3), Some("9.9"), &["a"])));
    assert_eq!(get_modpack_version(&Some(accepted)), "9.9");
    let undecoded = read_mods(Err("EOF while parsing".to_string()));
    assert_eq!(
        get_modpack_version(&Some(undecoded)),
        "No modpack config found, or file is corrupted"
    );
}

#[test]
fn modpack_config_or_reason() {
    let given = config(Some(2), Some("1"), &["a"]);
    assert_eq!(get_modpack_config(Some(Ok(given.clone()))), Ok(given));
    assert_eq!(
        get_modpack_config(Some(Err(ManifestError::UnsupportedFormat))),
        Err("Unsupported modpack metadata version!  Please upgrade the launcher".to_string())
    );
    assert_eq!(
        get_modpack_config(Some(Err(ManifestError::MalformedManifest("EOF".to_string())))),
        Err("EOF".to_string())
    );
    assert_eq!(get_modpack_config(None), Err("Starbound path is not configured!".to_string()));
}

#[test]
fn archive_name_and_address() {
    let plain = Mod::new("frackin".to_string(), "Frackin Universe".to_string());
    assert_eq!(plain.archive_name(), "frackin.pak");
    assert_eq!(plain.archive_url(), "files/frackin.pak");
    let mut renamed = Mod::new("frackin".to_string(), "Frackin Universe".to_string());
    renamed.custom_pak_name = Some("fu".to_string());
    assert_eq!(renamed.archive_name(), "frackin.pak");
    assert_eq!(renamed.archive_url(), "files/fu.pak");
}

#[test]
fn new_descriptor_has_only_name_and_text() {
    let m = Mod::new("n".to_string(), "v".to_string());
    assert_eq!(m.name, "n");
    assert_eq!(m.value, "v");
    assert!(m.checksum.is_none() && m.last_change.is_none() && m.custom_pak_name.is_none());
    assert!(m.extra_dependencies.is_none() && m.patches.is_none() && m.rimraf.is_none());
    assert!(m.version.is_none() && m.last_version.is_none() && m.url.is_none());
    assert!(m.steam_id.is_none() && m.default_priority.is_none());
    assert!(m.calculated_priority.is_none() && m.metadata.is_none());
}

#[test]
fn well_formed_manifest_has_distinct_nonempty_names() {
    assert!(config(None, None, &[]).is_well_formed());
    assert!(config(None, None, &["a"]).is_well_formed());
    assert!(config(None, None, &["a", "b", "A"]).is_well_formed());
    assert!(!config(None, None, &["a", "b", "a"]).is_well_formed());
    assert!(!config(None, None, &["b", "b"]).is_well_formed());
    assert!(!config(None, None, &["a", ""]).is_well_formed());
    assert!(!config(None, None, &[""]).is_well_formed());
}
