//! The manifest model: a versioned list of package descriptors.

use vstd::prelude::*;
use crate::error::ErrorKind;
use crate::text::{join3, opt_text, opt_text_clone};

verus! {

/// Highest manifest format this engine understands.
pub const SUPPORTED_FORMAT: i32 = 3;

/// Descriptive data of a package that the engine carries and never reads.
#[derive(Clone, Debug, PartialEq, Eq)]
pub struct Metadata {}

/// One package of a manifest.
#[derive(Clone, Debug, PartialEq, Eq)]
pub struct Mod {
    /// What the package is called; its identity within a manifest.
    pub name: String,
    /// The text shown for the package.
    pub value: String,
    pub extra_dependencies: Option<Vec<String>>,
    pub patches: Option<Vec<String>>,
    pub rimraf: Option<Vec<String>>,
    /// A token that changes with the package; the change signal where a
    /// checksum is missing.
    pub last_change: Option<String>,
    pub version: Option<String>,
    pub last_version: Option<String>,
    pub url: Option<String>,
    /// What the archive is called at its source, where that is not `name`.
    pub custom_pak_name: Option<String>,
    pub steam_id: Option<i64>,
    /// The checksum of the archive: SHA-256 in upper-case hexadecimal.
    pub checksum: Option<String>,
    pub default_priority: Option<i32>,
    pub calculated_priority: Option<i32>,
    pub metadata: Option<Metadata>,
}

/// Release data of a manifest.
#[derive(Clone, Debug, PartialEq, Eq)]
pub struct ModpackMetadata {
    pub version: Option<String>,
}

/// A manifest: format number, release data and the packages.
#[derive(Clone, Debug, PartialEq, Eq)]
pub struct ModpackConfig {
    /// The format number; a manifest without one counts as of format 0.
    pub format: Option<i32>,
    pub metadata: Option<ModpackMetadata>,
    /// The packages. Their order carries no meaning beyond the order of
    /// the plans made from it.
    pub mods: Vec<Mod>,
}

/// What the engine reads of a package: its identity, its two change signals
/// and its source override.
pub struct ModView {
    pub name: Seq<char>,
    pub checksum: Option<Seq<char>>,
    pub last_change: Option<Seq<char>>,
    pub custom_pak_name: Option<Seq<char>>,
}

/// A manifest as the engine reads it.
pub struct ModpackConfigView {
    pub format: Option<i32>,
    pub version: Option<Seq<char>>,
    pub mods: Seq<ModView>,
}

impl View for Mod {
    type V = ModView;

    open spec fn view(&self) -> ModView {
        ModView {
            name: self.name@,
            checksum: opt_text(self.checksum),
            last_change: opt_text(self.last_change),
            custom_pak_name: opt_text(self.custom_pak_name),
        }
    }
}

impl ModView {
    /// The name of the installed file of this package.
    pub open spec fn archive_name(self) -> Seq<char> {
        self.name + ".pak"@
    }

    /// What the archive is called at its source: the override where the
    /// descriptor has one, else the package name.
    pub open spec fn locator(self) -> Seq<char> {
        match self.custom_pak_name {
            Some(custom) => custom,
            None => self.name,
        }
    }

    /// The address of the archive, relative to the base address.
    pub open spec fn archive_url(self) -> Seq<char> {
        "files/"@ + self.locator() + ".pak"@
    }
}

impl Mod {
    /// A descriptor with a name and a display text and nothing else.
    pub fn new(name: String, value: String) -> (package: Mod)
        ensures
            package == (Mod {
                name,
                value,
                extra_dependencies: None,
                patches: None,
                rimraf: None,
                last_change: None,
                version: None,
                last_version: None,
                url: None,
                custom_pak_name: None,
                steam_id: None,
                checksum: None,
                default_priority: None,
                calculated_priority: None,
                metadata: None,
            }),
    {
        Mod {
            name,
            value,
            extra_dependencies: None,
            patches: None,
            rimraf: None,
            last_change: None,
            version: None,
            last_version: None,
            url: None,
            custom_pak_name: None,
            steam_id: None,
            checksum: None,
            default_priority: None,
            calculated_priority: None,
            metadata: None,
        }
    }

    /// The name of the installed file of this package.
    pub fn archive_name(&self) -> (filename: String)
        ensures
            filename@ == self@.archive_name(),
    {
        let mut filename = self.name.clone();
        filename.append(".pak");
        filename
    }

    /// The address of the archive, relative to the base address.
    pub fn archive_url(&self) -> (url: String)
        ensures
            url@ == self@.archive_url(),
    {
        match &self.custom_pak_name {
            Some(custom) => join3("files/", custom.as_str(), ".pak"),
            None => join3("files/", self.name.as_str(), ".pak"),
        }
    }
}

/// The views of a list of packages, in order.
pub open spec fn mod_views(mods: Seq<Mod>) -> Seq<ModView> {
    mods.map_values(|m: Mod| m@)
}

/// No two packages share a name.
pub open spec fn names_unique(mods: Seq<ModView>) -> bool {
    forall|i: int, j: int|
        0 <= i < j < mods.len() ==> (#[trigger] mods[i]).name != (#[trigger] mods[j]).name
}

impl ModpackConfigView {
    /// What holds of a manifest that was made with care: every package has
    /// a name, and no two packages share one.
    pub open spec fn well_formed(self) -> bool {
        &&& names_unique(self.mods)
        &&& forall|i: int| 0 <= i < self.mods.len() ==> (#[trigger] self.mods[i]).name.len() > 0
    }
}

impl View for ModpackConfig {
    type V = ModpackConfigView;

    open spec fn view(&self) -> ModpackConfigView {
        ModpackConfigView {
            format: self.format,
            version: match self.metadata {
                Some(meta) => opt_text(meta.version),
                None => None,
            },
            mods: mod_views(self.mods@),
        }
    }
}

impl ModpackConfig {
    fn name_comes_again(&self, i: usize) -> (again: bool)
        requires
            i < self.mods.len(),
        ensures
            again == exists|j: int|
                i < j < self.mods@.len() && (#[trigger] self@.mods[j]).name == self@.mods[i as int].name,
    {
        let mut j: usize = i + 1;
        while j < self.mods.len()
            invariant
                i < j <= self.mods.len(),
                forall|k: int| i < k < j ==> (#[trigger] self@.mods[k]).name != self@.mods[i as int].name,
            decreases self.mods.len() - j,
        {
            if self.mods[j].name == self.mods[i].name {
                assert(self@.mods[j as int].name == self@.mods[i as int].name);
                return true;
            }
            j += 1;
        }
        false
    }

    /// Whether every package has a name and no two packages share one.
    pub fn is_well_formed(&self) -> (ok: bool)
        ensures
            ok == self@.well_formed(),
    {
        let mut i: usize = 0;
        while i < self.mods.len()
            invariant
                i <= self.mods.len(),
                forall|a: int, b: int|
                    0 <= a < i && a < b < self.mods@.len() ==> (#[trigger] self@.mods[a]).name != (
                    #[trigger] self@.mods[b]).name,
                forall|a: int| 0 <= a < i ==> (#[trigger] self@.mods[a]).name.len() > 0,
            decreases self.mods.len() - i,
        {
            if self.mods[i].name.as_str().is_empty() {
                assert(self@.mods[i as int].name.len() == 0);
                return false;
            }
            if self.name_comes_again(i) {
                return false;
            }
            i += 1;
        }
        true
    }

    /// The release version, where the manifest names one.
    pub fn modpack_version(&self) -> (version: Option<String>)
        ensures
            opt_text(version) == self@.version,
    {
        match &self.metadata {
            Some(meta) => opt_text_clone(&meta.version),
            None => None,
        }
    }
}

/// Why a manifest was refused.
#[derive(Clone, Debug, PartialEq, Eq)]
pub enum ManifestError {
    /// The format number is above `SUPPORTED_FORMAT`.
    UnsupportedFormat,
    /// The text is no manifest; the decoder's words are kept.
    MalformedManifest(String),
}

impl ManifestError {
    /// The kind of this failure.
    pub open spec fn kind_of(self) -> ErrorKind {
        match self {
            ManifestError::UnsupportedFormat => ErrorKind::UnsupportedFormat,
            ManifestError::MalformedManifest(_) => ErrorKind::MalformedManifest,
        }
    }

    /// The line shown to the user.
    pub open spec fn message_of(self) -> Seq<char> {
        match self {
            ManifestError::UnsupportedFormat =>
                "Unsupported modpack metadata version!  Please upgrade the launcher"@,
            ManifestError::MalformedManifest(detail) => detail@,
        }
    }

    /// The kind of this failure.
    pub fn kind(&self) -> (kind: ErrorKind)
        ensures
            kind == self.kind_of(),
    {
        match self {
            ManifestError::UnsupportedFormat => ErrorKind::UnsupportedFormat,
            ManifestError::MalformedManifest(_) => ErrorKind::MalformedManifest,
        }
    }

    /// The line shown to the user.
    pub fn message(&self) -> (line: String)
        ensures
            line@ == self.message_of(),
    {
        match self {
            ManifestError::UnsupportedFormat =>
                "Unsupported modpack metadata version!  Please upgrade the launcher".to_owned(),
            ManifestError::MalformedManifest(detail) => detail.clone(),
        }
    }
}

/// The format number that a manifest counts as having: its own, or 0 where
/// it names none.
pub open spec fn format_of(format: Option<i32>) -> int {
    match format {
        Some(n) => n as int,
        None => 0,
    }
}

/// Accepts or refuses a decoded manifest. What could not be decoded is
/// malformed; a manifest of a format above `SUPPORTED_FORMAT` is refused,
/// whole, as unsupported; any other manifest is handed on as it is.
pub fn read_mods(decoded: Result<ModpackConfig, String>) -> (accepted: Result<
    ModpackConfig,
    ManifestError,
>)
    ensures
        match decoded {
            Err(detail) => accepted == Err::<ModpackConfig, ManifestError>(
                ManifestError::MalformedManifest(detail),
            ),
            Ok(config) => if format_of(config.format) > SUPPORTED_FORMAT {
                accepted == Err::<ModpackConfig, ManifestError>(ManifestError::UnsupportedFormat)
            } else {
                accepted == Ok::<ModpackConfig, ManifestError>(config)
            },
        },
{
    match decoded {
        Err(detail) => Err(ManifestError::MalformedManifest(detail)),
        Ok(config) => {
            let format: i32 = match config.format {
                Some(n) => n,
                None => 0,
            };
            if format > SUPPORTED_FORMAT {
                Err(ManifestError::UnsupportedFormat)
            } else {
                Ok(config)
            }
        },
    }
}

/// The manifest, or the line that says why there is none. `read` is `None`
/// where the place of the manifest could not even be named.
pub fn get_modpack_config(read: Option<Result<ModpackConfig, ManifestError>>) -> (config: Result<
    ModpackConfig,
    String,
>)
    ensures
        match read {
            None => config is Err && config->Err_0@ == "Starbound path is not configured!"@,
            Some(Err(error)) => config is Err && config->Err_0@ == error.message_of(),
            Some(Ok(manifest)) => config == Ok::<ModpackConfig, String>(manifest),
        },
{
    match read {
        None => Err("Starbound path is not configured!".to_owned()),
        Some(Err(error)) => Err(error.message()),
        Some(Ok(manifest)) => Ok(manifest),
    }
}

/// The line that answers "which version is this?" for a manifest that was
/// or was not read. A manifest answers with its release version, or says
/// that it names none. Each failure answers with a line of its own: no
/// place to look in (`None`), a format that asks for a newer engine, and a
/// file that is missing or no manifest.
pub open spec fn version_text(read: Option<Result<ModpackConfig, ManifestError>>) -> Seq<char> {
    match read {
        Some(Ok(manifest)) => match manifest@.version {
            Some(version) => version,
            None => "Mod config file is missing version metadata!"@,
        },
        Some(Err(ManifestError::UnsupportedFormat)) => ManifestError::UnsupportedFormat.message_of(),
        Some(Err(ManifestError::MalformedManifest(_))) =>
            "No modpack config found, or file is corrupted"@,
        None => "Starbound path is not configured!"@,
    }
}

/// The release version of a manifest, or the line that says why there is
/// none. `read` is `None` where the place of the manifest could not even be
/// named.
pub fn get_modpack_version(read: &Option<Result<ModpackConfig, ManifestError>>) -> (line: String)
    ensures
        line@ == version_text(*read),
{
    match read {
        Some(Ok(manifest)) => match manifest.modpack_version() {
            Some(version) => version,
            None => "Mod config file is missing version metadata!".to_owned(),
        },
        Some(Err(ManifestError::UnsupportedFormat)) => ManifestError::UnsupportedFormat.message(),
        Some(Err(ManifestError::MalformedManifest(_))) =>
            "No modpack config found, or file is corrupted".to_owned(),
        None => "Starbound path is not configured!".to_owned(),
    }
}

/// The version query tells the failures apart: "nothing configured", "a
/// newer engine is needed" and "missing or corrupt" are three different
/// lines, and the second is the line of the unsupported format.
pub proof fn lemma_version_lines_tell_failures_apart(detail: String)
    ensures
        version_text(Some(Err(ManifestError::UnsupportedFormat)))
            == ManifestError::UnsupportedFormat.message_of(),
        version_text(None) != version_text(Some(Err(ManifestError::UnsupportedFormat))),
        version_text(None) != version_text(Some(Err(ManifestError::MalformedManifest(detail)))),
        version_text(Some(Err(ManifestError::UnsupportedFormat))) != version_text(
            Some(Err(ManifestError::MalformedManifest(detail))),
        ),
{
    reveal_strlit("Starbound path is not configured!");
    reveal_strlit("Unsupported modpack metadata version!  Please upgrade the launcher");
    reveal_strlit("No modpack config found, or file is corrupted");
    assert("Starbound path is not configured!"@[0] == 'S');
    assert("Unsupported modpack metadata version!  Please upgrade the launcher"@[0] == 'U');
    assert("No modpack config found, or file is corrupted"@[0] == 'N');
}

} // verus!
