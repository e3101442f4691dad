//! The integrity sweep: content checksums of installed packages, held
//! against the checksums that the manifest declares.

use vstd::prelude::*;
use crate::error::ErrorKind;
use crate::modinfo::{Mod, ModView, ModpackConfig, mod_views};
use crate::text::{join3, opt_text};
use crate::trusted::{sha256, sha256_digest};

verus! {

/// The upper-case hexadecimal digit of a number below 16.
pub open spec fn hex_digit(n: int) -> char {
    if n == 0 {
        '0'
    } else if n == 1 {
        '1'
    } else if n == 2 {
        '2'
    } else if n == 3 {
        '3'
    } else if n == 4 {
        '4'
    } else if n == 5 {
        '5'
    } else if n == 6 {
        '6'
    } else if n == 7 {
        '7'
    } else if n == 8 {
        '8'
    } else if n == 9 {
        '9'
    } else if n == 10 {
        'A'
    } else if n == 11 {
        'B'
    } else if n == 12 {
        'C'
    } else if n == 13 {
        'D'
    } else if n == 14 {
        'E'
    } else {
        'F'
    }
}

/// Bytes in upper-case hexadecimal: two digits a byte, the high one first.
pub open spec fn hex_upper(bytes: Seq<u8>) -> Seq<char> {
    Seq::new(
        2 * bytes.len(),
        |k: int|
            if k % 2 == 0 {
                hex_digit(bytes[k / 2] as int / 16)
            } else {
                hex_digit(bytes[k / 2] as int % 16)
            },
    )
}

/// The checksum of a file's contents, as manifests write it.
pub open spec fn checksum_text(contents: Seq<u8>) -> Seq<char> {
    hex_upper(sha256(contents))
}

fn digit_text(n: u8) -> (digit: &'static str)
    requires
        n < 16,
    ensures
        digit@ == seq![hex_digit(n as int)],
{
    proof {
        reveal_strlit("0");
        reveal_strlit("1");
        reveal_strlit("2");
        reveal_strlit("3");
        reveal_strlit("4");
        reveal_strlit("5");
        reveal_strlit("6");
        reveal_strlit("7");
        reveal_strlit("8");
        reveal_strlit("9");
        reveal_strlit("A");
        reveal_strlit("B");
        reveal_strlit("C");
        reveal_strlit("D");
        reveal_strlit("E");
        reveal_strlit("F");
    }
    let digit = match n {
        0 => "0",
        1 => "1",
        2 => "2",
        3 => "3",
        4 => "4",
        5 => "5",
        6 => "6",
        7 => "7",
        8 => "8",
        9 => "9",
        10 => "A",
        11 => "B",
        12 => "C",
        13 => "D",
        14 => "E",
        _ => "F",
    };
    assert(digit@ =~= seq![hex_digit(n as int)]);
    digit
}

/// Bytes in upper-case hexadecimal.
pub fn to_hex_upper(bytes: &[u8]) -> (hex: String)
    ensures
        hex@ == hex_upper(bytes@),
{
    let mut hex = String::new();
    let mut i: usize = 0;
    assert(hex@ =~= hex_upper(bytes@.take(0)));
    while i < bytes.len()
        invariant
            i <= bytes.len(),
            hex@ == hex_upper(bytes@.take(i as int)),
        decreases bytes.len() - i,
    {
        let byte = bytes[i];
        let ghost before = hex@;
        hex.append(digit_text(byte / 16));
        hex.append(digit_text(byte % 16));
        proof {
            let longer = bytes@.take(i + 1);
            assert(hex@ =~= before + seq![hex_digit(byte as int / 16)] + seq![
                hex_digit(byte as int % 16),
            ]);
            assert forall|k: int| 0 <= k < 2 * longer.len() implies hex@[k] == hex_upper(
                longer,
            )[k] by {
                if k < 2 * i {
                    assert(bytes@.take(i as int)[k / 2] == longer[k / 2]);
                } else {
                    assert(longer[k / 2] == byte);
                }
            }
            assert(hex@ =~= hex_upper(longer));
        }
        i += 1;
    }
    assert(bytes@.take(i as int) =~= bytes@);
    hex
}

/// The checksum of a file's contents: its SHA-256 digest in upper-case
/// hexadecimal, 64 digits.
pub fn checksum_of(contents: &[u8]) -> (checksum: String)
    ensures
        checksum@ == checksum_text(contents@),
        checksum@.len() == 64,
{
    let digest = sha256_digest(contents);
    to_hex_upper(digest.as_slice())
}

/// One repair that the sweep asks for: fetch `url` into `filename` again.
#[derive(Clone, Debug, PartialEq, Eq)]
pub struct RepairAction {
    /// The package whose installed file does not match.
    pub name: String,
    /// Where to fetch the archive from, relative to the base address.
    pub url: String,
    /// The installed file to overwrite.
    pub filename: String,
    /// Why: `ChecksumMismatch` where the installed file has another
    /// checksum, `IoError` where it is missing or could not be read.
    pub reason: ErrorKind,
    /// The line to log before fetching.
    pub log: String,
}

/// A `RepairAction` with its texts as sequences of characters.
pub struct RepairView {
    pub name: Seq<char>,
    pub url: Seq<char>,
    pub filename: Seq<char>,
    pub reason: ErrorKind,
    pub log: Seq<char>,
}

impl View for RepairAction {
    type V = RepairView;

    open spec fn view(&self) -> RepairView {
        RepairView {
            name: self.name@,
            url: self.url@,
            filename: self.filename@,
            reason: self.reason,
            log: self.log@,
        }
    }
}

/// The views of a list of repairs, in order.
pub open spec fn repair_views(repairs: Seq<RepairAction>) -> Seq<RepairView> {
    repairs.map_values(|r: RepairAction| r@)
}

/// The checksums that were observed, in order; `None` where a file is
/// missing or could not be read.
pub open spec fn observations(observed: Seq<Option<String>>) -> Seq<Option<Seq<char>>> {
    observed.map_values(|o: Option<String>| opt_text(o))
}

/// Whether a package has to be fetched again: it declares a checksum, and
/// the checksum observed of its installed file is missing or another.
pub open spec fn needs_repair(package: ModView, observed: Option<Seq<char>>) -> bool {
    package.checksum is Some && observed != package.checksum
}

/// The repair of a package, given what was observed of its installed file.
pub open spec fn repair_of(package: ModView, observed: Option<Seq<char>>) -> RepairView {
    RepairView {
        name: package.name,
        url: package.archive_url(),
        filename: package.archive_name(),
        reason: if observed is None {
            ErrorKind::IoError
        } else {
            ErrorKind::ChecksumMismatch
        },
        log: "Checksum for "@ + package.name + " did not match expected value. Redownloading.."@,
    }
}

/// The observation that belongs to the package at `i`: none where the list
/// of observations is too short.
pub open spec fn observed_at(observed: Seq<Option<Seq<char>>>, i: int) -> Option<Seq<char>> {
    if 0 <= i < observed.len() {
        observed[i]
    } else {
        None
    }
}

/// Each package with what was observed of its installed file.
pub open spec fn checked(mods: Seq<ModView>, observed: Seq<Option<Seq<char>>>) -> Seq<
    (ModView, Option<Seq<char>>),
> {
    Seq::new(mods.len(), |i: int| (mods[i], observed_at(observed, i)))
}

/// The repairs of a sweep: one for each package that needs one, in manifest
/// order.
pub open spec fn sweep_of(mods: Seq<ModView>, observed: Seq<Option<Seq<char>>>) -> Seq<
    RepairView,
> {
    checked(mods, observed).filter(|c: (ModView, Option<Seq<char>>)| needs_repair(c.0, c.1))
        .map_values(|c: (ModView, Option<Seq<char>>)| repair_of(c.0, c.1))
}

/// The line logged before a package is checked.
pub fn checking_message(package: &Mod) -> (line: String)
    ensures
        line@ == "Checking "@ + package@.name + ".."@,
{
    join3("Checking ", package.name.as_str(), "..")
}

/// Holds the checksum observed of a package's installed file against the
/// one that the manifest declares, and asks for a repair where they differ.
/// A package without a declared checksum is never repaired; a file that is
/// missing or unreadable (`observed` is `None`) counts as differing.
pub fn check_package(package: &Mod, observed: &Option<String>) -> (repair: Option<RepairAction>)
    ensures
        repair is Some <==> needs_repair(package@, opt_text(*observed)),
        repair is Some ==> repair->0@ == repair_of(package@, opt_text(*observed)),
{
    let matches = match &package.checksum {
        None => true,
        Some(declared) => match observed {
            Some(seen) => *seen == *declared,
            None => false,
        },
    };
    if matches {
        None
    } else {
        Some(
            RepairAction {
                name: package.name.clone(),
                url: package.archive_url(),
                filename: package.archive_name(),
                reason: match observed {
                    None => ErrorKind::IoError,
                    Some(_) => ErrorKind::ChecksumMismatch,
                },
                log: join3(
                    "Checksum for ",
                    package.name.as_str(),
                    " did not match expected value. Redownloading..",
                ),
            },
        )
    }
}

/// The whole sweep at once: the repairs for a manifest, given what was
/// observed of each package's installed file, in manifest order. A package
/// beyond the end of `observed` counts as not observed.
pub fn verify(active: &ModpackConfig, observed: &Vec<Option<String>>) -> (repairs: Vec<
    RepairAction,
>)
    ensures
        repair_views(repairs@) == sweep_of(active@.mods, observations(observed@)),
{
    let ghost mods = mod_views(active.mods@);
    let ghost seen = observations(observed@);
    let ghost pairs = checked(mods, seen);
    let ghost broken = |c: (ModView, Option<Seq<char>>)| needs_repair(c.0, c.1);
    let mut repairs: Vec<RepairAction> = Vec::new();
    let mut i: usize = 0;
    assert(pairs.take(0).filter(broken) =~= Seq::<(ModView, Option<Seq<char>>)>::empty()) by {
        reveal(Seq::filter);
    }
    while i < active.mods.len()
        invariant
            i <= active.mods.len(),
            mods == mod_views(active.mods@),
            seen == observations(observed@),
            pairs == checked(mods, seen),
            broken == |c: (ModView, Option<Seq<char>>)| needs_repair(c.0, c.1),
            repair_views(repairs@) == pairs.take(i as int).filter(broken).map_values(
                |c: (ModView, Option<Seq<char>>)| repair_of(c.0, c.1),
            ),
        decreases active.mods.len() - i,
    {
        let ghost before = pairs.take(i as int);
        proof {
            pairs.lemma_take_succ_push(i as int);
            before.lemma_filter_push(pairs[i as int], broken);
        }
        let nothing: Option<String> = None;
        let repair = if i < observed.len() {
            check_package(&active.mods[i], &observed[i])
        } else {
            check_package(&active.mods[i], &nothing)
        };
        match repair {
            Some(action) => {
                let ghost found = repairs@;
                repairs.push(action);
                assert(repair_views(repairs@) =~= repair_views(found).push(
                    repair_of(pairs[i as int].0, pairs[i as int].1),
                ));
                assert(before.filter(broken).push(pairs[i as int]).map_values(
                    |c: (ModView, Option<Seq<char>>)| repair_of(c.0, c.1),
                ) =~= before.filter(broken).map_values(
                    |c: (ModView, Option<Seq<char>>)| repair_of(c.0, c.1),
                ).push(repair_of(pairs[i as int].0, pairs[i as int].1)));
            },
            None => {},
        }
        i += 1;
    }
    assert(pairs.take(active.mods.len() as int) =~= pairs);
    repairs
}

/// Whether `repair` is the repair of the package at `i`, which needs one.
pub open spec fn repairs_package_at(
    mods: Seq<ModView>,
    observed: Seq<Option<Seq<char>>>,
    i: int,
    repair: RepairView,
) -> bool {
    0 <= i < mods.len() && needs_repair(mods[i], observed_at(observed, i)) && repair == repair_of(
        mods[i],
        observed_at(observed, i),
    )
}

/// A sweep repairs exactly the packages that declare a checksum which the
/// observation does not match: a repair is in the sweep if and only if it is
/// that of such a package. In particular a package that declares no checksum
/// is never repaired, whatever was observed of its file.
pub proof fn lemma_sweep_repairs_exactly_mismatches(
    mods: Seq<ModView>,
    observed: Seq<Option<Seq<char>>>,
)
    ensures
        forall|repair: RepairView| #[trigger]
            sweep_of(mods, observed).contains(repair) <==> exists|i: int| #[trigger]
                repairs_package_at(mods, observed, i, repair),
        sweep_of(mods, observed).len() <= mods.len(),
{
    let pairs = checked(mods, observed);
    let broken = |c: (ModView, Option<Seq<char>>)| needs_repair(c.0, c.1);
    let kept = pairs.filter(broken);
    let sweep = sweep_of(mods, observed);
    pairs.lemma_filter_len(broken);
    assert forall|repair: RepairView| #[trigger] sweep.contains(repair) implies exists|i: int|
        #[trigger] repairs_package_at(mods, observed, i, repair) by {
        let k = choose|k: int| 0 <= k < sweep.len() && sweep[k] == repair;
        pairs.lemma_filter_pred(broken, k);
        assert(kept.contains(kept[k]));
        pairs.lemma_filter_contains_rev(broken, kept[k]);
        let i = choose|i: int| 0 <= i < pairs.len() && pairs[i] == kept[k];
        assert(repairs_package_at(mods, observed, i, repair));
    }
    assert forall|repair: RepairView|
        (exists|i: int| #[trigger] repairs_package_at(mods, observed, i, repair))
            implies #[trigger] sweep.contains(repair) by {
        let i = choose|i: int| #[trigger] repairs_package_at(mods, observed, i, repair);
        assert(broken(pairs[i]));
        pairs.lemma_filter_contains(broken, i);
        let k = choose|k: int| 0 <= k < kept.len() && kept[k] == pairs[i];
        assert(sweep[k] == repair);
    }
}

} // verus!
