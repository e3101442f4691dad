//! The stored settings: a small table of named values, of which the engine
//! reads and writes one, the directory the game is installed in.

use vstd::prelude::*;

verus! {

/// The name under which the install directory is stored.
pub const STARBOUND_DIR: &'static str = "starbound_dir";

/// The characters of each name and value of a list of pairs.
pub open spec fn pair_texts(pairs: Seq<(String, String)>) -> Seq<(Seq<char>, Seq<char>)> {
    pairs.map_values(|pair: (String, String)| (pair.0@, pair.1@))
}

/// The table that a list of pairs makes: where a name comes twice, the
/// later pair counts.
pub open spec fn table_of(pairs: Seq<(Seq<char>, Seq<char>)>) -> Map<Seq<char>, Seq<char>>
    decreases pairs.len(),
{
    if pairs.len() == 0 {
        Map::empty()
    } else {
        table_of(pairs.drop_last()).insert(pairs.last().0, pairs.last().1)
    }
}

/// Named values, each name at most once.
#[derive(Debug)]
pub struct Settings {
    entries: Vec<(String, String)>,
}

impl View for Settings {
    type V = Map<Seq<char>, Seq<char>>;

    closed spec fn view(&self) -> Map<Seq<char>, Seq<char>> {
        Map::new(|name: Seq<char>| self.has(name), |name: Seq<char>| self.value(name))
    }
}

impl Settings {
    #[verifier::type_invariant]
    spec fn names_differ(self) -> bool {
        forall|i: int, j: int|
            0 <= i < j < self.entries@.len() ==> (#[trigger] self.entries@[i]).0@
                != (#[trigger] self.entries@[j]).0@
    }

    spec fn holds_at(self, i: int, name: Seq<char>) -> bool {
        0 <= i < self.entries@.len() && self.entries@[i].0@ == name
    }

    spec fn has(self, name: Seq<char>) -> bool {
        exists|i: int| self.holds_at(i, name)
    }

    spec fn value(self, name: Seq<char>) -> Seq<char> {
        self.entries@[choose|i: int| self.holds_at(i, name)].1@
    }

    /// Settings with nothing stored.
    pub fn new() -> (settings: Settings)
        ensures
            settings@ == Map::<Seq<char>, Seq<char>>::empty(),
    {
        let settings = Settings { entries: Vec::new() };
        assert(settings@ =~= Map::<Seq<char>, Seq<char>>::empty());
        settings
    }

    /// The settings that a list of pairs makes: where a name comes twice,
    /// the later pair counts.
    pub fn from_pairs(pairs: Vec<(String, String)>) -> (settings: Settings)
        ensures
            settings@ == table_of(pair_texts(pairs@)),
    {
        let mut settings = Settings::new();
        let mut i: usize = 0;
        assert(pair_texts(pairs@).take(0) =~= Seq::<(Seq<char>, Seq<char>)>::empty());
        while i < pairs.len()
            invariant
                i <= pairs.len(),
                settings@ == table_of(pair_texts(pairs@).take(i as int)),
            decreases pairs.len() - i,
        {
            let ghost longer = pair_texts(pairs@).take(i + 1);
            assert(longer.drop_last() =~= pair_texts(pairs@).take(i as int));
            assert(longer.last() == (pairs@[i as int].0@, pairs@[i as int].1@));
            settings.insert(pairs[i].0.clone(), pairs[i].1.clone());
            i += 1;
        }
        assert(pair_texts(pairs@).take(i as int) =~= pair_texts(pairs@));
        settings
    }

    /// Every stored pair, each name once, in no particular order.
    pub fn pairs(&self) -> (pairs: Vec<(String, String)>)
        ensures
            forall|i: int, j: int|
                0 <= i < j < pairs@.len() ==> (#[trigger] pairs@[i]).0@ != (#[trigger] pairs@[j]).0@,
            forall|i: int|
                0 <= i < pairs@.len() ==> self@.contains_key((#[trigger] pairs@[i]).0@)
                    && self@[pairs@[i].0@] == pairs@[i].1@,
            forall|name: Seq<char>| #[trigger]
                self@.contains_key(name) ==> exists|i: int|
                    0 <= i < pairs@.len() && (#[trigger] pairs@[i]).0@ == name,
    {
        proof {
            use_type_invariant(self);
        }
        let mut pairs: Vec<(String, String)> = Vec::new();
        let mut i: usize = 0;
        while i < self.entries.len()
            invariant
                i <= self.entries.len(),
                pairs@.len() == i,
                forall|k: int|
                    0 <= k < i ==> (#[trigger] pairs@[k]).0@ == self.entries@[k].0@ && pairs@[k].1@
                        == self.entries@[k].1@,
            decreases self.entries.len() - i,
        {
            pairs.push((self.entries[i].0.clone(), self.entries[i].1.clone()));
            i += 1;
        }
        proof {
            assert forall|k: int| 0 <= k < pairs@.len() implies self@.contains_key(
                (#[trigger] pairs@[k]).0@,
            ) && self@[pairs@[k].0@] == pairs@[k].1@ by {
                let name = pairs@[k].0@;
                assert(self.holds_at(k, name));
                let m = choose|m: int| self.holds_at(m, name);
                assert(self.holds_at(m, name));
                assert(m == k);
            }
            assert forall|name: Seq<char>| #[trigger] self@.contains_key(name) implies exists|
                i: int,
            | 0 <= i < pairs@.len() && (#[trigger] pairs@[i]).0@ == name by {
                let m = choose|m: int| self.holds_at(m, name);
                assert(self.holds_at(m, name));
                assert(pairs@[m].0@ == name);
            }
            assert forall|a: int, b: int| 0 <= a < b < pairs@.len() implies (#[trigger] pairs@[a]).0@
                != (#[trigger] pairs@[b]).0@ by {
                assert(self.entries@[a].0@ != self.entries@[b].0@);
            }
        }
        pairs
    }

    fn position(&self, name: &String) -> (found: Option<usize>)
        ensures
            match found {
                Some(i) => self.holds_at(i as int, name@),
                None => !self.has(name@),
            },
    {
        let mut i: usize = 0;
        while i < self.entries.len()
            invariant
                i <= self.entries.len(),
                forall|k: int| 0 <= k < i ==> !self.holds_at(k, name@),
            decreases self.entries.len() - i,
        {
            if self.entries[i].0 == *name {
                return Some(i);
            }
            i += 1;
        }
        None
    }

    /// The value stored under `name`, if there is one.
    pub fn get(&self, name: &str) -> (value: Option<String>)
        ensures
            match value {
                Some(text) => self@.contains_key(name@) && self@[name@] == text@,
                None => !self@.contains_key(name@),
            },
    {
        proof {
            use_type_invariant(self);
        }
        let wanted = name.to_owned();
        match self.position(&wanted) {
            Some(i) => {
                assert(self.has(name@));
                assert(self.holds_at(choose|k: int| self.holds_at(k, name@), name@));
                Some(self.entries[i].1.clone())
            },
            None => None,
        }
    }

    fn with(self, name: String, value: String) -> (after: Settings)
        ensures
            after@ == self@.insert(name@, value@),
    {
        proof {
            use_type_invariant(&self);
        }
        let found = self.position(&name);
        let ghost before = self;
        let mut entries = self.entries;
        match found {
            Some(i) => {
                entries.set(i, (name, value));
            },
            None => {
                entries.push((name, value));
            },
        }
        let ghost at = match found {
            Some(i) => i as int,
            None => before.entries@.len() as int,
        };
        assert forall|i: int, j: int| 0 <= i < j < entries@.len() implies (#[trigger] entries@[i]).0@
            != (#[trigger] entries@[j]).0@ by {
            if i != at && j != at {
                assert(before.entries@[i].0@ != before.entries@[j].0@);
            } else if i == at {
                assert(!before.holds_at(j, name@) || found is Some);
                if found is Some {
                    assert(before.entries@[i].0@ != before.entries@[j].0@);
                }
            } else {
                assert(!before.holds_at(i, name@) || found is Some);
                if found is Some {
                    assert(before.entries@[i].0@ != before.entries@[j].0@);
                }
            }
        }
        let after = Settings { entries };
        proof {
            assert(after.holds_at(at, name@));
            assert forall|other: Seq<char>| other != name@ implies (after.has(other)
                <==> before.has(other)) && (before.has(other) ==> after.value(other)
                == before.value(other)) by {
                if before.has(other) {
                    let k = choose|k: int| before.holds_at(k, other);
                    assert(after.holds_at(k, other));
                    let m = choose|m: int| after.holds_at(m, other);
                    assert(before.holds_at(m, other));
                }
                if after.has(other) {
                    let m = choose|m: int| after.holds_at(m, other);
                    assert(before.holds_at(m, other));
                }
            }
            assert(after.value(name@) == value@) by {
                let m = choose|m: int| after.holds_at(m, name@);
                assert(after.holds_at(m, name@));
            }
            assert(after@ =~= before@.insert(name@, value@));
        }
        after
    }

    /// Stores `value` under `name`, in the place of what was stored there.
    pub fn insert(&mut self, name: String, value: String)
        ensures
            final(self)@ == old(self)@.insert(name@, value@),
    {
        let mut taken = Settings::new();
        std::mem::swap(self, &mut taken);
        *self = taken.with(name, value);
    }
}

/// The install directory, or the line that says that none is stored.
pub fn get_starbound_dir(settings: &Settings) -> (dir: Result<String, String>)
    ensures
        match dir {
            Ok(path) => settings@.contains_key(STARBOUND_DIR@) && path@ == settings@[STARBOUND_DIR@],
            Err(line) => !settings@.contains_key(STARBOUND_DIR@) && line@ == "Not Configured"@,
        },
{
    match settings.get(STARBOUND_DIR) {
        Some(path) => Ok(path),
        None => Err("Not Configured".to_owned()),
    }
}

/// Stores the install directory, and leaves every other setting as it was.
pub fn set_starbound_dir(settings: &mut Settings, value: String)
    ensures
        final(settings)@ == old(settings)@.insert(STARBOUND_DIR@, value@),
{
    settings.insert(STARBOUND_DIR.to_owned(), value);
}

} // verus!
