//! The providers that are configured, each under a name of its own.

use vstd::prelude::*;
use vstd::string::*;

use crate::text::same;

verus! {

/// The credentials and the place of a static-key provider.
#[derive(Clone, Debug)]
pub struct ScalewayProviderConfig {
    pub access_key: String,
    pub secret_key: String,
    pub organization_id: String,
    pub project_id: String,
    pub region: String,
    pub bucket: String,
}

/// The credentials and the place of a signed-request provider.
#[derive(Clone, Debug)]
pub struct ExoscaleProviderConfig {
    pub api_key: String,
    pub api_secret: String,
    pub zone: String,
    pub bucket: String,
}

/// A provider of one of the two kinds.
#[derive(Clone, Debug)]
pub enum ProviderConfig {
    Scaleway(ScalewayProviderConfig),
    Exoscale(ExoscaleProviderConfig),
}

/// The address of object storage in a region of the static-key provider.
pub open spec fn scaleway_endpoint(region: Seq<char>) -> Seq<char> {
    "https://s3."@ + region + ".scw.cloud"@
}

/// The address of object storage in a zone of the signed-request provider.
pub open spec fn exoscale_endpoint(zone: Seq<char>) -> Seq<char> {
    "https://sos-"@ + zone + ".exo.io"@
}

impl ScalewayProviderConfig {
    /// The address of the region's object storage.
    pub fn endpoint(&self) -> (r: String)
        ensures
            r@ == scaleway_endpoint(self.region@),
    {
        let mut r = "https://s3.".to_owned();
        r.append(self.region.as_str());
        r.append(".scw.cloud");
        r
    }
}

impl ExoscaleProviderConfig {
    /// The address of the zone's object storage.
    pub fn endpoint(&self) -> (r: String)
        ensures
            r@ == exoscale_endpoint(self.zone@),
    {
        let mut r = "https://sos-".to_owned();
        r.append(self.zone.as_str());
        r.append(".exo.io");
        r
    }

    /// The address of the zone's API, with its version.
    pub fn api_base(&self) -> (r: String)
        ensures
            r@ == "https://api-"@ + self.zone@ + ".exoscale.com/v2"@,
    {
        let mut r = "https://api-".to_owned();
        r.append(self.zone.as_str());
        r.append(".exoscale.com/v2");
        r
    }
}

/// Why no place for the configuration is known.
#[derive(Clone, Copy, Debug, PartialEq, Eq, Structural)]
pub enum ConfigError {
    /// No path was given and the system names no directory for configuration.
    NoConfigDirectory,
}

impl ConfigError {
    /// The error in words.
    pub fn message(&self) -> (r: String)
        ensures
            r@ == "Could not determine config directory"@,
    {
        "Could not determine config directory".to_owned()
    }
}

/// A provider under its name.
#[derive(Clone, Debug)]
struct Entry {
    name: String,
    provider: ProviderConfig,
}

/// The configured providers. A name stands for one provider at most.
#[derive(Clone, Debug)]
pub struct Config {
    entries: Vec<Entry>,
}

impl View for Config {
    type V = Map<Seq<char>, ProviderConfig>;

    /// The provider of each name.
    closed spec fn view(&self) -> Map<Seq<char>, ProviderConfig> {
        Map::new(
            |name: Seq<char>| self.place(name) is Some,
            |name: Seq<char>| self.entries[self.place(name)->0].provider,
        )
    }
}

impl Config {
    /// Whether no name stands for two providers.
    pub closed spec fn distinct(self) -> bool {
        forall|i: int, j: int|
            0 <= i < j < self.entries.len() ==> (#[trigger] self.entries[i]).name@
                != (#[trigger] self.entries[j]).name@
    }

    spec fn holds(self, name: Seq<char>, i: int) -> bool {
        0 <= i < self.entries.len() && self.entries[i].name@ == name
    }

    spec fn place(self, name: Seq<char>) -> Option<int> {
        if exists|i: int| self.holds(name, i) {
            Some(choose|i: int| self.holds(name, i))
        } else {
            None
        }
    }

    proof fn lemma_place(self, name: Seq<char>, i: int)
        requires
            self.distinct(),
            self.holds(name, i),
        ensures
            self.place(name) == Some(i),
    {
        let c = choose|k: int| self.holds(name, k);
        assert(self.holds(name, c));
        if c < i {
            assert(self.entries[c].name@ != self.entries[i].name@);
        } else if i < c {
            assert(self.entries[i].name@ != self.entries[c].name@);
        }
    }

    proof fn lemma_same_places(self, other: Self)
        requires
            self.distinct(),
            other.distinct(),
            forall|k: Seq<char>, j: int| self.holds(k, j) == other.holds(k, j),
        ensures
            forall|k: Seq<char>| self.place(k) == other.place(k),
    {
        assert forall|k: Seq<char>| self.place(k) == other.place(k) by {
            if other.place(k) is Some {
                let j = other.place(k)->0;
                assert(other.holds(k, j));
                assert(self.holds(k, j));
                self.lemma_place(k, j);
            } else if self.place(k) is Some {
                let j = self.place(k)->0;
                assert(self.holds(k, j));
                assert(other.holds(k, j));
            }
        }
    }

    fn find(&self, name: &str) -> (r: Option<usize>)
        requires
            self.distinct(),
        ensures
            match r {
                Some(i) => self.holds(name@, i as int) && self.place(name@) == Some(i as int),
                None => self.place(name@) is None,
            },
    {
        let mut i: usize = 0;
        while i < self.entries.len()
            invariant
                i <= self.entries.len(),
                self.distinct(),
                forall|j: int| 0 <= j < i ==> !self.holds(name@, j),
            decreases self.entries.len() - i,
        {
            if same(self.entries[i].name.as_str(), name) {
                proof {
                    self.lemma_place(name@, i as int);
                }
                return Some(i);
            }
            i += 1;
        }
        None
    }

    /// No provider at all.
    pub fn new() -> (config: Self)
        ensures
            config.distinct(),
            config@ == Map::<Seq<char>, ProviderConfig>::empty(),
    {
        let config = Config { entries: Vec::new() };
        assert(config@ =~= Map::<Seq<char>, ProviderConfig>::empty());
        config
    }

    /// Whether no provider is configured.
    pub fn is_empty(&self) -> (r: bool)
        ensures
            r <==> forall|name: Seq<char>| !self@.contains_key(name),
    {
        proof {
            if self.entries.len() > 0 {
                assert(self.holds(self.entries[0].name@, 0));
                assert(self@.contains_key(self.entries[0].name@));
            }
        }
        self.entries.len() == 0
    }

    /// The path of the configuration: the one that was asked for, or else
    /// the default one of the system, where it has one.
    pub fn path(custom_path: Option<&String>, default_path: Option<&String>) -> (r: Result<
        String,
        ConfigError,
    >)
        ensures
            match (custom_path, default_path) {
                (Some(p), _) => r == Ok::<String, ConfigError>(*p),
                (None, Some(p)) => r == Ok::<String, ConfigError>(*p),
                (None, None) => r == Err::<String, ConfigError>(ConfigError::NoConfigDirectory),
            },
    {
        match custom_path {
            Some(p) => Ok(p.clone()),
            None => match default_path {
                Some(p) => Ok(p.clone()),
                None => Err(ConfigError::NoConfigDirectory),
            },
        }
    }

    /// The provider named `name`.
    pub fn get_provider(&self, name: &str) -> (r: Option<&ProviderConfig>)
        requires
            self.distinct(),
        ensures
            match r {
                Some(provider) => self@.contains_key(name@) && *provider == self@[name@],
                None => !self@.contains_key(name@),
            },
    {
        match self.find(name) {
            Some(i) => Some(&self.entries[i].provider),
            None => None,
        }
    }

    /// Puts `config` under `name`, in place of what was there.
    pub fn set_provider(&mut self, name: String, config: ProviderConfig)
        requires
            old(self).distinct(),
        ensures
            final(self).distinct(),
            final(self)@ == old(self)@.insert(name@, config),
    {
        let ghost before = *self;
        match self.find(name.as_str()) {
            Some(i) => {
                self.entries.set(i, Entry { name, provider: config });
                proof {
                    assert forall|k: Seq<char>, j: int| self.holds(k, j) == before.holds(k, j) by {}
                    assert(self.distinct()) by {
                        assert forall|a: int, b: int| 0 <= a < b < self.entries.len() implies (
                        #[trigger] self.entries[a]).name@ != (#[trigger] self.entries[b]).name@ by {
                            assert(before.entries[a].name@ != before.entries[b].name@);
                        }
                    }
                    self.lemma_same_places(before);
                    assert(self@ =~= before@.insert(name@, config));
                }
            },
            None => {
                self.entries.push(Entry { name, provider: config });
                proof {
                    let n = before.entries.len() as int;
                    assert(self.distinct()) by {
                        assert forall|a: int, b: int| 0 <= a < b < self.entries.len() implies (
                        #[trigger] self.entries[a]).name@ != (#[trigger] self.entries[b]).name@ by {
                            if b == n {
                                assert(!before.holds(name@, a));
                            } else {
                                assert(before.entries[a].name@ != before.entries[b].name@);
                            }
                        }
                    }
                    assert(self.holds(name@, n));
                    self.lemma_place(name@, n);
                    assert forall|k: Seq<char>| k != name@ implies self.place(k) == before.place(
                        k,
                    ) by {
                        if before.place(k) is Some {
                            let j = before.place(k)->0;
                            assert(before.holds(k, j));
                            assert(self.holds(k, j));
                            self.lemma_place(k, j);
                        } else if self.place(k) is Some {
                            let j = self.place(k)->0;
                            assert(self.holds(k, j));
                            assert(before.holds(k, j));
                        }
                    }
                    assert(self@ =~= before@.insert(name@, config));
                }
            },
        }
    }

    /// Takes the provider named `name` out, and hands it over.
    pub fn remove_provider(&mut self, name: &str) -> (r: Option<ProviderConfig>)
        requires
            old(self).distinct(),
        ensures
            final(self).distinct(),
            final(self)@ == old(self)@.remove(name@),
            r == if old(self)@.contains_key(name@) {
                Some(old(self)@[name@])
            } else {
                None
            },
    {
        let ghost before = *self;
        match self.find(name) {
            Some(i) => {
                let entry = self.entries.remove(i);
                proof {
                    let at = i as int;
                    assert(self.distinct()) by {
                        assert forall|a: int, b: int| 0 <= a < b < self.entries.len() implies (
                        #[trigger] self.entries[a]).name@ != (#[trigger] self.entries[b]).name@ by {
                            let a0 = if a < at { a } else { a + 1 };
                            let b0 = if b < at { b } else { b + 1 };
                            assert(before.entries[a0].name@ != before.entries[b0].name@);
                        }
                    }
                    assert forall|k: Seq<char>| k != name@ implies (self.place(k) is Some
                        == before.place(k) is Some) && (self.place(k) is Some
                        ==> self.entries[self.place(k)->0].provider
                        == before.entries[before.place(k)->0].provider) by {
                        if before.place(k) is Some {
                            let j = before.place(k)->0;
                            assert(before.holds(k, j));
                            let j1 = if j < at { j } else { j - 1 };
                            assert(self.holds(k, j1));
                            self.lemma_place(k, j1);
                        }
                        if self.place(k) is Some {
                            let j = self.place(k)->0;
                            assert(self.holds(k, j));
                            let j0 = if j < at { j } else { j + 1 };
                            assert(before.holds(k, j0));
                            before.lemma_place(k, j0);
                        }
                    }
                    assert(self.place(name@) is None) by {
                        if self.place(name@) is Some {
                            let j = self.place(name@)->0;
                            assert(self.holds(name@, j));
                            let j0 = if j < at { j } else { j + 1 };
                            assert(before.holds(name@, j0));
                            before.lemma_place(name@, j0);
                        }
                    }
                    assert(self@ =~= before@.remove(name@));
                }
                Some(entry.provider)
            },
            None => {
                proof {
                    assert(self@ =~= before@.remove(name@));
                }
                None
            },
        }
    }

    /// The names of the providers, each once.
    pub fn list_providers(&self) -> (names: Vec<&String>)
        requires
            self.distinct(),
        ensures
            forall|i: int| 0 <= i < names.len() ==> self@.contains_key(#[trigger] names[i]@),
            forall|name: Seq<char>|
                self@.contains_key(name) ==> exists|i: int|
                    0 <= i < names.len() && #[trigger] names[i]@ == name,
            forall|i: int, j: int|
                0 <= i < j < names.len() ==> (#[trigger] names[i])@ != (#[trigger] names[j])@,
    {
        let mut names: Vec<&String> = Vec::new();
        let mut i: usize = 0;
        while i < self.entries.len()
            invariant
                i <= self.entries.len(),
                names.len() == i,
                forall|j: int| 0 <= j < i ==> *(#[trigger] names[j]) == self.entries[j].name,
            decreases self.entries.len() - i,
        {
            names.push(&self.entries[i].name);
            i += 1;
        }
        proof {
            assert forall|j: int| 0 <= j < names.len() implies self@.contains_key(
                #[trigger] names[j]@,
            ) by {
                assert(self.holds(names[j]@, j));
            }
            assert forall|name: Seq<char>| self@.contains_key(name) implies exists|j: int|
                0 <= j < names.len() && #[trigger] names[j]@ == name by {
                let j = self.place(name)->0;
                assert(self.holds(name, j));
                assert(names[j]@ == name);
            }
        }
        names
    }
}

} // verus!
