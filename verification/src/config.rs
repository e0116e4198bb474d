//! Configuration model: named region configurations and the group that
//! selects the current one.
//!
//! The group keys its configurations by name, with each name present at most
//! once; a lookup finds the entry carrying the requested name.  Reading and
//! writing configuration files is the surrounding application's job.

use vstd::prelude::*;

verus! {

/// The name a configuration is filed under.
#[derive(Debug, Clone, PartialEq, Eq, Hash)]
pub struct ConfigName(pub String);

impl ConfigName {
    /// The name as a string slice.
    pub fn as_str(&self) -> (r: &str)
        ensures
            r@ == self.0@,
    {
        self.0.as_str()
    }
}

/// The API-facing part of one configuration.
#[derive(Debug, Clone, PartialEq)]
pub struct ConfigOVHapiV6 {
    pub endpoint_url: String,
    pub create_token_url: String,
}

/// One region configuration.
#[derive(Debug, Clone, PartialEq)]
pub struct Config {
    pub cli_release_url: String,
    pub auth_method: String,
    pub ovhapiv6: ConfigOVHapiV6,
}

/// What can go wrong handling configurations.
#[derive(Debug)]
pub enum Error {
    ConfigNameNotFound(ConfigName),
    DeserializationError(String),
    ReadFileError(String),
    SaveConfigError(String, String),
}

fn clone_config(c: &Config) -> (r: Config)
    ensures
        r == *c,
{
    Config {
        cli_release_url: c.cli_release_url.clone(),
        auth_method: c.auth_method.clone(),
        ovhapiv6: ConfigOVHapiV6 {
            endpoint_url: c.ovhapiv6.endpoint_url.clone(),
            create_token_url: c.ovhapiv6.create_token_url.clone(),
        },
    }
}

/// The configuration filed under `key`, taking the first entry that carries
/// it.
pub open spec fn lookup(entries: Seq<(ConfigName, Config)>, key: Seq<char>) -> Option<Config>
    decreases entries.len(),
{
    if entries.len() == 0 {
        None
    } else if entries.first().0.0@ == key {
        Some(entries.first().1)
    } else {
        lookup(entries.drop_first(), key)
    }
}

proof fn lemma_lookup_at(entries: Seq<(ConfigName, Config)>, key: Seq<char>, i: int)
    requires
        0 <= i < entries.len(),
        forall|k: int| 0 <= k < i ==> (#[trigger] entries[k]).0.0@ != key,
        entries[i].0.0@ == key,
    ensures
        lookup(entries, key) == Some(entries[i].1),
    decreases i,
{
    if i == 0 {
        assert(entries.first() == entries[0]);
    } else {
        assert(entries.first() == entries[0]);
        lemma_lookup_at(entries.drop_first(), key, i - 1);
        assert(entries.drop_first()[i - 1] == entries[i]);
    }
}

proof fn lemma_lookup_none(entries: Seq<(ConfigName, Config)>, key: Seq<char>)
    requires
        forall|k: int| 0 <= k < entries.len() ==> (#[trigger] entries[k]).0.0@ != key,
    ensures
        lookup(entries, key) is None,
    decreases entries.len(),
{
    if entries.len() > 0 {
        assert(entries.first() == entries[0]);
        lemma_lookup_none(entries.drop_first(), key);
    }
}

proof fn lemma_lookup_update_same(
    entries: Seq<(ConfigName, Config)>,
    i: int,
    p: (ConfigName, Config),
    key: Seq<char>,
)
    requires
        0 <= i < entries.len(),
        entries[i].0.0@ == p.0.0@,
        p.0.0@ != key,
    ensures
        lookup(entries.update(i, p), key) == lookup(entries, key),
    decreases i,
{
    let updated = entries.update(i, p);
    assert(updated.first() == updated[0]);
    assert(entries.first() == entries[0]);
    if i == 0 {
        assert(updated.drop_first() =~= entries.drop_first());
    } else {
        if entries[0].0.0@ != key {
            assert(updated.drop_first() =~= entries.drop_first().update(i - 1, p));
            lemma_lookup_update_same(entries.drop_first(), i - 1, p, key);
        }
    }
}

proof fn lemma_lookup_push(entries: Seq<(ConfigName, Config)>, p: (ConfigName, Config), key: Seq<
    char,
>)
    ensures
        lookup(entries.push(p), key) == (if lookup(entries, key) is Some {
            lookup(entries, key)
        } else if p.0.0@ == key {
            Some(p.1)
        } else {
            None
        }),
    decreases entries.len(),
{
    let pushed = entries.push(p);
    if entries.len() == 0 {
        assert(pushed.first() == p);
        assert(pushed.drop_first() =~= Seq::<(ConfigName, Config)>::empty());
        assert(lookup(entries, key) is None);
        if p.0.0@ == key {
            assert(lookup(pushed, key) == Some(p.1));
        } else {
            assert(lookup(pushed, key) == lookup(pushed.drop_first(), key));
            assert(lookup(pushed, key) is None);
        }
    } else {
        assert(pushed.first() == entries.first());
        assert(pushed.drop_first() =~= entries.drop_first().push(p));
        lemma_lookup_push(entries.drop_first(), p, key);
        assert(entries.first() == entries[0]);
    }
}

/// A named group of configurations with a current selection.
pub struct AllConfig {
    pub current_config_name: ConfigName,
    pub configs: Vec<(ConfigName, Config)>,
}

impl AllConfig {
    /// Each name is filed at most once.
    pub open spec fn wf(&self) -> bool {
        forall|i: int, j: int|
            0 <= i < j < self.configs@.len() ==> (#[trigger] self.configs@[i]).0.0@ != (
            #[trigger] self.configs@[j]).0.0@
    }

    /// The name of the currently selected configuration.
    pub fn get_current_config_name(&self) -> (r: &ConfigName)
        ensures
            *r == self.current_config_name,
    {
        &self.current_config_name
    }

    /// The configuration filed under the given name, if any.
    pub fn get_config(&self, config_name: &ConfigName) -> (r: Option<&Config>)
        ensures
            r matches Some(c) ==> lookup(self.configs@, config_name.0@) == Some(*c),
            r is None ==> lookup(self.configs@, config_name.0@) is None,
    {
        let len = self.configs.len();
        for i in 0..len
            invariant
                len == self.configs@.len(),
                forall|k: int| 0 <= k < i ==> (#[trigger] self.configs@[k]).0.0@ != config_name.0@,
        {
            if self.configs[i].0.0 == config_name.0 {
                proof {
                    lemma_lookup_at(self.configs@, config_name.0@, i as int);
                }
                return Some(&self.configs[i].1);
            }
        }
        proof {
            lemma_lookup_none(self.configs@, config_name.0@);
        }
        None
    }

    /// The currently selected configuration; an error naming the selection
    /// when no configuration is filed under it.
    pub fn get_current_config(&self) -> (r: Result<&Config, Error>)
        ensures
            r matches Ok(c) ==> lookup(self.configs@, self.current_config_name.0@) == Some(*c),
            r matches Err(e) ==> (lookup(self.configs@, self.current_config_name.0@) is None
                && (e matches Error::ConfigNameNotFound(n) && n.0@
                == self.current_config_name.0@)),
    {
        let name = ConfigName(self.current_config_name.0.clone());
        match self.get_config(&name) {
            Some(c) => Ok(c),
            None => Err(Error::ConfigNameNotFound(name)),
        }
    }

    /// Selects the configuration filed under the given name and returns a
    /// copy of it; an error, with nothing changed, when the name is unknown.
    pub fn set_current_config(&mut self, config_name: ConfigName) -> (r: Result<Config, Error>)
        ensures
            r matches Ok(c) ==> (lookup(old(self).configs@, config_name.0@) == Some(c)
                && final(self).current_config_name == config_name
                && final(self).configs == old(self).configs),
            r matches Err(e) ==> (lookup(old(self).configs@, config_name.0@) is None
                && *final(self) == *old(self)
                && (e matches Error::ConfigNameNotFound(n) && n.0@ == config_name.0@)),
    {
        let found = match self.get_config(&config_name) {
            Some(c) => Some(clone_config(c)),
            None => None,
        };
        match found {
            Some(c) => {
                self.current_config_name = config_name;
                Ok(c)
            },
            None => Err(Error::ConfigNameNotFound(config_name)),
        }
    }

    fn find_index(&self, config_name: &ConfigName) -> (r: Option<usize>)
        ensures
            r matches Some(i) ==> (i < self.configs@.len() && self.configs@[i as int].0.0@
                == config_name.0@ && forall|k: int|
                0 <= k < i ==> (#[trigger] self.configs@[k]).0.0@ != config_name.0@),
            r is None ==> forall|k: int|
                0 <= k < self.configs@.len() ==> (#[trigger] self.configs@[k]).0.0@
                    != config_name.0@,
    {
        let len = self.configs.len();
        for i in 0..len
            invariant
                len == self.configs@.len(),
                forall|k: int| 0 <= k < i ==> (#[trigger] self.configs@[k]).0.0@ != config_name.0@,
        {
            if self.configs[i].0.0 == config_name.0 {
                return Some(i);
            }
        }
        None
    }

    /// Files a configuration under a name, replacing what was filed there.
    pub fn add_config(&mut self, config_name: ConfigName, config: Config)
        requires
            old(self).wf(),
        ensures
            final(self).wf(),
            final(self).current_config_name == old(self).current_config_name,
            lookup(final(self).configs@, config_name.0@) == Some(config),
            forall|key: Seq<char>|
                key != config_name.0@ ==> #[trigger] lookup(final(self).configs@, key) == lookup(
                    old(self).configs@,
                    key,
                ),
    {
        let at = self.find_index(&config_name);
        match at {
            Some(i) => {
                let ghost pre = self.configs@;
                let ghost entry = (config_name, config);
                let name_copy = ConfigName(config_name.0.clone());
                self.configs.remove(i);
                self.configs.insert(i, (name_copy, config));
                proof {
                    assert(self.configs@ =~= pre.update(i as int, entry));
                    lemma_lookup_at(self.configs@, config_name.0@, i as int);
                    assert forall|key: Seq<char>| key != config_name.0@ implies #[trigger] lookup(
                        self.configs@,
                        key,
                    ) == lookup(pre, key) by {
                        lemma_lookup_update_same(pre, i as int, entry, key);
                    }
                    assert forall|a: int, b: int|
                        0 <= a < b < self.configs@.len() implies (
                    #[trigger] self.configs@[a]).0.0@ != (#[trigger] self.configs@[b]).0.0@ by {
                        assert(pre[a].0.0@ != pre[b].0.0@);
                    }
                }
            },
            None => {
                let ghost pre = self.configs@;
                let ghost entry = (config_name, config);
                self.configs.push((config_name, config));
                proof {
                    lemma_lookup_none(pre, entry.0.0@);
                    lemma_lookup_push(pre, entry, entry.0.0@);
                    assert forall|key: Seq<char>| key != entry.0.0@ implies #[trigger] lookup(
                        self.configs@,
                        key,
                    ) == lookup(pre, key) by {
                        lemma_lookup_push(pre, entry, key);
                    }
                    assert forall|a: int, b: int|
                        0 <= a < b < self.configs@.len() implies (
                    #[trigger] self.configs@[a]).0.0@ != (#[trigger] self.configs@[b]).0.0@ by {
                        if b < pre.len() {
                            assert(pre[a].0.0@ != pre[b].0.0@);
                        }
                    }
                }
            },
        }
    }
}

} // verus!
