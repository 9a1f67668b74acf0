//! The configs known to the program: which file of the config directory names
//! which config, the table of configs by name, and the active config.
use vstd::prelude::*;
use crate::params::Monitor;
use crate::text::{chars_of, string_of, to_lowercase, unicode_lowercase};

verus! {

/// The position of the last `'.'` in a text, if there is one.
pub open spec fn last_dot(s: Seq<char>) -> Option<int>
    decreases s.len(),
{
    if s.len() == 0 {
        None
    } else if s.last() == '.' {
        Some(s.len() - 1)
    } else {
        last_dot(s.drop_last())
    }
}

/// The config that a file of the config directory holds: a file named
/// `<name>.<ext>` (split at the last dot) with a non-empty name and an extension
/// that lower-cases to `"toml"` holds the config named by the lower-cased name;
/// any other file holds none.
pub open spec fn spec_config_name(file_name: Seq<char>) -> Option<Seq<char>> {
    match last_dot(file_name) {
        Some(i) => if i > 0 && unicode_lowercase(file_name.skip(i + 1)) == "toml"@ {
            Some(unicode_lowercase(file_name.take(i)))
        } else {
            None
        },
        None => None,
    }
}

/// The name of the config that the file `file_name` of the config directory
/// holds, or `None` when the file is to be skipped.
pub fn config_name_for_file(file_name: &str) -> (r: Option<String>)
    ensures
        match spec_config_name(file_name@) {
            Some(n) => r is Some && r->0@ == n,
            None => r is None,
        },
{
    let chars = chars_of(file_name);
    let ghost f = file_name@;
    let n = chars.len();
    let mut k = n;
    assert(f.take(n as int) =~= f);
    while k > 0 && chars[k - 1] != '.'
        invariant
            k <= n,
            n == chars@.len(),
            chars@ == f,
            last_dot(f) == last_dot(f.take(k as int)),
        decreases k,
    {
        assert(f.take(k as int).drop_last() =~= f.take(k - 1));
        k = k - 1;
    }
    if k == 0 {
        return None;
    }
    let i = k - 1;
    assert(f.take(k as int).last() == '.');
    assert(last_dot(f) == Some(i as int));
    if i == 0 {
        return None;
    }
    let ext = string_of(&chars, i + 1, n);
    assert(ext@ =~= f.skip(i + 1));
    let lower_ext = to_lowercase(ext.as_str());
    let toml = "toml".to_owned();
    if lower_ext != toml {
        return None;
    }
    let name = string_of(&chars, 0, i);
    assert(name@ =~= f.take(i as int));
    Some(to_lowercase(name.as_str()))
}

/// Configs stored by name, in two vectors of the same length.
struct Table<V> {
    names: Vec<String>,
    values: Vec<V>,
}

impl<V> Table<V> {
    /// The names are as many as the configs, and no name occurs twice.
    pub closed spec fn wf(&self) -> bool {
        &&& self.names.len() == self.values.len()
        &&& forall|i: int, j: int|
            0 <= i < self.names.len() && 0 <= j < self.names.len() && i != j
                ==> #[trigger] self.names@[i]@ != #[trigger] self.names@[j]@
    }

    closed spec fn has_name(&self, k: Seq<char>) -> bool {
        exists|i: int| 0 <= i < self.names.len() && #[trigger] self.names@[i]@ == k
    }

    closed spec fn index_of(&self, k: Seq<char>) -> int {
        choose|i: int| 0 <= i < self.names.len() && #[trigger] self.names@[i]@ == k
    }

    /// The configs, by name.
    pub closed spec fn configs(&self) -> Map<Seq<char>, V> {
        Map::new(|k: Seq<char>| self.has_name(k), |k: Seq<char>| self.values@[self.index_of(k)])
    }

    proof fn lemma_lookup(&self, i: int)
        requires
            self.wf(),
            0 <= i < self.names.len(),
        ensures
            self.configs().contains_key(self.names@[i]@),
            self.configs()[self.names@[i]@] == self.values@[i],
    {
        let k = self.names@[i]@;
        assert(self.has_name(k));
        let j = self.index_of(k);
        assert(self.names@[j]@ == k);
    }

    fn empty() -> (r: Self)
        ensures
            r.wf(),
            r.configs() == Map::<Seq<char>, V>::empty(),
    {
        let r = Table { names: Vec::new(), values: Vec::new() };
        assert(r.configs() =~= Map::<Seq<char>, V>::empty());
        r
    }

    fn find(&self, name: &String) -> (r: Option<usize>)
        requires
            self.wf(),
        ensures
            match r {
                Some(i) => i < self.names.len() && self.names@[i as int]@ == name@,
                None => !self.configs().contains_key(name@),
            },
    {
        let n = self.names.len();
        let mut i: usize = 0;
        while i < n
            invariant
                i <= n,
                n == self.names.len(),
                forall|j: int| 0 <= j < i ==> #[trigger] self.names@[j]@ != name@,
            decreases n - i,
        {
            if self.names[i] == *name {
                return Some(i);
            }
            i = i + 1;
        }
        None
    }

    fn get(&self, name: &String) -> (r: Option<&V>)
        requires
            self.wf(),
        ensures
            match r {
                Some(v) => self.configs().contains_key(name@) && *v == self.configs()[name@],
                None => !self.configs().contains_key(name@),
            },
    {
        match self.find(name) {
            Some(i) => {
                proof {
                    self.lemma_lookup(i as int);
                }
                Some(&self.values[i])
            },
            None => None,
        }
    }

    fn insert(&mut self, name: String, conf: V) -> (r: Option<V>)
        requires
            old(self).wf(),
        ensures
            final(self).wf(),
            final(self).configs() == old(self).configs().insert(name@, conf),
            r == (if old(self).configs().contains_key(name@) {
                Some(old(self).configs()[name@])
            } else {
                None
            }),
    {
        let ghost old_self = *self;
        match self.find(&name) {
            Some(i) => {
                proof {
                    old_self.lemma_lookup(i as int);
                }
                let old_conf = self.values.remove(i);
                self.values.insert(i, conf);
                proof {
                    assert(self.names@ == old_self.names@);
                    assert(self.values@ =~= old_self.values@.update(i as int, conf));
                    assert forall|k: Seq<char>| #[trigger] self.has_name(k) == old_self.has_name(k) by {
                    }
                    assert forall|k: Seq<char>|
                        self.has_name(k) implies #[trigger] self.values@[self.index_of(k)] == (if k
                        == name@ {
                        conf
                    } else {
                        old_self.values@[old_self.index_of(k)]
                    }) by {
                        let j = self.index_of(k);
                        assert(self.names@[j]@ == k);
                        if k == name@ {
                            assert(j == i);
                        } else {
                            assert(j != i);
                        }
                    }
                    assert(self.configs() =~= old_self.configs().insert(name@, conf));
                }
                Some(old_conf)
            },
            None => {
                self.names.push(name);
                self.values.push(conf);
                proof {
                    let n = old_self.names.len() as int;
                    assert forall|k: Seq<char>|
                        #[trigger] self.has_name(k) == (old_self.has_name(k) || k
                            == name@) by {
                        if old_self.has_name(k) {
                            let j = old_self.index_of(k);
                            assert(self.names@[j] == old_self.names@[j]);
                        }
                        if k == name@ {
                            assert(self.names@[n]@ == k);
                        }
                        if self.has_name(k) && k != name@ {
                            let j = self.index_of(k);
                            assert(j != n);
                            assert(old_self.names@[j] == self.names@[j]);
                        }
                    }
                    assert forall|k: Seq<char>|
                        self.has_name(k) implies #[trigger] self.values@[self.index_of(k)] == (if k
                        == name@ {
                        conf
                    } else {
                        old_self.values@[old_self.index_of(k)]
                    }) by {
                        let j = self.index_of(k);
                        assert(self.names@[j]@ == k);
                        if k == name@ {
                            assert(j == n);
                        } else {
                            assert(j != n);
                            let j0 = old_self.index_of(k);
                            assert(old_self.names@[j]@ == k);
                            assert(old_self.has_name(k));
                            assert(old_self.names@[j0]@ == k);
                            assert(j0 == j);
                        }
                    }
                    assert(self.configs() =~= old_self.configs().insert(name@, conf));
                }
                None
            },
        }
    }

}

/// The table of configs by name (`V` is the config type), with the name of the
/// active config and the chosen monitor.
pub struct Config<V> {
    table: Table<V>,
    monitor: Monitor,
    active_config: String,
}

impl<V> Config<V> {
    /// No name occurs twice in the table.
    #[verifier::type_invariant]
    pub closed spec fn wf(&self) -> bool {
        self.table.wf()
    }

    /// The configs, by name.
    pub closed spec fn configs(&self) -> Map<Seq<char>, V> {
        self.table.configs()
    }

    /// The name of the active config.
    pub closed spec fn active(&self) -> Seq<char> {
        self.active_config@
    }

    /// The chosen monitor.
    pub closed spec fn monitor(&self) -> Monitor {
        self.monitor
    }

    /// A table with no configs, the active config named `"builtin"` and the
    /// monitor chosen automatically.
    pub fn new() -> (r: Self)
        ensures
            r.configs() == Map::<Seq<char>, V>::empty(),
            r.active() == "builtin"@,
            r.monitor() == Monitor::Auto,
    {
        Config { table: Table::empty(), monitor: Monitor::Auto, active_config: "builtin".to_owned() }
    }

    /// The config named `name`, if there is one.
    pub fn get_config(&self, name: &String) -> (r: Option<&V>)
        ensures
            match r {
                Some(v) => self.configs().contains_key(name@) && *v == self.configs()[name@],
                None => !self.configs().contains_key(name@),
            },
    {
        proof {
            use_type_invariant(self);
        }
        self.table.get(name)
    }

    /// The active config, or `None` when no config bears its name (the caller
    /// then falls back to the default config).
    pub fn get_active_config(&self) -> (r: Option<&V>)
        ensures
            match r {
                Some(v) => self.configs().contains_key(self.active()) && *v == self.configs()[self.active()],
                None => !self.configs().contains_key(self.active()),
            },
    {
        self.get_config(&self.active_config)
    }

    /// The name of the active config.
    pub fn active_config_name(&self) -> (r: &String)
        ensures
            r@ == self.active(),
    {
        &self.active_config
    }

    /// Makes the config named `name` the active one.
    pub fn set_active_config(&mut self, name: String)
        ensures
            final(self).active() == name@,
            final(self).configs() == old(self).configs(),
            final(self).monitor() == old(self).monitor(),
    {
        proof {
            use_type_invariant(&*self);
        }
        self.active_config = name;
    }

    /// The chosen monitor.
    pub fn get_monitor(&self) -> (r: &Monitor)
        ensures
            *r == self.monitor(),
    {
        &self.monitor
    }

    /// Chooses the monitor.
    pub fn set_monitor(&mut self, monitor: Monitor)
        ensures
            final(self).monitor() == monitor,
            final(self).configs() == old(self).configs(),
            final(self).active() == old(self).active(),
    {
        proof {
            use_type_invariant(&*self);
        }
        self.monitor = monitor;
    }

    /// Stores `conf` under `name`, replacing the config of that name; returns
    /// the config that was replaced.
    pub fn insert(&mut self, name: String, conf: V) -> (r: Option<V>)
        ensures
            final(self).configs() == old(self).configs().insert(name@, conf),
            r == (if old(self).configs().contains_key(name@) {
                Some(old(self).configs()[name@])
            } else {
                None
            }),
            final(self).active() == old(self).active(),
            final(self).monitor() == old(self).monitor(),
    {
        proof {
            use_type_invariant(&*self);
        }
        let mut table = Table::empty();
        std::mem::swap(&mut table, &mut self.table);
        let r = table.insert(name, conf);
        self.table = table;
        r
    }

    /// Takes in one config read from the config directory: the first config
    /// read becomes the active one while the built-in config is still active,
    /// and the config is stored under its name.
    pub fn load_config(&mut self, name: String, conf: V)
        ensures
            final(self).configs() == old(self).configs().insert(name@, conf),
            final(self).active() == (if old(self).active() == "builtin"@ {
                name@
            } else {
                old(self).active()
            }),
            final(self).monitor() == old(self).monitor(),
    {
        proof {
            use_type_invariant(&*self);
        }
        let builtin = "builtin".to_owned();
        if self.active_config == builtin {
            self.active_config = name.clone();
        }
        let _ = self.insert(name, conf);
    }

    /// Takes in a config read from the config directory only when it passed
    /// its checks (its paths expand and name files): a valid config is loaded as
    /// `load_config` does; an invalid one is left out, so that it is never
    /// shown, and the table stays as it was. Returns whether it was loaded.
    pub fn adopt_config(&mut self, name: String, conf: V, valid: bool) -> (adopted: bool)
        ensures
            adopted == valid,
            valid ==> final(self).configs() == old(self).configs().insert(name@, conf),
            valid ==> final(self).active() == (if old(self).active() == "builtin"@ {
                name@
            } else {
                old(self).active()
            }),
            !valid ==> final(self).configs() == old(self).configs() && final(self).active()
                == old(self).active(),
            final(self).monitor() == old(self).monitor(),
    {
        if valid {
            self.load_config(name, conf);
        }
        valid
    }

    /// Ends the start-up: the built-in config is stored under `"builtin"`,
    /// replacing any config of that name read from disk, and the config named on
    /// the command line, if any, becomes the active one. Returns whether a config
    /// read from disk was replaced.
    pub fn install_builtin(&mut self, builtin: V, requested: Option<String>) -> (replaced: bool)
        ensures
            replaced == old(self).configs().contains_key("builtin"@),
            final(self).configs() == old(self).configs().insert("builtin"@, builtin),
            final(self).active() == (match requested {
                Some(n) => n@,
                None => old(self).active(),
            }),
            final(self).monitor() == old(self).monitor(),
    {
        let replaced = self.insert("builtin".to_owned(), builtin).is_some();
        if let Some(n) = requested {
            self.set_active_config(n);
        }
        replaced
    }
}


proof fn lemma_last_dot_append(n: Seq<char>, e: Seq<char>)
    requires
        forall|i: int| 0 <= i < e.len() ==> e[i] != '.',
    ensures
        last_dot(n + seq!['.'] + e) == Some(n.len() as int),
    decreases e.len(),
{
    let f = n + seq!['.'] + e;
    if e.len() == 0 {
        assert(f.last() == '.');
    } else {
        assert(f.last() == e.last());
        assert(f.drop_last() =~= n + seq!['.'] + e.drop_last());
        lemma_last_dot_append(n, e.drop_last());
    }
}

/// A file `<name>.<ext>` whose extension has no dot and lower-cases to
/// `"toml"` holds the config named by the lower-cased `<name>`, whatever dots
/// the name holds; so `slideshow.toml` holds the config `slideshow`.
pub proof fn law_config_name_of_file(name: Seq<char>, ext: Seq<char>)
    requires
        name.len() > 0,
        forall|i: int| 0 <= i < ext.len() ==> ext[i] != '.',
        unicode_lowercase(ext) == "toml"@,
    ensures
        spec_config_name(name + seq!['.'] + ext) == Some(unicode_lowercase(name)),
{
    let f = name + seq!['.'] + ext;
    lemma_last_dot_append(name, ext);
    assert(f.skip(name.len() as int + 1) =~= ext);
    assert(f.take(name.len() as int) =~= name);
}

proof fn lemma_last_dot_at_most_first(f: Seq<char>)
    requires
        forall|i: int| 0 < i < f.len() ==> f[i] != '.',
    ensures
        last_dot(f) is None || last_dot(f) == Some(0int),
    decreases f.len(),
{
    if f.len() > 1 {
        assert(f.last() != '.');
        assert forall|i: int| 0 < i < f.drop_last().len() implies f.drop_last()[i] != '.' by {
            assert(f.drop_last()[i] == f[i]);
        }
        lemma_last_dot_at_most_first(f.drop_last());
        assert(last_dot(f) == last_dot(f.drop_last()));
    } else if f.len() == 1 {
        assert(f.drop_last().len() == 0);
        assert(last_dot(f.drop_last()) is None);
    }
}

/// A file without a dot, or whose only dot is its first character, holds no
/// config.
pub proof fn law_config_name_needs_name_and_dot(file_name: Seq<char>)
    requires
        forall|i: int| 0 < i < file_name.len() ==> file_name[i] != '.',
    ensures
        spec_config_name(file_name) is None,
{
    lemma_last_dot_at_most_first(file_name);
}

proof fn lemma_last_dot(s: Seq<char>)
    ensures
        match last_dot(s) {
            Some(i) => 0 <= i < s.len() && s[i] == '.' && forall|j: int| i < j < s.len() ==> s[j]
                != '.',
            None => forall|j: int| 0 <= j < s.len() ==> s[j] != '.',
        },
    decreases s.len(),
{
    if s.len() > 0 && s.last() != '.' {
        lemma_last_dot(s.drop_last());
        assert forall|j: int| 0 <= j < s.len() - 1 implies s[j] == s.drop_last()[j] by {}
    }
}

/// A file holds a config only when it has a dot with a non-empty name before
/// it, no dot after it, and an extension after it that lower-cases to
/// `"toml"`; the config is then named by the lower-cased text before that dot.
/// So `wallpaper.webp` or `notes.txt` hold none.
pub proof fn law_config_file_is_toml(file_name: Seq<char>)
    ensures
        spec_config_name(file_name) is Some ==> exists|i: int|
            #![trigger file_name.skip(i + 1)]
            0 < i < file_name.len() && file_name[i] == '.' && (forall|j: int|
                i < j < file_name.len() ==> file_name[j] != '.') && unicode_lowercase(
                file_name.skip(i + 1),
            ) == "toml"@ && spec_config_name(file_name) == Some(
                unicode_lowercase(file_name.take(i)),
            ),
{
    lemma_last_dot(file_name);
    if let Some(i) = last_dot(file_name) {
        if spec_config_name(file_name) is Some {
            assert(file_name.skip(i + 1) == file_name.skip(i + 1));
        }
    }
}

/// What is stored is what is read back: after `conf` is stored under `name`,
/// looking `name` up gives `conf`, and every other name gives what it gave
/// before.
pub proof fn law_config_read_after_write<V>(
    before: Config<V>,
    after: Config<V>,
    name: Seq<char>,
    conf: V,
    other: Seq<char>,
)
    requires
        after.configs() == before.configs().insert(name, conf),
    ensures
        after.configs().contains_key(name) && after.configs()[name] == conf,
        other != name ==> (after.configs().contains_key(other) == before.configs().contains_key(
            other,
        ) && (before.configs().contains_key(other) ==> after.configs()[other]
            == before.configs()[other])),
{
}

/// Without any config read from disk and without a name on the command line,
/// the active config after start-up is the built-in one.
pub proof fn law_no_config_means_builtin<V>(fresh: Config<V>, started: Config<V>, builtin: V)
    requires
        fresh.configs() == Map::<Seq<char>, V>::empty(),
        fresh.active() == "builtin"@,
        started.configs() == fresh.configs().insert("builtin"@, builtin),
        started.active() == fresh.active(),
    ensures
        started.configs().contains_key(started.active()),
        started.configs()[started.active()] == builtin,
{
}

/// Once started, a config named `"builtin"` is always the built-in one, even
/// when a file of that name was read.
pub proof fn law_builtin_is_builtin<V>(loaded: Config<V>, started: Config<V>, builtin: V)
    requires
        started.configs() == loaded.configs().insert("builtin"@, builtin),
    ensures
        started.configs().contains_key("builtin"@) && started.configs()["builtin"@] == builtin,
{
}

/// The active config is the one last made active by name, as long as a
/// config of that name exists: making `name` active and then asking for the
/// active config gives the config stored under `name`.
pub proof fn law_active_follows_name<V>(before: Config<V>, after: Config<V>, name: Seq<char>)
    requires
        after.active() == name,
        after.configs() == before.configs(),
    ensures
        after.configs().contains_key(after.active()) == before.configs().contains_key(name),
        before.configs().contains_key(name) ==> after.configs()[after.active()]
            == before.configs()[name],
{
}


/// A config that fails its checks is never shown: when the only config read
/// from disk is invalid and no name is given on the command line, the built-in
/// config is the active one after start-up.
pub proof fn law_invalid_config_means_builtin<V>(
    fresh: Config<V>,
    after_read: Config<V>,
    started: Config<V>,
    name: Seq<char>,
    builtin: V,
)
    requires
        fresh.configs() == Map::<Seq<char>, V>::empty(),
        fresh.active() == "builtin"@,
        after_read.configs() == fresh.configs() && after_read.active() == fresh.active(),
        started.configs() == after_read.configs().insert("builtin"@, builtin),
        started.active() == after_read.active(),
    ensures
        started.configs().contains_key(started.active()),
        started.configs()[started.active()] == builtin,
        !started.configs().contains_key(name) || name == "builtin"@,
{
}

} // verus!
