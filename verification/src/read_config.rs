//! Where the configuration comes from.

use crate::table::Table;
use vstd::prelude::*;

verus! {

/// The environment variable that names the configuration.
pub const CONFIG_VAR: &'static str = "JJ_CONFIG";

/// Where the configuration is found.
pub enum ConfigPath {
    /// At this path.
    Given(String),
    /// In the directory for the configurations of the user, down these components.
    InConfigDir(Vec<String>),
}

/// Says where the configuration is found, going by the environment variables.
pub fn config_path(env: &Table<String>) -> (path: ConfigPath)
    ensures
        match path {
            ConfigPath::Given(path) => env@.contains_key(CONFIG_VAR@) && path
                == env@[CONFIG_VAR@],
            ConfigPath::InConfigDir(components) => !env@.contains_key(CONFIG_VAR@)
                && components.deep_view() == seq!["jj"@, "config.toml"@],
        },
{
    match env.get(CONFIG_VAR) {
        Some(path) => ConfigPath::Given(path.clone()),
        None => {
            let mut components: Vec<String> = Vec::new();
            components.push("jj".to_owned());
            components.push("config.toml".to_owned());
            assert(components.deep_view() =~= seq!["jj"@, "config.toml"@]);
            ConfigPath::InConfigDir(components)
        },
    }
}

/// A built configuration.
#[verifier::external_type_specification]
#[verifier::external_body]
pub struct ExConfig(config::Config);

/// A configuration that is being built from strings to override settings with, and from nothing
/// else.
#[verifier::external_body]
pub struct OverrideBuilder {
    builder: config::ConfigBuilder<config::builder::DefaultState>,
}

/// Whether a key is made of two names in lower-case letters, with a dot between them. Of two such
/// keys none is a part of the other.
pub open spec fn is_section_key(key: Seq<char>) -> bool {
    exists|dot: int| #[trigger] is_section_key_at(key, dot)
}

/// Whether a key is made of two names in lower-case letters, with the dot at the given position.
pub open spec fn is_section_key_at(key: Seq<char>, dot: int) -> bool {
    &&& 0 < dot < key.len() - 1
    &&& key[dot] == '.'
    &&& forall|i: int| 0 <= i < key.len() && i != dot ==> 'a' <= #[trigger] key[i] && key[i] <= 'z'
}

/// The strings that a builder overrides settings with, by their dotted keys.
pub uninterp spec fn override_values(builder: OverrideBuilder) -> Map<Seq<char>, Seq<char>>;

/// The strings that a configuration holds, by their dotted keys.
pub uninterp spec fn string_values(config: config::Config) -> Map<Seq<char>, Seq<char>>;

/// Calls `config::Config::builder`. The builder that it makes holds nothing.
#[verifier::external_body]
fn new_builder() -> (builder: OverrideBuilder)
    ensures
        (override_values(builder) == Map::<Seq<char>, Seq<char>>::empty()),
{
    OverrideBuilder { builder: config::Config::builder() }
}

/// Calls `config::ConfigBuilder::set_override`. It fails only for keys that are no path, which a
/// section key is; for those, the value takes the place of the one that the key had.
#[verifier::external_body]
fn set_override(builder: OverrideBuilder, key: &str, value: String) -> (result: OverrideBuilder)
    requires
        is_section_key(key@),
    ensures
        override_values(result) == override_values(builder).insert(key@, value@),
{
    OverrideBuilder { builder: builder.builder.set_override(key, value).unwrap() }
}

/// Calls `config::ConfigBuilder::build`. It fails only where a source does; here there is none, and
/// the configuration is made up of the values that override settings.
#[verifier::external_body]
fn build(builder: OverrideBuilder) -> (config: config::Config)
    ensures
        string_values(config) == override_values(builder),
{
    builder.builder.build().unwrap()
}

/// The values with the one of the environment variable `var` for the setting `key`, if it has one.
pub open spec fn with_variable(
    values: Map<Seq<char>, Seq<char>>,
    env: Map<Seq<char>, String>,
    var: Seq<char>,
    key: Seq<char>,
) -> Map<Seq<char>, Seq<char>> {
    if env.contains_key(var) {
        values.insert(key, env[var]@)
    } else {
        values
    }
}

/// The settings that environment variables hold values for, given which variable is for which
/// setting. Of several for one setting, the last one holds.
pub open spec fn env_values(
    env: Map<Seq<char>, String>,
    settings: Seq<(Seq<char>, Seq<char>)>,
) -> Map<Seq<char>, Seq<char>>
    decreases settings.len(),
{
    if settings.len() == 0 {
        Map::empty()
    } else {
        let (var, key) = settings.last();
        with_variable(env_values(env, settings.drop_last()), env, var, key)
    }
}

/// The environment variables that config values should override, each with its setting.
pub open spec fn base_settings() -> Seq<(Seq<char>, Seq<char>)> {
    seq![("EDITOR"@, "ui.editor"@)]
}

/// The environment variables that override config values, each with its setting.
pub open spec fn override_settings() -> Seq<(Seq<char>, Seq<char>)> {
    seq![
        ("JJ_USER"@, "user.name"@),
        ("JJ_EMAIL"@, "user.email"@),
        ("JJ_TIMESTAMP"@, "user.timestamp"@),
        ("JJ_EDITOR"@, "ui.editor"@),
    ]
}

/// Overrides the setting `key` with the value of the environment variable `var`, if it has one.
fn set_from_env(
    builder: OverrideBuilder,
    env: &Table<String>,
    var: &str,
    key: &str,
) -> (result: OverrideBuilder)
    requires
        is_section_key(key@),
    ensures
        override_values(result) == with_variable(override_values(builder), env@, var@, key@),
{
    match env.get(var) {
        Some(value) => set_override(builder, key, value.clone()),
        None => builder,
    }
}

/// Environment variables that should be overridden by config values.
pub fn env_base(env: &Table<String>) -> (config: config::Config)
    ensures
        string_values(config) == env_values(env@, base_settings()),
{
    proof {
        reveal_strlit("ui.editor");
        assert(is_section_key_at("ui.editor"@, 2));
        reveal_with_fuel(env_values, 2);
        assert(base_settings().drop_last() =~= seq![]);
    }
    let builder = new_builder();
    let builder = set_from_env(builder, env, "EDITOR", "ui.editor");
    build(builder)
}

/// What the environment variables that override config values amount to, one after the other.
proof fn lemma_override_values(env: Map<Seq<char>, String>)
    ensures
        env_values(env, override_settings()) == ({
            let values = Map::<Seq<char>, Seq<char>>::empty();
            let values = with_variable(values, env, "JJ_USER"@, "user.name"@);
            let values = with_variable(values, env, "JJ_EMAIL"@, "user.email"@);
            let values = with_variable(values, env, "JJ_TIMESTAMP"@, "user.timestamp"@);
            with_variable(values, env, "JJ_EDITOR"@, "ui.editor"@)
        }),
{
    let settings = override_settings();
    reveal_with_fuel(env_values, 5);
    assert(settings.drop_last() =~= settings.take(3));
    assert(settings.take(3).drop_last() =~= settings.take(2));
    assert(settings.take(2).drop_last() =~= settings.take(1));
    assert(settings.take(1).drop_last() =~= seq![]);
}

/// Environment variables that override config values.
pub fn env_overrides(env: &Table<String>) -> (config: config::Config)
    ensures
        string_values(config) == env_values(env@, override_settings()),
{
    proof {
        reveal_strlit("user.name");
        reveal_strlit("user.email");
        reveal_strlit("user.timestamp");
        reveal_strlit("ui.editor");
        assert(is_section_key_at("user.name"@, 4));
        assert(is_section_key_at("user.email"@, 4));
        assert(is_section_key_at("user.timestamp"@, 4));
        assert(is_section_key_at("ui.editor"@, 2));
        lemma_override_values(env@);
    }
    let builder = new_builder();
    let builder = set_from_env(builder, env, "JJ_USER", "user.name");
    let builder = set_from_env(builder, env, "JJ_EMAIL", "user.email");
    let builder = set_from_env(builder, env, "JJ_TIMESTAMP", "user.timestamp");
    let builder = set_from_env(builder, env, "JJ_EDITOR", "ui.editor");
    build(builder)
}

/// What a directory lists: a name, as bytes, and the path that it stands for.
pub struct DirEntry<P> {
    pub name: Vec<u8>,
    pub path: P,
    pub is_file: bool,
}

/// Whether `a` comes before `b` in the order of their bytes, or is the same.
pub open spec fn bytes_le(a: Seq<u8>, b: Seq<u8>) -> bool
    decreases a.len(),
{
    if a.len() == 0 {
        true
    } else if b.len() == 0 {
        false
    } else {
        a[0] < b[0] || (a[0] == b[0] && bytes_le(a.skip(1), b.skip(1)))
    }
}

/// Whether the entries come in the order of their names.
pub open spec fn is_sorted_by_name<P>(entries: Seq<DirEntry<P>>) -> bool {
    forall|i: int, j: int|
        0 <= i < j < entries.len() ==> bytes_le(
            (#[trigger] entries[i]).name@,
            (#[trigger] entries[j]).name@,
        )
}

/// The entries that are files, in the order in which they are listed.
pub open spec fn file_entries<P>(entries: Seq<DirEntry<P>>) -> Seq<DirEntry<P>> {
    entries.filter(|entry: DirEntry<P>| entry.is_file)
}

proof fn lemma_bytes_le_total(a: Seq<u8>, b: Seq<u8>)
    ensures
        bytes_le(a, b) || bytes_le(b, a),
    decreases a.len(),
{
    if a.len() > 0 && b.len() > 0 {
        lemma_bytes_le_total(a.skip(1), b.skip(1));
    }
}

proof fn lemma_bytes_le_transitive(a: Seq<u8>, b: Seq<u8>, c: Seq<u8>)
    requires
        bytes_le(a, b),
        bytes_le(b, c),
    ensures
        bytes_le(a, c),
    decreases a.len(),
{
    if a.len() > 0 && a[0] == b[0] && b[0] == c[0] {
        lemma_bytes_le_transitive(a.skip(1), b.skip(1), c.skip(1));
    }
}

/// Whether `a` comes before `b` in the order of their bytes, or is the same.
fn is_bytes_le(a: &Vec<u8>, b: &Vec<u8>) -> (le: bool)
    ensures
        le == bytes_le(a@, b@),
{
    let mut i: usize = 0;
    assert(a@.skip(0) =~= a@);
    assert(b@.skip(0) =~= b@);
    while i < a.len() && i < b.len()
        invariant
            i <= a@.len(),
            i <= b@.len(),
            bytes_le(a@, b@) == bytes_le(a@.skip(i as int), b@.skip(i as int)),
        decreases a@.len() - i,
    {
        assert(a@.skip(i as int).skip(1) =~= a@.skip(i + 1));
        assert(b@.skip(i as int).skip(1) =~= b@.skip(i + 1));
        if a[i] != b[i] {
            return a[i] < b[i];
        }
        i = i + 1;
    }
    i == a.len()
}

/// Puts an entry at its place among entries that come in the order of their names.
fn insert_sorted<P>(sorted: &mut Vec<DirEntry<P>>, entry: DirEntry<P>)
    requires
        is_sorted_by_name(old(sorted)@),
    ensures
        is_sorted_by_name(final(sorted)@),
        final(sorted)@.to_multiset() == old(sorted)@.to_multiset().insert(entry),
{
    let mut place: usize = 0;
    while place < sorted.len() && !is_bytes_le(&entry.name, &sorted[place].name)
        invariant
            place <= sorted@.len(),
            sorted@ == old(sorted)@,
            forall|i: int|
                0 <= i < place ==> bytes_le((#[trigger] sorted@[i]).name@, entry.name@),
        ensures
            place <= sorted@.len(),
            sorted@ == old(sorted)@,
            forall|i: int|
                0 <= i < place ==> bytes_le((#[trigger] sorted@[i]).name@, entry.name@),
            place < sorted@.len() ==> bytes_le(entry.name@, sorted@[place as int].name@),
        decreases sorted@.len() - place,
    {
        proof {
            lemma_bytes_le_total(entry.name@, sorted@[place as int].name@);
        }
        place = place + 1;
    }
    let ghost before = sorted@;
    sorted.insert(place, entry);
    proof {
        vstd::seq_lib::to_multiset_insert(before, place as int, entry);
        assert forall|i: int, j: int| 0 <= i < j < sorted@.len() implies bytes_le(
            (#[trigger] sorted@[i]).name@,
            (#[trigger] sorted@[j]).name@,
        ) by {
            if i < place && j > place {
                assert(bytes_le(before[i].name@, before[j - 1].name@));
            } else if i == place {
                assert(bytes_le(entry.name@, before[place as int].name@));
                if j - 1 > place {
                    lemma_bytes_le_transitive(
                        entry.name@,
                        before[place as int].name@,
                        before[j - 1].name@,
                    );
                }
            } else if i > place {
                assert(bytes_le(before[i - 1].name@, before[j - 1].name@));
            }
        }
    }
}

/// The entries that are files, in the order of their names.
fn sort_files<P>(entries: Vec<DirEntry<P>>) -> (sorted: Vec<DirEntry<P>>)
    ensures
        is_sorted_by_name(sorted@),
        sorted@.to_multiset() == file_entries(entries@).to_multiset(),
{
    let ghost all = entries@;
    let ghost is_file = |entry: DirEntry<P>| entry.is_file;
    let mut rest: Vec<DirEntry<P>> = entries;
    let mut sorted: Vec<DirEntry<P>> = Vec::new();
    proof {
        reveal(Seq::filter);
        assert(all.skip(all.len() as int) =~= seq![]);
        assert(sorted@ =~= all.skip(all.len() as int).filter(is_file));
        assert(rest@ =~= all.take(all.len() as int));
    }
    while rest.len() > 0
        invariant
            is_file == (|entry: DirEntry<P>| entry.is_file),
            rest@.len() <= all.len(),
            rest@ == all.take(rest@.len() as int),
            is_sorted_by_name(sorted@),
            sorted@.to_multiset() == all.skip(rest@.len() as int).filter(is_file).to_multiset(),
        decreases rest@.len(),
    {
        let ghost n = rest@.len();
        if let Some(entry) = rest.pop() {
            proof {
                let one = seq![entry];
                assert(all.skip(n - 1) =~= one + all.skip(n as int));
                vstd::seq::Seq::filter_distributes_over_add(one, all.skip(n as int), is_file);
                reveal_with_fuel(Seq::<_>::filter, 2);
                assert(one.drop_last() =~= seq![]);
                assert(one.filter(is_file) =~= if entry.is_file {
                    one
                } else {
                    seq![]
                });
                let after = all.skip(n as int).filter(is_file);
                if entry.is_file {
                    assert(one + after =~= after.insert(0, entry));
                    vstd::seq_lib::to_multiset_insert(after, 0, entry);
                } else {
                    assert(Seq::<DirEntry<P>>::empty() + after =~= after);
                }
                assert(rest@ =~= all.take(n - 1));
            }
            if entry.is_file {
                insert_sorted(&mut sorted, entry);
            }
        }
    }
    assert(all.skip(0) =~= all);
    sorted
}

/// What is at the path of the configuration.
pub enum FoundConfig<P> {
    /// A directory, with its entries. There are none where it could not be listed.
    Directory(Vec<DirEntry<P>>),
    /// Anything else: a file, or nothing.
    Other(P),
}

/// Whether these are the files to read the configuration from, one after the other: the files of a
/// directory in the order of their names, or else the path itself.
pub open spec fn are_config_files<P>(found: Option<FoundConfig<P>>, files: Seq<P>) -> bool {
    match found {
        None => files == Seq::<P>::empty(),
        Some(FoundConfig::Other(path)) => files == seq![path],
        Some(FoundConfig::Directory(entries)) => exists|sorted: Seq<DirEntry<P>>|
            #![trigger is_sorted_by_name(sorted)]
            {
                &&& is_sorted_by_name(sorted)
                &&& sorted.to_multiset() == file_entries(entries@).to_multiset()
                &&& files == sorted.map_values(|entry: DirEntry<P>| entry.path)
            },
    }
}

/// The files to read the configuration from.
pub fn config_files<P>(found: Option<FoundConfig<P>>) -> (files: Vec<P>)
    ensures
        are_config_files(found, files@),
{
    let mut files: Vec<P> = Vec::new();
    match found {
        None => {
            assert(files@ =~= Seq::<P>::empty());
        },
        Some(FoundConfig::Other(path)) => {
            files.push(path);
            assert(files@ =~= seq![path]);
        },
        Some(FoundConfig::Directory(entries)) => {
            let sorted = sort_files(entries);
            let ghost all = sorted@;
            let ghost paths = all.map_values(|entry: DirEntry<P>| entry.path);
            for entry in iter: sorted
                invariant
                    iter.seq() == all,
                    paths == all.map_values(|entry: DirEntry<P>| entry.path),
                    files@ == paths.take(iter.index() as int),
            {
                files.push(entry.path);
                assert(files@ =~= paths.take(iter.index() + 1));
            }
            assert(paths.take(paths.len() as int) =~= paths);
            assert(is_sorted_by_name(all));
        },
    }
    files
}

/// A source of settings.
pub enum ConfigSource<P> {
    /// Settings that are known already.
    Values(config::Config),
    /// A file in TOML, which need not be there.
    File(P),
}

/// What a [`ConfigSource`] says.
pub enum ConfigSourceView<P> {
    Values(Map<Seq<char>, Seq<char>>),
    File(P),
}

impl<P> View for ConfigSource<P> {
    type V = ConfigSourceView<P>;

    open spec fn view(&self) -> ConfigSourceView<P> {
        match *self {
            ConfigSource::Values(config) => ConfigSourceView::Values(string_values(config)),
            ConfigSource::File(path) => ConfigSourceView::File(path),
        }
    }
}

/// The sources of the configuration, given its files, in the order in which they are added to it.
/// That a later source wins over an earlier one is a rule of the config crate, which merges them,
/// and is not stated here; the test `later_sources_win` in `tests/configuration.rs` shows it.
pub open spec fn sources_in_order<P>(env: Map<Seq<char>, String>, files: Seq<P>) -> Seq<
    ConfigSourceView<P>,
> {
    seq![ConfigSourceView::Values(env_values(env, base_settings()))] + files.map_values(
        |path: P| ConfigSourceView::File(path),
    ) + seq![ConfigSourceView::Values(env_values(env, override_settings()))]
}

/// The sources of the configuration, in the order in which they are to be added to it: the config
/// crate lets later ones win.
pub fn config_sources<P>(env: &Table<String>, found: Option<FoundConfig<P>>) -> (sources: Vec<
    ConfigSource<P>,
>)
    ensures
        exists|files: Seq<P>| #[trigger]
            are_config_files(found, files) && sources@.map_values(|source: ConfigSource<P>| source@)
                == sources_in_order(env@, files),
{
    let mut sources: Vec<ConfigSource<P>> = Vec::new();
    sources.push(ConfigSource::Values(env_base(env)));
    let files = config_files(found);
    let ghost all = files@;
    for path in iter: files
        invariant
            iter.seq() == all,
            sources@.len() == iter.index() + 1,
            sources@[0]@ == ConfigSourceView::<P>::Values(env_values(env@, base_settings())),
            forall|i: int|
                0 < i <= iter.index() ==> #[trigger] sources@[i]@ == ConfigSourceView::File(
                    all[i - 1],
                ),
    {
        sources.push(ConfigSource::File(path));
    }
    sources.push(ConfigSource::Values(env_overrides(env)));
    assert(sources@.map_values(|source: ConfigSource<P>| source@) =~= sources_in_order(env@, all));
    sources
}

proof fn lemma_bytes_le_antisymmetric(a: Seq<u8>, b: Seq<u8>)
    requires
        bytes_le(a, b),
        bytes_le(b, a),
    ensures
        a == b,
    decreases a.len(),
{
    if a.len() > 0 {
        lemma_bytes_le_antisymmetric(a.skip(1), b.skip(1));
        assert(a =~= seq![a[0]] + a.skip(1));
        assert(b =~= seq![b[0]] + b.skip(1));
    } else {
        assert(a =~= b);
    }
}

/// Whether the entries can be told apart by their names.
pub open spec fn differ_by_name<P>(entries: Seq<DirEntry<P>>) -> bool {
    forall|a: DirEntry<P>, b: DirEntry<P>|
        #[trigger] entries.contains(a) && #[trigger] entries.contains(b) && a.name@ == b.name@
            ==> a == b
}

/// There is one way only to put entries that differ by name into the order of their names.
proof fn lemma_sorted_by_name_is_unique<P>(
    a: Seq<DirEntry<P>>,
    b: Seq<DirEntry<P>>,
    all: Seq<DirEntry<P>>,
)
    requires
        is_sorted_by_name(a),
        is_sorted_by_name(b),
        a.to_multiset() == b.to_multiset(),
        forall|i: int| 0 <= i < a.len() ==> all.contains(#[trigger] a[i]),
        differ_by_name(all),
    ensures
        a == b,
    decreases a.len(),
{
    vstd::seq_lib::to_multiset_len(a);
    vstd::seq_lib::to_multiset_len(b);
    if a.len() > 0 {
        vstd::seq_lib::to_multiset_contains(a, a[0]);
        vstd::seq_lib::to_multiset_contains(b, a[0]);
        vstd::seq_lib::to_multiset_contains(a, b[0]);
        vstd::seq_lib::to_multiset_contains(b, b[0]);
        assert(a.contains(a[0]) && b.contains(b[0]));
        let i = choose|i: int| 0 <= i < a.len() && a[i] == b[0];
        let j = choose|j: int| 0 <= j < b.len() && b[j] == a[0];
        if i != 0 && j != 0 {
            assert(bytes_le(a[0].name@, a[i].name@));
            assert(bytes_le(b[0].name@, b[j].name@));
            lemma_bytes_le_antisymmetric(a[0].name@, b[0].name@);
            assert(all.contains(a[0]) && all.contains(a[i]));
        }
        assert(a[0] == b[0]);
        let rest_a = a.remove(0);
        let rest_b = b.remove(0);
        vstd::seq_lib::to_multiset_remove(a, 0);
        vstd::seq_lib::to_multiset_remove(b, 0);
        lemma_sorted_by_name_is_unique(rest_a, rest_b, all);
        assert(a =~= seq![a[0]] + rest_a);
        assert(b =~= seq![b[0]] + rest_b);
    } else {
        assert(a =~= b);
    }
}

/// The files of the configuration, and their order, depend on what is in the directory alone: the
/// entries of a directory differ by name, and in which order it lists them makes no difference.
pub proof fn law_listing_order_makes_no_difference<P>(
    entries: Vec<DirEntry<P>>,
    other: Vec<DirEntry<P>>,
    files: Seq<P>,
    other_files: Seq<P>,
)
    requires
        differ_by_name(file_entries(entries@)),
        file_entries(entries@).to_multiset() == file_entries(other@).to_multiset(),
        are_config_files(Some(FoundConfig::Directory(entries)), files),
        are_config_files(Some(FoundConfig::Directory(other)), other_files),
    ensures
        files == other_files,
{
    let path = |entry: DirEntry<P>| entry.path;
    let all = file_entries(entries@);
    let sorted = choose|sorted: Seq<DirEntry<P>>|
        #![trigger is_sorted_by_name(sorted)]
        {
            &&& is_sorted_by_name(sorted)
            &&& sorted.to_multiset() == all.to_multiset()
            &&& files == sorted.map_values(path)
        };
    let other_sorted = choose|sorted: Seq<DirEntry<P>>|
        #![trigger is_sorted_by_name(sorted)]
        {
            &&& is_sorted_by_name(sorted)
            &&& sorted.to_multiset() == file_entries(other@).to_multiset()
            &&& other_files == sorted.map_values(path)
        };
    assert forall|i: int| 0 <= i < sorted.len() implies all.contains(#[trigger] sorted[i]) by {
        assert(sorted.contains(sorted[i]));
        vstd::seq_lib::to_multiset_contains(sorted, sorted[i]);
        vstd::seq_lib::to_multiset_contains(all, sorted[i]);
    }
    lemma_sorted_by_name_is_unique(sorted, other_sorted, all);
}

/// The environment variables that override settings are each for a setting of its own.
pub proof fn law_variables_have_their_settings(env: Map<Seq<char>, String>, i: int)
    requires
        0 <= i < override_settings().len(),
    ensures
        ({
            let (var, key) = override_settings()[i];
            let values = env_values(env, override_settings());
            &&& values.contains_key(key) <==> env.contains_key(var)
            &&& env.contains_key(var) ==> values[key] == env[var]@
        }),
{
    reveal_strlit("user.name");
    reveal_strlit("user.email");
    reveal_strlit("user.timestamp");
    reveal_strlit("ui.editor");
    lemma_override_values(env);
    assert("ui.editor"@[0] != "user.name"@[0] || "ui.editor"@[1] != "user.name"@[1]);
    assert("user.name"@.len() != "user.email"@.len());
    assert("user.name"@.len() != "user.timestamp"@.len());
    assert("user.email"@.len() != "user.timestamp"@.len());
    assert("ui.editor"@.len() != "user.email"@.len());
    assert("ui.editor"@.len() != "user.timestamp"@.len());
}

/// The value of a setting, given what each of a number of layers says of it: the last one that has
/// it is right. This is a model of how the config crate merges sources, for settings that are strings
/// wherever they are set. A layer with a plain value in place of a section (such as `ui`), or with a
/// table in place of a setting (such as `ui.editor`), lies outside of it. That the model holds for
/// the merging itself is not proved; the test `later_sources_win` in `tests/configuration.rs` shows
/// it.
pub open spec fn effective(layers: Seq<Map<Seq<char>, Seq<char>>>, key: Seq<char>) -> Option<
    Seq<char>,
>
    decreases layers.len(),
{
    if layers.len() == 0 {
        None
    } else if layers.last().contains_key(key) {
        Some(layers.last()[key])
    } else {
        effective(layers.drop_last(), key)
    }
}

/// What the sources say, given what is in the files.
pub open spec fn source_layers<P>(
    sources: Seq<ConfigSourceView<P>>,
    contents: spec_fn(P) -> Map<Seq<char>, Seq<char>>,
) -> Seq<Map<Seq<char>, Seq<char>>> {
    sources.map_values(
        |source: ConfigSourceView<P>|
            match source {
                ConfigSourceView::Values(values) => values,
                ConfigSourceView::File(path) => contents(path),
            },
    )
}

proof fn lemma_effective_of_first(
    first: Map<Seq<char>, Seq<char>>,
    layers: Seq<Map<Seq<char>, Seq<char>>>,
    key: Seq<char>,
)
    ensures
        effective(seq![first] + layers, key) == match effective(layers, key) {
            Some(value) => Some(value),
            None => effective(seq![first], key),
        },
    decreases layers.len(),
{
    let all = seq![first] + layers;
    if layers.len() == 0 {
        assert(all =~= seq![first]);
    } else {
        assert(all.last() == layers.last());
        assert(all.drop_last() =~= seq![first] + layers.drop_last());
        lemma_effective_of_first(first, layers.drop_last(), key);
    }
}

/// The order of the sources is right, as far as [`effective`] is how they are merged: the environment
/// variables that are meant to override the configuration do so, whatever strings are in the files,
/// and those that are meant to be overridden hold only for what no file says.
pub proof fn law_files_lie_between_the_environments<P>(
    env: Map<Seq<char>, String>,
    files: Seq<P>,
    contents: spec_fn(P) -> Map<Seq<char>, Seq<char>>,
    key: Seq<char>,
)
    ensures
        ({
            let base = env_values(env, base_settings());
            let overrides = env_values(env, override_settings());
            let in_files = effective(files.map_values(contents), key);
            effective(source_layers(sources_in_order(env, files), contents), key) == (
            if overrides.contains_key(key) {
                Some(overrides[key])
            } else if in_files is Some {
                in_files
            } else if base.contains_key(key) {
                Some(base[key])
            } else {
                None
            })
        }),
{
    let base = env_values(env, base_settings());
    let overrides = env_values(env, override_settings());
    let layers = source_layers(sources_in_order(env, files), contents);
    let file_layers = files.map_values(contents);
    assert(layers =~= (seq![base] + file_layers).push(overrides));
    assert(layers.drop_last() =~= seq![base] + file_layers);
    lemma_effective_of_first(base, file_layers, key);
    assert(seq![base].drop_last() =~= seq![]);
    reveal_with_fuel(effective, 2);
}

/// Names are ordered byte by byte: the first byte in which they differ decides, and where there is
/// none, the shorter name comes before the longer one.
pub proof fn law_first_different_byte_decides(a: Seq<u8>, b: Seq<u8>, k: int)
    requires
        0 <= k <= a.len(),
        k <= b.len(),
        a.take(k) == b.take(k),
    ensures
        k < a.len() && k < b.len() && a[k] < b[k] ==> bytes_le(a, b) && !bytes_le(b, a),
        k == a.len() ==> bytes_le(a, b),
        k == a.len() && k < b.len() ==> !bytes_le(b, a),
    decreases k,
{
    if k > 0 {
        assert(a.take(k)[0] == a[0] && b.take(k)[0] == b[0]);
        assert(a.skip(1).take(k - 1) =~= a.take(k).skip(1));
        assert(b.skip(1).take(k - 1) =~= b.take(k).skip(1));
        law_first_different_byte_decides(a.skip(1), b.skip(1), k - 1);
    }
}

/// Of two files in a directory, the one whose name comes later in the order of bytes is read later:
/// the first byte in which the names differ decides, and where there is none, the longer name comes
/// later.
pub proof fn law_later_names_are_read_later<P>(
    entries: Vec<DirEntry<P>>,
    files: Seq<P>,
    a: int,
    b: int,
    k: int,
)
    requires
        are_config_files(Some(FoundConfig::Directory(entries)), files),
        0 <= a < entries@.len() && entries@[a].is_file,
        0 <= b < entries@.len() && entries@[b].is_file,
        0 <= k <= entries@[a].name@.len() && k < entries@[b].name@.len(),
        entries@[a].name@.take(k) == entries@[b].name@.take(k),
        k == entries@[a].name@.len() || entries@[a].name@[k] < entries@[b].name@[k],
    ensures
        exists|i: int, j: int|
            0 <= i < j < files.len() && #[trigger] files[i] == entries@[a].path
                && #[trigger] files[j] == entries@[b].path,
{
    let first = entries@[a];
    let second = entries@[b];
    let all = file_entries(entries@);
    let sorted = choose|sorted: Seq<DirEntry<P>>|
        #![trigger is_sorted_by_name(sorted)]
        {
            &&& is_sorted_by_name(sorted)
            &&& sorted.to_multiset() == all.to_multiset()
            &&& files == sorted.map_values(|entry: DirEntry<P>| entry.path)
        };
    law_first_different_byte_decides(first.name@, second.name@, k);
    lemma_files_are_kept(entries@, a);
    lemma_files_are_kept(entries@, b);
    vstd::seq_lib::to_multiset_contains(all, first);
    vstd::seq_lib::to_multiset_contains(all, second);
    vstd::seq_lib::to_multiset_contains(sorted, first);
    vstd::seq_lib::to_multiset_contains(sorted, second);
    let i = choose|i: int| 0 <= i < sorted.len() && sorted[i] == first;
    let j = choose|j: int| 0 <= j < sorted.len() && sorted[j] == second;
    assert(i < j) by {
        if i == j {
            assert(bytes_le(second.name@, first.name@)) by {
                law_first_different_byte_decides(
                    first.name@,
                    first.name@,
                    first.name@.len() as int,
                );
            }
        } else if j < i {
            assert(bytes_le(sorted[j].name@, sorted[i].name@));
        }
    }
    assert(files[i] == first.path && files[j] == second.path);
}

proof fn lemma_files_are_kept<P>(entries: Seq<DirEntry<P>>, a: int)
    requires
        0 <= a < entries.len(),
        entries[a].is_file,
    ensures
        file_entries(entries).contains(entries[a]),
{
    broadcast use vstd::seq_lib::group_filter_ensures;

    let is_file = |entry: DirEntry<P>| entry.is_file;
    assert(is_file(entries[a]));
    assert(entries.contains(entries[a]));
    assert(entries.filter(is_file).contains(entries[a]));
}

/// The files of a directory are read, all of them, each of them once, and nothing else: there are as
/// many as there are entries that are files, each of these is read, and all that is read is one of
/// these. A path that is no directory is read itself, and without a path nothing is.
pub proof fn law_all_files_are_read<P>(entries: Vec<DirEntry<P>>, path: P, files: Seq<P>)
    ensures
        are_config_files(Some(FoundConfig::Directory(entries)), files) ==> files.len()
            == entries@.filter(|entry: DirEntry<P>| entry.is_file).len(),
        are_config_files(Some(FoundConfig::Directory(entries)), files) ==> forall|
            entry: DirEntry<P>,
        | #[trigger]
            entries@.contains(entry) && entry.is_file ==> files.contains(entry.path),
        are_config_files(Some(FoundConfig::Directory(entries)), files) ==> forall|file: P|
            #[trigger]
            files.contains(file) ==> exists|entry: DirEntry<P>| #[trigger]
                entries@.contains(entry) && entry.is_file && entry.path == file,
        are_config_files(Some(FoundConfig::Other(path)), files) <==> files == seq![path],
        are_config_files(None, files) <==> files.len() == 0,
{
    assert(files.len() == 0 ==> files =~= Seq::<P>::empty());
    if are_config_files(Some(FoundConfig::Directory(entries)), files) {
        let all = file_entries(entries@);
        let is_file = |entry: DirEntry<P>| entry.is_file;
        let sorted = choose|sorted: Seq<DirEntry<P>>|
            #![trigger is_sorted_by_name(sorted)]
            {
                &&& is_sorted_by_name(sorted)
                &&& sorted.to_multiset() == all.to_multiset()
                &&& files == sorted.map_values(|entry: DirEntry<P>| entry.path)
            };
        vstd::seq_lib::to_multiset_len(sorted);
        vstd::seq_lib::to_multiset_len(all);
        assert(all == entries@.filter(is_file));
        assert(files.len() == entries@.filter(|entry: DirEntry<P>| entry.is_file).len());
        assert forall|entry: DirEntry<P>| #[trigger]
            entries@.contains(entry) && entry.is_file implies files.contains(entry.path) by {
            let a = choose|a: int| 0 <= a < entries@.len() && entries@[a] == entry;
            lemma_files_are_kept(entries@, a);
            vstd::seq_lib::to_multiset_contains(all, entry);
            vstd::seq_lib::to_multiset_contains(sorted, entry);
            let i = choose|i: int| 0 <= i < sorted.len() && sorted[i] == entry;
            assert(files[i] == entry.path);
        }
        assert forall|file: P| #[trigger] files.contains(file) implies exists|entry: DirEntry<P>|
            #[trigger]
            entries@.contains(entry) && entry.is_file && entry.path == file by {
            let i = choose|i: int| 0 <= i < files.len() && files[i] == file;
            let entry = sorted[i];
            assert(sorted.contains(entry));
            vstd::seq_lib::to_multiset_contains(sorted, entry);
            vstd::seq_lib::to_multiset_contains(all, entry);
            entries@.lemma_filter_contains_rev(is_file, entry);
            let m = choose|m: int| 0 <= m < all.len() && all[m] == entry;
            entries@.lemma_filter_pred(is_file, m);
            assert(entries@.contains(entry) && entry.is_file && entry.path == file);
        }
    }
}

/// Each environment variable that matters holds for one setting, whether it is empty or not, and no
/// other setting comes from the environment.
pub proof fn law_settings_from_the_environment(env: Map<Seq<char>, String>, key: Seq<char>)
    ensures
        ({
            let base = env_values(env, base_settings());
            let overrides = env_values(env, override_settings());
            &&& base.contains_key(key) <==> key == "ui.editor"@ && env.contains_key("EDITOR"@)
            &&& base.contains_key(key) ==> base[key] == env["EDITOR"@]@
            &&& overrides.contains_key(key) <==> {
                ||| key == "user.name"@ && env.contains_key("JJ_USER"@)
                ||| key == "user.email"@ && env.contains_key("JJ_EMAIL"@)
                ||| key == "user.timestamp"@ && env.contains_key("JJ_TIMESTAMP"@)
                ||| key == "ui.editor"@ && env.contains_key("JJ_EDITOR"@)
            }
            &&& overrides.contains_key(key) ==> {
                &&& key == "user.name"@ ==> overrides[key] == env["JJ_USER"@]@
                &&& key == "user.email"@ ==> overrides[key] == env["JJ_EMAIL"@]@
                &&& key == "user.timestamp"@ ==> overrides[key] == env["JJ_TIMESTAMP"@]@
                &&& key == "ui.editor"@ ==> overrides[key] == env["JJ_EDITOR"@]@
            }
        }),
{
    lemma_override_values(env);
    reveal_with_fuel(env_values, 2);
    assert(base_settings().drop_last() =~= seq![]);
    law_variables_have_their_settings(env, 0);
    law_variables_have_their_settings(env, 1);
    law_variables_have_their_settings(env, 2);
    law_variables_have_their_settings(env, 3);
}

/// The first source is the environment that files override, the last one the environment that
/// overrides them, and between them are all the files, in their order.
pub proof fn law_all_sources_are_in_order<P>(env: Map<Seq<char>, String>, files: Seq<P>)
    ensures
        ({
            let sources = sources_in_order(env, files);
            &&& sources.len() == files.len() + 2
            &&& sources[0] == ConfigSourceView::<P>::Values(env_values(env, base_settings()))
            &&& forall|i: int|
                0 <= i < files.len() ==> sources[i + 1] == ConfigSourceView::File(
                    #[trigger] files[i],
                )
            &&& sources.last() == ConfigSourceView::<P>::Values(
                env_values(env, override_settings()),
            )
        }),
{
}

/// The view of a source keeps its settings, or its file.
pub proof fn law_source_views_are_complete<P>(config: config::Config, path: P)
    ensures
        ConfigSource::<P>::Values(config)@ == ConfigSourceView::<P>::Values(string_values(config)),
        ConfigSource::File(path)@ == ConfigSourceView::File(path),
{
}

} // verus!
