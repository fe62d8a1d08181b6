//! The plugin registry: parsing the host project's plugin manifest and
//! deriving per-platform plugin metadata. The YAML text is turned into a
//! fixed-shape raw document by the parsing library; everything read out
//! of that document — required keys, platform sections, the platform
//! filter — is this module's own verified logic.
//!
//! The manifest maps each plugin name to a record holding a package
//! `path` and one section per supported platform; a section names the
//! plugin class and an optional source subpath. Unknown keys are
//! ignored. A present section missing its class, or a missing package
//! path, fails the whole registry build: a partial registry could
//! silently omit a plugin the host expects to link.

use vstd::prelude::*;

use yaml_rust::Yaml;

use crate::error::{BuildError, BuildResult};
use crate::path::str_eq;

verus! {

/// A scalar or one-level mapping value of the raw document.
pub enum RawValue {
    /// A string scalar.
    Str(String),
    /// A mapping whose keys and values are kept when they are strings;
    /// a `None` key or value records a non-string one.
    Mapping(Vec<(Option<String>, Option<String>)>),
    /// Any other YAML value (number, list, null, ...).
    Other,
}

/// One field of a plugin record.
pub struct RawField {
    /// The field key; `None` when the YAML key is not a string.
    pub key: Option<String>,
    pub value: RawValue,
}

/// One top-level manifest entry.
pub struct RawEntry {
    /// The plugin name; `None` when the YAML key is not a string.
    pub key: Option<String>,
    /// The record's fields; `None` when the entry's value is not a
    /// mapping.
    pub fields: Option<Vec<RawField>>,
}

/// The parser's YAML node type, declared so that it can stand in the
/// conversion wrapper's signature; opaque to everything verified.
#[verifier::external_type_specification]
#[verifier::external_body]
pub struct ExYaml(yaml_rust::Yaml);

/// Whether the parsing library accepts the text; a function of the text
/// alone.
pub uninterp spec fn yaml_parses(text: Seq<char>) -> bool;

/// The fixed-shape raw document the parser and the reshaping below
/// produce for an accepted text; a function of the text alone, since the
/// scanner is deterministic and the hash keeps insertion order.
pub uninterp spec fn yaml_raw_of(text: Seq<char>) -> Seq<RawEntry>;

/// The conversion half of [`parse_manifest_text`]. Relies on
/// `yaml_rust::Yaml::into_hash` and `into_string` and on the hash's
/// insertion order: the first document's top-level pairs become the raw
/// entries in manifest order; string keys and values are kept, a
/// non-string one is recorded as `None`, and any deeper value is marked
/// `Other`.
#[verifier::external_body]
fn docs_to_raw(docs: Vec<Yaml>) -> (r: Vec<RawEntry>)
{
    docs.into_iter().next().and_then(Yaml::into_hash).map_or(Vec::new(), |h| h.into_iter().map(
        |(k, v)| RawEntry {
            key: k.into_string(),
            fields: v.into_hash().map(|m| m.into_iter().map(|(a, b)| RawField {
                key: a.into_string(),
                value: match b {
                    Yaml::String(s) => RawValue::Str(s),
                    Yaml::Hash(q) => RawValue::Mapping(
                        q.into_iter().map(|(x, z)| (x.into_string(), z.into_string())).collect(),
                    ),
                    _ => RawValue::Other,
                },
            }).collect()),
        },
    ).collect())
}

/// Relies on `yaml_rust::YamlLoader::load_from_str`: parses the text
/// into YAML documents, deterministically in the text alone, and
/// reshapes the first document through [`docs_to_raw`]. A scanner
/// failure is rendered to its message.
#[verifier::external_body]
pub(crate) fn parse_manifest_text(text: &str) -> (r: Result<Vec<RawEntry>, String>)
    ensures
        r is Ok <==> yaml_parses(text@),
        r is Ok ==> r->Ok_0@ == yaml_raw_of(text@),
{
    yaml_rust::YamlLoader::load_from_str(text).map(docs_to_raw).map_err(|e| e.to_string())
}

/// Mathematical value of a [`PlatformSection`].
pub struct SectionV {
    pub platform: Seq<char>,
    pub plugin_class: Seq<char>,
    pub source_path: Option<Seq<char>>,
}

/// One platform's part of a plugin record: the native class to register
/// and, optionally, a platform-specific source subpath.
pub struct PlatformSection {
    pub platform: String,
    pub plugin_class: String,
    pub source_path: Option<String>,
}

/// Mathematical value of an optional string.
pub open spec fn opt_str_view(o: Option<String>) -> Option<Seq<char>> {
    match o {
        Some(s) => Some(s@),
        None => None,
    }
}

impl View for PlatformSection {
    type V = SectionV;

    open spec fn view(&self) -> SectionV {
        SectionV {
            platform: self.platform@,
            plugin_class: self.plugin_class@,
            source_path: opt_str_view(self.source_path),
        }
    }
}

impl DeepView for PlatformSection {
    type V = SectionV;

    open spec fn deep_view(&self) -> SectionV {
        self@
    }
}

/// Mathematical value of a [`ManifestEntry`].
pub struct EntryV {
    pub name: Seq<char>,
    pub package_path: Seq<char>,
    pub platforms: Seq<SectionV>,
}

/// One interpreted manifest entry: the plugin name, its package path
/// and every platform section it carries, in manifest order.
pub struct ManifestEntry {
    pub name: String,
    pub package_path: String,
    pub platforms: Vec<PlatformSection>,
}

impl View for ManifestEntry {
    type V = EntryV;

    open spec fn view(&self) -> EntryV {
        EntryV {
            name: self.name@,
            package_path: self.package_path@,
            platforms: self.platforms.deep_view(),
        }
    }
}

impl DeepView for ManifestEntry {
    type V = EntryV;

    open spec fn deep_view(&self) -> EntryV {
        self@
    }
}

/// The value of the first pair whose key is the given string, searching
/// from position `i`: `None` when no such pair exists, `Some(v)` with
/// the pair's value otherwise (`Some(None)` records a non-string
/// value).
pub open spec fn pair_lookup(
    pairs: Seq<(Option<String>, Option<String>)>,
    key: Seq<char>,
    i: int,
) -> Option<Option<Seq<char>>>
    decreases pairs.len() - i,
{
    if i < 0 || i >= pairs.len() {
        None
    } else if pairs[i].0 matches Some(k) && k@ == key {
        Some(opt_str_view(pairs[i].1))
    } else {
        pair_lookup(pairs, key, i + 1)
    }
}

/// The interpreted section for a platform key: its class is required to
/// be a string, its source path is kept when one is given as a string.
pub open spec fn spec_section(
    platform: Seq<char>,
    pairs: Seq<(Option<String>, Option<String>)>,
) -> Option<SectionV> {
    match pair_lookup(pairs, "class"@, 0) {
        Some(Some(c)) => Some(
            SectionV {
                platform,
                plugin_class: c,
                source_path: match pair_lookup(pairs, "path"@, 0) {
                    Some(Some(p)) => Some(p),
                    _ => None,
                },
            },
        ),
        _ => None,
    }
}

/// The first string-valued `path` field, searching from position `i`:
/// the entry's package path.
pub open spec fn field_path_lookup(fields: Seq<RawField>, i: int) -> Option<Seq<char>>
    decreases fields.len() - i,
{
    if i < 0 || i >= fields.len() {
        None
    } else {
        match (fields[i].key, fields[i].value) {
            (Some(k), RawValue::Str(s)) => if k@ == "path"@ {
                Some(s@)
            } else {
                field_path_lookup(fields, i + 1)
            },
            _ => field_path_lookup(fields, i + 1),
        }
    }
}

/// The platform sections of the first `i` fields, in order: every
/// mapping-valued field with a string key is a section; a malformed
/// section poisons the whole record.
pub open spec fn spec_sections(fields: Seq<RawField>, i: int) -> Option<Seq<SectionV>>
    decreases i,
{
    if i <= 0 {
        Some(Seq::empty())
    } else {
        match spec_sections(fields, i - 1) {
            None => None,
            Some(rest) => match (fields[i - 1].key, fields[i - 1].value) {
                (Some(k), RawValue::Mapping(pairs)) => match spec_section(k@, pairs@) {
                    None => None,
                    Some(sec) => Some(rest.push(sec)),
                },
                _ => Some(rest),
            },
        }
    }
}

/// The interpreted form of one raw entry: `None` when the entry is
/// malformed (non-string name, value that is no record, missing package
/// path, or a platform section without a class).
pub open spec fn spec_entry(raw: RawEntry) -> Option<EntryV> {
    match raw.key {
        None => None,
        Some(name) => match raw.fields {
            None => None,
            Some(fields) => match field_path_lookup(fields@, 0) {
                None => None,
                Some(path) => match spec_sections(fields@, fields@.len() as int) {
                    None => None,
                    Some(platforms) => Some(EntryV { name: name@, package_path: path, platforms }),
                },
            },
        },
    }
}

/// The interpreted form of the first `i` raw entries; `None` as soon as
/// one of them is malformed.
pub open spec fn spec_interpret(raw: Seq<RawEntry>, i: int) -> Option<Seq<EntryV>>
    decreases i,
{
    if i <= 0 {
        Some(Seq::empty())
    } else {
        match spec_interpret(raw, i - 1) {
            None => None,
            Some(rest) => match spec_entry(raw[i - 1]) {
                None => None,
                Some(e) => Some(rest.push(e)),
            },
        }
    }
}

/// Looks up the value bound to a key among a section's pairs.
fn pair_find(pairs: &Vec<(Option<String>, Option<String>)>, key: &str) -> (r: Option<
    Option<String>,
>)
    ensures
        opt_opt_view(r) == pair_lookup(pairs@, key@, 0),
{
    let mut i: usize = 0;
    while i < pairs.len()
        invariant
            i <= pairs.len(),
            pair_lookup(pairs@, key@, 0) == pair_lookup(pairs@, key@, i as int),
        decreases pairs.len() - i,
    {
        let hit = match &pairs[i].0 {
            Some(k) => str_eq(k.as_str(), key),
            None => false,
        };
        if hit {
            let v = match &pairs[i].1 {
                Some(s) => Some(s.clone()),
                None => None,
            };
            return Some(v);
        }
        i += 1;
    }
    None
}

/// Mathematical value of a doubly optional string.
pub open spec fn opt_opt_view(o: Option<Option<String>>) -> Option<Option<Seq<char>>> {
    match o {
        Some(v) => Some(opt_str_view(v)),
        None => None,
    }
}

/// Finds the entry's package path among its fields.
fn find_package_path(fields: &Vec<RawField>) -> (r: Option<String>)
    ensures
        opt_str_view(r) == field_path_lookup(fields@, 0),
{
    let mut i: usize = 0;
    while i < fields.len()
        invariant
            i <= fields.len(),
            field_path_lookup(fields@, 0) == field_path_lookup(fields@, i as int),
        decreases fields.len() - i,
    {
        let hit = match &fields[i].key {
            Some(k) => str_eq(k.as_str(), "path"),
            None => false,
        };
        if hit {
            match &fields[i].value {
                RawValue::Str(s) => {
                    return Some(s.clone());
                },
                _ => {},
            }
        }
        i += 1;
    }
    None
}

/// Interprets one raw entry, or says in prose what is malformed about
/// it.
fn interpret_entry(raw: &RawEntry) -> (res: Result<ManifestEntry, String>)
    ensures
        res is Ok <==> spec_entry(*raw) is Some,
        res is Ok ==> res->Ok_0@ == spec_entry(*raw)->0,
{
    let name = match &raw.key {
        Some(n) => n.clone(),
        None => {
            return Err(String::from_str("a plugin name is not a string"));
        },
    };
    let fields = match &raw.fields {
        Some(f) => f,
        None => {
            return Err(String::from_str("a plugin entry is not a mapping"));
        },
    };
    let package_path = match find_package_path(fields) {
        Some(p) => p,
        None => {
            return Err(String::from_str("a plugin entry has no package path"));
        },
    };
    let mut platforms: Vec<PlatformSection> = Vec::new();
    let mut i: usize = 0;
    while i < fields.len()
        invariant
            i <= fields.len(),
            raw.key is Some,
            raw.fields matches Some(f) && f == *fields,
            field_path_lookup(fields@, 0) is Some,
            spec_sections(fields@, i as int) matches Some(s) && platforms.deep_view() == s,
        decreases fields.len() - i,
    {
        let section_key = match &fields[i].key {
            Some(k) => Some(k.clone()),
            None => None,
        };
        match (&fields[i].value, section_key) {
            (RawValue::Mapping(pairs), Some(k)) => {
                let class = match pair_find(pairs, "class") {
                    Some(Some(c)) => c,
                    _ => {
                        proof {
                            assert(spec_sections(fields@, i + 1 as int) is None);
                            lemma_sections_none_propagates(
                                fields@,
                                i + 1 as int,
                                fields@.len() as int,
                            );
                        }
                        return Err(
                            String::from_str("a platform section has no plugin class"),
                        );
                    },
                };
                let source_path = match pair_find(pairs, "path") {
                    Some(Some(p)) => Some(p),
                    _ => None,
                };
                let ghost before = platforms.deep_view();
                platforms.push(PlatformSection { platform: k, plugin_class: class, source_path });
                proof {
                    assert(platforms.deep_view() =~= before.push(
                        spec_section(k@, pairs@)->0,
                    ));
                }
            },
            _ => {},
        }
        i += 1;
    }
    let e = ManifestEntry { name, package_path, platforms };
    proof {
        assert(spec_entry(*raw) matches Some(ev) && e@ == ev);
    }
    Ok(e)
}

/// Interprets the whole raw document, or says what is malformed.
pub fn interpret_manifest(raw: &Vec<RawEntry>) -> (res: Result<Vec<ManifestEntry>, String>)
    ensures
        res is Ok <==> spec_interpret(raw@, raw@.len() as int) is Some,
        res is Ok ==> res->Ok_0.deep_view() == spec_interpret(raw@, raw@.len() as int)->0,
{
    let mut entries: Vec<ManifestEntry> = Vec::new();
    let mut i: usize = 0;
    while i < raw.len()
        invariant
            i <= raw.len(),
            spec_interpret(raw@, i as int) matches Some(s) && entries.deep_view() == s,
        decreases raw.len() - i,
    {
        match interpret_entry(&raw[i]) {
            Ok(e) => {
                let ghost before = entries.deep_view();
                entries.push(e);
                proof {
                    assert(entries.deep_view() =~= before.push(spec_entry(raw@[i as int])->0));
                }
            },
            Err(cause) => {
                proof {
                    lemma_interpret_none_propagates(raw@, i + 1 as int, raw@.len() as int);
                }
                return Err(cause);
            },
        }
        i += 1;
    }
    Ok(entries)
}

/// A malformed section prefix stays malformed however far the field
/// scan goes.
proof fn lemma_sections_none_propagates(fields: Seq<RawField>, i: int, j: int)
    requires
        0 < i <= j,
        spec_sections(fields, i) is None,
    ensures
        spec_sections(fields, j) is None,
    decreases j - i,
{
    if i < j {
        lemma_sections_none_propagates(fields, i + 1, j);
    }
}

/// Mathematical value of a [`Plugin`].
pub struct PluginV {
    pub name: Seq<char>,
    pub path: Seq<char>,
    pub platform_path: Option<Seq<char>>,
    pub platform_name: Seq<char>,
    pub plugin_class: Seq<char>,
}

/// The class name a platform section supplies for native registration.
#[derive(Debug)]
pub struct PluginPlatformInfo {
    pub plugin_class: String,
}

/// One plugin of the registry, resolved for the active target platform.
#[derive(Debug)]
pub struct Plugin {
    pub name: String,
    pub path: String,
    pub platform_path: Option<String>,
    pub platform_name: String,
    pub platform_info: PluginPlatformInfo,
}

impl View for Plugin {
    type V = PluginV;

    open spec fn view(&self) -> PluginV {
        PluginV {
            name: self.name@,
            path: self.path@,
            platform_path: opt_str_view(self.platform_path),
            platform_name: self.platform_name@,
            plugin_class: self.platform_info.plugin_class@,
        }
    }
}

impl DeepView for Plugin {
    type V = PluginV;

    open spec fn deep_view(&self) -> PluginV {
        self@
    }
}

/// The first section for the given platform, searching from position
/// `i`.
pub open spec fn spec_find_section(
    platforms: Seq<SectionV>,
    platform: Seq<char>,
    i: int,
) -> Option<SectionV>
    decreases platforms.len() - i,
{
    if i < 0 || i >= platforms.len() {
        None
    } else if platforms[i].platform == platform {
        Some(platforms[i])
    } else {
        spec_find_section(platforms, platform, i + 1)
    }
}

/// The registry the first `i` entries yield for a platform: exactly the
/// entries carrying a section for that platform, in manifest order, each
/// resolved through its section.
pub open spec fn spec_select(es: Seq<EntryV>, platform: Seq<char>, i: int) -> Seq<PluginV>
    decreases i,
{
    if i <= 0 {
        Seq::empty()
    } else {
        let rest = spec_select(es, platform, i - 1);
        match spec_find_section(es[i - 1].platforms, platform, 0) {
            Some(sec) => rest.push(
                PluginV {
                    name: es[i - 1].name,
                    path: es[i - 1].package_path,
                    platform_path: sec.source_path,
                    platform_name: platform,
                    plugin_class: sec.plugin_class,
                },
            ),
            None => rest,
        }
    }
}

/// The names of the first `i` entries that carry a section for the
/// platform, in manifest order.
pub open spec fn spec_names_with_section(es: Seq<EntryV>, platform: Seq<char>, i: int) -> Seq<
    Seq<char>,
>
    decreases i,
{
    if i <= 0 {
        Seq::empty()
    } else {
        let rest = spec_names_with_section(es, platform, i - 1);
        if spec_find_section(es[i - 1].platforms, platform, 0) is Some {
            rest.push(es[i - 1].name)
        } else {
            rest
        }
    }
}

/// Law: plugin selection is platform-pure. Two manifests whose entries
/// agree, entry for entry, on name, package path and the section for
/// one platform yield the same registry for that platform, whatever
/// their sections for other platforms say.
pub proof fn lemma_select_platform_pure(es1: Seq<EntryV>, es2: Seq<EntryV>, platform: Seq<char>)
    requires
        es1.len() == es2.len(),
        forall|j: int|
            0 <= j < es1.len() ==> (#[trigger] es1[j]).name == es2[j].name && es1[j].package_path
                == es2[j].package_path && spec_find_section(es1[j].platforms, platform, 0)
                == spec_find_section(es2[j].platforms, platform, 0),
    ensures
        spec_select(es1, platform, es1.len() as int) == spec_select(
            es2,
            platform,
            es2.len() as int,
        ),
{
    lemma_select_platform_pure_upto(es1, es2, platform, es1.len() as int);
}

/// The induction behind [`lemma_select_platform_pure`].
proof fn lemma_select_platform_pure_upto(
    es1: Seq<EntryV>,
    es2: Seq<EntryV>,
    platform: Seq<char>,
    i: int,
)
    requires
        es1.len() == es2.len(),
        i <= es1.len(),
        forall|j: int|
            0 <= j < es1.len() ==> (#[trigger] es1[j]).name == es2[j].name && es1[j].package_path
                == es2[j].package_path && spec_find_section(es1[j].platforms, platform, 0)
                == spec_find_section(es2[j].platforms, platform, 0),
    ensures
        spec_select(es1, platform, i) == spec_select(es2, platform, i),
    decreases i,
{
    if i > 0 {
        lemma_select_platform_pure_upto(es1, es2, platform, i - 1);
    }
}

/// Law: the registry for a platform holds exactly the entries that
/// carry a section for it — the selected plugin names are, in order,
/// the names of those entries and no others.
pub proof fn lemma_select_exact(es: Seq<EntryV>, platform: Seq<char>, i: int)
    requires
        i <= es.len(),
    ensures
        spec_select(es, platform, i).map_values(|p: PluginV| p.name) == spec_names_with_section(
            es,
            platform,
            i,
        ),
    decreases i,
{
    if i > 0 {
        lemma_select_exact(es, platform, i - 1);
        let rest = spec_select(es, platform, i - 1);
        match spec_find_section(es[i - 1].platforms, platform, 0) {
            Some(sec) => {
                let p = PluginV {
                    name: es[i - 1].name,
                    path: es[i - 1].package_path,
                    platform_path: sec.source_path,
                    platform_name: platform,
                    plugin_class: sec.plugin_class,
                };
                assert(rest.push(p).map_values(|q: PluginV| q.name) =~= rest.map_values(
                    |q: PluginV| q.name,
                ).push(p.name));
            },
            None => {},
        }
    } else {
        assert(spec_select(es, platform, i).map_values(|p: PluginV| p.name)
            =~= Seq::<Seq<char>>::empty());
    }
}

impl ManifestEntry {
    /// The entry's section for a platform, if it carries one.
    pub fn find_section(&self, platform: &String) -> (r: Option<&PlatformSection>)
        ensures
            ({
                let found = spec_find_section(self@.platforms, platform@, 0);
                match r {
                    Some(sec) => found == Some(sec@),
                    None => found is None,
                }
            }),
    {
        let mut i: usize = 0;
        while i < self.platforms.len()
            invariant
                i <= self.platforms.len(),
                spec_find_section(self@.platforms, platform@, 0) == spec_find_section(
                    self@.platforms,
                    platform@,
                    i as int,
                ),
            decreases self.platforms.len() - i,
        {
            if str_eq(self.platforms[i].platform.as_str(), platform.as_str()) {
                return Some(&self.platforms[i]);
            }
            i += 1;
        }
        None
    }
}

/// Applies the platform filter: of every interpreted entry, exactly
/// those carrying a section for the active platform are kept, each
/// resolved to a [`Plugin`].
pub fn select_platform(entries: &Vec<ManifestEntry>, platform: &String) -> (r: Vec<Plugin>)
    ensures
        r.deep_view() == spec_select(entries.deep_view(), platform@, entries.len() as int),
{
    let mut plugins: Vec<Plugin> = Vec::new();
    let mut i: usize = 0;
    while i < entries.len()
        invariant
            i <= entries.len(),
            plugins.deep_view() == spec_select(entries.deep_view(), platform@, i as int),
        decreases entries.len() - i,
    {
        match entries[i].find_section(platform) {
            Some(sec) => {
                let source_path = match &sec.source_path {
                    Some(p) => Some(p.clone()),
                    None => None,
                };
                let p = Plugin {
                    name: entries[i].name.clone(),
                    path: entries[i].package_path.clone(),
                    platform_path: source_path,
                    platform_name: platform.clone(),
                    platform_info: PluginPlatformInfo { plugin_class: sec.plugin_class.clone() },
                };
                let ghost before = plugins.deep_view();
                let ghost pv = p@;
                plugins.push(p);
                proof {
                    assert(plugins.deep_view() =~= before.push(pv));
                    assert(plugins.deep_view() =~= spec_select(
                        entries.deep_view(),
                        platform@,
                        i + 1 as int,
                    ));
                }
            },
            None => {
                proof {
                    assert(plugins.deep_view() =~= spec_select(
                        entries.deep_view(),
                        platform@,
                        i + 1 as int,
                    ));
                }
            },
        }
        i += 1;
    }
    plugins
}

/// Builds the whole registry from the manifest text: parse, interpret,
/// filter for the active platform. Parse and interpretation failures
/// are `ManifestParseError` carrying the offending text.
pub fn load_registry(text: &str, platform: &String) -> (res: BuildResult<Vec<Plugin>>)
    ensures
        res is Ok <==> (yaml_parses(text@) && spec_interpret(
            yaml_raw_of(text@),
            yaml_raw_of(text@).len() as int,
        ) is Some),
        res is Err ==> (res->Err_0 matches BuildError::ManifestParseError { text: t, cause: _ }
            && (t matches Some(tt) && tt@ == text@)),
        res is Ok ==> res->Ok_0.deep_view() == spec_select(
            spec_interpret(yaml_raw_of(text@), yaml_raw_of(text@).len() as int)->0,
            platform@,
            spec_interpret(yaml_raw_of(text@), yaml_raw_of(text@).len() as int)->0.len() as int,
        ),
{
    let raw = match parse_manifest_text(text) {
        Ok(raw) => raw,
        Err(cause) => {
            return Err(BuildError::ManifestParseError { text: Some(text.to_owned()), cause });
        },
    };
    let entries = match interpret_manifest(&raw) {
        Ok(entries) => entries,
        Err(cause) => {
            return Err(BuildError::ManifestParseError { text: Some(text.to_owned()), cause });
        },
    };
    proof {
        assert(raw@ == yaml_raw_of(text@));
        assert(entries.deep_view() == spec_interpret(
            yaml_raw_of(text@),
            yaml_raw_of(text@).len() as int,
        )->0);
        assert(entries.deep_view().len() == entries@.len());
    }
    let plugins = select_platform(&entries, platform);
    proof {
        assert(plugins.deep_view() == spec_select(
            entries.deep_view(),
            platform@,
            entries.deep_view().len() as int,
        ));
    }
    Ok(plugins)
}

/// A malformed prefix stays malformed however far interpretation goes.
proof fn lemma_interpret_none_propagates(raw: Seq<RawEntry>, i: int, j: int)
    requires
        0 < i <= j,
        spec_interpret(raw, i) is None,
    ensures
        spec_interpret(raw, j) is None,
    decreases j - i,
{
    if i < j {
        lemma_interpret_none_propagates(raw, i + 1, j);
    }
}

} // verus!
