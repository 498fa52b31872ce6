//! Importing what a module uses without declaring it: the members of known
//! packages, and the elements whose tags stand in its templates.

use crate::pattern::group_matches;
use crate::pattern::is_match;
use crate::pattern::optional_text;
use crate::pattern::regex_group_matches;
use crate::pattern::regex_is_match;
use crate::pattern::regex_replace_first;
use crate::pattern::replace_first;
use crate::text::replace;
use crate::text::replaced;
use crate::text::same_text;
use indexmap::IndexMap;
use vstd::prelude::*;
use vstd::string::StringExecFns;

verus! {

#[verifier::external_type_specification]
#[verifier::external_body]
#[verifier::reject_recursive_types(K)]
#[verifier::reject_recursive_types(V)]
#[verifier::reject_recursive_types(S)]
pub struct ExIndexMap<K, V, S>(IndexMap<K, V, S>);

/// A member that a package exports: under its own name, or as a pair of the
/// exported name and the name it is imported as.
#[derive(Debug, Clone, PartialEq)]
pub enum MemberOrMemberAs {
    Member(String),
    MemberAs([String; 2]),
}

/// Where the declarations of the imported members are written: the default
/// file where the flag is set, nowhere where it is not, or a path of one's
/// own.
#[derive(Debug, Clone, PartialEq)]
pub enum AutoImportDts {
    Src(bool),
    CustomPath(String),
}

/// What a configuration imports automatically.
#[derive(Debug, PartialEq)]
pub struct AutoImportContent {
    /// The configuration that this one builds on.
    pub extends: Option<String>,
    /// For each package the members it exports; no package occurs twice.
    pub members: Option<Vec<(String, Vec<MemberOrMemberAs>)>>,
    /// For each package the paths of its elements, by tag pattern.
    pub elements: Option<IndexMap<String, IndexMap<String, String>>>,
}

/// The automatic imports as configured: the built-in ones, switched on or
/// off, or a configuration of one's own.
#[derive(Debug, PartialEq)]
pub enum AutoImport {
    Gem(bool),
    CustomContent(AutoImportContent),
}

/// Where the local name `local` comes from.
#[derive(Debug, PartialEq, Eq)]
pub struct MemberImport {
    pub local: String,
    /// The exported name, where it differs from the local one.
    pub imported: Option<String>,
    pub package: String,
}

/// The import that a tag matching `pattern` stands for.
#[derive(Debug, PartialEq, Eq)]
pub struct TagRule {
    /// A regular expression over tags.
    pub pattern: String,
    /// The replacement string that gives the specifier.
    pub path: String,
}

/// The automatic imports, ready for use.
#[derive(Debug, PartialEq, Eq)]
pub struct AutoImportConfig {
    /// No local name occurs twice.
    pub member_map: Vec<MemberImport>,
    pub tag_config: Vec<TagRule>,
}

/// One name bound by an import.
#[derive(Debug, PartialEq, Eq)]
pub struct Specifier {
    pub local: String,
    pub imported: Option<String>,
    /// The scope that the local name was used in.
    pub ctxt: u32,
}

/// One import declaration to add.
#[derive(Debug, PartialEq, Eq)]
pub struct ImportPlan {
    pub src: String,
    pub specifiers: Vec<Specifier>,
}

pub enum MemberSpec {
    Member(Seq<char>),
    MemberAs(Seq<char>, Seq<char>),
}

pub struct MemberImportView {
    pub local: Seq<char>,
    pub imported: Option<Seq<char>>,
    pub package: Seq<char>,
}

pub struct TagRuleView {
    pub pattern: Seq<char>,
    pub path: Seq<char>,
}

pub struct SpecifierView {
    pub local: Seq<char>,
    pub imported: Option<Seq<char>>,
    pub ctxt: u32,
}

pub struct ImportPlanView {
    pub src: Seq<char>,
    pub specifiers: Seq<SpecifierView>,
}

impl View for MemberOrMemberAs {
    type V = MemberSpec;

    open spec fn view(&self) -> MemberSpec {
        match self {
            MemberOrMemberAs::Member(name) => MemberSpec::Member(name@),
            MemberOrMemberAs::MemberAs(pair) => MemberSpec::MemberAs(pair[0]@, pair[1]@),
        }
    }
}

impl View for MemberImport {
    type V = MemberImportView;

    open spec fn view(&self) -> MemberImportView {
        MemberImportView {
            local: self.local@,
            imported: optional_text(self.imported),
            package: self.package@,
        }
    }
}

impl View for TagRule {
    type V = TagRuleView;

    open spec fn view(&self) -> TagRuleView {
        TagRuleView { pattern: self.pattern@, path: self.path@ }
    }
}

impl View for Specifier {
    type V = SpecifierView;

    open spec fn view(&self) -> SpecifierView {
        SpecifierView { local: self.local@, imported: optional_text(self.imported), ctxt: self.ctxt }
    }
}

/// The views of the items of `v`, in order.
pub open spec fn specifiers_view(v: Vec<Specifier>) -> Seq<SpecifierView> {
    Seq::new(v.len() as nat, |i: int| v[i]@)
}

impl View for ImportPlan {
    type V = ImportPlanView;

    open spec fn view(&self) -> ImportPlanView {
        ImportPlanView { src: self.src@, specifiers: specifiers_view(self.specifiers) }
    }
}

/// The views of the items of `v`, in order.
pub open spec fn plans_view(v: Vec<ImportPlan>) -> Seq<ImportPlanView> {
    Seq::new(v.len() as nat, |i: int| v[i]@)
}

/// The views of the items of `v`, in order.
pub open spec fn member_map_view(v: Vec<MemberImport>) -> Seq<MemberImportView> {
    Seq::new(v.len() as nat, |i: int| v[i]@)
}

/// The views of the items of `v`, in order.
pub open spec fn rules_view(v: Vec<TagRule>) -> Seq<TagRuleView> {
    Seq::new(v.len() as nat, |i: int| v[i]@)
}

/// The views of the items of `v`, in order.
pub open spec fn member_specs(v: Vec<MemberOrMemberAs>) -> Seq<MemberSpec> {
    Seq::new(v.len() as nat, |i: int| v[i]@)
}

/// The views of the items of `v`, in order.
pub open spec fn packages_view(v: Vec<(String, Vec<MemberOrMemberAs>)>) -> Seq<
    (Seq<char>, Seq<MemberSpec>),
> {
    Seq::new(v.len() as nat, |i: int| (v[i].0@, member_specs(v[i].1)))
}

/// The views of the items of `v`, in order.
pub open spec fn paths_view(v: Vec<(String, String)>) -> Seq<(Seq<char>, Seq<char>)> {
    Seq::new(v.len() as nat, |i: int| (v[i].0@, v[i].1@))
}

/// The views of the items of `v`, in order.
pub open spec fn elements_view(v: Vec<(String, Vec<(String, String)>)>) -> Seq<
    (Seq<char>, Seq<(Seq<char>, Seq<char>)>),
> {
    Seq::new(v.len() as nat, |i: int| (v[i].0@, paths_view(v[i].1)))
}

/// The views of the items of `v`, in order.
pub open spec fn ids_view(v: Vec<(String, u32)>) -> Seq<(Seq<char>, u32)> {
    Seq::new(v.len() as nat, |i: int| (v[i].0@, v[i].1))
}

/// The views of the items of `v`, in order.
pub open spec fn tags_view(v: Vec<String>) -> Seq<Seq<char>> {
    Seq::new(v.len() as nat, |i: int| v[i]@)
}

/// What a map of elements holds: for each package, in the order of the map,
/// the paths of its elements by tag pattern, in the order of the inner map.
pub uninterp spec fn elements_of(map: IndexMap<String, IndexMap<String, String>>) -> Seq<
    (Seq<char>, Seq<(Seq<char>, Seq<char>)>),
>;

/// The place of the first text in `keys` that equals `key`; the length of
/// `keys` where there is none.
pub open spec fn find_text(keys: Seq<Seq<char>>, key: Seq<char>) -> int
    decreases keys.len(),
{
    if keys.len() == 0 {
        0
    } else if keys[0] == key {
        0
    } else {
        1 + find_text(keys.skip(1), key)
    }
}

/// The keys of a keyed list, in order.
pub open spec fn keys_of<V>(entries: Seq<(Seq<char>, V)>) -> Seq<Seq<char>> {
    Seq::new(entries.len(), |i: int| entries[i].0)
}

/// A keyed list after one insertion: the value of a key that is there
/// already takes the place of the old one, a new key goes to the end.
pub open spec fn with_entry<V>(entries: Seq<(Seq<char>, V)>, entry: (Seq<char>, V)) -> Seq<
    (Seq<char>, V),
> {
    let at = find_text(keys_of(entries), entry.0);
    if at < entries.len() {
        entries.update(at, (entries[at].0, entry.1))
    } else {
        entries.push(entry)
    }
}

/// A keyed list after the insertion of each of `more`, in order.
pub open spec fn with_entries<V>(entries: Seq<(Seq<char>, V)>, more: Seq<(Seq<char>, V)>) -> Seq<
    (Seq<char>, V),
>
    decreases more.len(),
{
    if more.len() == 0 {
        entries
    } else {
        with_entry(with_entries(entries, more.drop_last()), more.last())
    }
}

/// `IndexMap::new`: a map that holds nothing.
#[verifier::external_body]
fn new_elements() -> (map: IndexMap<String, IndexMap<String, String>>)
    ensures
        elements_of(map) == Seq::<(Seq<char>, Seq<(Seq<char>, Seq<char>)>)>::empty(),
{
    IndexMap::new()
}

/// `IndexMap::extend`: each entry of `more` is inserted in order; the value
/// of a key that the map holds already is replaced where it stands, a new
/// key goes to the end.
#[verifier::external_body]
fn extend_elements(
    map: &mut IndexMap<String, IndexMap<String, String>>,
    more: IndexMap<String, IndexMap<String, String>>,
)
    ensures
        elements_of(*final(map)) == with_entries(elements_of(*old(map)), elements_of(more)),
{
    map.extend(more)
}

/// `IndexMap::iter` on a map of elements and on each of its values: hands
/// out what the map holds, in its order.
#[verifier::external_body]
fn element_entries(map: &IndexMap<String, IndexMap<String, String>>) -> (out: Vec<
    (String, Vec<(String, String)>),
>)
    ensures
        elements_view(out) == elements_of(*map),
{
    map.iter().map(
        |(package, paths)|
            (package.clone(), paths.iter().map(|(tag, path)| (tag.clone(), path.clone())).collect()),
    ).collect()
}

/// The local names of a member map, in order.
pub open spec fn local_names(map: Seq<MemberImportView>) -> Seq<Seq<char>> {
    Seq::new(map.len(), |i: int| map[i].local)
}

/// A member map after one insertion: an entry for a local name that is there
/// already takes the place of the old one, a new one goes to the end.
pub open spec fn with_import(map: Seq<MemberImportView>, entry: MemberImportView) -> Seq<
    MemberImportView,
> {
    let at = find_text(local_names(map), entry.local);
    if at < map.len() {
        map.update(at, entry)
    } else {
        map.push(entry)
    }
}

/// The entry of a member map that one exported member of `package` gives.
pub open spec fn import_of(package: Seq<char>, member: MemberSpec) -> MemberImportView {
    match member {
        MemberSpec::Member(name) => MemberImportView { local: name, imported: None, package },
        MemberSpec::MemberAs(name, member_as) => MemberImportView {
            local: member_as,
            imported: Some(name),
            package,
        },
    }
}

/// A member map after the members of one package.
pub open spec fn with_package(
    map: Seq<MemberImportView>,
    package: Seq<char>,
    members: Seq<MemberSpec>,
) -> Seq<MemberImportView>
    decreases members.len(),
{
    if members.len() == 0 {
        map
    } else {
        with_import(
            with_package(map, package, members.drop_last()),
            import_of(package, members.last()),
        )
    }
}

/// The member map of a configuration: the members of every package, in
/// order; a later entry for a local name replaces an earlier one.
pub open spec fn member_map_of(packages: Seq<(Seq<char>, Seq<MemberSpec>)>) -> Seq<
    MemberImportView,
>
    decreases packages.len(),
{
    if packages.len() == 0 {
        Seq::empty()
    } else {
        with_package(member_map_of(packages.drop_last()), packages.last().0, packages.last().1)
    }
}

/// Whether `pattern` is a regular expression that compiles.
pub open spec fn compiles(pattern: Seq<char>) -> bool {
    regex_is_match(pattern, Seq::empty()) is Some
}

/// The rule for the elements of `package` whose tags match `tag`, a tag with
/// stars for what varies: each star stands for any text, and the star in
/// `path` for the text that the first one stood for.
pub open spec fn tag_rule(package: Seq<char>, tag: Seq<char>, path: Seq<char>) -> TagRuleView {
    TagRuleView {
        pattern: replaced(tag, "*"@, "(.*)"@),
        path: package + replaced(path, "*"@, "$1"@),
    }
}

/// The rules after the paths of one package: a path whose pattern does not
/// compile gives none.
pub open spec fn with_paths(
    rules: Seq<TagRuleView>,
    package: Seq<char>,
    paths: Seq<(Seq<char>, Seq<char>)>,
) -> Seq<TagRuleView>
    decreases paths.len(),
{
    if paths.len() == 0 {
        rules
    } else {
        let before = with_paths(rules, package, paths.drop_last());
        let rule = tag_rule(package, paths.last().0, paths.last().1);
        if compiles(rule.pattern) {
            before.push(rule)
        } else {
            before
        }
    }
}

/// The rules of a configuration, in the order of its packages and their
/// paths.
pub open spec fn tag_config_of(elements: Seq<(Seq<char>, Seq<(Seq<char>, Seq<char>)>)>) -> Seq<
    TagRuleView,
>
    decreases elements.len(),
{
    if elements.len() == 0 {
        Seq::empty()
    } else {
        with_paths(tag_config_of(elements.drop_last()), elements.last().0, elements.last().1)
    }
}

/// The packages of a configuration, none where it names none.
pub open spec fn packages_of(content: AutoImportContent) -> Seq<(Seq<char>, Seq<MemberSpec>)> {
    match content.members {
        Some(packages) => packages_view(packages),
        None => Seq::empty(),
    }
}

/// The elements of a configuration, none where it names none.
pub open spec fn elements_in(content: AutoImportContent) -> Seq<
    (Seq<char>, Seq<(Seq<char>, Seq<char>)>),
> {
    match content.elements {
        Some(map) => elements_of(map),
        None => Seq::empty(),
    }
}

/// Finds the entry for `local`.
fn find_import(map: &Vec<MemberImport>, local: &str) -> (at: usize)
    ensures
        at == find_text(local_names(member_map_view(*map)), local@),
        at <= map.len(),
        at < map.len() ==> map[at as int]@.local == local@,
{
    let ghost keys = local_names(member_map_view(*map));
    let mut i: usize = 0;
    assert(keys.skip(0) =~= keys);
    while i < map.len()
        invariant
            i <= map.len(),
            keys == local_names(member_map_view(*map)),
            find_text(keys, local@) == i + find_text(keys.skip(i as int), local@),
        decreases map.len() - i,
    {
        assert(keys.skip(i as int).skip(1) =~= keys.skip(i + 1));
        assert(keys.skip(i as int)[0] == map[i as int]@.local);
        if same_text(map[i].local.as_str(), local) {
            return i;
        }
        i = i + 1;
    }
    i
}

/// Enters one import into the member map.
fn insert_import(map: &mut Vec<MemberImport>, entry: MemberImport)
    ensures
        member_map_view(*final(map)) == with_import(member_map_view(*old(map)), entry@),
{
    let ghost before = member_map_view(*map);
    let at = find_import(map, entry.local.as_str());
    if at < map.len() {
        map.set(at, entry);
        assert(member_map_view(*map) =~= before.update(at as int, entry@));
    } else {
        map.push(entry);
        assert(member_map_view(*map) =~= before.push(entry@));
    }
}

/// Builds the automatic imports from a configuration: the member map from
/// its packages, and a rule for each element path whose tag pattern
/// compiles.
pub fn get_config(content: AutoImportContent) -> (config: AutoImportConfig)
    ensures
        member_map_view(config.member_map) == member_map_of(packages_of(content)),
        rules_view(config.tag_config) == tag_config_of(elements_in(content)),
{
    let AutoImportContent { extends: _, members, elements } = content;
    let mut member_map: Vec<MemberImport> = Vec::new();
    let packages = match members {
        Some(packages) => packages,
        None => Vec::new(),
    };
    let ghost all_packages = packages_view(packages);
    assert(all_packages == packages_of(content)) by {
        if content.members is None {
            assert(all_packages =~= Seq::empty());
        }
    }
    assert(member_map_view(member_map) =~= member_map_of(all_packages.take(0)));
    let mut p: usize = 0;
    while p < packages.len()
        invariant
            p <= packages.len(),
            all_packages == packages_view(packages),
            member_map_view(member_map) == member_map_of(all_packages.take(p as int)),
        decreases packages.len() - p,
    {
        let package = &packages[p].0;
        let import_vec = &packages[p].1;
        let ghost before = member_map_view(member_map);
        let ghost specs = member_specs(*import_vec);
        assert(all_packages.take(p + 1).drop_last() =~= all_packages.take(p as int));
        assert(all_packages.take(p + 1).last() == (package@, specs));
        let mut m: usize = 0;
        assert(specs.take(0) =~= Seq::<MemberSpec>::empty());
        while m < import_vec.len()
            invariant
                m <= import_vec.len(),
                specs == member_specs(*import_vec),
                member_map_view(member_map) == with_package(before, package@, specs.take(m as int)),
            decreases import_vec.len() - m,
        {
            assert(specs.take(m + 1).drop_last() =~= specs.take(m as int));
            assert(specs.take(m + 1).last() == import_vec[m as int]@);
            let entry = match &import_vec[m] {
                MemberOrMemberAs::Member(name) => MemberImport {
                    local: name.clone(),
                    imported: None,
                    package: package.clone(),
                },
                MemberOrMemberAs::MemberAs(pair) => MemberImport {
                    local: pair[1].clone(),
                    imported: Some(pair[0].clone()),
                    package: package.clone(),
                },
            };
            insert_import(&mut member_map, entry);
            m = m + 1;
        }
        assert(specs.take(m as int) =~= specs);
        p = p + 1;
    }
    assert(all_packages.take(p as int) =~= all_packages);

    let mut tag_config: Vec<TagRule> = Vec::new();
    let entries = match elements {
        Some(map) => element_entries(&map),
        None => Vec::new(),
    };
    let ghost all_elements = elements_view(entries);
    assert(all_elements == elements_in(content)) by {
        if content.elements is None {
            assert(all_elements =~= Seq::empty());
        }
    }
    assert(rules_view(tag_config) =~= tag_config_of(all_elements.take(0)));
    let mut e: usize = 0;
    while e < entries.len()
        invariant
            e <= entries.len(),
            all_elements == elements_view(entries),
            rules_view(tag_config) == tag_config_of(all_elements.take(e as int)),
        decreases entries.len() - e,
    {
        let package = &entries[e].0;
        let import_map = &entries[e].1;
        let ghost before = rules_view(tag_config);
        let ghost paths = paths_view(*import_map);
        assert(all_elements.take(e + 1).drop_last() =~= all_elements.take(e as int));
        assert(all_elements.take(e + 1).last() == (package@, paths));
        let mut t: usize = 0;
        assert(paths.take(0) =~= Seq::<(Seq<char>, Seq<char>)>::empty());
        while t < import_map.len()
            invariant
                t <= import_map.len(),
                paths == paths_view(*import_map),
                rules_view(tag_config) == with_paths(before, package@, paths.take(t as int)),
            decreases import_map.len() - t,
        {
            assert(paths.take(t + 1).drop_last() =~= paths.take(t as int));
            assert(paths.take(t + 1).last() == (import_map[t as int].0@, import_map[t as int].1@));
            proof {
                reveal_strlit("*");
            }
            let pattern = replace(import_map[t].0.as_str(), "*", "(.*)");
            if is_match(pattern.as_str(), "").is_some() {
                let mut path = package.clone();
                path.append(replace(import_map[t].1.as_str(), "*", "$1").as_str());
                let ghost done = rules_view(tag_config);
                let rule = TagRule { pattern, path };
                assert(""@ =~= Seq::<char>::empty()) by {
                    reveal_strlit("");
                }
                tag_config.push(rule);
                assert(rules_view(tag_config) =~= done.push(rule@));
            } else {
                assert(""@ =~= Seq::<char>::empty()) by {
                    reveal_strlit("");
                }
            }
            t = t + 1;
        }
        assert(paths.take(t as int) =~= paths);
        e = e + 1;
    }
    assert(all_elements.take(e as int) =~= all_elements);
    AutoImportConfig { member_map, tag_config }
}

impl AutoImport {
    /// Whether the pass runs: the built-in imports where they are switched
    /// on, a configuration of one's own always.
    pub fn is_enabled(&self) -> (enabled: bool)
        ensures
            enabled == match *self {
                AutoImport::Gem(on) => on,
                AutoImport::CustomContent(_) => true,
            },
    {
        match self {
            AutoImport::Gem(on) => *on,
            AutoImport::CustomContent(_) => true,
        }
    }
}

impl Default for AutoImport {
    fn default() -> (out: Self)
        ensures
            out == AutoImport::Gem(false),
    {
        AutoImport::Gem(false)
    }
}

impl Default for AutoImportDts {
    fn default() -> (out: Self)
        ensures
            out == AutoImportDts::Src(false),
    {
        AutoImportDts::Src(false)
    }
}

/// The path of the declaration file, relative to the working directory;
/// empty where none is written.
pub open spec fn dts_path_of(gen_dts: AutoImportDts) -> Seq<char> {
    match gen_dts {
        AutoImportDts::Src(true) => "src/auto-import.d.ts"@,
        AutoImportDts::Src(false) => Seq::empty(),
        AutoImportDts::CustomPath(custom) => custom@,
    }
}

/// Tells where the declaration file goes.
pub fn dts_path(gen_dts: AutoImportDts) -> (path: String)
    ensures
        path@ == dts_path_of(gen_dts),
{
    match gen_dts {
        AutoImportDts::Src(true) => String::from_str("src/auto-import.d.ts"),
        AutoImportDts::Src(false) => String::new(),
        AutoImportDts::CustomPath(custom) => custom,
    }
}

/// The line that declares one imported member as a global.
pub open spec fn dts_line(entry: MemberImportView) -> Seq<char> {
    "  const "@ + entry.local + ": typeof import('"@ + entry.package + "')['"@ + (match entry.imported {
        Some(member) => member,
        None => entry.local,
    }) + "'];\n"@
}

/// The lines that declare the members of `map`, in order.
pub open spec fn dts_lines(map: Seq<MemberImportView>) -> Seq<char>
    decreases map.len(),
{
    if map.len() == 0 {
        Seq::empty()
    } else {
        dts_lines(map.drop_last()) + dts_line(map.last())
    }
}

/// The text of the declaration file for the members of `map`.
pub open spec fn dts_text_of(map: Seq<MemberImportView>) -> Seq<char> {
    "// AUTOMATICALLY GENERATED, DO NOT MODIFY MANUALLY.\n// DELETING WILL REGENERATE\n\nexport {}\ndeclare global {\n"@
        + dts_lines(map) + "}"@
}

/// Writes out the declaration file for the members of `config`.
pub fn dts_text(config: &AutoImportConfig) -> (text: String)
    ensures
        text@ == dts_text_of(member_map_view(config.member_map)),
{
    let ghost all = member_map_view(config.member_map);
    let ghost head =
        "// AUTOMATICALLY GENERATED, DO NOT MODIFY MANUALLY.\n// DELETING WILL REGENERATE\n\nexport {}\ndeclare global {\n"@;
    let mut text = String::from_str(
        "// AUTOMATICALLY GENERATED, DO NOT MODIFY MANUALLY.\n// DELETING WILL REGENERATE\n\nexport {}\ndeclare global {\n",
    );
    let mut i: usize = 0;
    assert(text@ =~= head + dts_lines(all.take(0)));
    while i < config.member_map.len()
        invariant
            i <= config.member_map.len(),
            all == member_map_view(config.member_map),
            text@ == head + dts_lines(all.take(i as int)),
        decreases config.member_map.len() - i,
    {
        let entry = &config.member_map[i];
        assert(all.take(i + 1).drop_last() =~= all.take(i as int));
        assert(all.take(i + 1).last() == entry@);
        let ghost before = text@;
        text.append("  const ");
        text.append(entry.local.as_str());
        text.append(": typeof import('");
        text.append(entry.package.as_str());
        text.append("')['");
        match &entry.imported {
            Some(member) => text.append(member.as_str()),
            None => text.append(entry.local.as_str()),
        }
        text.append("'];\n");
        assert(text@ =~= before + dts_line(entry@));
        assert(text@ =~= head + dts_lines(all.take(i + 1)));
        i = i + 1;
    }
    assert(all.take(i as int) =~= all);
    text.append("}");
    text
}

/// The declaration file to write for a configuration: its path and its
/// text; none where no path is given.
pub open spec fn declaration_file(
    map: Seq<MemberImportView>,
    gen_dts: AutoImportDts,
) -> Option<(Seq<char>, Seq<char>)> {
    if dts_path_of(gen_dts).len() == 0 {
        None
    } else {
        Some((dts_path_of(gen_dts), dts_text_of(map)))
    }
}

/// The view of an optional pair of texts.
pub open spec fn file_view(file: Option<(String, String)>) -> Option<(Seq<char>, Seq<char>)> {
    match file {
        Some((path, text)) => Some((path@, text@)),
        None => None,
    }
}

/// Starts the pass from a configuration: builds the automatic imports, and
/// tells which declaration file goes with them, for the caller to write
/// where it does not exist yet.
pub fn import_transform(content: AutoImportContent, gen_dts: AutoImportDts) -> (out: (
    AutoImportConfig,
    Option<(String, String)>,
))
    ensures
        member_map_view(out.0.member_map) == member_map_of(packages_of(content)),
        rules_view(out.0.tag_config) == tag_config_of(elements_in(content)),
        file_view(out.1) == declaration_file(member_map_view(out.0.member_map), gen_dts),
{
    let config = get_config(content);
    let path = dts_path(gen_dts);
    if path.as_str().is_empty() {
        (config, None)
    } else {
        let text = dts_text(&config);
        (config, Some((path, text)))
    }
}

/// The pattern that finds the tags of custom elements in markup: a name
/// with at least one hyphen, behind `<` and before white space or `>`.
pub open spec fn element_pattern() -> Seq<char> {
    "(?s)<(?<tag>\\w+(-\\w+)+)(\\s|>)"@
}

/// The texts among `found`, in order.
pub open spec fn taken(found: Seq<Option<Seq<char>>>) -> Seq<Seq<char>>
    decreases found.len(),
{
    if found.len() == 0 {
        Seq::empty()
    } else {
        match found.last() {
            Some(text) => taken(found.drop_last()).push(text),
            None => taken(found.drop_last()),
        }
    }
}

/// The tags of custom elements that stand in the markup `raw`, in order;
/// none where the pattern does not compile.
pub open spec fn element_tags(raw: Seq<char>) -> Seq<Seq<char>> {
    match regex_group_matches(element_pattern(), raw, "tag"@) {
        Some(found) => taken(found),
        None => Seq::empty(),
    }
}

/// Collects the tags of custom elements that stand in one piece of a
/// template.
pub fn custom_elements_in(raw: &str) -> (tags: Vec<String>)
    ensures
        tags_view(tags) == element_tags(raw@),
{
    let mut tags: Vec<String> = Vec::new();
    match group_matches("(?s)<(?<tag>\\w+(-\\w+)+)(\\s|>)", raw, "tag") {
        Some(found) => {
            let ghost all = crate::pattern::optional_texts(found);
            let mut i: usize = 0;
            assert(tags_view(tags) =~= taken(all.take(0)));
            while i < found.len()
                invariant
                    i <= found.len(),
                    all == crate::pattern::optional_texts(found),
                    tags_view(tags) == taken(all.take(i as int)),
                decreases found.len() - i,
            {
                assert(all.take(i + 1).drop_last() =~= all.take(i as int));
                assert(all.take(i + 1).last() == optional_text(found[i as int]));
                match &found[i] {
                    Some(tag) => {
                        let ghost before = tags_view(tags);
                        tags.push(tag.clone());
                        assert(tags_view(tags) =~= before.push(tag@));
                    },
                    None => {},
                }
                i = i + 1;
            }
            assert(all.take(i as int) =~= all);
        },
        None => {
            assert(tags_view(tags) =~= Seq::empty());
        },
    }
    tags
}

/// The elements of the configurations of `chain`, merged in order: what a
/// later one says of a package replaces what an earlier one said.
pub open spec fn merged_elements(chain: Seq<AutoImportContent>) -> Seq<
    (Seq<char>, Seq<(Seq<char>, Seq<char>)>),
>
    decreases chain.len(),
{
    if chain.len() == 0 {
        Seq::empty()
    } else {
        with_entries(merged_elements(chain.drop_last()), elements_in(chain.last()))
    }
}

/// The packages of the configurations of `chain`, merged in order: what a
/// later one says of a package replaces what an earlier one said.
pub open spec fn merged_packages(chain: Seq<AutoImportContent>) -> Seq<
    (Seq<char>, Seq<MemberSpec>),
>
    decreases chain.len(),
{
    if chain.len() == 0 {
        Seq::empty()
    } else {
        with_entries(merged_packages(chain.drop_last()), packages_of(chain.last()))
    }
}

/// Finds the package `package`.
fn find_package(packages: &Vec<(String, Vec<MemberOrMemberAs>)>, package: &str) -> (at: usize)
    ensures
        at == find_text(keys_of(packages_view(*packages)), package@),
        at <= packages.len(),
{
    let ghost keys = keys_of(packages_view(*packages));
    let mut i: usize = 0;
    assert(keys.skip(0) =~= keys);
    while i < packages.len()
        invariant
            i <= packages.len(),
            keys == keys_of(packages_view(*packages)),
            find_text(keys, package@) == i + find_text(keys.skip(i as int), package@),
        decreases packages.len() - i,
    {
        assert(keys.skip(i as int).skip(1) =~= keys.skip(i + 1));
        assert(keys.skip(i as int)[0] == packages[i as int].0@);
        if same_text(packages[i].0.as_str(), package) {
            return i;
        }
        i = i + 1;
    }
    i
}

/// Enters the packages of `more` into `packages`.
fn extend_packages(
    packages: &mut Vec<(String, Vec<MemberOrMemberAs>)>,
    more: Vec<(String, Vec<MemberOrMemberAs>)>,
)
    ensures
        packages_view(*final(packages)) == with_entries(
            packages_view(*old(packages)),
            packages_view(more),
        ),
{
    let ghost start = packages_view(*packages);
    let ghost all = packages_view(more);
    let mut rest = crate::lists::reversed(more);
    let ghost mut seen: int = 0;
    assert(all.take(0) =~= Seq::<(Seq<char>, Seq<MemberSpec>)>::empty());
    while rest.len() > 0
        invariant
            0 <= seen,
            rest@.len() + seen == more@.len(),
            rest@ == more@.reverse().take(rest@.len() as int),
            all == packages_view(more),
            packages_view(*packages) == with_entries(start, all.take(seen)),
        decreases rest.len(),
    {
        let entry = rest.pop().unwrap();
        assert(entry == more@[seen]);
        assert(all.take(seen + 1).drop_last() =~= all.take(seen));
        assert(all.take(seen + 1).last() == (entry.0@, member_specs(entry.1)));
        let ghost before = packages_view(*packages);
        let at = find_package(packages, entry.0.as_str());
        if at < packages.len() {
            assert(keys_of(before)[at as int] == entry.0@) by {
                lemma_found_text(keys_of(before), entry.0@);
            }
            packages.set(at, entry);
            assert(packages_view(*packages) =~= before.update(
                at as int,
                (before[at as int].0, member_specs(entry.1)),
            ));
        } else {
            packages.push(entry);
            assert(packages_view(*packages) =~= before.push((entry.0@, member_specs(entry.1))));
        }
        proof {
            seen = seen + 1;
        }
    }
    assert(all.take(seen) =~= all);
}

/// Where a text is found, there it stands.
pub proof fn lemma_found_text(keys: Seq<Seq<char>>, key: Seq<char>)
    ensures
        0 <= find_text(keys, key) <= keys.len(),
        find_text(keys, key) < keys.len() ==> keys[find_text(keys, key)] == key,
        forall|j: int| 0 <= j < find_text(keys, key) ==> keys[j] != key,
    decreases keys.len(),
{
    if keys.len() > 0 && keys[0] != key {
        lemma_found_text(keys.skip(1), key);
        assert forall|j: int| 0 <= j < find_text(keys, key) implies keys[j] != key by {
            if j > 0 {
                assert(keys.skip(1)[j - 1] == keys[j]);
            }
        }
    }
}

/// Merges a chain of configurations, the first one first, into one that
/// builds on no other.
pub fn merge_contents(chain: Vec<AutoImportContent>) -> (merged: AutoImportContent)
    ensures
        merged.extends is None,
        merged.members is Some,
        merged.elements is Some,
        packages_of(merged) == merged_packages(chain@),
        elements_in(merged) == merged_elements(chain@),
{
    let mut elements = new_elements();
    let mut members: Vec<(String, Vec<MemberOrMemberAs>)> = Vec::new();
    let mut rest = crate::lists::reversed(chain);
    let ghost mut seen: int = 0;
    assert(chain@.take(0) =~= Seq::<AutoImportContent>::empty());
    assert(packages_view(members) =~= merged_packages(chain@.take(0)));
    while rest.len() > 0
        invariant
            0 <= seen,
            rest@.len() + seen == chain@.len(),
            rest@ == chain@.reverse().take(rest@.len() as int),
            packages_view(members) == merged_packages(chain@.take(seen)),
            elements_of(elements) == merged_elements(chain@.take(seen)),
        decreases rest.len(),
    {
        let level = rest.pop().unwrap();
        assert(level == chain@[seen]);
        assert(chain@.take(seen + 1).drop_last() =~= chain@.take(seen));
        assert(chain@.take(seen + 1).last() == level);
        let AutoImportContent { extends: _, members: level_members, elements: level_elements } =
            level;
        match level_elements {
            Some(map) => extend_elements(&mut elements, map),
            None => {},
        }
        match level_members {
            Some(packages) => extend_packages(&mut members, packages),
            None => {},
        }
        proof {
            seen = seen + 1;
        }
    }
    assert(chain@.take(seen) =~= chain@);
    AutoImportContent { extends: None, members: Some(members), elements: Some(elements) }
}

/// The sources of a list of planned imports, in order.
pub open spec fn plan_srcs(plans: Seq<ImportPlanView>) -> Seq<Seq<char>> {
    Seq::new(plans.len(), |i: int| plans[i].src)
}

/// The local names of a list of specifiers, in order.
pub open spec fn specifier_locals(specifiers: Seq<SpecifierView>) -> Seq<Seq<char>> {
    Seq::new(specifiers.len(), |i: int| specifiers[i].local)
}

/// The specifiers of an import after one more: a specifier for a local name
/// that is bound already takes the place of the old one.
pub open spec fn with_specifier(specifiers: Seq<SpecifierView>, next: SpecifierView) -> Seq<
    SpecifierView,
> {
    let at = find_text(specifier_locals(specifiers), next.local);
    if at < specifiers.len() {
        specifiers.update(at, next)
    } else {
        specifiers.push(next)
    }
}

/// The planned imports after one more use of a name: a name that the module
/// defines, or that the member map does not know, adds nothing; any other
/// is bound by the import from its package, which is added where it is the
/// package's first.
pub open spec fn with_member_use(
    plans: Seq<ImportPlanView>,
    map: Seq<MemberImportView>,
    defined: Seq<(Seq<char>, u32)>,
    id: (Seq<char>, u32),
) -> Seq<ImportPlanView> {
    let at = find_text(local_names(map), id.0);
    if defined.contains(id) || at >= map.len() {
        plans
    } else {
        let next = SpecifierView { local: id.0, imported: map[at].imported, ctxt: id.1 };
        let group = find_text(plan_srcs(plans), map[at].package);
        if group < plans.len() {
            plans.update(
                group,
                ImportPlanView {
                    src: plans[group].src,
                    specifiers: with_specifier(plans[group].specifiers, next),
                },
            )
        } else {
            plans.push(ImportPlanView { src: map[at].package, specifiers: seq![next] })
        }
    }
}

/// The imports that the uses of `used` call for, in order.
pub open spec fn member_imports(
    map: Seq<MemberImportView>,
    used: Seq<(Seq<char>, u32)>,
    defined: Seq<(Seq<char>, u32)>,
) -> Seq<ImportPlanView>
    decreases used.len(),
{
    if used.len() == 0 {
        Seq::empty()
    } else {
        with_member_use(member_imports(map, used.drop_last(), defined), map, defined, used.last())
    }
}

/// The specifier that the first rule matching `tag` gives; none where no
/// rule matches.
pub open spec fn element_import(rules: Seq<TagRuleView>, tag: Seq<char>) -> Option<Seq<char>>
    decreases rules.len(),
{
    if rules.len() == 0 {
        None
    } else if regex_is_match(rules[0].pattern, tag) == Some(true) {
        regex_replace_first(rules[0].pattern, tag, rules[0].path)
    } else {
        element_import(rules.skip(1), tag)
    }
}

/// The planned imports after the elements of `tags`, in order: each tag
/// that a rule matches adds an import without specifiers.
pub open spec fn with_element_uses(
    plans: Seq<ImportPlanView>,
    rules: Seq<TagRuleView>,
    tags: Seq<Seq<char>>,
) -> Seq<ImportPlanView>
    decreases tags.len(),
{
    if tags.len() == 0 {
        plans
    } else {
        let before = with_element_uses(plans, rules, tags.drop_last());
        match element_import(rules, tags.last()) {
            Some(src) => before.push(ImportPlanView { src, specifiers: Seq::empty() }),
            None => before,
        }
    }
}

/// Whether `id` is among `ids`.
fn has_id(ids: &Vec<(String, u32)>, name: &str, ctxt: u32) -> (found: bool)
    ensures
        found == ids_view(*ids).contains((name@, ctxt)),
{
    let ghost all = ids_view(*ids);
    let mut i: usize = 0;
    while i < ids.len()
        invariant
            i <= ids.len(),
            all == ids_view(*ids),
            forall|j: int| 0 <= j < i ==> all[j] != (name@, ctxt),
        decreases ids.len() - i,
    {
        if ids[i].1 == ctxt && same_text(ids[i].0.as_str(), name) {
            assert(all[i as int] == (name@, ctxt));
            return true;
        }
        i = i + 1;
    }
    false
}

/// Finds the import from `src`.
fn find_plan(plans: &Vec<ImportPlan>, src: &str) -> (at: usize)
    ensures
        at == find_text(plan_srcs(plans_view(*plans)), src@),
        at <= plans.len(),
{
    let ghost keys = plan_srcs(plans_view(*plans));
    let mut i: usize = 0;
    assert(keys.skip(0) =~= keys);
    while i < plans.len()
        invariant
            i <= plans.len(),
            keys == plan_srcs(plans_view(*plans)),
            find_text(keys, src@) == i + find_text(keys.skip(i as int), src@),
        decreases plans.len() - i,
    {
        assert(keys.skip(i as int).skip(1) =~= keys.skip(i + 1));
        assert(keys.skip(i as int)[0] == plans[i as int].src@);
        if same_text(plans[i].src.as_str(), src) {
            return i;
        }
        i = i + 1;
    }
    i
}

/// Binds one more name in an import.
fn insert_specifier(specifiers: &mut Vec<Specifier>, next: Specifier)
    ensures
        specifiers_view(*final(specifiers)) == with_specifier(
            specifiers_view(*old(specifiers)),
            next@,
        ),
{
    let ghost before = specifiers_view(*specifiers);
    let ghost keys = specifier_locals(before);
    let mut i: usize = 0;
    assert(keys.skip(0) =~= keys);
    while i < specifiers.len()
        invariant
            i <= specifiers.len(),
            before == specifiers_view(*specifiers),
            before == specifiers_view(*old(specifiers)),
            keys == specifier_locals(before),
            find_text(keys, next.local@) == i + find_text(keys.skip(i as int), next.local@),
        decreases specifiers.len() - i,
    {
        assert(keys.skip(i as int).skip(1) =~= keys.skip(i + 1));
        assert(keys.skip(i as int)[0] == specifiers[i as int].local@);
        if same_text(specifiers[i].local.as_str(), next.local.as_str()) {
            assert(find_text(keys.skip(i as int), next.local@) == 0);
            assert(find_text(keys, next.local@) == i);
            specifiers.set(i, next);
            assert(specifiers_view(*specifiers) =~= before.update(i as int, next@));
            return ;
        }
        i = i + 1;
    }
    assert(find_text(keys, next.local@) == specifiers.len());
    specifiers.push(next);
    assert(specifiers_view(*specifiers) =~= before.push(next@));
}

/// The specifier that stands for the element `tag`.
fn import_for_tag(rules: &Vec<TagRule>, tag: &str) -> (src: Option<String>)
    ensures
        optional_text(src) == element_import(rules_view(*rules), tag@),
{
    let ghost all = rules_view(*rules);
    let mut i: usize = 0;
    assert(all.skip(0) =~= all);
    while i < rules.len()
        invariant
            i <= rules.len(),
            all == rules_view(*rules),
            element_import(all, tag@) == element_import(all.skip(i as int), tag@),
        decreases rules.len() - i,
    {
        assert(all.skip(i as int).skip(1) =~= all.skip(i + 1));
        assert(all.skip(i as int)[0] == rules[i as int]@);
        let matched = match is_match(rules[i].pattern.as_str(), tag) {
            Some(found) => found,
            None => false,
        };
        if matched {
            return replace_first(rules[i].pattern.as_str(), tag, rules[i].path.as_str());
        }
        i = i + 1;
    }
    None
}

impl AutoImportConfig {
    /// Plans the imports to put in front of a module: one from each package
    /// that a used, undefined name comes from, the packages in the order of
    /// their first use and each with its names in that order, then one for
    /// each used element that a rule knows.
    pub fn visit_mut_module_items(
        &self,
        used_members: &Vec<(String, u32)>,
        defined_members: &Vec<(String, u32)>,
        used_elements: &Vec<String>,
    ) -> (out: Vec<ImportPlan>)
        ensures
            plans_view(out) == with_element_uses(
                member_imports(
                    member_map_view(self.member_map),
                    ids_view(*used_members),
                    ids_view(*defined_members),
                ),
                rules_view(self.tag_config),
                tags_view(*used_elements),
            ),
    {
        let ghost map = member_map_view(self.member_map);
        let ghost used = ids_view(*used_members);
        let ghost defined = ids_view(*defined_members);
        let mut out: Vec<ImportPlan> = Vec::new();
        let mut u: usize = 0;
        assert(plans_view(out) =~= member_imports(map, used.take(0), defined));
        while u < used_members.len()
            invariant
                u <= used_members.len(),
                map == member_map_view(self.member_map),
                used == ids_view(*used_members),
                defined == ids_view(*defined_members),
                plans_view(out) == member_imports(map, used.take(u as int), defined),
            decreases used_members.len() - u,
        {
            let name = &used_members[u].0;
            let ctxt = used_members[u].1;
            assert(used.take(u + 1).drop_last() =~= used.take(u as int));
            assert(used.take(u + 1).last() == (name@, ctxt));
            let ghost before = plans_view(out);
            if !has_id(defined_members, name.as_str(), ctxt) {
                let at = find_import(&self.member_map, name.as_str());
                if at < self.member_map.len() {
                    let entry = &self.member_map[at];
                    let next = Specifier {
                        local: name.clone(),
                        imported: entry.imported.clone(),
                        ctxt,
                    };
                    let group = find_plan(&out, entry.package.as_str());
                    if group < out.len() {
                        let mut plan = out.remove(group);
                        let ghost src = plan.src@;
                        insert_specifier(&mut plan.specifiers, next);
                        out.insert(group, plan);
                        assert(plans_view(out) =~= before.update(
                            group as int,
                            ImportPlanView {
                                src: before[group as int].src,
                                specifiers: with_specifier(before[group as int].specifiers, next@),
                            },
                        ));
                    } else {
                        let mut specifiers: Vec<Specifier> = Vec::new();
                        specifiers.push(next);
                        let plan = ImportPlan { src: entry.package.clone(), specifiers };
                        assert(plan@.specifiers =~= seq![next@]);
                        out.push(plan);
                        assert(plans_view(out) =~= before.push(plan@));
                    }
                }
            }
            u = u + 1;
        }
        assert(used.take(u as int) =~= used);
        let ghost members = plans_view(out);
        let ghost rules = rules_view(self.tag_config);
        let ghost tags = tags_view(*used_elements);
        let mut t: usize = 0;
        assert(tags.take(0) =~= Seq::<Seq<char>>::empty());
        while t < used_elements.len()
            invariant
                t <= used_elements.len(),
                rules == rules_view(self.tag_config),
                tags == tags_view(*used_elements),
                plans_view(out) == with_element_uses(members, rules, tags.take(t as int)),
            decreases used_elements.len() - t,
        {
            assert(tags.take(t + 1).drop_last() =~= tags.take(t as int));
            assert(tags.take(t + 1).last() == used_elements[t as int]@);
            let ghost before = plans_view(out);
            match import_for_tag(&self.tag_config, used_elements[t].as_str()) {
                Some(src) => {
                    let plan = ImportPlan { src, specifiers: Vec::new() };
                    assert(plan@.specifiers =~= Seq::empty());
                    out.push(plan);
                    assert(plans_view(out) =~= before.push(plan@));
                },
                None => {},
            }
            t = t + 1;
        }
        assert(tags.take(t as int) =~= tags);
        out
    }
}

} // verus!
