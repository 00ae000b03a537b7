//! Which package manager a directory, or the nearest of its ancestors, uses.
//!
//! Each directory is described by a [`DirListing`]: the probed file names
//! that are regular files there, and the text of its `package.json`. The first
//! directory of the list is the starting one, each next one its parent.
use vstd::prelude::*;
use crate::flags::{lemma_parse_name_round_trip, manager_name, parse_manager, Manager};
use crate::json::{json_string_member, json_top_strings, parse_json};
use crate::text::{contains_name, strings_view};

verus! {

/// The language family of a project.
#[derive(Debug, Clone, Copy, PartialEq, Eq, Structural)]
pub enum Ecosystem {
    Javascript,
    Python,
}

/// What decided the detection.
#[derive(Debug, Clone, Copy, PartialEq, Eq)]
pub enum DetectionSource {
    /// The Corepack `packageManager` field of `package.json`.
    PackageManagerField,
    /// The named lockfile.
    Lockfile(&'static str),
    /// The named project marker, which names no manager by itself.
    Marker(&'static str),
    /// Nothing was found.
    Nothing,
}

/// A [`DetectionSource`] with its file name as text.
pub enum SourceView {
    PackageManagerField,
    Lockfile(Seq<char>),
    Marker(Seq<char>),
    Nothing,
}

impl View for DetectionSource {
    type V = SourceView;

    open spec fn view(&self) -> SourceView {
        match self {
            DetectionSource::PackageManagerField => SourceView::PackageManagerField,
            DetectionSource::Lockfile(n) => SourceView::Lockfile(n@),
            DetectionSource::Marker(n) => SourceView::Marker(n@),
            DetectionSource::Nothing => SourceView::Nothing,
        }
    }
}

/// The outcome of detection.
#[derive(Debug, Clone, Copy)]
pub struct Detection {
    /// The manager, when the project names one.
    pub manager: Option<Manager>,
    /// The project's ecosystem, when a project was found.
    pub ecosystem: Option<Ecosystem>,
    /// How many levels above the starting directory the project was found
    /// (0, the starting directory, when nothing was found).
    pub root: usize,
    /// What decided it.
    pub source: DetectionSource,
}

/// A [`Detection`] with its file name as text.
pub struct DetectionView {
    pub manager: Option<Manager>,
    pub ecosystem: Option<Ecosystem>,
    pub root: int,
    pub source: SourceView,
}

impl View for Detection {
    type V = DetectionView;

    open spec fn view(&self) -> DetectionView {
        DetectionView {
            manager: self.manager,
            ecosystem: self.ecosystem,
            root: self.root as int,
            source: self.source@,
        }
    }
}

/// What one directory holds of the files that detection and configuration look at.
pub struct DirListing {
    /// The probed names (see [`probed_file_names`]) that are regular files here.
    pub files: Vec<String>,
    /// The text of `package.json`, when it is a file that could be read.
    pub package_json: Option<String>,
}

/// A [`DirListing`] as text.
pub struct DirListingView {
    pub files: Seq<Seq<char>>,
    pub package_json: Option<Seq<char>>,
}

impl View for DirListing {
    type V = DirListingView;

    open spec fn view(&self) -> DirListingView {
        DirListingView {
            files: strings_view(self.files@),
            package_json: match self.package_json {
                Some(t) => Some(t@),
                None => None,
            },
        }
    }
}

/// The JavaScript lockfiles, in the order in which they are looked for.
pub open spec fn js_lockfiles() -> Seq<(Seq<char>, Manager)> {
    seq![
        ("bun.lock"@, Manager::Bun),
        ("bun.lockb"@, Manager::Bun),
        ("pnpm-lock.yaml"@, Manager::Pnpm),
        ("yarn.lock"@, Manager::Yarn),
        ("package-lock.json"@, Manager::Npm),
    ]
}

/// The Python lockfiles, in the order in which they are looked for.
pub open spec fn py_lockfiles() -> Seq<(Seq<char>, Manager)> {
    seq![
        ("uv.lock"@, Manager::Uv),
        ("poetry.lock"@, Manager::Poetry),
        ("Pipfile.lock"@, Manager::Pipenv),
        ("requirements.txt"@, Manager::Pip),
    ]
}

/// The Python project markers, in the order in which they are looked for.
pub open spec fn py_markers() -> Seq<Seq<char>> {
    seq!["pyproject.toml"@, "Pipfile"@, "setup.py"@]
}

/// The first entry of `table` whose file is among `files`.
pub open spec fn first_lockfile(files: Seq<Seq<char>>, table: Seq<(Seq<char>, Manager)>) -> Option<(Seq<char>, Manager)>
    decreases table.len(),
{
    if table.len() == 0 {
        None
    } else if files.contains(table[0].0) {
        Some(table[0])
    } else {
        first_lockfile(files, table.drop_first())
    }
}

/// The first of `markers` that is among `files`.
pub open spec fn first_marker(files: Seq<Seq<char>>, markers: Seq<Seq<char>>) -> Option<Seq<char>>
    decreases markers.len(),
{
    if markers.len() == 0 {
        None
    } else if files.contains(markers[0]) {
        Some(markers[0])
    } else {
        first_marker(files, markers.drop_first())
    }
}

/// The text of a `packageManager` field up to its first `@` (all of it when
/// it has none).
pub open spec fn before_at(s: Seq<char>) -> Seq<char>
    decreases s.len(),
{
    if s.len() == 0 {
        s
    } else if s[0] == '@' {
        seq![]
    } else {
        seq![s[0]] + before_at(s.drop_first())
    }
}

/// The manager that a `packageManager` field such as `pnpm@9.1.0` names.
pub open spec fn field_manager(raw: Seq<char>) -> Option<Manager> {
    parse_manager(before_at(raw))
}

/// The manager that the `packageManager` field of the JSON document `text`
/// names, if it is a document with such a string member that names one.
pub open spec fn text_field_manager(text: Seq<char>) -> Option<Manager> {
    match json_top_strings(text) {
        Some(members) => if members.contains_key("packageManager"@) {
            field_manager(members["packageManager"@])
        } else {
            None
        },
        None => None,
    }
}

/// The manager that a directory's `package.json` names in its
/// `packageManager` field, if it is a file that names one.
pub open spec fn listing_field_manager(l: DirListingView) -> Option<Manager> {
    if l.files.contains("package.json"@) {
        match l.package_json {
            Some(t) => text_field_manager(t),
            None => None,
        }
    } else {
        None
    }
}

/// What one directory decides, given the manager its `packageManager` field
/// names (`field`), at `root` levels above the start; `None` when it holds
/// nothing that detection looks for. In order: the field, a JavaScript
/// lockfile, a Python lockfile, `package.json`, a Python marker.
pub open spec fn detect_at_level(files: Seq<Seq<char>>, field: Option<Manager>, root: int) -> Option<DetectionView> {
    let has_package_json = files.contains("package.json"@);
    if has_package_json && field is Some {
        Some(DetectionView {
            manager: field,
            ecosystem: Some(Ecosystem::Javascript),
            root,
            source: SourceView::PackageManagerField,
        })
    } else if let Some((name, m)) = first_lockfile(files, js_lockfiles()) {
        Some(DetectionView {
            manager: Some(m),
            ecosystem: Some(Ecosystem::Javascript),
            root,
            source: SourceView::Lockfile(name),
        })
    } else if let Some((name, m)) = first_lockfile(files, py_lockfiles()) {
        Some(DetectionView {
            manager: Some(m),
            ecosystem: Some(Ecosystem::Python),
            root,
            source: SourceView::Lockfile(name),
        })
    } else if has_package_json {
        Some(DetectionView {
            manager: None,
            ecosystem: Some(Ecosystem::Javascript),
            root,
            source: SourceView::Marker("package.json"@),
        })
    } else if let Some(marker) = first_marker(files, py_markers()) {
        Some(DetectionView {
            manager: None,
            ecosystem: Some(Ecosystem::Python),
            root,
            source: SourceView::Marker(marker),
        })
    } else {
        None
    }
}

/// The detection that nothing was found.
pub open spec fn nothing_detected() -> DetectionView {
    DetectionView { manager: None, ecosystem: None, root: 0, source: SourceView::Nothing }
}

/// Detection over the directories `levels[i..]`: the first of them that
/// decides anything decides.
pub open spec fn detect_from(levels: Seq<DirListingView>, i: int) -> DetectionView
    decreases levels.len() - i,
{
    if i < 0 || i >= levels.len() {
        nothing_detected()
    } else {
        match detect_at_level(levels[i].files, listing_field_manager(levels[i]), i) {
            Some(d) => d,
            None => detect_from(levels, i + 1),
        }
    }
}

/// Detection from the starting directory `levels[0]` upwards.
pub open spec fn spec_detect(levels: Seq<DirListingView>) -> DetectionView {
    detect_from(levels, 0)
}

/// The name of the per-project configuration file.
pub open spec fn project_config_name() -> Seq<char> {
    ".addrc.toml"@
}

/// Every file name that detection and configuration look for in a directory.
pub open spec fn probed_names() -> Seq<Seq<char>> {
    seq![
        "package.json"@,
        "bun.lock"@,
        "bun.lockb"@,
        "pnpm-lock.yaml"@,
        "yarn.lock"@,
        "package-lock.json"@,
        "uv.lock"@,
        "poetry.lock"@,
        "Pipfile.lock"@,
        "pyproject.toml"@,
        "Pipfile"@,
        "requirements.txt"@,
        "setup.py"@,
        ".addrc.toml"@,
    ]
}

/// The texts of a list of names.
pub open spec fn names_view(v: Seq<&'static str>) -> Seq<Seq<char>> {
    v.map_values(|s: &'static str| s@)
}

/// The texts of a table of file names and managers.
pub open spec fn table_view(v: Seq<(&'static str, Manager)>) -> Seq<(Seq<char>, Manager)> {
    v.map_values(|e: (&'static str, Manager)| (e.0@, e.1))
}

/// The directory listings as text.
pub open spec fn listings_view(v: Seq<DirListing>) -> Seq<DirListingView> {
    v.map_values(|l: DirListing| l@)
}

/// The file names that a [`DirListing`] should record when they are regular files.
pub fn probed_file_names() -> (r: Vec<&'static str>)
    ensures
        names_view(r@) == probed_names(),
{
    let r = vec![
        "package.json",
        "bun.lock",
        "bun.lockb",
        "pnpm-lock.yaml",
        "yarn.lock",
        "package-lock.json",
        "uv.lock",
        "poetry.lock",
        "Pipfile.lock",
        "pyproject.toml",
        "Pipfile",
        "requirements.txt",
        "setup.py",
        ".addrc.toml",
    ];
    assert(names_view(r@) =~= probed_names());
    r
}

fn js_lockfile_table() -> (t: Vec<(&'static str, Manager)>)
    ensures
        table_view(t@) == js_lockfiles(),
{
    let t = vec![
        ("bun.lock", Manager::Bun),
        ("bun.lockb", Manager::Bun),
        ("pnpm-lock.yaml", Manager::Pnpm),
        ("yarn.lock", Manager::Yarn),
        ("package-lock.json", Manager::Npm),
    ];
    assert(table_view(t@) =~= js_lockfiles());
    t
}

fn py_lockfile_table() -> (t: Vec<(&'static str, Manager)>)
    ensures
        table_view(t@) == py_lockfiles(),
{
    let t = vec![
        ("uv.lock", Manager::Uv),
        ("poetry.lock", Manager::Poetry),
        ("Pipfile.lock", Manager::Pipenv),
        ("requirements.txt", Manager::Pip),
    ];
    assert(table_view(t@) =~= py_lockfiles());
    t
}

fn py_marker_table() -> (t: Vec<&'static str>)
    ensures
        names_view(t@) == py_markers(),
{
    let t = vec!["pyproject.toml", "Pipfile", "setup.py"];
    assert(names_view(t@) =~= py_markers());
    t
}

/// The first entry of `table` whose file is among `files`.
fn find_lockfile(files: &Vec<String>, table: &Vec<(&'static str, Manager)>) -> (r: Option<(&'static str, Manager)>)
    ensures
        match r {
            Some(e) => first_lockfile(strings_view(files@), table_view(table@)) == Some((e.0@, e.1)),
            None => first_lockfile(strings_view(files@), table_view(table@)) is None,
        },
{
    let ghost fs = strings_view(files@);
    let ghost tv = table_view(table@);
    let mut i: usize = 0;
    assert(tv.skip(0) =~= tv);
    while i < table.len()
        invariant
            fs == strings_view(files@),
            tv == table_view(table@),
            i <= table@.len(),
            first_lockfile(fs, tv) == first_lockfile(fs, tv.skip(i as int)),
        decreases table@.len() - i,
    {
        let (name, m) = table[i];
        assert(tv.skip(i as int)[0] == (name@, m));
        assert(tv.skip(i as int).drop_first() =~= tv.skip(i + 1));
        if contains_name(files, name) {
            return Some((name, m));
        }
        i = i + 1;
    }
    assert(tv.skip(i as int).len() == 0);
    None
}

/// The first of `markers` that is among `files`.
fn find_marker(files: &Vec<String>, markers: &Vec<&'static str>) -> (r: Option<&'static str>)
    ensures
        match r {
            Some(n) => first_marker(strings_view(files@), names_view(markers@)) == Some(n@),
            None => first_marker(strings_view(files@), names_view(markers@)) is None,
        },
{
    let ghost fs = strings_view(files@);
    let ghost mv = names_view(markers@);
    let mut i: usize = 0;
    assert(mv.skip(0) =~= mv);
    while i < markers.len()
        invariant
            fs == strings_view(files@),
            mv == names_view(markers@),
            i <= markers@.len(),
            first_marker(fs, mv) == first_marker(fs, mv.skip(i as int)),
        decreases markers@.len() - i,
    {
        let name = markers[i];
        assert(mv.skip(i as int)[0] == name@);
        assert(mv.skip(i as int).drop_first() =~= mv.skip(i + 1));
        if contains_name(files, name) {
            return Some(name);
        }
        i = i + 1;
    }
    assert(mv.skip(i as int).len() == 0);
    None
}

proof fn lemma_before_at_take(s: Seq<char>, k: int)
    requires
        0 <= k <= s.len(),
        forall|j: int| 0 <= j < k ==> s[j] != '@',
        k == s.len() || s[k] == '@',
    ensures
        before_at(s) == s.take(k),
    decreases s.len(),
{
    if s.len() == 0 {
        assert(s.take(k) =~= s);
    } else if k == 0 {
        assert(s.take(k) =~= seq![]);
    } else {
        let t = s.drop_first();
        assert forall|j: int| 0 <= j < k - 1 implies t[j] != '@' by {
            assert(t[j] == s[j + 1]);
        }
        lemma_before_at_take(t, k - 1);
        assert(s.take(k) =~= seq![s[0]] + t.take(k - 1));
    }
}

/// The manager that a `packageManager` field such as `pnpm@9.1.0` names: the
/// text before the first `@`, read as a manager's name.
pub fn manager_from_field(raw: &str) -> (r: Option<Manager>)
    ensures
        r == field_manager(raw@),
{
    let n: usize = raw.unicode_len();
    let mut k: usize = 0;
    while k < n && raw.get_char(k) != '@'
        invariant
            n == raw@.len(),
            k <= n,
            forall|j: int| 0 <= j < k ==> raw@[j] != '@',
        decreases n - k,
    {
        k = k + 1;
    }
    proof {
        lemma_before_at_take(raw@, k as int);
    }
    let name = raw.substring_char(0, k);
    assert(name@ =~= raw@.take(k as int));
    Manager::parse(name)
}

/// The manager that the `packageManager` field of the JSON document `text`
/// names, if `text` is a JSON document with such a string member.
pub fn package_manager_field(text: &str) -> (r: Option<Manager>)
    ensures
        r == text_field_manager(text@),
{
    match parse_json(text) {
        Some(doc) => match json_string_member(&doc, "packageManager") {
            Some(raw) => manager_from_field(raw.as_str()),
            None => None,
        },
        None => None,
    }
}

/// What the directory `listing` decides, `root` levels above the start, given
/// the manager that its `packageManager` field names (`field`); `None` when it
/// holds nothing that detection looks for.
pub fn detect_at(listing: &DirListing, field: Option<Manager>, root: usize) -> (r: Option<Detection>)
    ensures
        match r {
            Some(d) => detect_at_level(listing@.files, field, root as int) == Some(d@),
            None => detect_at_level(listing@.files, field, root as int) is None,
        },
{
    let has_package_json = contains_name(&listing.files, "package.json");
    if has_package_json && field.is_some() {
        return Some(Detection {
            manager: field,
            ecosystem: Some(Ecosystem::Javascript),
            root,
            source: DetectionSource::PackageManagerField,
        });
    }
    if let Some((name, m)) = find_lockfile(&listing.files, &js_lockfile_table()) {
        return Some(Detection {
            manager: Some(m),
            ecosystem: Some(Ecosystem::Javascript),
            root,
            source: DetectionSource::Lockfile(name),
        });
    }
    if let Some((name, m)) = find_lockfile(&listing.files, &py_lockfile_table()) {
        return Some(Detection {
            manager: Some(m),
            ecosystem: Some(Ecosystem::Python),
            root,
            source: DetectionSource::Lockfile(name),
        });
    }
    if has_package_json {
        return Some(Detection {
            manager: None,
            ecosystem: Some(Ecosystem::Javascript),
            root,
            source: DetectionSource::Marker("package.json"),
        });
    }
    if let Some(marker) = find_marker(&listing.files, &py_marker_table()) {
        return Some(Detection {
            manager: None,
            ecosystem: Some(Ecosystem::Python),
            root,
            source: DetectionSource::Marker(marker),
        });
    }
    None
}

/// The manager that a directory's `package.json` names in its
/// `packageManager` field, if it is a file that names one.
pub fn listing_package_manager(listing: &DirListing) -> (r: Option<Manager>)
    ensures
        r == listing_field_manager(listing@),
{
    if contains_name(&listing.files, "package.json") {
        match &listing.package_json {
            Some(text) => package_manager_field(text.as_str()),
            None => None,
        }
    } else {
        None
    }
}

/// Detects the package manager from the starting directory `levels[0]`
/// upwards: the nearest directory that holds a `packageManager` field, a
/// lockfile or a project marker decides.
pub fn detect(levels: &Vec<DirListing>) -> (r: Detection)
    ensures
        r@ == spec_detect(listings_view(levels@)),
{
    let ghost lv = listings_view(levels@);
    let mut i: usize = 0;
    while i < levels.len()
        invariant
            lv == listings_view(levels@),
            i <= levels@.len(),
            spec_detect(lv) == detect_from(lv, i as int),
        decreases levels@.len() - i,
    {
        let listing = &levels[i];
        assert(lv[i as int] == listing@);
        let field = listing_package_manager(listing);
        if let Some(d) = detect_at(listing, field, i) {
            return d;
        }
        i = i + 1;
    }
    Detection { manager: None, ecosystem: None, root: 0, source: DetectionSource::Nothing }
}

/// In one directory, a `packageManager` field that names a manager wins over
/// any lockfile or marker there.
pub proof fn lemma_field_wins_at_level(files: Seq<Seq<char>>, m: Manager, root: int)
    requires
        files.contains("package.json"@),
    ensures
        detect_at_level(files, Some(m), root) == Some(DetectionView {
            manager: Some(m),
            ecosystem: Some(Ecosystem::Javascript),
            root,
            source: SourceView::PackageManagerField,
        }),
{
}

/// In one directory without a deciding `packageManager` field, a lockfile
/// wins over every project marker: what is detected is that lockfile's
/// manager, never a marker.
pub proof fn lemma_lockfile_wins_over_marker(files: Seq<Seq<char>>, root: int, name: Seq<char>, m: Manager)
    requires
        first_lockfile(files, js_lockfiles()) == Some((name, m))
            || (first_lockfile(files, js_lockfiles()) is None
                && first_lockfile(files, py_lockfiles()) == Some((name, m))),
    ensures
        detect_at_level(files, None, root) matches Some(d) && d.manager == Some(m)
            && d.source == SourceView::Lockfile(name),
{
}

/// A JavaScript lockfile wins over a Python lockfile in the same directory.
pub proof fn lemma_js_lockfile_before_py(files: Seq<Seq<char>>, field: Option<Manager>, root: int)
    requires
        first_lockfile(files, js_lockfiles()) is Some,
    ensures
        detect_at_level(files, field, root) matches Some(d) && d.ecosystem == Some(Ecosystem::Javascript),
{
}

/// `requirements.txt` is a Python lockfile meaning pip: it wins over every
/// Python project marker in the same directory.
pub proof fn lemma_requirements_txt_means_pip(files: Seq<Seq<char>>, field: Option<Manager>, root: int)
    requires
        !files.contains("package.json"@),
        first_lockfile(files, js_lockfiles()) is None,
        files.contains("requirements.txt"@),
        !files.contains("uv.lock"@),
        !files.contains("poetry.lock"@),
        !files.contains("Pipfile.lock"@),
    ensures
        detect_at_level(files, field, root) matches Some(d)
            && d.manager == Some(Manager::Pip)
            && d.ecosystem == Some(Ecosystem::Python)
            && d.source == SourceView::Lockfile("requirements.txt"@),
{
    let t = py_lockfiles();
    assert(t.drop_first().drop_first().drop_first()[0] == ("requirements.txt"@, Manager::Pip));
    reveal_with_fuel(first_lockfile, 5);
}

/// A Python project marker (`pyproject.toml`, `Pipfile`, `setup.py`) names no
/// manager: with no lockfile and no `package.json` beside it, the project is a
/// Python one and the configured default applies.
pub proof fn lemma_python_markers(files: Seq<Seq<char>>, field: Option<Manager>, root: int, marker: Seq<char>)
    requires
        !files.contains("package.json"@),
        first_lockfile(files, js_lockfiles()) is None,
        first_lockfile(files, py_lockfiles()) is None,
        first_marker(files, py_markers()) == Some(marker),
    ensures
        detect_at_level(files, field, root) matches Some(d)
            && d.ecosystem == Some(Ecosystem::Python)
            && d.source == SourceView::Marker(marker)
            && d.manager is None,
{
}

/// Whether the directory `levels[i]` decides anything.
pub open spec fn level_decides(levels: Seq<DirListingView>, i: int) -> bool {
    detect_at_level(levels[i].files, listing_field_manager(levels[i]), i) is Some
}

/// The nearest deciding directory decides: detection reports the first
/// directory, from the start upwards, that holds anything detection looks
/// for, and reports exactly what that directory decides; nothing is detected
/// exactly when no directory decides anything.
pub proof fn lemma_nearest_directory_decides(levels: Seq<DirListingView>)
    ensures
        spec_detect(levels).source != SourceView::Nothing ==> {
            let k: int = spec_detect(levels).root;
            &&& 0 <= k < levels.len()
            &&& forall|j: int| 0 <= j < k ==> !level_decides(levels, j)
            &&& detect_at_level(levels[k].files, listing_field_manager(levels[k]), k) == Some(spec_detect(levels))
        },
        (forall|j: int| 0 <= j < levels.len() ==> !level_decides(levels, j))
            ==> spec_detect(levels) == nothing_detected(),
        spec_detect(levels).source == SourceView::Nothing
            ==> forall|j: int| 0 <= j < levels.len() ==> !level_decides(levels, j),
{
    lemma_detect_from(levels, 0);
}

proof fn lemma_detect_from(levels: Seq<DirListingView>, i: int)
    requires
        0 <= i,
    ensures
        detect_from(levels, i).source != SourceView::Nothing ==> {
            let k: int = detect_from(levels, i).root;
            &&& i <= k < levels.len()
            &&& forall|j: int| i <= j < k ==> !level_decides(levels, j)
            &&& detect_at_level(levels[k].files, listing_field_manager(levels[k]), k) == Some(detect_from(levels, i))
        },
        (forall|j: int| i <= j < levels.len() ==> !level_decides(levels, j))
            ==> detect_from(levels, i) == nothing_detected(),
        detect_from(levels, i).source == SourceView::Nothing
            ==> forall|j: int| i <= j < levels.len() ==> !level_decides(levels, j),
    decreases levels.len() - i,
{
    if i < levels.len() {
        lemma_detect_from(levels, i + 1);
        if level_decides(levels, i) {
            lemma_level_result(levels[i].files, listing_field_manager(levels[i]), i);
        }
    }
}

proof fn lemma_level_result(files: Seq<Seq<char>>, field: Option<Manager>, root: int)
    ensures
        detect_at_level(files, field, root) matches Some(d) ==> d.root == root && d.source != SourceView::Nothing,
{
}

/// The directory `files` is detected, `root` levels up, as using manager `m`
/// of ecosystem `e` because of the lockfile `name`.
pub open spec fn detected_by_lockfile(
    files: Seq<Seq<char>>,
    field: Option<Manager>,
    root: int,
    name: Seq<char>,
    m: Manager,
    e: Ecosystem,
) -> bool {
    detect_at_level(files, field, root) == Some(DetectionView {
        manager: Some(m),
        ecosystem: Some(e),
        root,
        source: SourceView::Lockfile(name),
    })
}

/// None of the JavaScript lockfiles is among `files`.
pub open spec fn no_js_lockfile(files: Seq<Seq<char>>) -> bool {
    &&& !files.contains("bun.lock"@)
    &&& !files.contains("bun.lockb"@)
    &&& !files.contains("pnpm-lock.yaml"@)
    &&& !files.contains("yarn.lock"@)
    &&& !files.contains("package-lock.json"@)
}

proof fn reveal_probed_names() {
    reveal_strlit("package.json");
    reveal_strlit("bun.lock");
    reveal_strlit("bun.lockb");
    reveal_strlit("pnpm-lock.yaml");
    reveal_strlit("yarn.lock");
    reveal_strlit("package-lock.json");
    reveal_strlit("uv.lock");
    reveal_strlit("poetry.lock");
    reveal_strlit("Pipfile.lock");
    reveal_strlit("requirements.txt");
    reveal_strlit("pyproject.toml");
    reveal_strlit("Pipfile");
    reveal_strlit("setup.py");
}

/// Each lockfile names its own manager: `bun.lock` and `bun.lockb` bun,
/// `pnpm-lock.yaml` pnpm, `yarn.lock` yarn, `package-lock.json` npm (all
/// JavaScript), `uv.lock` uv, `poetry.lock` poetry, `Pipfile.lock` pipenv,
/// `requirements.txt` pip (all Python). When a directory holds several, the
/// first of that order wins, JavaScript ones before Python ones. (A
/// `packageManager` field is not in play: there is none, or no `package.json`.)
pub proof fn lemma_each_lockfile_names_its_manager(files: Seq<Seq<char>>, field: Option<Manager>, root: int)
    requires
        field is None || !files.contains("package.json"@),
    ensures
        files.contains("bun.lock"@) ==> detected_by_lockfile(
            files, field, root, "bun.lock"@, Manager::Bun, Ecosystem::Javascript),
        !files.contains("bun.lock"@) && files.contains("bun.lockb"@) ==> detected_by_lockfile(
            files, field, root, "bun.lockb"@, Manager::Bun, Ecosystem::Javascript),
        !files.contains("bun.lock"@) && !files.contains("bun.lockb"@) && files.contains("pnpm-lock.yaml"@)
            ==> detected_by_lockfile(files, field, root, "pnpm-lock.yaml"@, Manager::Pnpm, Ecosystem::Javascript),
        !files.contains("bun.lock"@) && !files.contains("bun.lockb"@) && !files.contains("pnpm-lock.yaml"@)
            && files.contains("yarn.lock"@)
            ==> detected_by_lockfile(files, field, root, "yarn.lock"@, Manager::Yarn, Ecosystem::Javascript),
        !files.contains("bun.lock"@) && !files.contains("bun.lockb"@) && !files.contains("pnpm-lock.yaml"@)
            && !files.contains("yarn.lock"@) && files.contains("package-lock.json"@)
            ==> detected_by_lockfile(files, field, root, "package-lock.json"@, Manager::Npm, Ecosystem::Javascript),
        no_js_lockfile(files) && files.contains("uv.lock"@)
            ==> detected_by_lockfile(files, field, root, "uv.lock"@, Manager::Uv, Ecosystem::Python),
        no_js_lockfile(files) && !files.contains("uv.lock"@) && files.contains("poetry.lock"@)
            ==> detected_by_lockfile(files, field, root, "poetry.lock"@, Manager::Poetry, Ecosystem::Python),
        no_js_lockfile(files) && !files.contains("uv.lock"@) && !files.contains("poetry.lock"@)
            && files.contains("Pipfile.lock"@)
            ==> detected_by_lockfile(files, field, root, "Pipfile.lock"@, Manager::Pipenv, Ecosystem::Python),
        no_js_lockfile(files) && !files.contains("uv.lock"@) && !files.contains("poetry.lock"@)
            && !files.contains("Pipfile.lock"@) && files.contains("requirements.txt"@)
            ==> detected_by_lockfile(files, field, root, "requirements.txt"@, Manager::Pip, Ecosystem::Python),
{
    reveal_probed_names();
    reveal_with_fuel(first_lockfile, 6);
    let js = js_lockfiles();
    let py = py_lockfiles();
    assert(js.drop_first() =~= seq![
        ("bun.lockb"@, Manager::Bun),
        ("pnpm-lock.yaml"@, Manager::Pnpm),
        ("yarn.lock"@, Manager::Yarn),
        ("package-lock.json"@, Manager::Npm),
    ]);
    assert(js.drop_first().drop_first() =~= seq![
        ("pnpm-lock.yaml"@, Manager::Pnpm),
        ("yarn.lock"@, Manager::Yarn),
        ("package-lock.json"@, Manager::Npm),
    ]);
    assert(js.drop_first().drop_first().drop_first() =~= seq![
        ("yarn.lock"@, Manager::Yarn),
        ("package-lock.json"@, Manager::Npm),
    ]);
    assert(js.drop_first().drop_first().drop_first().drop_first() =~= seq![
        ("package-lock.json"@, Manager::Npm),
    ]);
    assert(js.drop_first().drop_first().drop_first().drop_first().drop_first() =~= seq![]);
    assert(py.drop_first() =~= seq![
        ("poetry.lock"@, Manager::Poetry),
        ("Pipfile.lock"@, Manager::Pipenv),
        ("requirements.txt"@, Manager::Pip),
    ]);
    assert(py.drop_first().drop_first() =~= seq![
        ("Pipfile.lock"@, Manager::Pipenv),
        ("requirements.txt"@, Manager::Pip),
    ]);
    assert(py.drop_first().drop_first().drop_first() =~= seq![
        ("requirements.txt"@, Manager::Pip),
    ]);
    assert(py.drop_first().drop_first().drop_first().drop_first() =~= seq![]);
}

/// A `packageManager` field names the manager written before its `@`,
/// whatever version follows, and a bare manager name names that manager.
pub proof fn lemma_field_names_manager(m: Manager, version: Seq<char>)
    ensures
        field_manager(manager_name(m) + "@"@ + version) == Some(m),
        field_manager(manager_name(m)) == Some(m),
{
    reveal_strlit("@");
    reveal_strlit("npm");
    reveal_strlit("pnpm");
    reveal_strlit("yarn");
    reveal_strlit("bun");
    reveal_strlit("pip");
    reveal_strlit("uv");
    reveal_strlit("poetry");
    reveal_strlit("pipenv");
    let n = manager_name(m);
    let s = n + "@"@ + version;
    assert(s[n.len() as int] == '@');
    lemma_before_at_take(s, n.len() as int);
    assert(s.take(n.len() as int) =~= n);
    lemma_before_at_take(n, n.len() as int);
    assert(n.take(n.len() as int) =~= n);
    lemma_parse_name_round_trip(m);
}

/// No Python lockfile is among `files`.
pub open spec fn no_py_lockfile(files: Seq<Seq<char>>) -> bool {
    &&& !files.contains("uv.lock"@)
    &&& !files.contains("poetry.lock"@)
    &&& !files.contains("Pipfile.lock"@)
    &&& !files.contains("requirements.txt"@)
}

/// Project markers name no manager. Without any lockfile (and without a
/// deciding `packageManager` field), `package.json` makes a JavaScript
/// project, and otherwise `pyproject.toml`, `Pipfile` or `setup.py` a Python
/// one, in that order; either way the configured default applies.
pub proof fn lemma_markers_name_no_manager(files: Seq<Seq<char>>, field: Option<Manager>, root: int)
    requires
        field is None,
        no_js_lockfile(files),
        no_py_lockfile(files),
    ensures
        files.contains("package.json"@) ==> detect_at_level(files, field, root) == Some(DetectionView {
            manager: None,
            ecosystem: Some(Ecosystem::Javascript),
            root,
            source: SourceView::Marker("package.json"@),
        }),
        !files.contains("package.json"@) && files.contains("pyproject.toml"@)
            ==> detect_at_level(files, field, root) == Some(DetectionView {
            manager: None,
            ecosystem: Some(Ecosystem::Python),
            root,
            source: SourceView::Marker("pyproject.toml"@),
        }),
        !files.contains("package.json"@) && !files.contains("pyproject.toml"@) && files.contains("Pipfile"@)
            ==> detect_at_level(files, field, root) == Some(DetectionView {
            manager: None,
            ecosystem: Some(Ecosystem::Python),
            root,
            source: SourceView::Marker("Pipfile"@),
        }),
        !files.contains("package.json"@) && !files.contains("pyproject.toml"@) && !files.contains("Pipfile"@)
            && files.contains("setup.py"@) ==> detect_at_level(files, field, root) == Some(DetectionView {
            manager: None,
            ecosystem: Some(Ecosystem::Python),
            root,
            source: SourceView::Marker("setup.py"@),
        }),
        !files.contains("package.json"@) && !files.contains("pyproject.toml"@) && !files.contains("Pipfile"@)
            && !files.contains("setup.py"@) ==> detect_at_level(files, field, root) is None,
{
    reveal_probed_names();
    reveal_with_fuel(first_lockfile, 6);
    reveal_with_fuel(first_marker, 4);
    let js = js_lockfiles();
    let py = py_lockfiles();
    let mk = py_markers();
    assert(js.drop_first().drop_first().drop_first().drop_first().drop_first() =~= seq![]);
    assert(py.drop_first().drop_first().drop_first().drop_first() =~= seq![]);
    assert(mk.drop_first() =~= seq!["Pipfile"@, "setup.py"@]);
    assert(mk.drop_first().drop_first() =~= seq!["setup.py"@]);
    assert(mk.drop_first().drop_first().drop_first() =~= seq![]);
}

/// Every file that detection or the project configuration looks at is among
/// the probed names, so a [`DirListing`] filled from them misses nothing.
pub proof fn lemma_probes_cover_detection()
    ensures
        forall|k: int| 0 <= k < js_lockfiles().len() ==> probed_names().contains(#[trigger] js_lockfiles()[k].0),
        forall|k: int| 0 <= k < py_lockfiles().len() ==> probed_names().contains(#[trigger] py_lockfiles()[k].0),
        forall|k: int| 0 <= k < py_markers().len() ==> probed_names().contains(#[trigger] py_markers()[k]),
        probed_names().contains("package.json"@),
        probed_names().contains(project_config_name()),
{
    let p = probed_names();
    assert(p[0] == "package.json"@);
    assert(p[1] == "bun.lock"@);
    assert(p[2] == "bun.lockb"@);
    assert(p[3] == "pnpm-lock.yaml"@);
    assert(p[4] == "yarn.lock"@);
    assert(p[5] == "package-lock.json"@);
    assert(p[6] == "uv.lock"@);
    assert(p[7] == "poetry.lock"@);
    assert(p[8] == "Pipfile.lock"@);
    assert(p[9] == "pyproject.toml"@);
    assert(p[10] == "Pipfile"@);
    assert(p[11] == "requirements.txt"@);
    assert(p[12] == "setup.py"@);
    assert(p[13] == ".addrc.toml"@);
    assert forall|k: int| 0 <= k < js_lockfiles().len() implies p.contains(#[trigger] js_lockfiles()[k].0) by {
        assert(p[k + 1] == js_lockfiles()[k].0);
    }
    assert forall|k: int| 0 <= k < py_lockfiles().len() implies p.contains(#[trigger] py_lockfiles()[k].0) by {
        if k < 3 {
            assert(p[k + 6] == py_lockfiles()[k].0);
        } else {
            assert(p[11] == py_lockfiles()[k].0);
        }
    }
    assert forall|k: int| 0 <= k < py_markers().len() implies p.contains(#[trigger] py_markers()[k]) by {
        if k < 2 {
            assert(p[k + 9] == py_markers()[k]);
        } else {
            assert(p[12] == py_markers()[k]);
        }
    }
}

} // verus!
