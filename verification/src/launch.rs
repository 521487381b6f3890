//! The launch configuration of a game: what it must name, which package the
//! workspace metadata resolves it to, and the arguments of the run command.
use vstd::prelude::*;
use crate::error::{Error, ErrorView};

verus! {

/// The executable target of a package.
#[derive(Debug)]
pub enum Target {
    Binary { name: String },
    Example { name: String },
}

/// How to launch a game: its manifest, package, target, features and the
/// arguments handed to it.
#[derive(Debug)]
pub struct Config {
    pub manifest_path: String,
    pub package: String,
    pub target: Target,
    pub features: Vec<String>,
    pub arguments: Vec<String>,
}

/// The characters with the Unicode `White_Space` property, which `str::trim`
/// removes.
pub open spec fn white_space(c: char) -> bool {
    let n = c as u32;
    (9 <= n <= 13) || n == 32 || n == 0x85 || n == 0xA0 || n == 0x1680 || (0x2000 <= n
        <= 0x200A) || n == 0x2028 || n == 0x2029 || n == 0x202F || n == 0x205F || n == 0x3000
}

/// Whether a text is empty once trimmed: all of it is white space.
pub open spec fn blank(s: Seq<char>) -> bool {
    forall|i: int| 0 <= i < s.len() ==> white_space(#[trigger] s[i])
}

fn is_white(c: char) -> (r: bool)
    ensures
        r == white_space(c),
{
    let n = c as u32;
    (9 <= n && n <= 13) || n == 32 || n == 0x85 || n == 0xA0 || n == 0x1680 || (0x2000 <= n && n
        <= 0x200A) || n == 0x2028 || n == 0x2029 || n == 0x202F || n == 0x205F || n == 0x3000
}

/// Whether a text is empty once trimmed.
pub fn is_blank(s: &str) -> (r: bool)
    ensures
        r == blank(s@),
{
    let n = s.unicode_len();
    let mut i: usize = 0;
    while i < n
        invariant
            n == s@.len(),
            i <= n,
            forall|j: int| 0 <= j < i ==> white_space(#[trigger] s@[j]),
        decreases n - i,
    {
        let c = s.get_char(i);
        if !is_white(c) {
            return false;
        }
        i = i + 1;
    }
    true
}

impl Target {
    /// The name of the binary or example.
    pub open spec fn name_spec(&self) -> Seq<char> {
        match self {
            Target::Binary { name } => name@,
            Target::Example { name } => name@,
        }
    }
}

/// A configuration that names a manifest, a package and a target.
pub open spec fn config_complete(manifest: Seq<char>, package: Seq<char>, name: Seq<char>) -> bool {
    manifest.len() > 0 && !blank(package) && !blank(name)
}

impl Config {
    /// Checks what the configuration must name, before anything is resolved.
    pub fn validate(&self) -> (r: Result<(), Error>)
        ensures
            r is Ok <==> config_complete(
                self.manifest_path@,
                self.package@,
                self.target.name_spec(),
            ),
            r is Err ==> r->Err_0@ == (ErrorView::InvalidConfig {
                message: "manifest, package and named target are required"@,
            }),
    {
        let name = match &self.target {
            Target::Binary { name } => name,
            Target::Example { name } => name,
        };
        if self.manifest_path.as_str().unicode_len() == 0 || is_blank(self.package.as_str())
            || is_blank(name.as_str()) {
            return Err(
                Error::InvalidConfig {
                    message: String::from_str("manifest, package and named target are required"),
                },
            );
        }
        Ok(())
    }

    /// The arguments of the run command that follow the manifest path: the
    /// package, the target, the features joined by commas when there are any,
    /// and the game's own arguments after `--`.
    pub fn run_arguments(&self) -> (r: Vec<String>)
        ensures
            strings(r@) == run_arguments_of(
                self.package@,
                self.target,
                strings(self.features@),
                strings(self.arguments@),
            ),
    {
        let mut r: Vec<String> = Vec::new();
        r.push(String::from_str("--package"));
        r.push(self.package.clone());
        match &self.target {
            Target::Binary { name } => {
                r.push(String::from_str("--bin"));
                r.push(name.clone());
            },
            Target::Example { name } => {
                r.push(String::from_str("--example"));
                r.push(name.clone());
            },
        }
        let ghost head = strings(r@);
        assert(head =~= seq!["--package"@, self.package@, target_flag(self.target), self.target.name_spec()]);
        if self.features.len() > 0 {
            r.push(String::from_str("--features"));
            r.push(join_commas(&self.features));
        }
        let ghost mid = strings(r@);
        assert(mid =~= head + feature_arguments(strings(self.features@)));
        r.push(String::from_str("--"));
        let n = self.arguments.len();
        let mut i: usize = 0;
        while i < n
            invariant
                n == self.arguments@.len(),
                i <= n,
                strings(r@) == mid + seq!["--"@] + strings(self.arguments@).subrange(0, i as int),
            decreases n - i,
        {
            let ghost r0 = r@;
            r.push(self.arguments[i].clone());
            assert(strings(r@) =~= strings(r0).push(self.arguments@[i as int]@));
            assert(strings(self.arguments@).subrange(0, i + 1) =~= strings(
                self.arguments@,
            ).subrange(0, i as int).push(self.arguments@[i as int]@));
            assert(strings(r@) =~= mid + seq!["--"@] + strings(self.arguments@).subrange(
                0,
                i + 1,
            ));
            i = i + 1;
        }
        assert(strings(self.arguments@).subrange(0, n as int) =~= strings(self.arguments@));
        r
    }
}

/// The texts of a sequence of strings.
pub open spec fn strings(s: Seq<String>) -> Seq<Seq<char>> {
    s.map_values(|x: String| x@)
}

/// Texts joined by commas.
pub open spec fn joined(parts: Seq<Seq<char>>) -> Seq<char>
    decreases parts.len(),
{
    if parts.len() == 0 {
        Seq::empty()
    } else if parts.len() == 1 {
        parts[0]
    } else {
        joined(parts.drop_last()) + seq![','] + parts.last()
    }
}

/// The flag that names the kind of target.
pub open spec fn target_flag(t: Target) -> Seq<char> {
    match t {
        Target::Binary { .. } => "--bin"@,
        Target::Example { .. } => "--example"@,
    }
}

/// The feature arguments: none without features.
pub open spec fn feature_arguments(features: Seq<Seq<char>>) -> Seq<Seq<char>> {
    if features.len() == 0 {
        Seq::empty()
    } else {
        seq!["--features"@, joined(features)]
    }
}

/// The run arguments after the manifest path.
pub open spec fn run_arguments_of(
    package: Seq<char>,
    target: Target,
    features: Seq<Seq<char>>,
    arguments: Seq<Seq<char>>,
) -> Seq<Seq<char>> {
    seq!["--package"@, package, target_flag(target), target.name_spec()] + feature_arguments(
        features,
    ) + seq!["--"@] + arguments
}

/// Joins texts with commas.
pub fn join_commas(parts: &Vec<String>) -> (r: String)
    ensures
        r@ == joined(strings(parts@)),
{
    let n = parts.len();
    let mut r = String::new();
    let mut i: usize = 0;
    while i < n
        invariant
            n == parts@.len(),
            i <= n,
            r@ == joined(strings(parts@).subrange(0, i as int)),
        decreases n - i,
    {
        let ghost before = strings(parts@).subrange(0, i as int);
        let ghost after = strings(parts@).subrange(0, i + 1);
        assert(after.drop_last() =~= before);
        let ghost r0 = r@;
        if i > 0 {
            r.append(",");
            proof {
                reveal_strlit(",");
            }
            assert(r@ =~= r0 + seq![',']);
        }
        r.append(parts[i].as_str());
        proof {
            if i == 0 {
                assert(after.len() == 1);
                assert(r@ =~= after[0]);
            } else {
                assert(after.last() == parts@[i as int]@);
                assert(r@ =~= joined(before) + seq![','] + after.last());
            }
        }
        i = i + 1;
    }
    assert(strings(parts@).subrange(0, n as int) =~= strings(parts@));
    r
}

/// What the workspace metadata says of one package: its name, its version
/// when that is a string, and its manifest path when that is a string.
#[derive(Debug)]
pub struct PackageEntry {
    pub name: Option<String>,
    pub version: Option<String>,
    pub manifest_path: Option<String>,
}

/// Whether an entry names the package.
pub open spec fn names(e: PackageEntry, package: Seq<char>) -> bool {
    e.name is Some && e.name->0@ == package
}

/// The number of entries that name the package with a version.
pub open spec fn versioned_count(s: Seq<PackageEntry>, package: Seq<char>) -> nat
    decreases s.len(),
{
    if s.len() == 0 {
        0
    } else {
        versioned_count(s.drop_last(), package) + if names(s.last(), package)
            && s.last().version is Some {
            1nat
        } else {
            0nat
        }
    }
}

/// The package of a launch: exactly one entry names it with a version, and
/// the first entry that names it is the one used.
pub fn select_package(packages: &Vec<PackageEntry>, package: &str) -> (r: Result<usize, Error>)
    ensures
        r is Ok <==> versioned_count(packages@, package@) == 1,
        r is Ok ==> {
            let i = r->Ok_0 as int;
            &&& 0 <= i < packages@.len()
            &&& names(packages@[i], package@)
            &&& forall|j: int| 0 <= j < i ==> !names(#[trigger] packages@[j], package@)
        },
        r is Err ==> r->Err_0@ == (ErrorView::Launch {
            message: "package and version must resolve uniquely"@,
        }),
{
    let n = packages.len();
    let mut count: usize = 0;
    let mut first: Option<usize> = None;
    let mut i: usize = 0;
    while i < n
        invariant
            n == packages@.len(),
            i <= n,
            count == versioned_count(packages@.subrange(0, i as int), package@),
            count <= i,
            match first {
                Some(f) => f < i && names(packages@[f as int], package@) && forall|j: int|
                    0 <= j < f ==> !names(#[trigger] packages@[j], package@),
                None => forall|j: int| 0 <= j < i ==> !names(#[trigger] packages@[j], package@),
            },
        decreases n - i,
    {
        let ghost before = packages@.subrange(0, i as int);
        assert(packages@.subrange(0, i + 1).drop_last() =~= before);
        let named = match &packages[i].name {
            Some(name) => crate::text::str_eq(name.as_str(), package),
            None => false,
        };
        if named && packages[i].version.is_some() {
            count = count + 1;
        }
        if named && first.is_none() {
            first = Some(i);
        }
        i = i + 1;
    }
    assert(packages@.subrange(0, n as int) =~= packages@);
    if count != 1 {
        return Err(
            Error::Launch { message: String::from_str("package and version must resolve uniquely") },
        );
    }
    match first {
        Some(f) => Ok(f),
        None => {
            proof {
                lemma_no_name_no_count(packages@, package@);
            }
            Err(
                Error::Launch {
                    message: String::from_str("package and version must resolve uniquely"),
                },
            )
        },
    }
}

/// What the workspace metadata says of one package, as plain text: its name,
/// version and manifest path, each where it is a string.
pub open spec fn entry_view(e: PackageEntry) -> (Option<Seq<char>>, Option<Seq<char>>, Option<Seq<char>>) {
    (
        match e.name {
            Some(n) => Some(n@),
            None => None,
        },
        match e.version {
            Some(v) => Some(v@),
            None => None,
        },
        match e.manifest_path {
            Some(m) => Some(m@),
            None => None,
        },
    )
}

/// The plain text of package entries, in order.
pub open spec fn entry_views(v: Seq<PackageEntry>) -> Seq<
    (Option<Seq<char>>, Option<Seq<char>>, Option<Seq<char>>),
> {
    v.map_values(|e: PackageEntry| entry_view(e))
}

/// The package entries that `serde_json` reads from the standard output of
/// `cargo metadata`: the parser's message for text that is no JSON, `None`
/// without a `packages` array, and otherwise each element's name, version and
/// manifest path where they are strings.
pub uninterp spec fn metadata_entries_of(stdout: Seq<char>) -> Result<
    Option<Seq<(Option<Seq<char>>, Option<Seq<char>>, Option<Seq<char>>)>>,
    Seq<char>,
>;

/// Reads the package entries of `cargo metadata` output with
/// `serde_json::from_str::<Value>`, the `packages` member's `as_array` and each
/// element's `as_str` members; the result is a function of the text alone.
#[verifier::external_body]
pub(crate) fn metadata_entries(stdout: &str) -> (r: Result<Option<Vec<PackageEntry>>, String>)
    ensures
        match (r, metadata_entries_of(stdout@)) {
            (Err(m), Err(n)) => m@ == n,
            (Ok(None), Ok(None)) => true,
            (Ok(Some(v)), Ok(Some(s))) => entry_views(v@) == s,
            _ => false,
        },
{
    let value: serde_json::Value = match serde_json::from_str(stdout) {
        Ok(value) => value,
        Err(e) => return Err(e.to_string()),
    };
    match value["packages"].as_array() {
        None => Ok(None),
        Some(packages) => Ok(Some(packages.iter().map(|p| PackageEntry {
            name: p["name"].as_str().map(str::to_owned),
            version: p["version"].as_str().map(str::to_owned),
            manifest_path: p["manifest_path"].as_str().map(str::to_owned),
        }).collect())),
    }
}

/// Whether a package entry's text names the package.
pub open spec fn view_names(t: (Option<Seq<char>>, Option<Seq<char>>, Option<Seq<char>>), package: Seq<char>) -> bool {
    t.0 == Some(package)
}

/// The number of entries whose text names the package with a version.
pub open spec fn versioned_views(
    s: Seq<(Option<Seq<char>>, Option<Seq<char>>, Option<Seq<char>>)>,
    package: Seq<char>,
) -> nat
    decreases s.len(),
{
    if s.len() == 0 {
        0
    } else {
        versioned_views(s.drop_last(), package) + if view_names(s.last(), package)
            && s.last().1 is Some {
            1nat
        } else {
            0nat
        }
    }
}

proof fn lemma_views_count(v: Seq<PackageEntry>, package: Seq<char>)
    ensures
        versioned_views(entry_views(v), package)
            == versioned_count(v, package),
        forall|i: int|
            0 <= i < v.len() ==> view_names(
                #[trigger] entry_views(v)[i],
                package,
            ) == names(v[i], package),
    decreases v.len(),
{
    let m = entry_views(v);
    if v.len() > 0 {
        lemma_views_count(v.drop_last(), package);
        assert(entry_views(v.drop_last()) =~= m.drop_last());
    }
}

/// The package of a launch, read from the standard output of `cargo
/// metadata`: text that is no JSON and output without a package list fail the
/// launch; otherwise exactly one entry must name the package with a version,
/// and the first entry that names it is the one used.
pub fn package_of(stdout: &str, package: &str) -> (r: Result<PackageEntry, Error>)
    ensures
        match metadata_entries_of(stdout@) {
            Err(m) => r is Err && r->Err_0@ == (ErrorView::Launch { message: m }),
            Ok(None) => r is Err && r->Err_0@ == (ErrorView::Launch {
                message: "missing packages"@,
            }),
            Ok(Some(s)) => {
                &&& r is Ok <==> versioned_views(s, package@) == 1
                &&& r is Ok ==> exists|i: int|
                    0 <= i < s.len() && view_names(s[i], package@) && (forall|j: int|
                        0 <= j < i ==> !view_names(#[trigger] s[j], package@)) && entry_view(
                        r->Ok_0,
                    ) == s[i]
                &&& r is Err ==> r->Err_0@ == (ErrorView::Launch {
                    message: "package and version must resolve uniquely"@,
                })
            },
        },
{
    match metadata_entries(stdout) {
        Err(m) => Err(Error::Launch { message: m }),
        Ok(None) => Err(Error::Launch { message: String::from_str("missing packages") }),
        Ok(Some(entries)) => {
            let mut entries = entries;
            proof {
                lemma_views_count(entries@, package@);
            }
            let ghost s = entry_views(entries@);
            match select_package(&entries, package) {
                Ok(i) => {
                    let ghost v = entries@;
                    let e = entries.remove(i);
                    proof {
                        assert(e == v[i as int]);
                        assert(s[i as int] == entry_view(e));
                        assert forall|j: int| 0 <= j < i implies !view_names(
                            #[trigger] s[j],
                            package@,
                        ) by {
                            assert(!names(v[j], package@));
                        }
                    }
                    Ok(e)
                },
                Err(e) => Err(e),
            }
        },
    }
}

proof fn lemma_no_name_no_count(s: Seq<PackageEntry>, package: Seq<char>)
    requires
        forall|j: int| 0 <= j < s.len() ==> !names(#[trigger] s[j], package),
    ensures
        versioned_count(s, package) == 0,
    decreases s.len(),
{
    if s.len() > 0 {
        assert forall|j: int| 0 <= j < s.drop_last().len() implies !names(
            #[trigger] s.drop_last()[j],
            package,
        ) by {
            assert(s.drop_last()[j] == s[j]);
        }
        lemma_no_name_no_count(s.drop_last(), package);
        assert(!names(s[s.len() - 1], package));
    }
}

/// Checks a session configuration: its launch configuration first, then an
/// artifact directory and a valid tick pace (`pace_valid`: finite and positive).
pub fn validate_session(launch: &Config, artifact_dir: &str, pace_valid: bool) -> (r: Result<
    (),
    Error,
>)
    ensures
        !config_complete(launch.manifest_path@, launch.package@, launch.target.name_spec())
            ==> r is Err && r->Err_0@ == (ErrorView::InvalidConfig {
            message: "manifest, package and named target are required"@,
        }),
        config_complete(launch.manifest_path@, launch.package@, launch.target.name_spec()) ==> (
        r is Ok <==> artifact_dir@.len() > 0 && pace_valid),
        config_complete(launch.manifest_path@, launch.package@, launch.target.name_spec())
            && r is Err ==> r->Err_0@ == (ErrorView::InvalidConfig {
            message: "artifact directory and valid tick pace required"@,
        }),
{
    launch.validate()?;
    if artifact_dir.unicode_len() == 0 || !pace_valid {
        return Err(
            Error::InvalidConfig {
                message: String::from_str("artifact directory and valid tick pace required"),
            },
        );
    }
    Ok(())
}

} // verus!
