//! What a pipeline run is configured with: the packages to install and
//! where the bundled files live. Also the rule on project names.
use vstd::prelude::*;

verus! {

/// Configuration handed to the pipeline when it is built.
#[derive(Debug, Clone, PartialEq, Eq)]
pub struct Config {
    /// Packages installed into the new environment, in this order.
    pub packages: Vec<String>,
    /// Directory that holds the bundled files (deployment descriptor,
    /// compose file, dependency manifest, settings override).
    pub resources: String,
}

/// Mathematical model of a [`Config`].
pub struct ConfigModel {
    pub packages: Seq<Seq<char>>,
    pub resources: Seq<char>,
}

/// The character sequences held by a sequence of strings.
pub open spec fn texts(v: Seq<String>) -> Seq<Seq<char>> {
    v.map_values(|s: String| s@)
}

/// Appending a string appends its characters.
pub proof fn lemma_texts_push(v: Seq<String>, s: String)
    ensures
        texts(v.push(s)) == texts(v).push(s@),
{
    assert(texts(v.push(s)) =~= texts(v).push(s@));
}

impl View for Config {
    type V = ConfigModel;

    open spec fn view(&self) -> ConfigModel {
        ConfigModel { packages: texts(self.packages@), resources: self.resources@ }
    }
}

/// The fixed package list: the framework, its REST extension, the CORS
/// middleware, the API-schema generator, the filtering extension, the
/// settings-from-environment helper and the JWT extension.
pub open spec fn default_package_names() -> Seq<Seq<char>> {
    seq![
        "django"@,
        "djangorestframework"@,
        "django-cors-headers"@,
        "drf-spectacular"@,
        "django-filter"@,
        "django-environ"@,
        "djangorestframework-simplejwt"@,
    ]
}

impl Config {
    /// The standard configuration: the fixed package list, with the bundled
    /// files under `resources`.
    pub fn with_resources(resources: String) -> (c: Config)
        ensures
            c@.packages == default_package_names(),
            c@.resources == resources@,
    {
        let mut packages: Vec<String> = Vec::new();
        packages.push(String::from_str("django"));
        packages.push(String::from_str("djangorestframework"));
        packages.push(String::from_str("django-cors-headers"));
        packages.push(String::from_str("drf-spectacular"));
        packages.push(String::from_str("django-filter"));
        packages.push(String::from_str("django-environ"));
        packages.push(String::from_str("djangorestframework-simplejwt"));
        assert(texts(packages@) =~= default_package_names());
        Config { packages, resources }
    }
}

/// A project name is one non-empty path segment: not `.` or `..`, and
/// without a path separator or a NUL character.
pub open spec fn valid_name(n: Seq<char>) -> bool {
    &&& n.len() > 0
    &&& n != seq!['.']
    &&& n != seq!['.', '.']
    &&& forall|i: int| 0 <= i < n.len() ==> is_plain_char(#[trigger] n[i])
}

/// A character that may stand in a project name.
pub open spec fn is_plain_char(c: char) -> bool {
    c != '/' && c != '\\' && c != '\0'
}

/// Whether `name` can name the project directory.
pub fn is_valid_name(name: &str) -> (r: bool)
    ensures
        r == valid_name(name@),
{
    let n = name.unicode_len();
    if n == 0 {
        return false;
    }
    let mut i: usize = 0;
    while i < n
        invariant
            n == name@.len(),
            i <= n,
            forall|j: int| 0 <= j < i ==> is_plain_char(#[trigger] name@[j]),
        decreases n - i,
    {
        let c = name.get_char(i);
        if c == '/' || c == '\\' || c == '\0' {
            assert(!is_plain_char(name@[i as int]));
            return false;
        }
        i = i + 1;
    }
    if n <= 2 {
        let first = name.get_char(0);
        let dot_only = first == '.' && (n == 1 || name.get_char(1) == '.');
        if dot_only {
            assert(name@ =~= seq!['.'] || name@ =~= seq!['.', '.']);
            return false;
        }
        assert(name@ != seq!['.'] && name@ != seq!['.', '.']) by {
            if n == 1 {
                assert(name@[0] != seq!['.'][0]);
            } else {
                assert(name@[0] != '.' || name@[1] != '.');
                assert(seq!['.', '.'][0] == '.' && seq!['.', '.'][1] == '.');
            }
        }
    }
    true
}

} // verus!
