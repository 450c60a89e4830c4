use vstd::prelude::*;

verus! {

// Minimal shape of a project-description document: the `package` section
// with its required `name` and `version` and optional `description`.

/// Marker table a package field may hold in place of a plain value,
/// inheriting the value from the enclosing workspace.
#[derive(Debug, PartialEq)]
pub struct Workspace {
    /// The `workspace` key of the marker table.
    pub workspace: bool,
}

/// A package version: either a literal string or a workspace marker table.
#[derive(Debug, PartialEq)]
pub enum Version {
    /// A literal version string.
    Str(String),
    /// A `{ workspace = ... }` marker table.
    Table(Workspace),
}

/// The `package` section of a project-description document.
pub struct Package {
    /// The declared package name (required).
    pub name: String,
    /// The declared version (required).
    pub version: Version,
    /// The free-form description (optional).
    pub description: Option<String>,
}

/// A parsed project-description document.
pub struct Manifest {
    /// Its `package` section.
    pub package: Package,
}

/// Mathematical shape of a parsed `Version`.
pub ghost enum VersionView {
    /// A literal version string.
    Str(Seq<char>),
    /// A workspace marker with its `workspace` flag.
    Table(bool),
}

/// Mathematical shape of a parsed project-description document.
pub ghost struct ManifestView {
    /// The declared package name.
    pub name: Seq<char>,
    /// The declared version.
    pub version: VersionView,
    /// The free-form description, if declared.
    pub description: Option<Seq<char>>,
}

impl View for Manifest {
    type V = ManifestView;

    open spec fn view(&self) -> ManifestView {
        ManifestView {
            name: self.package.name@,
            version: match self.package.version {
                Version::Str(s) => VersionView::Str(s@),
                Version::Table(w) => VersionView::Table(w.workspace),
            },
            description: match self.package.description {
                Some(d) => Some(d@),
                None => None,
            },
        }
    }
}

/// What the structured-document parser yields for a project-description
/// document with the given text: its minimal typed shape, or nothing when
/// the text does not parse against that shape.
pub uninterp spec fn manifest_of(s: Seq<char>) -> Option<ManifestView>;

/// Relies on `toml::from_str` and the `toml::Value` accessors (`get`,
/// `as_str`, `as_bool`, `as_table`): parses the text of a
/// project-description document into its minimal typed shape. The result
/// is a function of the text alone.
#[verifier::external_body]
pub fn parse_manifest(s: &str) -> (r: Option<Manifest>)
    ensures
        match r {
            Some(m) => manifest_of(s@) == Some(m@),
            None => manifest_of(s@) is None,
        },
{
    let v: toml::Value = toml::from_str(s).ok()?;
    let pkg = v.get("package")?.as_table()?;
    let name = pkg.get("name")?.as_str()?.to_owned();
    let version = match pkg.get("version")? {
        toml::Value::String(x) => Version::Str(x.clone()),
        toml::Value::Table(t) => Version::Table(Workspace { workspace: t.get("workspace")?.as_bool()? }),
        _ => return None,
    };
    let description = match pkg.get("description") { Some(d) => Some(d.as_str()?.to_owned()), None => None };
    Some(Manifest { package: Package { name, version, description } })
}

} // verus!
