use vstd::prelude::*;

verus! {

// Minimal shape of a build-configuration document: an optional `build`
// section with optional `target` and `target-dir` keys.

/// The `build` section of a build-configuration document.
pub struct Build {
    /// The default compilation target triple, if declared.
    pub target: Option<String>,
    /// The target directory (the hyphenated `target-dir` key), if declared.
    pub target_dir: Option<String>,
}

/// A parsed build-configuration document.
pub struct Config {
    /// Its `build` section, if present.
    pub build: Option<Build>,
}

/// Mathematical shape of a parsed `build` section.
pub ghost struct BuildView {
    /// The declared default target, if any.
    pub target: Option<Seq<char>>,
    /// The declared target directory, if any.
    pub target_dir: Option<Seq<char>>,
}

/// Mathematical shape of a parsed build-configuration document.
pub ghost struct ConfigView {
    /// The `build` section, if present.
    pub build: Option<BuildView>,
}

impl View for Config {
    type V = ConfigView;

    open spec fn view(&self) -> ConfigView {
        ConfigView {
            build: match self.build {
                Some(b) => Some(
                    BuildView {
                        target: match b.target {
                            Some(t) => Some(t@),
                            None => None,
                        },
                        target_dir: match b.target_dir {
                            Some(t) => Some(t@),
                            None => None,
                        },
                    },
                ),
                None => None,
            },
        }
    }
}

/// What the structured-document parser yields for a build-configuration
/// document with the given text: its minimal typed shape, or nothing when
/// the text does not parse against that shape.
pub uninterp spec fn build_config_of(s: Seq<char>) -> Option<ConfigView>;

/// Relies on `toml::from_str` and the `toml::Value` accessors (`get`,
/// `as_str`, `as_table`): parses the text of a build-configuration
/// document into its minimal typed shape. The result is a function of the
/// text alone.
#[verifier::external_body]
pub fn parse_config(s: &str) -> (r: Option<Config>)
    ensures
        match r {
            Some(c) => build_config_of(s@) == Some(c@),
            None => build_config_of(s@) is None,
        },
{
    let v: toml::Value = toml::from_str(s).ok()?;
    let build = match v.get("build") {
        None => None,
        Some(b) => {
            let b = b.as_table()?;
            let target = match b.get("target") { Some(t) => Some(t.as_str()?.to_owned()), None => None };
            let target_dir = match b.get("target-dir") { Some(t) => Some(t.as_str()?.to_owned()), None => None };
            Some(Build { target, target_dir })
        },
    };
    Some(Config { build })
}

} // verus!
