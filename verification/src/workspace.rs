use vstd::prelude::*;

verus! {

// Minimal shape of a workspace-description document: a `workspace` section
// with its `members` list of glob patterns.

/// The `workspace` section of a workspace-description document.
pub struct Workspace {
    /// The member glob patterns, in declaration order.
    pub members: Vec<String>,
}

/// A parsed workspace-description document.
pub struct Manifest {
    /// Its `workspace` section.
    pub workspace: Workspace,
}

impl View for Manifest {
    type V = Seq<Seq<char>>;

    open spec fn view(&self) -> Seq<Seq<char>> {
        self.workspace.members.deep_view()
    }
}

/// What the structured-document parser yields for a workspace-description
/// document with the given text: its member glob patterns, or nothing when
/// the text holds no well-formed `workspace` section.
pub uninterp spec fn workspace_members_of(s: Seq<char>) -> Option<Seq<Seq<char>>>;

/// Relies on `toml::from_str` and the `toml::Value` accessors (`get`,
/// `as_str`, `as_array`, `as_table`): parses the text of a
/// workspace-description document into its member pattern list. The result
/// is a function of the text alone.
#[verifier::external_body]
pub fn parse_workspace(s: &str) -> (r: Option<Manifest>)
    ensures
        match r {
            Some(m) => workspace_members_of(s@) == Some(m@),
            None => workspace_members_of(s@) is None,
        },
{
    let v: toml::Value = toml::from_str(s).ok()?;
    let list = v.get("workspace")?.as_table()?.get("members")?.as_array()?;
    let mut members = Vec::new();
    for m in list {
        members.push(m.as_str()?.to_owned());
    }
    Some(Manifest { workspace: Workspace { members } })
}

} // verus!
