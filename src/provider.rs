use vstd::prelude::*;

verus! {

/// Informational tag of a preset: which kind of endpoint it points at.
#[derive(Debug, Clone, Copy, PartialEq, Eq, Structural)]
pub enum ProviderKind {
    Glm,
    Custom,
}

impl ProviderKind {
    /// The lower-case tag under which the kind is stored and shown.
    pub open spec fn spec_tag(self) -> Seq<char> {
        match self {
            ProviderKind::Glm => "glm"@,
            ProviderKind::Custom => "custom"@,
        }
    }

    pub fn tag(&self) -> (r: &'static str)
        ensures
            r@ == self.spec_tag(),
    {
        match self {
            ProviderKind::Glm => "glm",
            ProviderKind::Custom => "custom",
        }
    }
}

impl Default for ProviderKind {
    fn default() -> (r: ProviderKind)
        ensures
            r == ProviderKind::Custom,
    {
        ProviderKind::Custom
    }
}

} // verus!
