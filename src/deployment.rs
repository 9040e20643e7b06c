use vstd::prelude::*;
use vstd::string::StringExecFns;

verus! {

/// The mode the service runs in.
#[derive(Debug, Clone, Copy, PartialEq, Eq, Structural)]
pub enum DeploymentMode {
    /// Sandbox partners, mock data and restricted features.
    Demo,
    /// Live users and real transaction processing.
    Production,
}

/// What `str::to_lowercase` returns for a sequence of characters.
pub uninterp spec fn lower_of(s: Seq<char>) -> Seq<char>;

/// Relies on `str::to_lowercase`: the lowercase form depends on the characters alone.
#[verifier::external_body]
fn lowercase(s: &str) -> (r: String)
    ensures
        r@ == lower_of(s@),
{
    s.to_lowercase()
}

/// The mode named by an already lowercased setting: `"demo"` selects demo mode,
/// anything else production.
pub open spec fn mode_of_lowercase(s: Seq<char>) -> DeploymentMode {
    if s == "demo"@ {
        DeploymentMode::Demo
    } else {
        DeploymentMode::Production
    }
}

impl DeploymentMode {
    /// Returns true if running in demo mode.
    pub fn is_demo(&self) -> (r: bool)
        ensures
            r == (*self == DeploymentMode::Demo),
    {
        matches!(self, DeploymentMode::Demo)
    }

    /// Returns true if running in production mode.
    pub fn is_production(&self) -> (r: bool)
        ensures
            r == (*self == DeploymentMode::Production),
    {
        matches!(self, DeploymentMode::Production)
    }

    /// The mode named by a setting that has already been lowercased.
    pub fn from_lowercase(s: &str) -> (r: DeploymentMode)
        ensures
            r == mode_of_lowercase(s@),
    {
        let given = String::from_str(s);
        let demo = String::from_str("demo");
        if given == demo {
            DeploymentMode::Demo
        } else {
            DeploymentMode::Production
        }
    }
}

impl Default for DeploymentMode {
    /// Production, unless a setting says otherwise.
    fn default() -> (r: DeploymentMode)
        ensures
            r == DeploymentMode::Production,
    {
        DeploymentMode::Production
    }
}

impl From<String> for DeploymentMode {
    /// `"demo"` in any letter case selects demo mode; anything else production.
    fn from(s: String) -> (r: DeploymentMode)
        ensures
            r == mode_of_lowercase(lower_of(s@)),
    {
        let lowered = lowercase(s.as_str());
        DeploymentMode::from_lowercase(lowered.as_str())
    }
}

impl vstd::std_specs::convert::FromSpecImpl<String> for DeploymentMode {
    open spec fn obeys_from_spec() -> bool {
        true
    }

    open spec fn from_spec(s: String) -> DeploymentMode {
        mode_of_lowercase(lower_of(s@))
    }
}

} // verus!
