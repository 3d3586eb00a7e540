use vstd::prelude::*;
use vstd::string::StringExecFns;

verus! {

/// The environment mode injected as the `NODE_ENV` variable of every
/// external-tool invocation.
pub enum NodeEnv {
    Production,
    Development,
    /// Any other configured string, passed through verbatim.
    Custom(String),
}

impl NodeEnv {
    /// The variable value this mode resolves to.
    pub open spec fn spec_env_var(&self) -> Seq<char> {
        match self {
            NodeEnv::Production => "production"@,
            NodeEnv::Development => "development"@,
            NodeEnv::Custom(s) => s@,
        }
    }

    /// The string set as the environment variable's value.
    pub fn to_env_var(&self) -> (r: &str)
        ensures
            r@ == self.spec_env_var(),
    {
        match self {
            NodeEnv::Production => "production",
            NodeEnv::Development => "development",
            NodeEnv::Custom(s) => s.as_str(),
        }
    }
}

/// The mode a configuration string selects: the literal strings "production"
/// and "development" select their modes, anything else is passed through
/// verbatim.
pub open spec fn spec_selects_mode(value: Seq<char>, e: NodeEnv) -> bool {
    if value == "production"@ {
        e == NodeEnv::Production
    } else if value == "development"@ {
        e == NodeEnv::Development
    } else {
        e matches NodeEnv::Custom(s) && s@ == value
    }
}

/// The mode used when none is configured explicitly: production for a release
/// build, development otherwise.
pub open spec fn spec_fallback_mode(release: bool) -> NodeEnv {
    if release {
        NodeEnv::Production
    } else {
        NodeEnv::Development
    }
}

/// The mode an ambient override value resolves to: exactly "production" or
/// "development" select their modes, any other non-empty value is passed
/// through verbatim, and an unset or empty value falls back to the build
/// profile's mode.
pub open spec fn spec_default_mode(ambient: Option<Seq<char>>, release: bool, e: NodeEnv) -> bool {
    match ambient {
        Option::Some(v) => if v == "production"@ {
            e == NodeEnv::Production
        } else if v == "development"@ {
            e == NodeEnv::Development
        } else if v.len() > 0 {
            e matches NodeEnv::Custom(s) && s@ == v
        } else {
            e == spec_fallback_mode(release)
        },
        Option::None => e == spec_fallback_mode(release),
    }
}

/// Turns a configuration string into the mode it selects.
pub fn mode_of(value: &str) -> (e: NodeEnv)
    ensures
        spec_selects_mode(value@, e),
        e.spec_env_var() == value@,
{
    let owned: String = value.to_owned();
    if owned == String::from_str("production") {
        NodeEnv::Production
    } else if owned == String::from_str("development") {
        NodeEnv::Development
    } else {
        NodeEnv::Custom(owned)
    }
}

/// Resolves the default environment mode from the ambient override value (the
/// `NODE_ENV` variable of the hosting process, if set) and the build profile.
pub fn default_node_env(ambient: Option<String>, release: bool) -> (e: NodeEnv)
    ensures
        match ambient {
            Option::Some(v) => spec_default_mode(Option::Some(v@), release, e),
            Option::None => spec_default_mode(Option::None, release, e),
        },
{
    proof {
        reveal_strlit("production");
        reveal_strlit("development");
    }
    match ambient {
        Option::Some(value) => {
            if value.as_str().is_empty() {
                fallback_mode(release)
            } else {
                mode_of(value.as_str())
            }
        },
        Option::None => fallback_mode(release),
    }
}

/// The mode used when none is configured: see [`spec_fallback_mode`].
fn fallback_mode(release: bool) -> (e: NodeEnv)
    ensures
        e == spec_fallback_mode(release),
{
    if release {
        NodeEnv::Production
    } else {
        NodeEnv::Development
    }
}

} // verus!
