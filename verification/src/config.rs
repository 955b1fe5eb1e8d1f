use vstd::prelude::*;

verus! {

/// The whole configuration file: the commit tables and the documentation
/// command lists.
pub struct BreathConfig {
    pub breathes: Config,
    pub documentation: Documentation,
}

/// The commands that build the documentation and the man pages.
pub struct Documentation {
    pub doc: Vec<String>,
    pub man: Vec<String>,
}

/// The commit scopes and commit types offered by the wizard.
pub struct Config {
    pub scopes: Vec<String>,
    pub types: Vec<String>,
}

/// The commit types that a fresh configuration starts with.
pub open spec fn initial_types() -> Seq<Seq<char>> {
    seq![
        "feat"@,
        "chore"@,
        "fix"@,
        "docs"@,
        "style"@,
        "refactor"@,
        "perf"@,
        "test"@,
        "build"@,
        "ci"@,
        "revert"@,
        "release"@,
        "bump"@,
    ]
}

impl Default for BreathConfig {
    /// The configuration that `init` writes: no scopes, the standard
    /// commit types, and empty documentation command lists.
    fn default() -> (c: BreathConfig)
        ensures
            c.breathes.scopes@ == Seq::<String>::empty(),
            c.breathes.types.deep_view() == initial_types(),
            c.documentation.doc@ == Seq::<String>::empty(),
            c.documentation.man@ == Seq::<String>::empty(),
    {
        let mut types: Vec<String> = Vec::new();
        types.push(String::from_str("feat"));
        types.push(String::from_str("chore"));
        types.push(String::from_str("fix"));
        types.push(String::from_str("docs"));
        types.push(String::from_str("style"));
        types.push(String::from_str("refactor"));
        types.push(String::from_str("perf"));
        types.push(String::from_str("test"));
        types.push(String::from_str("build"));
        types.push(String::from_str("ci"));
        types.push(String::from_str("revert"));
        types.push(String::from_str("release"));
        types.push(String::from_str("bump"));
        proof {
            assert(types.deep_view() =~~= initial_types());
        }
        BreathConfig {
            breathes: Config { scopes: Vec::new(), types },
            documentation: Documentation { doc: Vec::new(), man: Vec::new() },
        }
    }
}

} // verus!
