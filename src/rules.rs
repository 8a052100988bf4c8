use vstd::prelude::*;

verus! {

/// The environment variable that may name a rules directory to use instead of
/// any other.
pub const RULES_DIR_VARIABLE: &'static str = "MATHCAT_RULES_DIR";

/// The rules directory looked for beside the running process.
pub const LOCAL_RULES_DIR: &'static str = "Rules";

/// The name of the directory, under the system's temporary area, that the
/// bundled rules are extracted to.
pub const RULES_CACHE_NAME: &'static str = "mathwords_rules";

/// Where the rules directory is taken from, and whether the bundled rules must
/// be written out first.
#[derive(Clone, Copy, Debug, PartialEq, Eq, Structural)]
pub enum RulesPlan {
    /// The directory named by the override variable.
    UseOverride,
    /// The local rules directory.
    UseLocal,
    /// The cache of extracted bundled rules, which is already there.
    UseCache,
    /// The cache of bundled rules, which has to be extracted first.
    ExtractThenUseCache,
}

/// First match wins: an override directory that exists, then a local rules
/// directory that exists, then the cache of the bundled rules; the cache is
/// extracted exactly when it does not exist yet.
pub open spec fn plan_of(override_exists: bool, local_exists: bool, cache_exists: bool) -> RulesPlan {
    if override_exists {
        RulesPlan::UseOverride
    } else if local_exists {
        RulesPlan::UseLocal
    } else if cache_exists {
        RulesPlan::UseCache
    } else {
        RulesPlan::ExtractThenUseCache
    }
}

/// Chooses the rules directory from what exists on disk. `override_exists`
/// holds when the override variable is set and names an existing directory.
pub fn plan_rules(override_exists: bool, local_exists: bool, cache_exists: bool) -> (r: RulesPlan)
    ensures
        r == plan_of(override_exists, local_exists, cache_exists),
{
    if override_exists {
        RulesPlan::UseOverride
    } else if local_exists {
        RulesPlan::UseLocal
    } else if cache_exists {
        RulesPlan::UseCache
    } else {
        RulesPlan::ExtractThenUseCache
    }
}

/// An existing override directory wins over every other source, whatever
/// else exists; without one, an existing local directory wins over the
/// bundled rules; the bundled rules are used only when neither exists.
pub proof fn lemma_rules_precedence()
    ensures
        forall|local: bool, cache: bool| #[trigger] plan_of(true, local, cache) == RulesPlan::UseOverride,
        forall|cache: bool| #[trigger] plan_of(false, true, cache) == RulesPlan::UseLocal,
        forall|cache: bool|
            #![trigger plan_of(false, false, cache)]
            plan_of(false, false, cache) == RulesPlan::UseCache
                || plan_of(false, false, cache) == RulesPlan::ExtractThenUseCache,
{
}

/// Extraction happens at most once: once a resolution has extracted the
/// bundled rules, the cache exists, and a second resolution in the same
/// circumstances uses it without writing anything.
pub proof fn lemma_extraction_once(override_exists: bool, local_exists: bool)
    ensures
        plan_of(override_exists, local_exists, false) == RulesPlan::ExtractThenUseCache
            ==> plan_of(override_exists, local_exists, true) == RulesPlan::UseCache,
        plan_of(override_exists, local_exists, true) != RulesPlan::ExtractThenUseCache,
{
}

} // verus!
