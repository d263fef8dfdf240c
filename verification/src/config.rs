//! The configuration of a corpus run.

use vstd::prelude::*;
use crate::text::same_text;

verus! {

/// The knobs of a run.
#[derive(Clone, Debug, PartialEq, Eq)]
pub struct Config {
    /// The time bound of one execution context, in milliseconds.
    pub timeout_ms: u64,
    /// The number of contexts that may run at a time.
    pub max_concurrency: usize,
    /// The ids to run; where it is empty, every id is run.
    pub only: Vec<String>,
    /// The ids to leave out.
    pub skip: Vec<String>,
}

/// The mathematical content of a configuration.
pub struct ConfigView {
    pub timeout_ms: u64,
    pub max_concurrency: usize,
    pub only: Seq<Seq<char>>,
    pub skip: Seq<Seq<char>>,
}

/// The characters of each text of a list.
pub open spec fn spec_texts(list: Seq<String>) -> Seq<Seq<char>> {
    list.map_values(|s: String| s@)
}

impl View for Config {
    type V = ConfigView;

    open spec fn view(&self) -> ConfigView {
        ConfigView {
            timeout_ms: self.timeout_ms,
            max_concurrency: self.max_concurrency,
            only: spec_texts(self.only@),
            skip: spec_texts(self.skip@),
        }
    }
}

/// Why a configuration is refused.
#[derive(Clone, Copy, PartialEq, Eq, Structural, Debug)]
pub enum ConfigError {
    /// The time bound is zero.
    ZeroTimeout,
    /// No context may run at all.
    ZeroConcurrency,
}

/// The default time bound: five seconds.
pub const DEFAULT_TIMEOUT_MS: u64 = 5000;

/// The default number of contexts that may run at a time.
pub const DEFAULT_CONCURRENCY: usize = 4;

/// Whether a configuration can govern a run, and why not where it cannot.
pub open spec fn spec_validate(c: ConfigView) -> Result<(), ConfigError> {
    if c.timeout_ms == 0 {
        Err(ConfigError::ZeroTimeout)
    } else if c.max_concurrency == 0 {
        Err(ConfigError::ZeroConcurrency)
    } else {
        Ok(())
    }
}

/// Whether a configuration has the pattern of this id run: `only` names it
/// or names nothing, and `skip` does not name it.
pub open spec fn spec_selects(c: ConfigView, id: Seq<char>) -> bool {
    (c.only.len() == 0 || c.only.contains(id)) && !c.skip.contains(id)
}

/// Whether `id` is among `list`.
pub fn listed(list: &Vec<String>, id: &str) -> (r: bool)
    ensures
        r == spec_texts(list@).contains(id@),
{
    let mut i: usize = 0;
    while i < list.len()
        invariant
            i <= list@.len(),
            forall|k: int| 0 <= k < i ==> spec_texts(list@)[k] != id@,
        decreases list@.len() - i,
    {
        if same_text(list[i].as_str(), id) {
            assert(spec_texts(list@)[i as int] == id@);
            return true;
        }
        i = i + 1;
    }
    false
}

impl Config {
    /// The default configuration: the default time bound and concurrency,
    /// every pattern run and none left out.
    pub fn new() -> (c: Config)
        ensures
            c@ == (ConfigView {
                timeout_ms: DEFAULT_TIMEOUT_MS,
                max_concurrency: DEFAULT_CONCURRENCY,
                only: Seq::empty(),
                skip: Seq::empty(),
            }),
            spec_validate(c@) is Ok,
    {
        let c = Config {
            timeout_ms: DEFAULT_TIMEOUT_MS,
            max_concurrency: DEFAULT_CONCURRENCY,
            only: Vec::new(),
            skip: Vec::new(),
        };
        assert(c@.only =~= Seq::empty());
        assert(c@.skip =~= Seq::empty());
        c
    }

    /// Checks the configuration, before any pattern is run.
    pub fn validate(&self) -> (r: Result<(), ConfigError>)
        ensures
            r == spec_validate(self@),
    {
        if self.timeout_ms == 0 {
            Err(ConfigError::ZeroTimeout)
        } else if self.max_concurrency == 0 {
            Err(ConfigError::ZeroConcurrency)
        } else {
            Ok(())
        }
    }

    /// Whether the pattern of this id is to be run.
    pub fn selects(&self, id: &str) -> (r: bool)
        ensures
            r == spec_selects(self@, id@),
    {
        (self.only.len() == 0 || listed(&self.only, id)) && !listed(&self.skip, id)
    }
}

} // verus!
