//! The choices of the host metrics source: which collectors run, under which
//! namespace, and which devices pass a filter of shell patterns.

use vstd::prelude::*;
use crate::text::same_text;
use glob::Pattern;

verus! {

/// Collector types.
#[derive(Clone, Copy, Debug, PartialEq, Eq, Structural)]
pub enum Collector {
    /// CGroups.
    CGroups,
    /// CPU.
    Cpu,
    /// Disk.
    Disk,
    /// Filesystem.
    Filesystem,
    /// Load average.
    Load,
    /// Host.
    Host,
    /// Memory.
    Memory,
    /// Network.
    Network,
}

impl Collector {
    /// The value of the `collector` tag on the metrics of this collector.
    pub fn tag(&self) -> (tag: &'static str)
        ensures
            tag@ == match self {
                Collector::CGroups => "cgroups"@,
                Collector::Cpu => "cpu"@,
                Collector::Disk => "disk"@,
                Collector::Filesystem => "filesystem"@,
                Collector::Load => "load"@,
                Collector::Host => "host"@,
                Collector::Memory => "memory"@,
                Collector::Network => "network"@,
            },
    {
        match self {
            Collector::CGroups => "cgroups",
            Collector::Cpu => "cpu",
            Collector::Disk => "disk",
            Collector::Filesystem => "filesystem",
            Collector::Load => "load",
            Collector::Host => "host",
            Collector::Memory => "memory",
            Collector::Network => "network",
        }
    }
}

/// The collectors in the order in which a scrape runs them.
pub open spec fn scrape_order() -> Seq<Collector> {
    seq![
        Collector::CGroups,
        Collector::Cpu,
        Collector::Disk,
        Collector::Filesystem,
        Collector::Load,
        Collector::Host,
        Collector::Memory,
        Collector::Network,
    ]
}

/// Whether `collector` runs under a choice of collectors: every collector
/// does where none is chosen, otherwise those that are listed.
pub open spec fn runs(collectors: Option<Vec<Collector>>, collector: Collector) -> bool {
    match collectors {
        None => true,
        Some(chosen) => chosen@.contains(collector),
    }
}

/// Those of the first `n` collectors of `order` that run, in that order.
pub open spec fn running(
    collectors: Option<Vec<Collector>>,
    order: Seq<Collector>,
    n: nat,
) -> Seq<Collector>
    decreases n,
{
    if n == 0 {
        Seq::empty()
    } else {
        let before = running(collectors, order, (n - 1) as nat);
        if runs(collectors, order[n - 1]) {
            before.push(order[n - 1])
        } else {
            before
        }
    }
}

/// The namespace of the metrics where the configuration names none.
pub fn default_namespace() -> (namespace: Option<String>)
    ensures
        namespace matches Some(name) && name@ == "host"@,
{
    Some("host".to_owned())
}

/// Configuration for the `host_metrics` source, but for the interval between
/// two scrapes.
#[derive(Clone, Debug)]
pub struct HostMetricsConfig {
    /// The list of host metric collector services to use.
    ///
    /// Defaults to all collectors.
    pub collectors: Option<Vec<Collector>>,
    /// Overrides the default namespace for the metrics emitted by the source.
    ///
    /// By default, `host` is used.
    pub namespace: Option<String>,
}

impl Default for HostMetricsConfig {
    fn default() -> (config: HostMetricsConfig)
        ensures
            config.collectors.is_none(),
            config.namespace matches Some(name) && name@ == "host"@,
    {
        HostMetricsConfig { collectors: None, namespace: default_namespace() }
    }
}

impl HostMetricsConfig {
    /// Whether `collector` runs: every collector does where none is chosen,
    /// otherwise those that are listed.
    pub fn has_collector(&self, collector: Collector) -> (chosen: bool)
        ensures
            chosen == runs(self.collectors, collector),
    {
        match &self.collectors {
            None => true,
            Some(chosen) => {
                let mut i: usize = 0;
                while i < chosen.len()
                    invariant
                        self.collectors == Some(*chosen),
                        i <= chosen@.len(),
                        forall|j: int| 0 <= j < i ==> chosen@[j] != collector,
                    decreases chosen@.len() - i,
                {
                    if chosen[i] == collector {
                        assert(chosen@[i as int] == collector);
                        return true;
                    }
                    i += 1;
                }
                false
            },
        }
    }

    /// The configuration that the source runs with: an empty namespace
    /// stands for none.
    pub fn build(self) -> (config: HostMetricsConfig)
        ensures
            config.collectors == self.collectors,
            config.namespace == match self.namespace {
                Some(name) if name@.len() > 0 => Some(name),
                _ => None,
            },
    {
        let namespace = match self.namespace {
            Some(name) => {
                if name.as_str().is_empty() {
                    None
                } else {
                    Some(name)
                }
            },
            None => None,
        };
        HostMetricsConfig { collectors: self.collectors, namespace }
    }
}

/// The source of host metrics.
#[derive(Clone, Debug)]
pub struct HostMetrics {
    config: HostMetricsConfig,
}

impl HostMetrics {
    /// The configuration of the source.
    pub closed spec fn config(&self) -> HostMetricsConfig {
        self.config
    }

    /// The source that runs with `config`.
    pub fn new(config: HostMetricsConfig) -> (source: HostMetrics)
        ensures
            source.config() == config,
    {
        HostMetrics { config }
    }

    /// The namespace of the metrics that the source emits.
    pub fn namespace(&self) -> (namespace: &Option<String>)
        ensures
            *namespace == self.config().namespace,
    {
        &self.config.namespace
    }

    /// The collectors of one scrape: those that the configuration lets run,
    /// in the order in which a scrape runs them.
    pub fn scrape_plan(&self) -> (plan: Vec<Collector>)
        ensures
            plan@ == running(self.config().collectors, scrape_order(), scrape_order().len()),
    {
        let order = [
            Collector::CGroups,
            Collector::Cpu,
            Collector::Disk,
            Collector::Filesystem,
            Collector::Load,
            Collector::Host,
            Collector::Memory,
            Collector::Network,
        ];
        assert(order@ =~= scrape_order());
        let mut plan: Vec<Collector> = Vec::new();
        let mut i: usize = 0;
        while i < 8
            invariant
                i <= 8,
                order@ == scrape_order(),
                plan@ == running(self.config.collectors, scrape_order(), i as nat),
            decreases 8 - i,
        {
            if self.config.has_collector(order[i]) {
                plan.push(order[i]);
            }
            i += 1;
        }
        plan
    }
}

/// The tags that a scrape puts on every metric of `collector`: the
/// collector's own, and the name of the host where that is known.
pub open spec fn tags_of(collector: Collector, hostname: Option<Seq<char>>) -> Seq<
    (Seq<char>, Seq<char>),
> {
    let own = seq![
        (
            "collector"@,
            match collector {
                Collector::CGroups => "cgroups"@,
                Collector::Cpu => "cpu"@,
                Collector::Disk => "disk"@,
                Collector::Filesystem => "filesystem"@,
                Collector::Load => "load"@,
                Collector::Host => "host"@,
                Collector::Memory => "memory"@,
                Collector::Network => "network"@,
            },
        ),
    ];
    match hostname {
        Some(name) => own.push(("host"@, name)),
        None => own,
    }
}

/// The tags that a scrape puts on every metric of `collector`, in the order
/// in which it sets them.
pub fn scrape_tags(collector: Collector, hostname: Option<&str>) -> (tags: Vec<(String, String)>)
    ensures
        tags@.len() == tags_of(
            collector,
            match hostname {
                Some(name) => Some(name@),
                None => None,
            },
        ).len(),
        forall|i: int|
            0 <= i < tags@.len() ==> (#[trigger] tags@[i].0@, tags@[i].1@) == tags_of(
                collector,
                match hostname {
                    Some(name) => Some(name@),
                    None => None,
                },
            )[i],
{
    let mut tags: Vec<(String, String)> = Vec::new();
    tags.push(("collector".to_owned(), collector.tag().to_owned()));
    match hostname {
        Some(name) => {
            tags.push(("host".to_owned(), name.to_owned()));
        },
        None => {},
    }
    tags
}

/// With no choice made, a scrape runs every collector.
pub proof fn lemma_default_runs_all()
    ensures
        running(None, scrape_order(), scrape_order().len()) == scrape_order(),
{
    let order = scrape_order();
    reveal_with_fuel(running, 9);
    assert(running(None, order, 8) =~= order);
}

/// A scrape runs a collector exactly when the configuration lets it run.
pub proof fn lemma_running_is_chosen(
    collectors: Option<Vec<Collector>>,
    order: Seq<Collector>,
    n: nat,
    collector: Collector,
)
    requires
        n <= order.len(),
    ensures
        running(collectors, order, n).contains(collector) == (runs(collectors, collector)
            && order.subrange(0, n as int).contains(collector)),
    decreases n,
{
    if n == 0 {
        assert(!order.subrange(0, 0).contains(collector));
    } else {
        let before = running(collectors, order, (n - 1) as nat);
        lemma_running_is_chosen(collectors, order, (n - 1) as nat, collector);
        let head = order.subrange(0, n - 1);
        let all = order.subrange(0, n as int);
        assert(all =~= head.push(order[n - 1]));
        if head.contains(collector) {
            let j = choose|j: int| 0 <= j < head.len() && head[j] == collector;
            assert(all[j] == collector);
        }
        if all.contains(collector) {
            let j = choose|j: int| 0 <= j < all.len() && all[j] == collector;
            if j < n - 1 {
                assert(head[j] == collector);
            }
        } else {
            assert(all[n - 1] == order[n - 1]);
        }
        if runs(collectors, order[n - 1]) {
            let after = before.push(order[n - 1]);
            if before.contains(collector) {
                let j = choose|j: int| 0 <= j < before.len() && before[j] == collector;
                assert(after[j] == collector);
            }
            if after.contains(collector) {
                let j = choose|j: int| 0 <= j < after.len() && after[j] == collector;
                if j < before.len() {
                    assert(before[j] == collector);
                }
            }
            if collector == order[n - 1] {
                assert(after[before.len() as int] == collector);
                assert(all[n - 1] == collector);
            }
        }
    }
}

/// What a collector found, or nothing where it failed.
pub fn filter_result_sync<T, E>(result: Result<T, E>) -> (found: Option<T>)
    ensures
        found == match result {
            Ok(value) => Some(value),
            Err(_) => None::<T>,
        },
{
    match result {
        Ok(value) => Some(value),
        Err(_) => None,
    }
}

#[verifier::external_type_specification]
#[verifier::external_body]
pub struct ExPattern(glob::Pattern);

/// The text that a compiled pattern was made from.
pub uninterp spec fn pattern_text(pattern: Pattern) -> Seq<char>;

/// Whether a text is a well-formed shell pattern.
pub uninterp spec fn glob_valid(text: Seq<char>) -> bool;

/// Whether the shell pattern `pattern` matches the whole of `text`.
pub uninterp spec fn glob_matches(pattern: Seq<char>, text: Seq<char>) -> bool;

/// Why a text is not a shell pattern.
#[derive(Clone, Debug, PartialEq, Eq)]
pub struct PatternError {
    /// The approximate position of the fault, in characters.
    pub pos: usize,
    /// What is wrong there.
    pub msg: &'static str,
}

/// `glob::Pattern::new`: compiles a text that is a well-formed pattern, and
/// reports where and why another is not. The compiled pattern keeps its text.
#[verifier::external_body]
fn pattern_new(text: &str) -> (made: Result<Pattern, PatternError>)
    ensures
        made.is_ok() == glob_valid(text@),
        made matches Ok(pattern) ==> pattern_text(pattern) == text@,
{
    match Pattern::new(text) {
        Ok(pattern) => Ok(pattern),
        Err(error) => Err(PatternError { pos: error.pos, msg: error.msg }),
    }
}

/// `glob::Pattern::matches`: whether the pattern matches the whole of `text`,
/// with the default options. The answer depends on the pattern's text and on
/// `text` alone.
#[verifier::external_body]
fn pattern_matches(pattern: &Pattern, text: &str) -> (matched: bool)
    ensures
        matched == glob_matches(pattern_text(*pattern), text@),
{
    pattern.matches(text)
}

/// `glob::Pattern::as_str`: the text that the pattern was made from.
#[verifier::external_body]
fn pattern_as_str(pattern: &Pattern) -> (text: &str)
    ensures
        text@ == pattern_text(*pattern),
{
    pattern.as_str()
}

/// `Clone` of `glob::Pattern`, which `derive` wrote: the copy is made from
/// the same text.
pub assume_specification[ <Pattern as Clone>::clone ](pattern: &Pattern) -> (copy: Pattern)
    ensures
        pattern_text(copy) == pattern_text(*pattern),
;

/// A compiled Unix shell-style pattern.
///
/// - `?` matches any single character.
/// - `*` matches any (possibly empty) sequence of characters.
/// - `[...]` matches any character inside the brackets, `[!...]` any
///   character that is not.
#[derive(Debug)]
pub struct PatternWrapper(Pattern);

impl Clone for PatternWrapper {
    fn clone(&self) -> (copy: PatternWrapper)
        ensures
            copy@ == self@,
    {
        PatternWrapper(self.0.clone())
    }
}

impl View for PatternWrapper {
    type V = Seq<char>;

    /// The text that the pattern was compiled from.
    closed spec fn view(&self) -> Seq<char> {
        pattern_text(self.0)
    }
}

impl PatternWrapper {
    /// Compiles `value`: succeeds exactly on a well-formed pattern, and the
    /// compiled pattern stands for `value`.
    pub fn try_from(value: String) -> (made: Result<PatternWrapper, PatternError>)
        ensures
            made.is_ok() == glob_valid(value@),
            made matches Ok(pattern) ==> pattern@ == value@,
    {
        match pattern_new(value.as_str()) {
            Ok(pattern) => Ok(PatternWrapper(pattern)),
            Err(error) => Err(error),
        }
    }

    /// Whether the pattern matches the whole of `s`.
    pub fn matches_str(&self, s: &str) -> (matched: bool)
        ensures
            matched == glob_matches(self@, s@),
    {
        pattern_matches(&self.0, s)
    }

    /// Whether the pattern matches a path, given the path's text: a path
    /// that is not valid text matches no pattern.
    pub fn matches_path(&self, path_text: Option<&str>) -> (matched: bool)
        ensures
            matched == match path_text {
                Some(text) => glob_matches(self@, text@),
                None => false,
            },
    {
        match path_text {
            Some(text) => self.matches_str(text),
            None => false,
        }
    }

    /// The text of the pattern.
    pub fn into_string(self) -> (text: String)
        ensures
            text@ == self@,
    {
        pattern_as_str(&self.0).to_owned()
    }
}

/// Whether one of `patterns` matches `text`.
pub open spec fn any_matches(patterns: Seq<PatternWrapper>, text: Seq<char>) -> bool {
    exists|i: int| 0 <= i < patterns.len() && glob_matches(#[trigger] patterns[i]@, text)
}

/// Filtering configuration.
#[derive(Clone, Debug)]
pub struct FilterList {
    /// Any patterns which should be included.
    pub includes: Option<Vec<PatternWrapper>>,
    /// Any patterns which should be excluded.
    pub excludes: Option<Vec<PatternWrapper>>,
}

impl Default for FilterList {
    fn default() -> (filters: FilterList)
        ensures
            filters.includes.is_none(),
            filters.excludes.is_none(),
    {
        FilterList { includes: None, excludes: None }
    }
}

/// Whether one of `patterns` matches `text`.
fn matches_any(patterns: &Vec<PatternWrapper>, text: &str) -> (matched: bool)
    ensures
        matched == any_matches(patterns@, text@),
{
    let mut i: usize = 0;
    while i < patterns.len()
        invariant
            i <= patterns@.len(),
            forall|j: int| 0 <= j < i ==> !glob_matches(#[trigger] patterns@[j]@, text@),
        decreases patterns@.len() - i,
    {
        if patterns[i].matches_str(text) {
            return true;
        }
        i += 1;
    }
    false
}

impl FilterList {
    /// Whether the filter lets `value` pass. Without a list of includes
    /// everything is included; with one, a value is if one of its patterns
    /// matches, and a missing value is not. Without a list of excludes
    /// nothing is excluded; with one, a value is if one of its patterns
    /// matches, and a missing value is not. What passes is included and not
    /// excluded.
    pub open spec fn admits(&self, value: Option<Seq<char>>) -> bool {
        &&& match (self.includes, value) {
            (None, _) => true,
            (Some(_), None) => false,
            (Some(includes), Some(text)) => any_matches(includes@, text),
        }
        &&& match (self.excludes, value) {
            (None, _) => true,
            (Some(_), None) => true,
            (Some(excludes), Some(text)) => !any_matches(excludes@, text),
        }
    }

    /// Whether the filter lets the text `value` pass.
    pub fn contains_str(&self, value: Option<&str>) -> (passes: bool)
        ensures
            passes == self.admits(
                match value {
                    Some(text) => Some(text@),
                    None => None,
                },
            ),
    {
        let included = match &self.includes {
            None => true,
            Some(includes) => match value {
                None => false,
                Some(text) => matches_any(includes, text),
            },
        };
        if !included {
            return false;
        }
        match &self.excludes {
            None => true,
            Some(excludes) => match value {
                None => true,
                Some(text) => !matches_any(excludes, text),
            },
        }
    }

    /// Whether the filter lets a path pass, given the path's text where it
    /// has one. A path without valid text matches no pattern: it passes
    /// exactly where there is no list of includes.
    pub fn contains_path(&self, value: Option<Option<&str>>) -> (passes: bool)
        ensures
            passes == match value {
                None => self.admits(None),
                Some(Some(text)) => self.admits(Some(text@)),
                Some(None) => self.includes.is_none(),
            },
    {
        match value {
            None => self.contains_str(None),
            Some(Some(text)) => self.contains_str(Some(text)),
            Some(None) => self.includes.is_none(),
        }
    }
}

/// A filter without lists lets everything pass, a missing value too.
pub proof fn lemma_default_filter_admits_all(filters: FilterList, value: Option<Seq<char>>)
    requires
        filters.includes.is_none(),
        filters.excludes.is_none(),
    ensures
        filters.admits(value),
{
}

/// What a list of excludes matches does not pass, whatever is included.
pub proof fn lemma_excluded_never_passes(filters: FilterList, text: Seq<char>)
    requires
        filters.excludes matches Some(excludes) && any_matches(excludes@, text),
    ensures
        !filters.admits(Some(text)),
{
}

} // verus!
