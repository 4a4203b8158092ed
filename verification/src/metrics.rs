//! The decisions of the internal metrics system: how it is set up, who may
//! read it, and what a snapshot adds to the metrics it finds.

use vstd::prelude::*;
use crate::text::same_text;

verus! {

/// Why the metrics system cannot be set up or read.
#[derive(Clone, Copy, Debug, PartialEq, Eq, Structural)]
pub enum Error {
    AlreadyInitialized,
    NotInitialized,
}

impl Error {
    /// The text that reports the error.
    pub fn message(&self) -> (text: &'static str)
        ensures
            text@ == match self {
                Error::AlreadyInitialized => "Recorder already initialized."@,
                Error::NotInitialized => "Metrics system was not initialized."@,
            },
    {
        match self {
            Error::AlreadyInitialized => "Recorder already initialized.",
            Error::NotInitialized => "Metrics system was not initialized.",
        }
    }
}

/// Whose metrics a recorder keeps: those of the whole process, or those of
/// the thread that runs a test.
#[derive(Clone, Copy, Debug, PartialEq, Eq, Structural)]
pub enum RecorderScope {
    Global,
    ThreadLocal,
}

/// The recorder that setting up installs.
#[derive(Clone, Copy, Debug, PartialEq, Eq, Structural)]
pub enum RecorderChoice {
    /// A recorder that drops what it is given.
    Noop,
    /// The registry's recorder under a layer that turns the fields of
    /// tracing spans into labels.
    Layered(RecorderScope),
    /// The registry's recorder as it is.
    Plain(RecorderScope),
}

/// Controller allows capturing metric snapshots.
#[derive(Clone, Copy, Debug, PartialEq, Eq, Structural)]
pub struct Controller {
    pub scope: RecorderScope,
}

/// The two switches that a host can turn off.
#[derive(Clone, Copy, Debug, PartialEq, Eq, Structural)]
pub struct Switches {
    /// Whether metrics are kept at all.
    pub core: bool,
    /// Whether tracing spans label the metrics.
    pub tracing_layer: bool,
}

/// How far setting up has come.
#[derive(Clone, Copy, Debug, PartialEq, Eq, Structural)]
pub enum Progress {
    /// Nothing has been done yet.
    Start,
    /// The controller was offered to its slot, which took it or held one.
    ControllerOffered { taken: bool },
    /// The recorder was offered to the process, which took it or had one.
    RecorderOffered { taken: bool },
}

/// What setting up does next.
#[derive(Clone, Copy, Debug, PartialEq, Eq)]
pub enum Step {
    OfferController(Controller),
    OfferRecorder(RecorderChoice),
    Finished(Result<(), Error>),
}

/// The next step of setting up. With metrics switched off, only a recorder
/// that drops everything is installed. Otherwise the controller goes first,
/// then the recorder, layered if the tracing layer is on. Whatever is offered
/// and not taken was there before: setting up has run already.
pub open spec fn next_step(scope: RecorderScope, switches: Switches, progress: Progress) -> Step {
    match progress {
        Progress::Start => if switches.core {
            Step::OfferController(Controller { scope })
        } else {
            Step::OfferRecorder(RecorderChoice::Noop)
        },
        Progress::ControllerOffered { taken } => if !taken {
            Step::Finished(Err(Error::AlreadyInitialized))
        } else if switches.tracing_layer {
            Step::OfferRecorder(RecorderChoice::Layered(scope))
        } else {
            Step::OfferRecorder(RecorderChoice::Plain(scope))
        },
        Progress::RecorderOffered { taken } => if taken {
            Step::Finished(Ok(()))
        } else {
            Step::Finished(Err(Error::AlreadyInitialized))
        },
    }
}

/// Whether a switch is on, given the value of the variable that turns it
/// off: it is off only where the variable is set to `true`.
pub fn switch_enabled(disabled: Option<&str>) -> (enabled: bool)
    ensures
        enabled == !(disabled matches Some(text) && text@ == "true"@),
{
    match disabled {
        Some(text) => !same_text(text, "true"),
        None => true,
    }
}

/// The next step of setting up with a recorder of the given scope.
pub fn init(scope: RecorderScope, switches: Switches, progress: Progress) -> (step: Step)
    ensures
        step == next_step(scope, switches, progress),
{
    match progress {
        Progress::Start => {
            if switches.core {
                Step::OfferController(Controller { scope })
            } else {
                Step::OfferRecorder(RecorderChoice::Noop)
            }
        },
        Progress::ControllerOffered { taken } => {
            if !taken {
                Step::Finished(Err(Error::AlreadyInitialized))
            } else if switches.tracing_layer {
                Step::OfferRecorder(RecorderChoice::Layered(scope))
            } else {
                Step::OfferRecorder(RecorderChoice::Plain(scope))
            }
        },
        Progress::RecorderOffered { taken } => {
            if taken {
                Step::Finished(Ok(()))
            } else {
                Step::Finished(Err(Error::AlreadyInitialized))
            }
        },
    }
}

/// The next step of setting up the metrics of the whole process.
pub fn init_global(switches: Switches, progress: Progress) -> (step: Step)
    ensures
        step == next_step(RecorderScope::Global, switches, progress),
{
    init(RecorderScope::Global, switches, progress)
}

/// The next step of setting up the metrics of a test's thread.
pub fn init_test(switches: Switches, progress: Progress) -> (step: Step)
    ensures
        step == next_step(RecorderScope::ThreadLocal, switches, progress),
{
    init(RecorderScope::ThreadLocal, switches, progress)
}

/// A metric under a deprecated name.
#[derive(Clone, Copy, Debug, PartialEq, Eq, Structural)]
pub enum Alias {
    ProcessedEvents,
    ProcessedBytes,
}

impl Alias {
    /// The deprecated name.
    pub fn name(&self) -> (name: &'static str)
        ensures
            name@ == match self {
                Alias::ProcessedEvents => "processed_events_total"@,
                Alias::ProcessedBytes => "processed_bytes_total"@,
            },
    {
        match self {
            Alias::ProcessedEvents => "processed_events_total",
            Alias::ProcessedBytes => "processed_bytes_total",
        }
    }
}

/// What a snapshot reads of a metric: its name and the kind of component
/// that it is tagged with.
#[derive(Clone, Debug, PartialEq, Eq)]
pub struct Sample {
    pub name: String,
    pub component_kind: Option<String>,
}

/// What a sample stands for in contracts.
pub struct SampleView {
    pub name: Seq<char>,
    pub component_kind: Option<Seq<char>>,
}

impl View for Sample {
    type V = SampleView;

    open spec fn view(&self) -> SampleView {
        SampleView {
            name: self.name@,
            component_kind: match self.component_kind {
                Some(kind) => Some(kind@),
                None => None,
            },
        }
    }
}

/// The deprecated name under which a metric is reported a second time: the
/// events that any component sent, the bytes that a sink sent and the bytes
/// that a source received.
pub open spec fn alias_of(sample: SampleView) -> Option<Alias> {
    if sample.name == "component_sent_events_total"@ {
        Some(Alias::ProcessedEvents)
    } else if sample.name == "component_sent_bytes_total"@ && sample.component_kind == Some(
        "sink"@,
    ) {
        Some(Alias::ProcessedBytes)
    } else if sample.name == "component_received_bytes_total"@ && sample.component_kind == Some(
        "source"@,
    ) {
        Some(Alias::ProcessedBytes)
    } else {
        None
    }
}

/// The aliases of the first `n` samples, in their order, each with the
/// position of the sample that it repeats.
pub open spec fn aliases_of(samples: Seq<SampleView>, n: nat) -> Seq<(usize, Alias)>
    decreases n,
{
    if n == 0 {
        Seq::empty()
    } else {
        let before = aliases_of(samples, (n - 1) as nat);
        match alias_of(samples[n - 1]) {
            Some(alias) => before.push(((n - 1) as usize, alias)),
            None => before,
        }
    }
}

/// What a snapshot adds to the metrics that it found.
#[derive(Clone, Debug, PartialEq, Eq)]
pub struct Capture {
    /// The metrics to repeat under a deprecated name, by position.
    pub aliases: Vec<(usize, Alias)>,
    /// The value of the counter that closes the snapshot: the number of
    /// metrics in the snapshot, that counter included.
    pub cardinality: usize,
}

/// Whether a tag is present with the value `expected`.
fn tag_is(tag: &Option<String>, expected: &str) -> (same: bool)
    ensures
        same == (tag matches Some(text) && text@ == expected@),
{
    match tag {
        Some(text) => same_text(text.as_str(), expected),
        None => false,
    }
}

impl Sample {
    /// The deprecated name under which the metric is reported a second time,
    /// if any.
    pub fn alias(&self) -> (alias: Option<Alias>)
        ensures
            alias == alias_of(self@),
    {
        if same_text(self.name.as_str(), "component_sent_events_total") {
            Some(Alias::ProcessedEvents)
        } else if same_text(self.name.as_str(), "component_sent_bytes_total") && tag_is(
            &self.component_kind,
            "sink",
        ) {
            Some(Alias::ProcessedBytes)
        } else if same_text(self.name.as_str(), "component_received_bytes_total") && tag_is(
            &self.component_kind,
            "source",
        ) {
            Some(Alias::ProcessedBytes)
        } else {
            None
        }
    }
}

/// There is at most one alias for each sample.
pub proof fn lemma_aliases_are_few(samples: Seq<SampleView>, n: nat)
    ensures
        aliases_of(samples, n).len() <= n,
    decreases n,
{
    if n > 0 {
        lemma_aliases_are_few(samples, (n - 1) as nat);
    }
}

impl Controller {
    /// The controller that was set up, given what its slot holds.
    pub fn get(slot: Option<&Controller>) -> (found: Result<&Controller, Error>)
        ensures
            found == match slot {
                Some(controller) => Ok::<&Controller, Error>(controller),
                None => Err::<&Controller, Error>(Error::NotInitialized),
            },
    {
        match slot {
            Some(controller) => Ok(controller),
            None => Err(Error::NotInitialized),
        }
    }

    /// What a snapshot adds to the metrics that the registry holds: the
    /// aliases of the deprecated names, and the number of metrics that the
    /// snapshot holds with them and with the counter of that number.
    pub fn capture_metrics(&self, samples: &Vec<Sample>) -> (capture: Capture)
        requires
            2 * samples@.len() + 1 <= usize::MAX,
        ensures
            capture.aliases@ == aliases_of(samples@.map_values(|s: Sample| s@), samples@.len()),
            capture.cardinality == samples@.len() + capture.aliases@.len() + 1,
    {
        let ghost views = samples@.map_values(|s: Sample| s@);
        let mut aliases: Vec<(usize, Alias)> = Vec::new();
        let mut i: usize = 0;
        while i < samples.len()
            invariant
                i <= samples@.len(),
                views == samples@.map_values(|s: Sample| s@),
                aliases@ == aliases_of(views, i as nat),
            decreases samples@.len() - i,
        {
            match samples[i].alias() {
                Some(alias) => aliases.push((i, alias)),
                None => {},
            }
            i += 1;
        }
        proof {
            lemma_aliases_are_few(views, samples@.len());
        }
        let cardinality = samples.len() + aliases.len() + 1;
        Capture { aliases, cardinality }
    }
}

} // verus!
