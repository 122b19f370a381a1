//! Batch conversion of a directory, as a state machine.
//!
//! A run decides what is done next and is told what came of it. Whoever
//! drives it touches the file system: creates the output directory, lists
//! the input directory, reads and writes the files. The run itself only
//! keeps the plan and the tally.

use crate::converter::{
    codec_format_for, input_format, lemma_codec_knows_supported_formats,
    lemma_output_name_tells_format,
};
use crate::format::{lemma_canonical_extension_parses, parse_extension, SupportedFormat};
use crate::path::{
    extension_of, file_extension, format_of_name, lemma_output_name_extension,
    lemma_stem_and_extension, output_file_name, output_name, stem_of,
};
use vstd::prelude::*;

verus! {

/// An entry of the input directory, as its listing reports it.
#[derive(Debug, Clone, PartialEq, Eq)]
pub struct DirEntry {
    /// The name of the entry within the directory.
    pub name: String,
    /// Whether the entry is a regular file.
    pub is_file: bool,
}

/// A directory entry as a mathematical value.
pub struct DirEntryView {
    pub name: Seq<char>,
    pub is_file: bool,
}

impl View for DirEntry {
    type V = DirEntryView;

    open spec fn view(&self) -> DirEntryView {
        DirEntryView { name: self.name@, is_file: self.is_file }
    }
}

/// One conversion to carry out: the file to read, the file to write and the
/// format to write it in. In a batch the two names are relative to the input
/// and to the output directory.
#[derive(Debug, Clone, PartialEq, Eq)]
pub struct ConversionRequest {
    pub input: String,
    pub output: String,
    pub target_format: SupportedFormat,
}

/// A conversion request as a mathematical value.
pub struct ConversionRequestView {
    pub input: Seq<char>,
    pub output: Seq<char>,
    pub target_format: SupportedFormat,
}

impl View for ConversionRequest {
    type V = ConversionRequestView;

    open spec fn view(&self) -> ConversionRequestView {
        ConversionRequestView {
            input: self.input@,
            output: self.output@,
            target_format: self.target_format,
        }
    }
}

/// Whether an entry is converted: it is a regular file whose extension names
/// a supported format. Every other entry is passed over in silence.
pub open spec fn eligible(entry: DirEntryView) -> bool {
    entry.is_file && format_of_name(entry.name) is Some
}

/// The conversion planned for an entry, if it is converted at all: the file
/// is written under its own stem with the extension of the target format.
pub open spec fn planned(entry: DirEntryView, target: SupportedFormat) -> Option<
    ConversionRequestView,
> {
    if eligible(entry) {
        Some(
            ConversionRequestView {
                input: entry.name,
                output: output_name(entry.name, target),
                target_format: target,
            },
        )
    } else {
        None
    }
}

/// The conversions planned for a listing: one for each entry that is
/// converted, in the order of the listing.
pub open spec fn requests_of(entries: Seq<DirEntryView>, target: SupportedFormat) -> Seq<
    ConversionRequestView,
> {
    entries.filter_map(|entry: DirEntryView| planned(entry, target))
}

/// The entries of a listing as mathematical values.
pub open spec fn entry_views(entries: Seq<DirEntry>) -> Seq<DirEntryView> {
    entries.map_values(|entry: DirEntry| entry@)
}

/// The requests of a plan as mathematical values.
pub open spec fn request_views(requests: Seq<ConversionRequest>) -> Seq<ConversionRequestView> {
    requests.map_values(|request: ConversionRequest| request@)
}

/// Decides what is done with one entry of the input directory.
pub fn plan_entry(entry: &DirEntry, target: SupportedFormat) -> (r: Option<ConversionRequest>)
    ensures
        match r {
            Some(request) => planned(entry@, target) == Some(request@),
            None => planned(entry@, target) is None,
        },
{
    if !entry.is_file {
        return None;
    }
    let supported = match file_extension(entry.name.as_str()) {
        Some(ext) => SupportedFormat::from_extension(ext).is_ok(),
        None => false,
    };
    if supported {
        Some(
            ConversionRequest {
                input: entry.name.clone(),
                output: output_file_name(entry.name.as_str(), target),
                target_format: target,
            },
        )
    } else {
        None
    }
}

/// Plans the conversions for a listing of the input directory.
pub fn plan_requests(entries: &Vec<DirEntry>, target: SupportedFormat) -> (r: Vec<
    ConversionRequest,
>)
    ensures
        request_views(r@) == requests_of(entry_views(entries@), target),
{
    let ghost views = entry_views(entries@);
    let ghost plan = |entry: DirEntryView| planned(entry, target);
    let mut requests: Vec<ConversionRequest> = Vec::new();
    let mut i: usize = 0;
    assert(request_views(requests@) =~= views.take(0).filter_map(plan));
    while i < entries.len()
        invariant
            i <= entries.len(),
            views == entry_views(entries@),
            plan == |entry: DirEntryView| planned(entry, target),
            request_views(requests@) == views.take(i as int).filter_map(plan),
        decreases entries.len() - i,
    {
        let ghost before = request_views(requests@);
        proof {
            views.lemma_filter_map_take_succ(plan, i as int);
        }
        match plan_entry(&entries[i], target) {
            Some(request) => {
                requests.push(request);
                assert(request_views(requests@) =~= before + seq![request@]);
            },
            None => {
                assert(before + Seq::<ConversionRequestView>::empty() =~= before);
            },
        }
        i += 1;
    }
    assert(views.take(i as int) =~= views);
    requests
}

/// Where a batch run stands.
#[derive(Debug, Clone, Copy, PartialEq, Eq, Structural)]
pub enum BatchPhase {
    /// The output directory has yet to be made sure of.
    Initializing,
    /// The output directory exists; the input directory has yet to be listed.
    Scanning,
    /// The conversions are under way, one file at a time.
    Converting,
    /// Every planned conversion has been tried.
    Completed,
    /// The output directory could not be created or the input directory
    /// could not be listed. Nothing else ends a run early.
    Aborted,
}

/// What a batch run is told.
#[derive(Debug, Clone, PartialEq, Eq)]
pub enum BatchEvent {
    /// The output directory exists.
    OutputDirReady,
    /// The output directory could not be created.
    OutputDirFailed,
    /// The entries of the input directory.
    Listed(Vec<DirEntry>),
    /// The input directory could not be listed.
    ListingFailed,
    /// The conversion last asked for succeeded.
    Converted,
    /// The conversion last asked for failed, and the failure was reported.
    Failed,
}

/// An event as a mathematical value.
pub enum BatchEventView {
    OutputDirReady,
    OutputDirFailed,
    Listed(Seq<DirEntryView>),
    ListingFailed,
    Converted,
    Failed,
}

impl View for BatchEvent {
    type V = BatchEventView;

    open spec fn view(&self) -> BatchEventView {
        match self {
            BatchEvent::OutputDirReady => BatchEventView::OutputDirReady,
            BatchEvent::OutputDirFailed => BatchEventView::OutputDirFailed,
            BatchEvent::Listed(entries) => BatchEventView::Listed(entry_views(entries@)),
            BatchEvent::ListingFailed => BatchEventView::ListingFailed,
            BatchEvent::Converted => BatchEventView::Converted,
            BatchEvent::Failed => BatchEventView::Failed,
        }
    }
}

/// What a batch run asks for next.
#[derive(Debug, Clone, PartialEq, Eq)]
pub enum BatchAction {
    /// Create the output directory, with its parents, unless it exists.
    EnsureOutputDir,
    /// List the entries of the input directory itself, not of those below it.
    ListInputDir,
    /// Convert one file.
    Convert(ConversionRequest),
    /// Report the number of files converted; the run is over.
    Finish { converted: usize },
    /// Give up; the run is over.
    Abort,
}

/// An action as a mathematical value.
pub enum BatchActionView {
    EnsureOutputDir,
    ListInputDir,
    Convert(ConversionRequestView),
    Finish { converted: nat },
    Abort,
}

impl View for BatchAction {
    type V = BatchActionView;

    open spec fn view(&self) -> BatchActionView {
        match self {
            BatchAction::EnsureOutputDir => BatchActionView::EnsureOutputDir,
            BatchAction::ListInputDir => BatchActionView::ListInputDir,
            BatchAction::Convert(request) => BatchActionView::Convert(request@),
            BatchAction::Finish { converted } => BatchActionView::Finish {
                converted: *converted as nat,
            },
            BatchAction::Abort => BatchActionView::Abort,
        }
    }
}

/// A batch run as a mathematical value.
pub struct BatchRunView {
    /// The format that every file is converted to.
    pub target_format: SupportedFormat,
    pub phase: BatchPhase,
    /// The conversions planned from the listing.
    pub requests: Seq<ConversionRequestView>,
    /// How many of them have been tried.
    pub position: nat,
    /// How many of them succeeded.
    pub converted: nat,
}

impl BatchRunView {
    /// What holds of every run: the tally counts conversions that were
    /// tried, there is a plan only once the directory is listed, and the run
    /// is complete exactly when the plan is exhausted.
    pub open spec fn well_formed(self) -> bool {
        &&& self.converted <= self.position <= self.requests.len()
        &&& match self.phase {
            BatchPhase::Converting => self.position < self.requests.len(),
            BatchPhase::Completed => self.position == self.requests.len(),
            _ => self.requests.len() == 0,
        }
    }

    /// A run that has not begun.
    pub open spec fn start(target_format: SupportedFormat) -> BatchRunView {
        BatchRunView {
            target_format,
            phase: BatchPhase::Initializing,
            requests: Seq::empty(),
            position: 0,
            converted: 0,
        }
    }

    /// The run with the conversion in hand behind it.
    pub open spec fn advance(self, success: bool) -> BatchRunView {
        let position = self.position + 1;
        BatchRunView {
            phase: if position < self.requests.len() {
                BatchPhase::Converting
            } else {
                BatchPhase::Completed
            },
            position,
            converted: if success {
                self.converted + 1
            } else {
                self.converted
            },
            ..self
        }
    }

    /// The run after an event. An event that does not answer what the run
    /// asked for changes nothing.
    pub open spec fn step(self, event: BatchEventView) -> BatchRunView {
        match (self.phase, event) {
            (BatchPhase::Initializing, BatchEventView::OutputDirReady) => BatchRunView {
                phase: BatchPhase::Scanning,
                ..self
            },
            (BatchPhase::Initializing, BatchEventView::OutputDirFailed) => BatchRunView {
                phase: BatchPhase::Aborted,
                ..self
            },
            (BatchPhase::Scanning, BatchEventView::Listed(entries)) => {
                let requests = requests_of(entries, self.target_format);
                BatchRunView {
                    phase: if requests.len() > 0 {
                        BatchPhase::Converting
                    } else {
                        BatchPhase::Completed
                    },
                    requests,
                    ..self
                }
            },
            (BatchPhase::Scanning, BatchEventView::ListingFailed) => BatchRunView {
                phase: BatchPhase::Aborted,
                ..self
            },
            (BatchPhase::Converting, BatchEventView::Converted) => self.advance(true),
            (BatchPhase::Converting, BatchEventView::Failed) => self.advance(false),
            _ => self,
        }
    }

    /// What the run asks for next.
    pub open spec fn action(self) -> BatchActionView {
        match self.phase {
            BatchPhase::Initializing => BatchActionView::EnsureOutputDir,
            BatchPhase::Scanning => BatchActionView::ListInputDir,
            BatchPhase::Converting => BatchActionView::Convert(self.requests[self.position as int]),
            BatchPhase::Completed => BatchActionView::Finish { converted: self.converted },
            BatchPhase::Aborted => BatchActionView::Abort,
        }
    }

    /// The run after a sequence of events, taken in order.
    pub open spec fn after(self, events: Seq<BatchEventView>) -> BatchRunView
        decreases events.len(),
    {
        if events.len() == 0 {
            self
        } else {
            self.after(events.drop_last()).step(events.last())
        }
    }
}

/// A batch run: the plan of one sweep over a directory and the tally of the
/// files converted so far.
#[derive(Debug)]
pub struct BatchRun {
    target_format: SupportedFormat,
    phase: BatchPhase,
    requests: Vec<ConversionRequest>,
    position: usize,
    converted: usize,
}

impl View for BatchRun {
    type V = BatchRunView;

    closed spec fn view(&self) -> BatchRunView {
        BatchRunView {
            target_format: self.target_format,
            phase: self.phase,
            requests: request_views(self.requests@),
            position: self.position as nat,
            converted: self.converted as nat,
        }
    }
}

impl BatchRun {
    #[verifier::type_invariant]
    spec fn inv(self) -> bool {
        self@.well_formed()
    }

    /// A run that converts to `target_format` and has not begun.
    pub fn new(target_format: SupportedFormat) -> (r: BatchRun)
        ensures
            r@ == BatchRunView::start(target_format),
    {
        let r = BatchRun {
            target_format,
            phase: BatchPhase::Initializing,
            requests: Vec::new(),
            position: 0,
            converted: 0,
        };
        assert(r@.requests =~= Seq::empty());
        r
    }

    /// Where the run stands.
    pub fn phase(&self) -> (r: BatchPhase)
        ensures
            r == self@.phase,
            self@.well_formed(),
    {
        proof {
            use_type_invariant(self);
        }
        self.phase
    }

    /// The format that the run converts to.
    pub fn target_format(&self) -> (r: SupportedFormat)
        ensures
            r == self@.target_format,
    {
        self.target_format
    }

    /// The number of files converted so far.
    pub fn converted(&self) -> (r: usize)
        ensures
            r == self@.converted,
    {
        self.converted
    }

    /// The number of conversions tried so far, whatever came of them.
    pub fn attempted(&self) -> (r: usize)
        ensures
            r == self@.position,
    {
        self.position
    }

    /// The number of conversions planned; 0 until the directory is listed.
    pub fn planned(&self) -> (r: usize)
        ensures
            r == self@.requests.len(),
    {
        self.requests.len()
    }

    /// What the run asks for next.
    pub fn action(&self) -> (r: BatchAction)
        ensures
            r@ == self@.action(),
    {
        proof {
            use_type_invariant(self);
        }
        match self.phase {
            BatchPhase::Initializing => BatchAction::EnsureOutputDir,
            BatchPhase::Scanning => BatchAction::ListInputDir,
            BatchPhase::Converting => {
                let request = &self.requests[self.position];
                BatchAction::Convert(
                    ConversionRequest {
                        input: request.input.clone(),
                        output: request.output.clone(),
                        target_format: request.target_format,
                    },
                )
            },
            BatchPhase::Completed => BatchAction::Finish { converted: self.converted },
            BatchPhase::Aborted => BatchAction::Abort,
        }
    }

    /// Takes in what came of the action last asked for.
    pub fn step(self, event: BatchEvent) -> (next: BatchRun)
        ensures
            next@ == self@.step(event@),
    {
        proof {
            use_type_invariant(&self);
        }
        match self.phase {
            BatchPhase::Initializing => match event {
                BatchEvent::OutputDirReady => self.enter(BatchPhase::Scanning),
                BatchEvent::OutputDirFailed => self.enter(BatchPhase::Aborted),
                _ => self,
            },
            BatchPhase::Scanning => match event {
                BatchEvent::Listed(entries) => {
                    let requests = plan_requests(&entries, self.target_format);
                    BatchRun {
                        target_format: self.target_format,
                        phase: if requests.len() > 0 {
                            BatchPhase::Converting
                        } else {
                            BatchPhase::Completed
                        },
                        requests,
                        position: 0,
                        converted: 0,
                    }
                },
                BatchEvent::ListingFailed => self.enter(BatchPhase::Aborted),
                _ => self,
            },
            BatchPhase::Converting => match event {
                BatchEvent::Converted => self.move_on(true),
                BatchEvent::Failed => self.move_on(false),
                _ => self,
            },
            _ => self,
        }
    }

    /// The run in another phase, before there is a plan.
    fn enter(self, phase: BatchPhase) -> (next: BatchRun)
        requires
            self@.requests.len() == 0,
            phase is Scanning || phase is Aborted,
        ensures
            next@ == (BatchRunView { phase, ..self@ }),
    {
        proof {
            use_type_invariant(&self);
        }
        BatchRun {
            target_format: self.target_format,
            phase,
            requests: self.requests,
            position: self.position,
            converted: self.converted,
        }
    }

    /// The run with the conversion in hand behind it.
    fn move_on(self, success: bool) -> (next: BatchRun)
        requires
            self@.phase is Converting,
        ensures
            next@ == self@.advance(success),
    {
        proof {
            use_type_invariant(&self);
        }
        assert(self.position < self.requests.len());
        let position = self.position + 1;
        BatchRun {
            target_format: self.target_format,
            phase: if position < self.requests.len() {
                BatchPhase::Converting
            } else {
                BatchPhase::Completed
            },
            position,
            converted: if success {
                self.converted + 1
            } else {
                self.converted
            },
            requests: self.requests,
        }
    }
}

/// The event that reports what came of one conversion.
pub open spec fn outcome_event(success: bool) -> BatchEventView {
    if success {
        BatchEventView::Converted
    } else {
        BatchEventView::Failed
    }
}

/// The events that report the outcomes of conversions, in order.
pub open spec fn outcome_events(outcomes: Seq<bool>) -> Seq<BatchEventView> {
    outcomes.map_values(|success: bool| outcome_event(success))
}

/// The number of successes among the outcomes of conversions.
pub open spec fn successes(outcomes: Seq<bool>) -> nat
    decreases outcomes.len(),
{
    if outcomes.len() == 0 {
        0
    } else {
        successes(outcomes.drop_last()) + if outcomes.last() {
            1nat
        } else {
            0nat
        }
    }
}

/// The run that has made sure of the output directory and listed `entries`.
pub open spec fn listed(target: SupportedFormat, entries: Seq<DirEntryView>) -> BatchRunView {
    BatchRunView::start(target).step(BatchEventView::OutputDirReady).step(
        BatchEventView::Listed(entries),
    )
}

/// A file that is converted is written under its own stem with the
/// extension of the target format, so that its name tells its format.
pub proof fn lemma_planned_output(entry: DirEntryView, target: SupportedFormat)
    requires
        eligible(entry),
    ensures
        planned(entry, target) matches Some(request) && {
            &&& request.input == entry.name
            &&& request.target_format == target
            &&& stem_of(request.output) == stem_of(entry.name)
            &&& extension_of(request.output) matches Some(ext)
            &&& parse_extension(ext) == Some(target)
        },
{
    lemma_stem_and_extension(entry.name);
    lemma_output_name_extension(entry.name, target);
    lemma_canonical_extension_parses(target);
}

/// The names of a planned conversion tell the codec library the right
/// encodings: that of the file to read is the format that made the file
/// eligible, and that of the file to write is the target format.
pub proof fn lemma_planned_formats(entry: DirEntryView, target: SupportedFormat)
    requires
        eligible(entry),
    ensures
        input_format(entry.name) == Some(codec_format_for(format_of_name(entry.name).unwrap())),
        planned(entry, target) matches Some(request) && input_format(request.output) == Some(
            codec_format_for(target),
        ),
{
    lemma_codec_knows_supported_formats(
        extension_of(entry.name).unwrap(),
        format_of_name(entry.name).unwrap(),
    );
    lemma_stem_and_extension(entry.name);
    lemma_output_name_tells_format(entry.name, target);
}

/// No more conversions are planned than there are entries.
pub proof fn lemma_requests_len(entries: Seq<DirEntryView>, target: SupportedFormat)
    ensures
        requests_of(entries, target).len() <= entries.len(),
    decreases entries.len(),
{
    if entries.len() > 0 {
        lemma_requests_len(entries.drop_last(), target);
    }
}

/// Every planned conversion is that of an entry of the listing that is
/// converted.
pub proof fn lemma_requests_from_entries(
    entries: Seq<DirEntryView>,
    target: SupportedFormat,
    i: int,
)
    requires
        0 <= i < requests_of(entries, target).len(),
    ensures
        exists|j: int|
            0 <= j < entries.len() && eligible(#[trigger] entries[j]) && planned(entries[j], target)
                == Some(requests_of(entries, target)[i]),
    decreases entries.len(),
{
    let rest = entries.drop_last();
    if i < requests_of(rest, target).len() {
        lemma_requests_from_entries(rest, target, i);
        let j = choose|j: int|
            0 <= j < rest.len() && eligible(#[trigger] rest[j]) && planned(rest[j], target) == Some(
                requests_of(rest, target)[i],
            );
        assert(entries[j] == rest[j]);
    } else {
        assert(entries[entries.len() - 1] == entries.last());
    }
}

/// Every event leaves a run well formed.
pub proof fn lemma_step_well_formed(run: BatchRunView, event: BatchEventView)
    requires
        run.well_formed(),
    ensures
        run.step(event).well_formed(),
{
}

/// A run is given up only when the output directory cannot be created or
/// the input directory cannot be listed: no failure of a single file ends it.
pub proof fn lemma_abort_only_on_directory_failure(run: BatchRunView, event: BatchEventView)
    requires
        run.step(event).phase is Aborted,
    ensures
        run.phase is Aborted || (run.phase is Initializing && event is OutputDirFailed) || (
        run.phase is Scanning && event is ListingFailed),
{
}

/// A file that fails to convert is passed by: the run goes on to the next
/// file, or completes if there is none, and the tally stays.
pub proof fn lemma_failure_continues(run: BatchRunView)
    requires
        run.well_formed(),
        run.phase is Converting,
    ensures
        run.step(BatchEventView::Failed).position == run.position + 1,
        run.step(BatchEventView::Failed).converted == run.converted,
        run.step(BatchEventView::Failed).requests == run.requests,
        run.step(BatchEventView::Failed).phase is Converting || run.step(
            BatchEventView::Failed,
        ).phase is Completed,
{
}

/// Once a run is over, nothing changes it.
pub proof fn lemma_finished_run_stays(run: BatchRunView, event: BatchEventView)
    requires
        run.phase is Completed || run.phase is Aborted,
    ensures
        run.step(event) == run,
{
}

/// The tally counts the successes: a run that is told the outcomes of its
/// next conversions has tried as many more files and has converted as many
/// more as succeeded, and it completes with the last planned conversion.
pub proof fn lemma_tally(run: BatchRunView, outcomes: Seq<bool>)
    requires
        run.well_formed(),
        run.phase is Converting,
        run.position + outcomes.len() <= run.requests.len(),
    ensures
        ({
            let end = run.after(outcome_events(outcomes));
            &&& end.well_formed()
            &&& end.requests == run.requests
            &&& end.target_format == run.target_format
            &&& end.position == run.position + outcomes.len()
            &&& end.converted == run.converted + successes(outcomes)
            &&& end.phase == if end.position < run.requests.len() {
                BatchPhase::Converting
            } else {
                BatchPhase::Completed
            }
        }),
    decreases outcomes.len(),
{
    if outcomes.len() > 0 {
        lemma_tally(run, outcomes.drop_last());
        assert(outcome_events(outcomes).drop_last() =~= outcome_events(outcomes.drop_last()));
        assert(outcome_events(outcomes).last() == outcome_event(outcomes.last()));
    }
}

/// A whole batch: once the output directory is there and the input directory
/// is listed, a run that is told the outcome of each planned conversion is
/// complete, and the count it reports is the number of files that converted.
pub proof fn lemma_batch_tally(
    target: SupportedFormat,
    entries: Seq<DirEntryView>,
    outcomes: Seq<bool>,
)
    requires
        outcomes.len() == requests_of(entries, target).len(),
    ensures
        listed(target, entries).after(outcome_events(outcomes)).phase is Completed,
        listed(target, entries).after(outcome_events(outcomes)).action()
            == (BatchActionView::Finish { converted: successes(outcomes) }),
{
    let run = listed(target, entries);
    if outcomes.len() > 0 {
        lemma_tally(run, outcomes);
    } else {
        assert(outcome_events(outcomes).len() == 0);
    }
}

/// A batch over a listing in which nothing is converted, an empty one among
/// them, completes at once with a count of 0.
pub proof fn lemma_nothing_to_convert(target: SupportedFormat, entries: Seq<DirEntryView>)
    requires
        forall|i: int| 0 <= i < entries.len() ==> !eligible(#[trigger] entries[i]),
    ensures
        listed(target, entries).phase is Completed,
        listed(target, entries).action() == (BatchActionView::Finish { converted: 0 }),
{
    lemma_none_planned(entries, target);
}

/// A listing in which no entry is converted plans no conversion.
pub proof fn lemma_none_planned(entries: Seq<DirEntryView>, target: SupportedFormat)
    requires
        forall|i: int| 0 <= i < entries.len() ==> !eligible(#[trigger] entries[i]),
    ensures
        requests_of(entries, target).len() == 0,
    decreases entries.len(),
{
    if entries.len() > 0 {
        let rest = entries.drop_last();
        assert forall|i: int| 0 <= i < rest.len() implies !eligible(#[trigger] rest[i]) by {
            assert(rest[i] == entries[i]);
        }
        lemma_none_planned(rest, target);
        assert(!eligible(entries[entries.len() - 1]));
    }
}

/// The output directory comes first: a run that has got as far as listing
/// the input directory or converting a file has been told before that the
/// output directory is there.
pub proof fn lemma_output_dir_first(target: SupportedFormat, events: Seq<BatchEventView>)
    requires
        !(BatchRunView::start(target).after(events).phase is Initializing),
        !(BatchRunView::start(target).after(events).phase is Aborted),
    ensures
        events.contains(BatchEventView::OutputDirReady),
    decreases events.len(),
{
    let start = BatchRunView::start(target);
    if events.len() > 0 {
        let before = start.after(events.drop_last());
        if before.phase is Initializing {
            assert(events.last() == BatchEventView::OutputDirReady);
            assert(events[events.len() - 1] == events.last());
        } else {
            if before.phase is Aborted {
                lemma_finished_run_stays(before, events.last());
            }
            lemma_output_dir_first(target, events.drop_last());
            let i = choose|i: int|
                0 <= i < events.drop_last().len() && events.drop_last()[i]
                    == BatchEventView::OutputDirReady;
            assert(events[i] == BatchEventView::OutputDirReady);
        }
    }
}

} // verus!
