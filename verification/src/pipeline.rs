//! The conversion pipeline as a state machine.
//!
//! A driver owns the watcher, the filesystem and the render session. It
//! performs one `Command` at a time and reports what came of it as an
//! `Outcome`; `step` answers with the next command. One document is in
//! flight at a time, and no failure ends the machine: each leads back to
//! `Phase::Idle`.

use crate::event::{classify, spec_classify, Action, ActionView, WatchEvent, WatchEventView};
use crate::namer::{
    file_url, is_hyphen_place, is_identifier, new_identifier, output_path, processed_path,
    spec_file_url, spec_output_path, spec_processed_path, spec_staged_path, staged_path,
};
use crate::path::{file_name, has_html_extension, spec_file_name, spec_has_html_extension};
use vstd::prelude::*;

verus! {

/// The two directories of a pipeline.
#[derive(Debug, Clone, PartialEq, Eq)]
pub struct Config {
    /// Where documents arrive, are staged, and are left with their marker.
    pub input_dir: String,
    /// Where PDFs are written.
    pub output_dir: String,
}

/// A `Config` with its paths as sequences of characters.
pub struct ConfigView {
    pub input_dir: Seq<char>,
    pub output_dir: Seq<char>,
}

impl View for Config {
    type V = ConfigView;

    open spec fn view(&self) -> ConfigView {
        ConfigView { input_dir: self.input_dir@, output_dir: self.output_dir@ }
    }
}

/// The input directory where none is set: `pages`.
pub open spec fn default_input_dir() -> Seq<char> {
    seq!['p', 'a', 'g', 'e', 's']
}

/// The output directory where none is set: `./pdf`.
pub open spec fn default_output_dir() -> Seq<char> {
    seq!['.', '/', 'p', 'd', 'f']
}

impl Config {
    /// The configuration for the two settings, each of which may be
    /// absent: an absent directory is the default one.
    pub fn from_settings(input_dir: Option<String>, output_dir: Option<String>) -> (r: Config)
        ensures
            r@.input_dir == (match input_dir {
                Some(dir) => dir@,
                None => default_input_dir(),
            }),
            r@.output_dir == (match output_dir {
                Some(dir) => dir@,
                None => default_output_dir(),
            }),
    {
        proof {
            reveal_strlit("pages");
            reveal_strlit("./pdf");
            assert("pages"@ =~= default_input_dir());
            assert("./pdf"@ =~= default_output_dir());
        }
        let input_dir = match input_dir {
            Some(dir) => dir,
            None => "pages".to_owned(),
        };
        let output_dir = match output_dir {
            Some(dir) => dir,
            None => "./pdf".to_owned(),
        };
        Config { input_dir, output_dir }
    }
}

/// A document that was claimed under a staged name and awaits, or
/// undergoes, its conversion.
#[derive(Debug, Clone, PartialEq, Eq)]
pub struct StagedFile {
    /// Where the staged file is: as the watcher reported it until it is
    /// resolved, canonical from then on.
    pub path: String,
    /// The file name that the document arrived under, from which the names
    /// of its PDF and of its marker are made.
    pub basename: String,
}

/// A `StagedFile` with its texts as sequences of characters.
pub struct StagedFileView {
    pub path: Seq<char>,
    pub basename: Seq<char>,
}

impl View for StagedFile {
    type V = StagedFileView;

    open spec fn view(&self) -> StagedFileView {
        StagedFileView { path: self.path@, basename: self.basename@ }
    }
}

/// The PDF of a document, with the path that it is to be written to.
#[derive(Debug, Clone, PartialEq, Eq)]
pub struct RenderResult {
    pub path: String,
    pub bytes: Vec<u8>,
}

/// A `RenderResult` with its path and bytes as sequences.
pub struct RenderResultView {
    pub path: Seq<char>,
    pub bytes: Seq<u8>,
}

impl View for RenderResult {
    type V = RenderResultView;

    open spec fn view(&self) -> RenderResultView {
        RenderResultView { path: self.path@, bytes: self.bytes@ }
    }
}

/// Why a document, or an event, was given up.
#[derive(Debug, Clone, Copy, PartialEq, Eq, Structural)]
pub enum Failure {
    /// A file was gone, or a filesystem step was refused.
    TransientIo,
    /// The render session could not produce a PDF.
    RenderFailure,
    /// A rename was reported from a path that has no file name.
    MalformedEvent,
    /// The driver reported an outcome that the phase does not await.
    Unexpected,
}

/// What the machine is waiting for.
#[derive(Debug, Clone, PartialEq, Eq)]
pub enum Phase {
    /// The next event of the watcher.
    Idle,
    /// The rename of a raw file to its staged name.
    Claiming,
    /// The canonical path of the staged file.
    Resolving(StagedFile),
    /// The PDF of the staged file.
    Rendering(StagedFile),
    /// The write of the PDF of the staged file.
    Writing(StagedFile),
    /// The rename of the staged file to its marker.
    Marking,
}

/// What the driver reports.
#[derive(Debug, Clone, PartialEq, Eq)]
pub enum Outcome {
    /// The watcher delivered an event.
    Event(WatchEvent),
    /// The path was resolved to this canonical path.
    Resolved(String),
    /// The render session produced these bytes.
    Rendered(Vec<u8>),
    /// The write or rename was done.
    Completed,
    /// The command could not be carried out.
    Failed,
}

/// What the driver is to do next.
#[derive(Debug, Clone, PartialEq, Eq)]
pub enum Command {
    /// Wait for the watcher's next event.
    AwaitEvent,
    /// Rename the raw file `from` to the staged path `to`.
    Claim { from: String, to: String },
    /// Resolve `path` to a canonical absolute path.
    Resolve { path: String },
    /// Render the document at `url` to PDF.
    Render { url: String },
    /// Write the bytes of the result to its path.
    WriteOutput(RenderResult),
    /// Rename the staged file `from` to its marker `to`.
    MarkProcessed { from: String, to: String },
}

/// The answer to an outcome.
#[derive(Debug, Clone, PartialEq, Eq)]
pub struct Transition {
    pub phase: Phase,
    pub command: Command,
    /// Set where the outcome ended a document or an event in failure.
    pub failure: Option<Failure>,
}

/// A `Phase` with its paths as sequences of characters.
pub enum PhaseView {
    Idle,
    Claiming,
    Resolving(StagedFileView),
    Rendering(StagedFileView),
    Writing(StagedFileView),
    Marking,
}

/// An `Outcome` with its paths as sequences of characters and its bytes as
/// a sequence.
pub enum OutcomeView {
    Event(WatchEventView),
    Resolved(Seq<char>),
    Rendered(Seq<u8>),
    Completed,
    Failed,
}

/// A `Command` with its paths as sequences of characters and its bytes as
/// a sequence.
pub enum CommandView {
    AwaitEvent,
    Claim { from: Seq<char>, to: Seq<char> },
    Resolve { path: Seq<char> },
    Render { url: Seq<char> },
    WriteOutput(RenderResultView),
    MarkProcessed { from: Seq<char>, to: Seq<char> },
}

/// A `Transition` over the views of its phase and command.
pub struct TransitionView {
    pub phase: PhaseView,
    pub command: CommandView,
    pub failure: Option<Failure>,
}

impl View for Phase {
    type V = PhaseView;

    open spec fn view(&self) -> PhaseView {
        match self {
            Phase::Idle => PhaseView::Idle,
            Phase::Claiming => PhaseView::Claiming,
            Phase::Resolving(file) => PhaseView::Resolving(file@),
            Phase::Rendering(file) => PhaseView::Rendering(file@),
            Phase::Writing(file) => PhaseView::Writing(file@),
            Phase::Marking => PhaseView::Marking,
        }
    }
}

impl View for Outcome {
    type V = OutcomeView;

    open spec fn view(&self) -> OutcomeView {
        match self {
            Outcome::Event(event) => OutcomeView::Event(event@),
            Outcome::Resolved(path) => OutcomeView::Resolved(path@),
            Outcome::Rendered(bytes) => OutcomeView::Rendered(bytes@),
            Outcome::Completed => OutcomeView::Completed,
            Outcome::Failed => OutcomeView::Failed,
        }
    }
}

impl View for Command {
    type V = CommandView;

    open spec fn view(&self) -> CommandView {
        match self {
            Command::AwaitEvent => CommandView::AwaitEvent,
            Command::Claim { from, to } => CommandView::Claim { from: from@, to: to@ },
            Command::Resolve { path } => CommandView::Resolve { path: path@ },
            Command::Render { url } => CommandView::Render { url: url@ },
            Command::WriteOutput(result) => CommandView::WriteOutput(result@),
            Command::MarkProcessed { from, to } => CommandView::MarkProcessed {
                from: from@,
                to: to@,
            },
        }
    }
}

impl View for Transition {
    type V = TransitionView;

    open spec fn view(&self) -> TransitionView {
        TransitionView { phase: self.phase@, command: self.command@, failure: self.failure }
    }
}

/// Back to waiting for the watcher, with the failure to report, if any.
pub open spec fn spec_idle(failure: Option<Failure>) -> TransitionView {
    TransitionView { phase: PhaseView::Idle, command: CommandView::AwaitEvent, failure }
}

/// A rename to an HTML destination from a path that has no file name.
pub open spec fn spec_is_malformed(event: WatchEventView) -> bool {
    match event {
        WatchEventView::FileRenamed(from, to) => spec_has_html_extension(to) && spec_file_name(
            from,
        ).is_none(),
        _ => false,
    }
}

/// What an event of the watcher leads to while the machine is idle.
pub open spec fn spec_on_event(config: ConfigView, event: WatchEventView, id: Seq<char>)
    -> TransitionView {
    match spec_classify(event) {
        ActionView::Ignore => spec_idle(
            if spec_is_malformed(event) {
                Some(Failure::MalformedEvent)
            } else {
                None
            },
        ),
        ActionView::Stage(raw) => TransitionView {
            phase: PhaseView::Claiming,
            command: CommandView::Claim { from: raw, to: spec_staged_path(config.input_dir, id) },
            failure: None,
        },
        ActionView::Render(staged, basename) => TransitionView {
            phase: PhaseView::Resolving(StagedFileView { path: staged, basename }),
            command: CommandView::Resolve { path: staged },
            failure: None,
        },
    }
}

/// The transition function. `id` is the identifier under which a raw file
/// is claimed, should the outcome call for a claim.
///
/// A document moves through resolving, rendering, writing and marking, one
/// success after the other; any failure on the way ends it, reports its
/// kind and leaves the machine idle. An outcome that the phase does not
/// await ends whatever was in flight in the same way.
pub open spec fn spec_advance(
    config: ConfigView,
    phase: PhaseView,
    outcome: OutcomeView,
    id: Seq<char>,
) -> TransitionView {
    match (phase, outcome) {
        (PhaseView::Idle, OutcomeView::Event(event)) => spec_on_event(config, event, id),
        (PhaseView::Claiming, OutcomeView::Completed) => spec_idle(None),
        (PhaseView::Claiming, OutcomeView::Failed) => spec_idle(Some(Failure::TransientIo)),
        (PhaseView::Resolving(file), OutcomeView::Resolved(canonical)) => TransitionView {
            phase: PhaseView::Rendering(
                StagedFileView { path: canonical, basename: file.basename },
            ),
            command: CommandView::Render { url: spec_file_url(canonical) },
            failure: None,
        },
        (PhaseView::Resolving(_), OutcomeView::Failed) => spec_idle(Some(Failure::TransientIo)),
        (PhaseView::Rendering(file), OutcomeView::Rendered(bytes)) => TransitionView {
            phase: PhaseView::Writing(file),
            command: CommandView::WriteOutput(
                RenderResultView {
                    path: spec_output_path(config.output_dir, file.basename),
                    bytes,
                },
            ),
            failure: None,
        },
        (PhaseView::Rendering(_), OutcomeView::Failed) => spec_idle(
            Some(Failure::RenderFailure),
        ),
        (PhaseView::Writing(file), OutcomeView::Completed) => TransitionView {
            phase: PhaseView::Marking,
            command: CommandView::MarkProcessed {
                from: file.path,
                to: spec_processed_path(config.input_dir, file.basename),
            },
            failure: None,
        },
        (PhaseView::Writing(_), OutcomeView::Failed) => spec_idle(Some(Failure::TransientIo)),
        (PhaseView::Marking, OutcomeView::Completed) => spec_idle(None),
        (PhaseView::Marking, OutcomeView::Failed) => spec_idle(Some(Failure::TransientIo)),
        _ => spec_idle(Some(Failure::Unexpected)),
    }
}

/// The transitions that a sequence of outcomes leads through, one for each
/// outcome, where the machine starts in `phase` and the outcome at a
/// position is answered under the identifier at that position.
pub open spec fn spec_run(
    config: ConfigView,
    phase: PhaseView,
    outcomes: Seq<OutcomeView>,
    ids: Seq<Seq<char>>,
) -> Seq<TransitionView>
    decreases outcomes.len(),
{
    if outcomes.len() == 0 {
        Seq::empty()
    } else {
        let before = spec_run(config, phase, outcomes.drop_last(), ids);
        let current = if before.len() == 0 {
            phase
        } else {
            before.last().phase
        };
        before.push(spec_advance(config, current, outcomes.last(), ids[outcomes.len() - 1]))
    }
}

/// Whether the outcome calls for a claim, and so for a fresh identifier.
pub open spec fn spec_claims(phase: PhaseView, outcome: OutcomeView) -> bool {
    match (phase, outcome) {
        (PhaseView::Idle, OutcomeView::Event(WatchEventView::FileCreated(p))) => {
            spec_has_html_extension(p)
        },
        _ => false,
    }
}

/// The identifier whose random digits are all zero, to show that
/// identifiers exist.
pub open spec fn zero_identifier() -> Seq<char> {
    Seq::new(
        36,
        |i: int|
            if is_hyphen_place(i) {
                '-'
            } else if i == 14 {
                '4'
            } else if i == 19 {
                '8'
            } else {
                '0'
            },
    )
}

/// The identifier bears on the transition only where the outcome calls for
/// a claim.
pub proof fn lemma_identifier_only_for_claims(
    config: ConfigView,
    phase: PhaseView,
    outcome: OutcomeView,
    id_a: Seq<char>,
    id_b: Seq<char>,
)
    requires
        !spec_claims(phase, outcome),
    ensures
        spec_advance(config, phase, outcome, id_a) == spec_advance(config, phase, outcome, id_b),
{
}

fn idle(failure: Option<Failure>) -> (r: Transition)
    ensures
        r@ == spec_idle(failure),
{
    Transition { phase: Phase::Idle, command: Command::AwaitEvent, failure }
}

/// Whether `event` is a rename to an HTML destination from a path that has
/// no file name.
pub fn is_malformed(event: &WatchEvent) -> (r: bool)
    ensures
        r == spec_is_malformed(event@),
{
    match event {
        WatchEvent::FileRenamed(from, to) => has_html_extension(to.as_str()) && file_name(
            from.as_str(),
        ).is_none(),
        _ => false,
    }
}

/// Answers an event of the watcher while the machine is idle.
pub fn on_event(config: &Config, event: WatchEvent, id: &str) -> (r: Transition)
    ensures
        r@ == spec_on_event(config@, event@, id@),
{
    let malformed = is_malformed(&event);
    match classify(event) {
        Action::Ignore => idle(
            if malformed {
                Some(Failure::MalformedEvent)
            } else {
                None
            },
        ),
        Action::Stage(raw) => {
            let to = staged_path(config.input_dir.as_str(), id);
            Transition {
                phase: Phase::Claiming,
                command: Command::Claim { from: raw, to },
                failure: None,
            }
        },
        Action::Render(staged, basename) => {
            let path = staged.clone();
            Transition {
                phase: Phase::Resolving(StagedFile { path: staged, basename }),
                command: Command::Resolve { path },
                failure: None,
            }
        },
    }
}

/// The transition function: answers `outcome`, reported in `phase`, with
/// the next phase and command. `id` is used only where the outcome calls
/// for a claim.
pub fn advance(config: &Config, phase: Phase, outcome: Outcome, id: &str) -> (r: Transition)
    ensures
        r@ == spec_advance(config@, phase@, outcome@, id@),
{
    match (phase, outcome) {
        (Phase::Idle, Outcome::Event(event)) => on_event(config, event, id),
        (Phase::Claiming, Outcome::Completed) => idle(None),
        (Phase::Claiming, Outcome::Failed) => idle(Some(Failure::TransientIo)),
        (Phase::Resolving(file), Outcome::Resolved(canonical)) => {
            let url = file_url(canonical.as_str());
            Transition {
                phase: Phase::Rendering(StagedFile { path: canonical, basename: file.basename }),
                command: Command::Render { url },
                failure: None,
            }
        },
        (Phase::Resolving(_), Outcome::Failed) => idle(Some(Failure::TransientIo)),
        (Phase::Rendering(file), Outcome::Rendered(bytes)) => {
            let path = output_path(config.output_dir.as_str(), file.basename.as_str());
            Transition {
                phase: Phase::Writing(file),
                command: Command::WriteOutput(RenderResult { path, bytes }),
                failure: None,
            }
        },
        (Phase::Rendering(_), Outcome::Failed) => idle(Some(Failure::RenderFailure)),
        (Phase::Writing(file), Outcome::Completed) => {
            let to = processed_path(config.input_dir.as_str(), file.basename.as_str());
            Transition {
                phase: Phase::Marking,
                command: Command::MarkProcessed { from: file.path, to },
                failure: None,
            }
        },
        (Phase::Writing(_), Outcome::Failed) => idle(Some(Failure::TransientIo)),
        (Phase::Marking, Outcome::Completed) => idle(None),
        (Phase::Marking, Outcome::Failed) => idle(Some(Failure::TransientIo)),
        _ => idle(Some(Failure::Unexpected)),
    }
}

/// Whether `outcome`, reported in `phase`, calls for a claim.
pub fn claims(phase: &Phase, outcome: &Outcome) -> (r: bool)
    ensures
        r == spec_claims(phase@, outcome@),
{
    match (phase, outcome) {
        (Phase::Idle, Outcome::Event(WatchEvent::FileCreated(p))) => has_html_extension(
            p.as_str(),
        ),
        _ => false,
    }
}

/// One step of the machine. Where the outcome calls for a claim, a fresh
/// random identifier is drawn for the staged name; the answer is that of
/// `advance` under some identifier.
pub fn step(config: &Config, phase: Phase, outcome: Outcome) -> (r: Transition)
    ensures
        exists|id: Seq<char>|
            is_identifier(id) && r@ == spec_advance(config@, phase@, outcome@, id),
{
    if claims(&phase, &outcome) {
        let id = new_identifier();
        advance(config, phase, outcome, id.as_str())
    } else {
        proof {
            assert(is_identifier(zero_identifier()));
            lemma_identifier_only_for_claims(
                config@,
                phase@,
                outcome@,
                ""@,
                zero_identifier(),
            );
        }
        advance(config, phase, outcome, "")
    }
}

} // verus!
