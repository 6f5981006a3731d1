use vstd::prelude::*;
use crate::job::{
    any_file_with_extension, creation_outcome, creation_verdict, extraction_outcome,
    extraction_verdict, has_file_with, succeeded, tool_of, output_of, EntryInfo, Lookup, Notice,
    Outcome, Request, ToolRun,
};
use crate::text::owned;
use crate::tool::{Tool, CANDIDATES};

verus! {

/// Where a job stands: each stage waits for the answer to one action.
#[derive(Debug)]
pub enum Stage {
    /// The start notice was sent.
    Starting,
    /// The `k`-th place of the tool is being looked at.
    Locating(usize),
    /// The tool was found at place `k`; the input is being looked for.
    CheckingSource(usize),
    /// The setup file is being looked for.
    CheckingSetupFile(usize),
    /// The output directory is being made.
    Preparing(usize),
    /// The running notice was sent.
    Announcing(usize),
    /// The tool is running.
    Running,
    /// The output directory is being listed for archives.
    ListingArchives(ToolRun),
    /// Whether an `extracted` folder was left is being looked at.
    CheckingExtracted(ToolRun, bool),
    /// The expected package is being looked for.
    CheckingPackage(ToolRun),
    /// The output directory is being listed for any package.
    ListingPackages(ToolRun),
    /// The completion notice was sent; the job ends in the outcome.
    Closing(Outcome),
    Finished,
}

/// The answer to an action.
#[derive(Debug)]
pub enum Event {
    /// A notice was delivered, or the error text of why it was not.
    Emitted(Result<(), String>),
    /// Whether a looked-up path exists (or is a directory, where a directory
    /// was asked for), with the path as displayed.
    Probed { exists: bool, shown: String },
    /// The output directory was made, or the error text of why not.
    DirectoryMade(Result<(), String>),
    /// The tool ran to its end.
    Exited(ToolRun),
    /// The tool could not be started: the error text.
    LaunchFailed(String),
    /// The entries of the output directory; none where it cannot be read.
    Listed(Vec<EntryInfo>),
}

/// What the job asks of its surroundings next.
#[derive(Debug)]
pub enum Action {
    /// Send this notification.
    Emit(Notice),
    /// Say whether this exists.
    Probe(Lookup),
    /// Make this directory and the ones above it.
    MakeDirectory(String),
    /// Run the tool found at place `at` on the job's arguments; with
    /// `closed_input`, with no standard input.
    Execute { at: usize, closed_input: bool },
    /// List this directory.
    List(String),
    /// The job is over.
    Finish(Outcome),
}

/// A job in progress.
#[derive(Debug)]
pub struct Session {
    pub request: Request,
    pub stage: Stage,
}

/// Whether event `e` answers what a job in stage `s` waits for.
pub open spec fn accepts(s: Stage, e: Event) -> bool {
    match s {
        Stage::Starting | Stage::Announcing(_) | Stage::Closing(_) => e is Emitted,
        Stage::Locating(_) | Stage::CheckingSource(_) | Stage::CheckingSetupFile(_)
        | Stage::CheckingExtracted(..) | Stage::CheckingPackage(_) => e is Probed,
        Stage::Preparing(_) => e is DirectoryMade,
        Stage::Running => e is Exited || e is LaunchFailed,
        Stage::ListingArchives(_) | Stage::ListingPackages(_) => e is Listed,
        Stage::Finished => false,
    }
}

/// The outcome of a job whose completion is being announced.
pub open spec fn closing(o: Outcome) -> (Stage, Action) {
    (Stage::Closing(o), Action::Emit(Notice::Completed(tool_of_outcome(o), succeeded(o))))
}

/// The tool whose completion an outcome of the tool's run reports.
pub open spec fn tool_of_outcome(o: Outcome) -> Tool {
    match o {
        Outcome::Extracted { .. } => Tool::Decoder,
        Outcome::ToolFailed { tool, .. } => tool,
        _ => Tool::Packager,
    }
}

/// The rules of a job of request `r`: from stage `s` and the answer `e`, the
/// next stage and action.
pub open spec fn step(r: Request, s: Stage, e: Event) -> (Stage, Action) {
    let finish = |o: Outcome| (Stage::Finished, Action::Finish(o));
    match (s, e) {
        (Stage::Starting, Event::Emitted(Ok(_))) => (
            Stage::Locating(0),
            Action::Probe(Lookup::Candidate(0)),
        ),
        (Stage::Locating(k), Event::Probed { exists, .. }) => if exists {
            (Stage::CheckingSource(k), Action::Probe(Lookup::Source))
        } else if k < CANDIDATES - 1 {
            (Stage::Locating((k + 1) as usize), Action::Probe(Lookup::Candidate((k + 1) as usize)))
        } else {
            finish(Outcome::ToolMissing(tool_of(r)))
        },
        (Stage::CheckingSource(k), Event::Probed { exists, .. }) => if !exists {
            finish(Outcome::SourceMissing(tool_of(r)))
        } else if r is Create {
            (Stage::CheckingSetupFile(k), Action::Probe(Lookup::SetupFile))
        } else {
            (Stage::Preparing(k), Action::MakeDirectory(output_of(r)))
        },
        (Stage::CheckingSetupFile(k), Event::Probed { exists, .. }) => if exists {
            (Stage::Preparing(k), Action::MakeDirectory(output_of(r)))
        } else {
            match r {
                Request::Create { setup_folder, setup_file, .. } => finish(
                    Outcome::SetupFileMissing { setup_file, setup_folder },
                ),
                Request::Extract { .. } => (Stage::Preparing(k), Action::MakeDirectory(output_of(r))),
            }
        },
        (Stage::Preparing(k), Event::DirectoryMade(Ok(_))) => (
            Stage::Announcing(k),
            Action::Emit(Notice::Running(tool_of(r))),
        ),
        (Stage::Preparing(_), Event::DirectoryMade(Err(e))) => finish(Outcome::OutputDirectory(e)),
        (Stage::Announcing(k), Event::Emitted(Ok(_))) => (
            Stage::Running,
            Action::Execute { at: k, closed_input: r is Extract },
        ),
        (Stage::Running, Event::LaunchFailed(e)) => finish(Outcome::LaunchFailed(tool_of(r), e)),
        (Stage::Running, Event::Exited(run)) => if r is Extract {
            (Stage::ListingArchives(run), Action::List(output_of(r)))
        } else {
            (Stage::CheckingPackage(run), Action::Probe(Lookup::Package))
        },
        (Stage::ListingArchives(run), Event::Listed(entries)) => (
            Stage::CheckingExtracted(run, has_file_with(entries@, "zip"@)),
            Action::Probe(Lookup::ExtractedFolder),
        ),
        (Stage::CheckingExtracted(run, has_zip), Event::Probed { exists, .. }) => closing(
            extraction_verdict(run, has_zip, exists),
        ),
        (Stage::CheckingPackage(run), Event::Probed { exists, shown }) => if exists {
            closing(creation_verdict(run, Some(shown), false))
        } else {
            (Stage::ListingPackages(run), Action::List(output_of(r)))
        },
        (Stage::ListingPackages(run), Event::Listed(entries)) => closing(
            creation_verdict(run, None, has_file_with(entries@, "intunewin"@)),
        ),
        (Stage::Closing(o), Event::Emitted(Ok(_))) => finish(o),
        (_, Event::Emitted(Err(e))) => finish(Outcome::EmitFailed(e)),
        _ => (s, Action::Finish(Outcome::EmitFailed(arbitrary()))),
    }
}

impl Session {
    /// Opens a job: its first action is the start notice.
    pub fn start(request: Request) -> (r: (Session, Action))
        ensures
            r.0.request == request,
            r.0.stage == Stage::Starting,
            r.1 == Action::Emit(Notice::Started(tool_of(request))),
    {
        let t = request.tool();
        (Session { request, stage: Stage::Starting }, Action::Emit(Notice::Started(t)))
    }

    /// Whether the job waits for an answer at all.
    pub fn is_finished(&self) -> (r: bool)
        ensures
            r == (self.stage is Finished),
    {
        match self.stage {
            Stage::Finished => true,
            _ => false,
        }
    }

    /// Whether `e` answers what the job waits for.
    pub fn accepts(&self, e: &Event) -> (r: bool)
        ensures
            r == accepts(self.stage, *e),
    {
        match &self.stage {
            Stage::Starting | Stage::Announcing(_) | Stage::Closing(_) => matches!(e, Event::Emitted(_)),
            Stage::Locating(_) | Stage::CheckingSource(_) | Stage::CheckingSetupFile(_)
            | Stage::CheckingExtracted(..) | Stage::CheckingPackage(_) => matches!(e, Event::Probed { .. }),
            Stage::Preparing(_) => matches!(e, Event::DirectoryMade(_)),
            Stage::Running => matches!(e, Event::Exited(_) | Event::LaunchFailed(_)),
            Stage::ListingArchives(_) | Stage::ListingPackages(_) => matches!(e, Event::Listed(_)),
            Stage::Finished => false,
        }
    }
}

/// Announces the completion of a job that ends in `o`.
fn close(o: Outcome) -> (r: (Stage, Action))
    ensures
        r == closing(o),
{
    let t = match &o {
        Outcome::Extracted { .. } => Tool::Decoder,
        Outcome::ToolFailed { tool, .. } => *tool,
        _ => Tool::Packager,
    };
    let ok = o.is_success();
    (Stage::Closing(o), Action::Emit(Notice::Completed(t, ok)))
}

impl Session {
    /// Takes the answer `e` to the last action; gives the job with its next
    /// stage, and the next action.
    pub fn advance(self, e: Event) -> (r: (Session, Action))
        requires
            accepts(self.stage, e),
        ensures
            r.0.request == self.request,
            (r.0.stage, r.1) == step(self.request, self.stage, e),
    {
        let Session { request, stage } = self;
        let (stage, action) = match (stage, e) {
            (Stage::Starting, Event::Emitted(Ok(_))) => (
                Stage::Locating(0),
                Action::Probe(Lookup::Candidate(0)),
            ),
            (Stage::Locating(k), Event::Probed { exists, .. }) => if exists {
                (Stage::CheckingSource(k), Action::Probe(Lookup::Source))
            } else if k < CANDIDATES - 1 {
                (Stage::Locating(k + 1), Action::Probe(Lookup::Candidate(k + 1)))
            } else {
                (Stage::Finished, Action::Finish(Outcome::ToolMissing(request.tool())))
            },
            (Stage::CheckingSource(k), Event::Probed { exists, .. }) => if !exists {
                (Stage::Finished, Action::Finish(Outcome::SourceMissing(request.tool())))
            } else if matches!(request, Request::Create { .. }) {
                (Stage::CheckingSetupFile(k), Action::Probe(Lookup::SetupFile))
            } else {
                (Stage::Preparing(k), Action::MakeDirectory(request.output_dir()))
            },
            (Stage::CheckingSetupFile(k), Event::Probed { exists, .. }) => if exists {
                (Stage::Preparing(k), Action::MakeDirectory(request.output_dir()))
            } else {
                match &request {
                    Request::Create { setup_folder, setup_file, .. } => (
                        Stage::Finished,
                        Action::Finish(
                            Outcome::SetupFileMissing {
                                setup_file: setup_file.clone(),
                                setup_folder: setup_folder.clone(),
                            },
                        ),
                    ),
                    Request::Extract { .. } => (
                        Stage::Preparing(k),
                        Action::MakeDirectory(request.output_dir()),
                    ),
                }
            },
            (Stage::Preparing(k), Event::DirectoryMade(Ok(_))) => (
                Stage::Announcing(k),
                Action::Emit(Notice::Running(request.tool())),
            ),
            (Stage::Preparing(_), Event::DirectoryMade(Err(e))) => (
                Stage::Finished,
                Action::Finish(Outcome::OutputDirectory(e)),
            ),
            (Stage::Announcing(k), Event::Emitted(Ok(_))) => (
                Stage::Running,
                Action::Execute { at: k, closed_input: matches!(request, Request::Extract { .. }) },
            ),
            (Stage::Running, Event::LaunchFailed(e)) => (
                Stage::Finished,
                Action::Finish(Outcome::LaunchFailed(request.tool(), e)),
            ),
            (Stage::Running, Event::Exited(run)) => if matches!(request, Request::Extract { .. }) {
                (Stage::ListingArchives(run), Action::List(request.output_dir()))
            } else {
                (Stage::CheckingPackage(run), Action::Probe(Lookup::Package))
            },
            (Stage::ListingArchives(run), Event::Listed(entries)) => {
                let has_zip = any_file_with_extension(&entries, "zip");
                (Stage::CheckingExtracted(run, has_zip), Action::Probe(Lookup::ExtractedFolder))
            },
            (Stage::CheckingExtracted(run, has_zip), Event::Probed { exists, .. }) => close(
                extraction_outcome(run, has_zip, exists),
            ),
            (Stage::CheckingPackage(run), Event::Probed { exists, shown }) => if exists {
                close(creation_outcome(run, Some(shown), false))
            } else {
                (Stage::ListingPackages(run), Action::List(request.output_dir()))
            },
            (Stage::ListingPackages(run), Event::Listed(entries)) => {
                let found = any_file_with_extension(&entries, "intunewin");
                close(creation_outcome(run, None, found))
            },
            (Stage::Closing(o), Event::Emitted(Ok(_))) => (Stage::Finished, Action::Finish(o)),
            (_, Event::Emitted(Err(e))) => (Stage::Finished, Action::Finish(Outcome::EmitFailed(e))),
            _ => {
                proof {
                    assert(false);
                }
                (Stage::Finished, Action::Finish(Outcome::ToolMissing(Tool::Decoder)))
            },
        };
        (Session { request, stage }, action)
    }
}

/// How many answers a job in stage `s` waits for at most before it is over.
pub open spec fn answers_left(s: Stage) -> nat {
    match s {
        Stage::Finished => 0,
        Stage::Closing(_) => 1,
        Stage::CheckingExtracted(..) | Stage::ListingPackages(_) => 2,
        Stage::ListingArchives(_) | Stage::CheckingPackage(_) => 3,
        Stage::Running => 4,
        Stage::Announcing(_) => 5,
        Stage::Preparing(_) => 6,
        Stage::CheckingSetupFile(_) => 7,
        Stage::CheckingSource(_) => 8,
        Stage::Locating(k) => if k < CANDIDATES {
            (8 + CANDIDATES - k) as nat
        } else {
            9
        },
        Stage::Starting => (9 + CANDIDATES) as nat,
    }
}

/// Every answer that a job accepts brings it closer to its end: a job is over
/// after at most `answers_left(Stage::Starting)` answers, whatever they are.
pub proof fn lemma_every_answer_progresses(r: Request, s: Stage, e: Event)
    requires
        accepts(s, e),
    ensures
        answers_left(step(r, s, e).0) < answers_left(s),
{
}

/// A job ends in success only from the stage in which the completion notice
/// for that very outcome was sent, a notice that reported success.
pub proof fn lemma_success_follows_completion_notice(r: Request, s: Stage, e: Event)
    requires
        accepts(s, e),
        step(r, s, e).1 matches Action::Finish(o) && succeeded(o),
    ensures
        s matches Stage::Closing(o) && step(r, s, e).1 == Action::Finish(o)
            && closing(o).1 == Action::Emit(Notice::Completed(tool_of_outcome(o), true)),
{
}

} // verus!
