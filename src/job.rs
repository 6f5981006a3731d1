use vstd::prelude::*;
use vstd::string::*;
use crate::records::{is_utc_stamp, OperationResult, ProgressUpdate};
use crate::text::{extension_of, has_extension, owned, strip_all, stripped};
use crate::tool::{
    candidate_path, candidate_place, failure_text, missing_text, program, Place, Tool, CANDIDATES,
};

verus! {

/// A job asked for by the user.
#[derive(Debug)]
pub enum Request {
    /// Unpack the package at `file_path` into `output_dir`.
    Extract { file_path: String, output_dir: String },
    /// Package `setup_file`, found in `setup_folder`, into `output_folder`.
    Create { setup_folder: String, setup_file: String, output_folder: String },
}

/// Something on disk whose presence a job asks about.
#[derive(Clone, Copy, Debug, PartialEq, Eq, Structural)]
pub enum Lookup {
    /// The `k`-th place where the job's tool may be.
    Candidate(usize),
    /// The input: the package to unpack, or the setup folder.
    Source,
    /// The setup file inside the setup folder.
    SetupFile,
    /// The package the packager is expected to write.
    Package,
    /// The folder `extracted` that the decoder may leave in the output.
    ExtractedFolder,
}

/// A progress notification, before it is stamped.
#[derive(Clone, Copy, Debug, PartialEq, Eq, Structural)]
pub enum Notice {
    Started(Tool),
    Running(Tool),
    /// The tool has run; whether the job succeeded.
    Completed(Tool, bool),
}

/// One entry of a directory listing.
#[derive(Debug)]
pub struct EntryInfo {
    pub name: String,
    pub is_file: bool,
}

/// How a tool's run ended, with what it printed.
#[derive(Debug)]
pub struct ToolRun {
    pub success: bool,
    pub stdout: String,
    pub stderr: String,
}

/// How a job ends.
#[derive(Debug)]
pub enum Outcome {
    /// Unpacked; whether an archive or an `extracted` folder was seen.
    Extracted { found_output: bool },
    /// Packaged; the expected package as displayed, where it was found.
    Created { package: Option<String> },
    /// A progress notification could not be delivered.
    EmitFailed(String),
    /// The tool was found nowhere.
    ToolMissing(Tool),
    /// The input file or setup folder does not exist.
    SourceMissing(Tool),
    SetupFileMissing { setup_file: String, setup_folder: String },
    /// The output directory could not be made.
    OutputDirectory(String),
    /// The tool could not be started.
    LaunchFailed(Tool, String),
    /// The tool ran and its work was judged to have failed.
    ToolFailed { tool: Tool, stdout: String, stderr: String },
}

pub open spec fn tool_of(r: Request) -> Tool {
    match r {
        Request::Extract { .. } => Tool::Decoder,
        Request::Create { .. } => Tool::Packager,
    }
}

/// The directory a job writes into.
pub open spec fn output_of(r: Request) -> String {
    match r {
        Request::Extract { output_dir, .. } => output_dir,
        Request::Create { output_folder, .. } => output_folder,
    }
}

/// The command line given to the job's tool.
pub open spec fn arguments_of(r: Request) -> Seq<Seq<char>> {
    match r {
        Request::Extract { file_path, output_dir } => seq![file_path@, output_dir@],
        Request::Create { setup_folder, setup_file, output_folder } => seq![
            "-c"@,
            setup_folder@,
            "-s"@,
            setup_file@,
            "-o"@,
            output_folder@,
            "-q"@,
        ],
    }
}

/// The file name the packager gives the package of `setup_file`: the name
/// without any `.exe` and then any `.msi`, followed by `.intunewin`.
pub open spec fn package_name(setup_file: Seq<char>) -> Seq<char> {
    stripped(stripped(setup_file, ".exe"@), ".msi"@) + ".intunewin"@
}

/// Where a lookup of request `r` points, if it applies to `r`.
pub open spec fn location_of(r: Request, l: Lookup) -> Option<(Place, Seq<char>)> {
    match (l, r) {
        (Lookup::Candidate(k), _) => if k < CANDIDATES {
            Some((candidate_place(k as int), candidate_path(tool_of(r), k as int)))
        } else {
            None
        },
        (Lookup::Source, Request::Extract { file_path, .. }) => Some((Place::Working, file_path@)),
        (Lookup::Source, Request::Create { setup_folder, .. }) => Some(
            (Place::Working, setup_folder@),
        ),
        (Lookup::SetupFile, Request::Create { setup_folder, setup_file, .. }) => Some(
            (Place::Inside(setup_folder), setup_file@),
        ),
        (Lookup::Package, Request::Create { setup_file, output_folder, .. }) => Some(
            (Place::Inside(output_folder), package_name(setup_file@)),
        ),
        (Lookup::ExtractedFolder, Request::Extract { output_dir, .. }) => Some(
            (Place::Inside(output_dir), "extracted"@),
        ),
        _ => None,
    }
}

pub open spec fn progress_of(n: Notice) -> u8 {
    match n {
        Notice::Started(_) => 0,
        Notice::Running(_) => 25,
        Notice::Completed(..) => 100,
    }
}

pub open spec fn notice_text(n: Notice) -> Seq<char> {
    match n {
        Notice::Started(Tool::Decoder) => "Starting extraction..."@,
        Notice::Started(Tool::Packager) => "Starting package creation..."@,
        Notice::Running(t) => "Running "@ + program(t) + "..."@,
        Notice::Completed(Tool::Decoder, true) => "Extraction completed successfully"@,
        Notice::Completed(Tool::Decoder, false) => "Extraction failed"@,
        Notice::Completed(Tool::Packager, true) => "Package created successfully"@,
        Notice::Completed(Tool::Packager, false) => "Package creation failed"@,
    }
}

/// Whether some file among `entries` has the extension `ext`.
pub open spec fn has_file_with(entries: Seq<EntryInfo>, ext: Seq<char>) -> bool {
    exists|i: int|
        0 <= i < entries.len() && #[trigger] entries[i].is_file && extension_of(entries[i].name@)
            == Some(ext)
}

pub open spec fn succeeded(o: Outcome) -> bool {
    o is Extracted || o is Created
}

/// The message of the result of a job that ended in `o`.
pub open spec fn outcome_text(o: Outcome) -> Seq<char> {
    match o {
        Outcome::Extracted { found_output } => if found_output {
            "Package extracted successfully"@
        } else {
            "Extraction completed (check output directory)"@
        },
        Outcome::Created { package } => match package {
            Some(p) => "Package created successfully: "@ + p@,
            None => "Package created successfully (check output folder for .intunewin file)"@,
        },
        Outcome::EmitFailed(e) => e@,
        Outcome::ToolMissing(t) => missing_text(t),
        Outcome::SourceMissing(Tool::Decoder) => "Input file does not exist"@,
        Outcome::SourceMissing(Tool::Packager) => "Setup folder does not exist"@,
        Outcome::SetupFileMissing { setup_file, setup_folder } => "Setup file '"@ + setup_file@
            + "' not found in folder '"@ + setup_folder@ + "'"@,
        Outcome::OutputDirectory(e) => "Failed to create output directory: "@ + e@,
        Outcome::LaunchFailed(t, e) => "Failed to execute "@ + program(t) + ": "@ + e@,
        Outcome::ToolFailed { tool, stdout, stderr } => failure_text(tool, stdout@, stderr@),
    }
}

/// The verdict on an unpacking: it succeeded where the decoder exited with
/// success or left an archive or an `extracted` folder behind.
pub open spec fn extraction_verdict(run: ToolRun, has_zip: bool, has_extracted: bool) -> Outcome {
    if run.success || has_zip || has_extracted {
        Outcome::Extracted { found_output: has_zip || has_extracted }
    } else {
        Outcome::ToolFailed { tool: Tool::Decoder, stdout: run.stdout, stderr: run.stderr }
    }
}

/// The verdict on a packaging: it succeeded where the packager exited with
/// success and a package was seen, the expected one or another.
pub open spec fn creation_verdict(run: ToolRun, package: Option<String>, other_found: bool) -> Outcome {
    if run.success && (package is Some || other_found) {
        Outcome::Created { package }
    } else {
        Outcome::ToolFailed { tool: Tool::Packager, stdout: run.stdout, stderr: run.stderr }
    }
}

/// The file name of the package that the packager makes of `setup_file`.
pub fn package_file_name(setup_file: &str) -> (r: String)
    ensures
        r@ == package_name(setup_file@),
{
    proof {
        reveal_strlit(".exe");
        reveal_strlit(".msi");
    }
    let bare = strip_all(setup_file, ".exe");
    let mut r = strip_all(bare.as_str(), ".msi");
    r.append(".intunewin");
    r
}

impl Request {
    /// The tool that carries the job out.
    pub fn tool(&self) -> (r: Tool)
        ensures
            r == tool_of(*self),
    {
        match self {
            Request::Extract { .. } => Tool::Decoder,
            Request::Create { .. } => Tool::Packager,
        }
    }

    /// The directory the job writes into.
    pub fn output_dir(&self) -> (r: String)
        ensures
            r == output_of(*self),
    {
        match self {
            Request::Extract { output_dir, .. } => output_dir.clone(),
            Request::Create { output_folder, .. } => output_folder.clone(),
        }
    }

    /// The command line for the job's tool.
    pub fn arguments(&self) -> (r: Vec<String>)
        ensures
            r@.map_values(|a: String| a@) == arguments_of(*self),
    {
        let r = match self {
            Request::Extract { file_path, output_dir } => vec![file_path.clone(), output_dir.clone()],
            Request::Create { setup_folder, setup_file, output_folder } => vec![
                owned("-c"),
                setup_folder.clone(),
                owned("-s"),
                setup_file.clone(),
                owned("-o"),
                output_folder.clone(),
                owned("-q"),
            ],
        };
        assert(r@.map_values(|a: String| a@) =~= arguments_of(*self));
        r
    }

    /// Where lookup `l` points for this job; `None` where it does not apply.
    pub fn locate(&self, l: Lookup) -> (r: Option<(Place, String)>)
        ensures
            match (r, location_of(*self, l)) {
                (Some((p, s)), Some((q, t))) => p == q && s@ == t,
                (None, None) => true,
                _ => false,
            },
    {
        match (l, self) {
            (Lookup::Candidate(k), _) => if k < CANDIDATES {
                Some(self.tool().candidate(k))
            } else {
                None
            },
            (Lookup::Source, Request::Extract { file_path, .. }) => Some(
                (Place::Working, file_path.clone()),
            ),
            (Lookup::Source, Request::Create { setup_folder, .. }) => Some(
                (Place::Working, setup_folder.clone()),
            ),
            (Lookup::SetupFile, Request::Create { setup_folder, setup_file, .. }) => Some(
                (Place::Inside(setup_folder.clone()), setup_file.clone()),
            ),
            (Lookup::Package, Request::Create { setup_file, output_folder, .. }) => Some(
                (Place::Inside(output_folder.clone()), package_file_name(setup_file.as_str())),
            ),
            (Lookup::ExtractedFolder, Request::Extract { output_dir, .. }) => Some(
                (Place::Inside(output_dir.clone()), owned("extracted")),
            ),
            _ => None,
        }
    }
}

impl Lookup {
    /// Whether the lookup asks for a directory rather than for anything that
    /// exists.
    pub fn wants_directory(&self) -> (r: bool)
        ensures
            r == (*self is ExtractedFolder),
    {
        match self {
            Lookup::ExtractedFolder => true,
            _ => false,
        }
    }
}

impl Notice {
    pub fn progress(&self) -> (r: u8)
        ensures
            r == progress_of(*self),
    {
        match self {
            Notice::Started(_) => 0,
            Notice::Running(_) => 25,
            Notice::Completed(..) => 100,
        }
    }

    pub fn message(&self) -> (r: String)
        ensures
            r@ == notice_text(*self),
    {
        match self {
            Notice::Started(Tool::Decoder) => owned("Starting extraction..."),
            Notice::Started(Tool::Packager) => owned("Starting package creation..."),
            Notice::Running(t) => {
                let mut r = owned("Running ");
                r.append(t.program().as_str());
                r.append("...");
                r
            },
            Notice::Completed(Tool::Decoder, true) => owned("Extraction completed successfully"),
            Notice::Completed(Tool::Decoder, false) => owned("Extraction failed"),
            Notice::Completed(Tool::Packager, true) => owned("Package created successfully"),
            Notice::Completed(Tool::Packager, false) => owned("Package creation failed"),
        }
    }

    /// The notification as sent, stamped with the current time.
    pub fn update(&self) -> (r: ProgressUpdate)
        ensures
            r.progress == progress_of(*self),
            r.message@ == notice_text(*self),
            is_utc_stamp(r.timestamp@),
    {
        ProgressUpdate::stamped(self.progress(), self.message())
    }
}

/// Whether some file among `entries` has the extension `ext`.
pub fn any_file_with_extension(entries: &Vec<EntryInfo>, ext: &str) -> (r: bool)
    ensures
        r == has_file_with(entries@, ext@),
{
    let mut i: usize = 0;
    while i < entries.len()
        invariant
            i <= entries@.len(),
            forall|j: int|
                0 <= j < i ==> !(#[trigger] entries@[j].is_file && extension_of(entries@[j].name@)
                    == Some(ext@)),
        decreases entries.len() - i,
    {
        let e = &entries[i];
        if e.is_file && has_extension(e.name.as_str(), ext) {
            return true;
        }
        i = i + 1;
    }
    false
}

/// Judges an unpacking from the decoder's run and what it left in the
/// output directory.
pub fn extraction_outcome(run: ToolRun, has_zip: bool, has_extracted: bool) -> (r: Outcome)
    ensures
        r == extraction_verdict(run, has_zip, has_extracted),
{
    if run.success || has_zip || has_extracted {
        Outcome::Extracted { found_output: has_zip || has_extracted }
    } else {
        Outcome::ToolFailed { tool: Tool::Decoder, stdout: run.stdout, stderr: run.stderr }
    }
}

/// Judges a packaging from the packager's run, the expected package as
/// displayed where it exists, and whether another package was seen.
pub fn creation_outcome(run: ToolRun, package: Option<String>, other_found: bool) -> (r: Outcome)
    ensures
        r == creation_verdict(run, package, other_found),
{
    if run.success && (package.is_some() || other_found) {
        Outcome::Created { package }
    } else {
        Outcome::ToolFailed { tool: Tool::Packager, stdout: run.stdout, stderr: run.stderr }
    }
}

impl Outcome {
    pub fn is_success(&self) -> (r: bool)
        ensures
            r == succeeded(*self),
    {
        match self {
            Outcome::Extracted { .. } | Outcome::Created { .. } => true,
            _ => false,
        }
    }

    /// What the job hands back: a result of status `success` at 100 percent,
    /// or the error message.
    pub fn into_result(self) -> (r: Result<OperationResult, String>)
        ensures
            r is Ok <==> succeeded(self),
            r matches Ok(v) ==> v.status@ == "success"@ && v.progress == 100 && v.message@
                == outcome_text(self),
            r matches Err(e) ==> e@ == outcome_text(self),
    {
        let ok = self.is_success();
        let message = match self {
            Outcome::Extracted { found_output } => if found_output {
                owned("Package extracted successfully")
            } else {
                owned("Extraction completed (check output directory)")
            },
            Outcome::Created { package } => match package {
                Some(p) => {
                    let mut m = owned("Package created successfully: ");
                    m.append(p.as_str());
                    m
                },
                None => owned(
                    "Package created successfully (check output folder for .intunewin file)",
                ),
            },
            Outcome::EmitFailed(e) => e,
            Outcome::ToolMissing(t) => t.missing_message(),
            Outcome::SourceMissing(Tool::Decoder) => owned("Input file does not exist"),
            Outcome::SourceMissing(Tool::Packager) => owned("Setup folder does not exist"),
            Outcome::SetupFileMissing { setup_file, setup_folder } => {
                let mut m = owned("Setup file '");
                m.append(setup_file.as_str());
                m.append("' not found in folder '");
                m.append(setup_folder.as_str());
                m.append("'");
                m
            },
            Outcome::OutputDirectory(e) => {
                let mut m = owned("Failed to create output directory: ");
                m.append(e.as_str());
                m
            },
            Outcome::LaunchFailed(t, e) => {
                let mut m = owned("Failed to execute ");
                m.append(t.program().as_str());
                m.append(": ");
                m.append(e.as_str());
                m
            },
            Outcome::ToolFailed { tool, stdout, stderr } => tool.failure_message(
                stdout.as_str(),
                stderr.as_str(),
            ),
        };
        if ok {
            Ok(OperationResult { status: owned("success"), message, progress: 100 })
        } else {
            Err(message)
        }
    }
}

} // verus!
