use vstd::prelude::*;
use vstd::string::*;
use crate::text::owned;

verus! {

/// The two external programs a job can run.
#[derive(Clone, Copy, Debug, PartialEq, Eq, Structural)]
pub enum Tool {
    /// Unpacks an `.intunewin` file.
    Decoder,
    /// Builds an `.intunewin` file from a setup folder.
    Packager,
}

/// Where a path is taken from.
#[derive(Debug)]
pub enum Place {
    /// Below the application's bundled resource directory.
    Resources,
    /// Below the directory of the running executable.
    Executable,
    /// As written, relative to the working directory.
    Working,
    /// Joined onto the given folder.
    Inside(String),
}

/// How many places are searched for a tool.
pub const CANDIDATES: usize = 5;

/// The tool's executable file name.
pub open spec fn exe_name(t: Tool) -> Seq<char> {
    match t {
        Tool::Decoder => "IntuneWinAppUtilDecoder.exe"@,
        Tool::Packager => "IntuneWinAppUtil.exe"@,
    }
}

/// How a failure report names the tool.
pub open spec fn label(t: Tool) -> Seq<char> {
    match t {
        Tool::Decoder => "Decoder"@,
        Tool::Packager => "IntuneWinAppUtil"@,
    }
}

/// How a running or launch message names the tool.
pub open spec fn program(t: Tool) -> Seq<char> {
    match t {
        Tool::Decoder => "decoder"@,
        Tool::Packager => "IntuneWinAppUtil"@,
    }
}

/// The base of the `k`-th place searched for a tool: the bundled resources,
/// then the executable's directory, then three paths below the working
/// directory.
pub open spec fn candidate_place(k: int) -> Place {
    if k == 0 {
        Place::Resources
    } else if k == 1 {
        Place::Executable
    } else {
        Place::Working
    }
}

/// The path of the `k`-th place searched for tool `t`, below its base.
pub open spec fn candidate_path(t: Tool, k: int) -> Seq<char> {
    if k <= 1 || k == 3 {
        "bin/"@ + exe_name(t)
    } else if k == 2 {
        "src-tauri/bin/"@ + exe_name(t)
    } else {
        exe_name(t)
    }
}

/// The error of a job whose tool was found nowhere.
pub open spec fn missing_text(t: Tool) -> Seq<char> {
    exe_name(t)
        + " not found. Please download it from the Microsoft Intune Win32 Content Prep Tool and place it in the bin directory."@
}

/// The error of a tool that ran and failed, from what it printed.
pub open spec fn failure_text(t: Tool, out: Seq<char>, err: Seq<char>) -> Seq<char> {
    if out.len() > 0 && err.len() > 0 {
        label(t) + " failed:\nSTDOUT: "@ + out + "\nSTDERR: "@ + err
    } else if err.len() > 0 {
        label(t) + " failed: "@ + err
    } else if out.len() > 0 {
        label(t) + " failed: "@ + out
    } else {
        label(t) + " failed with no output"@
    }
}

impl Tool {
    /// The executable file name.
    pub fn exe_name(&self) -> (r: String)
        ensures
            r@ == exe_name(*self),
    {
        match self {
            Tool::Decoder => owned("IntuneWinAppUtilDecoder.exe"),
            Tool::Packager => owned("IntuneWinAppUtil.exe"),
        }
    }

    /// The name in failure reports.
    pub fn label(&self) -> (r: String)
        ensures
            r@ == label(*self),
    {
        match self {
            Tool::Decoder => owned("Decoder"),
            Tool::Packager => owned("IntuneWinAppUtil"),
        }
    }

    /// The name in running and launch messages.
    pub fn program(&self) -> (r: String)
        ensures
            r@ == program(*self),
    {
        match self {
            Tool::Decoder => owned("decoder"),
            Tool::Packager => owned("IntuneWinAppUtil"),
        }
    }

    /// The `k`-th place where the tool is looked for.
    pub fn candidate(&self, k: usize) -> (r: (Place, String))
        requires
            k < CANDIDATES,
        ensures
            r.0 == candidate_place(k as int),
            r.1@ == candidate_path(*self, k as int),
    {
        let place = if k == 0 {
            Place::Resources
        } else if k == 1 {
            Place::Executable
        } else {
            Place::Working
        };
        let mut path = if k <= 1 || k == 3 {
            owned("bin/")
        } else if k == 2 {
            owned("src-tauri/bin/")
        } else {
            String::new()
        };
        let name = self.exe_name();
        path.append(name.as_str());
        (place, path)
    }

    /// The error when the tool was found in none of its places.
    pub fn missing_message(&self) -> (r: String)
        ensures
            r@ == missing_text(*self),
    {
        let mut r = self.exe_name();
        r.append(
            " not found. Please download it from the Microsoft Intune Win32 Content Prep Tool and place it in the bin directory.",
        );
        r
    }

    /// The error of a run that failed, from its standard output and error.
    pub fn failure_message(&self, stdout: &str, stderr: &str) -> (r: String)
        ensures
            r@ == failure_text(*self, stdout@, stderr@),
    {
        let mut r = self.label();
        let has_out = stdout.unicode_len() > 0;
        let has_err = stderr.unicode_len() > 0;
        if has_out && has_err {
            r.append(" failed:\nSTDOUT: ");
            r.append(stdout);
            r.append("\nSTDERR: ");
            r.append(stderr);
        } else if has_err {
            r.append(" failed: ");
            r.append(stderr);
        } else if has_out {
            r.append(" failed: ");
            r.append(stdout);
        } else {
            r.append(" failed with no output");
        }
        r
    }
}

} // verus!
