//! Print dispatch: the ordered candidate locations of the Windows print
//! helper, the exact command lines handed to each platform's print
//! mechanism, and the mapping of a dispatch attempt's outcome to the
//! pipeline's failure taxonomy. Spawning the processes is the caller's job.

use crate::models::PrintError;
use vstd::prelude::*;
use vstd::string::StringExecFns;

verus! {

/// The views of a sequence of strings.
pub open spec fn strs(s: Seq<String>) -> Seq<Seq<char>> {
    s.map_values(|x: String| x@)
}

/// The view of an optional string slice.
pub open spec fn opt_str(o: Option<&str>) -> Option<Seq<char>> {
    match o {
        Some(s) => Some(s@),
        None => None,
    }
}

/// The well-known installation directories probed for the print helper,
/// in order.
pub open spec fn well_known_spec() -> Seq<Seq<char>> {
    seq![
        "C:\\Program Files\\SumatraPDF\\SumatraPDF.exe"@,
        "C:\\Program Files (x86)\\SumatraPDF\\SumatraPDF.exe"@,
        "C:\\SumatraPDF\\SumatraPDF.exe"@,
    ]
}

/// The ordered candidate locations of the print helper: the working
/// directory and its common subdirectories first (they take priority over
/// the static well-known paths), then the well-known installation
/// directories. `None` stands for an unknown working directory.
pub open spec fn candidate_paths_spec(cwd: Option<Seq<char>>) -> Seq<Seq<char>> {
    match cwd {
        Some(c) => seq![
            c + "\\SumatraPDF.exe"@,
            c + "\\bin\\SumatraPDF.exe"@,
            c + "\\tools\\SumatraPDF.exe"@,
            c + "\\apps\\SumatraPDF.exe"@,
            c + "\\utils\\SumatraPDF.exe"@,
        ] + well_known_spec(),
        None => well_known_spec(),
    }
}

fn join2(a: &str, b: &str) -> (r: String)
    ensures
        r@ == a@ + b@,
{
    let mut s: String = <String as StringExecFns>::from_str(a);
    s.append(b);
    s
}

/// The ordered candidate locations of the print helper for the given
/// working directory.
pub fn candidate_paths(cwd: Option<&str>) -> (r: Vec<String>)
    ensures
        strs(r@) == candidate_paths_spec(opt_str(cwd)),
{
    let mut r: Vec<String> = Vec::new();
    match cwd {
        Some(c) => {
            r.push(join2(c, "\\SumatraPDF.exe"));
            r.push(join2(c, "\\bin\\SumatraPDF.exe"));
            r.push(join2(c, "\\tools\\SumatraPDF.exe"));
            r.push(join2(c, "\\apps\\SumatraPDF.exe"));
            r.push(join2(c, "\\utils\\SumatraPDF.exe"));
        },
        None => {},
    }
    r.push(<String as StringExecFns>::from_str("C:\\Program Files\\SumatraPDF\\SumatraPDF.exe"));
    r.push(
        <String as StringExecFns>::from_str("C:\\Program Files (x86)\\SumatraPDF\\SumatraPDF.exe"),
    );
    r.push(<String as StringExecFns>::from_str("C:\\SumatraPDF\\SumatraPDF.exe"));
    proof {
        assert(strs(r@) =~= candidate_paths_spec(opt_str(cwd)));
    }
    r
}

/// The decision after probing one candidate location.
#[derive(Debug, PartialEq)]
pub enum ProbeOutcome {
    /// The candidate exists: dispatch through it.
    RunHelper { path: String },
    /// The candidate is absent and another is left: probe that one next.
    ProbeNext { next: usize },
    /// The candidate is absent and it was the last one.
    HelperAbsent,
}

/// Decides what follows the probe of candidate `i`: the first candidate
/// found on disk is used; only when every candidate was probed in order and
/// none existed is the helper reported absent. Candidates are probed
/// lazily, one per call.
pub fn probe_decision(candidates: &Vec<String>, i: usize, present: bool) -> (r: ProbeOutcome)
    requires
        i < candidates@.len(),
    ensures
        present ==> (r matches ProbeOutcome::RunHelper { path } && path == candidates@[i as int]),
        !present && i + 1 < candidates@.len() ==> r == (ProbeOutcome::ProbeNext { next: (i + 1) as usize }),
        !present && i + 1 == candidates@.len() ==> r == ProbeOutcome::HelperAbsent,
{
    if present {
        ProbeOutcome::RunHelper { path: candidates[i].clone() }
    } else {
        let n = candidates.len();
        if i < n - 1 {
            ProbeOutcome::ProbeNext { next: i + 1 }
        } else {
            ProbeOutcome::HelperAbsent
        }
    }
}

/// The shell instruction that launches the print helper with a
/// print-to-printer order for the given printer and file.
pub open spec fn helper_command_spec(exe: Seq<char>, printer: Seq<char>, path: Seq<char>) -> Seq<
    char,
> {
    "Start-Process -FilePath \""@ + exe + "\" -ArgumentList \"-print-to \"\""@ + printer
        + "\"\" \"\""@ + path + "\"\"\""@
}

/// Builds the shell instruction that launches the print helper.
pub fn helper_print_command(exe: &str, printer: &str, path: &str) -> (r: String)
    ensures
        r@ == helper_command_spec(exe@, printer@, path@),
{
    let mut s: String = <String as StringExecFns>::from_str("Start-Process -FilePath \"");
    s.append(exe);
    s.append("\" -ArgumentList \"-print-to \"\"");
    s.append(printer);
    s.append("\"\" \"\"");
    s.append(path);
    s.append("\"\"\"");
    s
}

/// The arguments of the POSIX spooler submission: the destination flag with
/// the printer name, then the file path.
pub open spec fn posix_args_spec(printer: Seq<char>, path: Seq<char>) -> Seq<Seq<char>> {
    seq!["-d"@, printer, path]
}

/// Builds the argument list of the POSIX spooler submission command.
pub fn posix_dispatch_args(printer: &str, path: &str) -> (r: Vec<String>)
    ensures
        strs(r@) == posix_args_spec(printer@, path@),
{
    let mut r: Vec<String> = Vec::new();
    r.push(<String as StringExecFns>::from_str("-d"));
    r.push(<String as StringExecFns>::from_str(printer));
    r.push(<String as StringExecFns>::from_str(path));
    proof {
        assert(strs(r@) =~= posix_args_spec(printer@, path@));
    }
    r
}

/// Maps a dispatch command's exit to the pipeline's taxonomy: success
/// passes; failure is `DispatchFailed` carrying the command's diagnostics.
pub fn dispatch_outcome(exit_ok: bool, stderr: &str) -> (r: Result<(), PrintError>)
    ensures
        r is Ok <==> exit_ok,
        !exit_ok ==> (match r {
            Err(PrintError::DispatchFailed(d)) => d@ == stderr@,
            _ => false,
        }),
{
    if exit_ok {
        Ok(())
    } else {
        Err(PrintError::DispatchFailed(<String as StringExecFns>::from_str(stderr)))
    }
}

} // verus!
