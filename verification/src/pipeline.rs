//! The print-job pipeline as a state machine. Each inbound request starts a
//! job; the caller performs the actions the machine asks for (querying the
//! printer directory, fetching the document, dispatching it, removing the
//! temporary file) and feeds the outcome back as an event. Every decision —
//! validation, printer resolution, failure propagation, cleanup — is made
//! here.

use crate::directory::{recs, resolve_default, resolve_default_spec};
use crate::models::{PrintError, PrinterInfo, PrintParams};
use vstd::prelude::*;

verus! {

/// Where a print job stands. `Done` and `Failed` are terminal.
#[derive(Debug, PartialEq)]
pub enum JobPhase {
    /// Waiting for the printer directory listing, to resolve the default.
    Resolving { url: String },
    /// Waiting for the document download.
    Downloading { printer: String },
    /// Waiting for the dispatch attempt.
    Dispatching { printer: String, doc_path: String },
    /// The document was handed to the printer.
    Done { printer: String },
    /// The job failed; nothing is retried.
    Failed { error: PrintError },
}

/// The outcome of an action, reported back to the state machine.
#[derive(Debug, PartialEq)]
pub enum JobEvent {
    /// The directory listing the caller obtained.
    PrintersListed { printers: Vec<PrinterInfo> },
    /// The document was downloaded into the named temporary file.
    FetchSucceeded { doc_path: String },
    /// The download answered with a non-success HTTP status.
    FetchHttpError { status: u16 },
    /// The download failed before any HTTP status was received.
    FetchTransportFailed,
    /// The dispatch command reported success.
    DispatchSucceeded,
    /// No candidate location held the print helper.
    HelperMissing,
    /// The dispatch command reported failure, with its diagnostics.
    DispatchRejected { diagnostic: String },
}

/// What the state machine asks the caller to do next.
#[derive(Debug, PartialEq)]
pub enum JobAction {
    /// Run the platform's discovery chain and report the listing.
    QueryPrinters,
    /// Download the document at `url` into a fresh temporary file.
    Fetch { url: String },
    /// Submit the document to the named printer.
    Dispatch { printer: String, doc_path: String },
    /// Remove the temporary document file.
    Cleanup { doc_path: String },
}

/// A job is finished: no event moves it further.
pub open spec fn phase_is_terminal(p: JobPhase) -> bool {
    p is Done || p is Failed
}

/// The pairs of phase and event that the protocol can produce: each phase
/// awaits the outcomes of the one action it issued.
pub open spec fn accepts(phase: JobPhase, event: JobEvent) -> bool {
    ||| (phase is Resolving && event is PrintersListed)
    ||| (phase is Downloading && (event is FetchSucceeded || event is FetchHttpError
        || event is FetchTransportFailed))
    ||| (phase is Dispatching && (event is DispatchSucceeded || event is HelperMissing
        || event is DispatchRejected))
}

/// Where a fresh request sends the job, and the first action to take.
/// An empty URL fails at once; an explicit non-empty printer name is used
/// verbatim and resolution is skipped; otherwise the directory is queried.
pub open spec fn start_spec(req: PrintParams) -> (JobPhase, Option<JobAction>) {
    if req.url@.len() == 0 {
        (JobPhase::Failed { error: PrintError::MissingUrl }, None)
    } else {
        match req.printer {
            Some(name) => if name@.len() > 0 {
                (
                    JobPhase::Downloading { printer: name },
                    Some(JobAction::Fetch { url: req.url }),
                )
            } else {
                (JobPhase::Resolving { url: req.url }, Some(JobAction::QueryPrinters))
            },
            None => (JobPhase::Resolving { url: req.url }, Some(JobAction::QueryPrinters)),
        }
    }
}

/// Starts a job for the given request.
pub fn start(req: PrintParams) -> (r: (JobPhase, Option<JobAction>))
    ensures
        r == start_spec(req),
{
    let PrintParams { url, printer } = req;
    if url.as_str().is_empty() {
        (JobPhase::Failed { error: PrintError::MissingUrl }, None)
    } else {
        match printer {
            Some(name) => {
                if !name.as_str().is_empty() {
                    (
                        JobPhase::Downloading { printer: name },
                        Some(JobAction::Fetch { url }),
                    )
                } else {
                    (JobPhase::Resolving { url }, Some(JobAction::QueryPrinters))
                }
            },
            None => (JobPhase::Resolving { url }, Some(JobAction::QueryPrinters)),
        }
    }
}

/// Moves a job one step for the outcome of its pending action.
///
/// The contract carries the pipeline's policies: a failed or rejected
/// download turns the job `Failed` without any further action, so dispatch
/// is never attempted for it; a `Dispatch` action only ever follows a
/// successful fetch; and every transition out of `Dispatching` — success or
/// failure — orders the removal of the temporary document. An event that
/// its phase does not await leaves the job unchanged.
pub fn step(phase: JobPhase, event: JobEvent) -> (r: (JobPhase, Option<JobAction>))
    ensures
        phase matches JobPhase::Resolving { url } ==> (event matches JobEvent::PrintersListed {
            printers,
        } ==> match resolve_default_spec(recs(printers@)) {
            Ok(p) => r.0 matches JobPhase::Downloading { printer } && printer@ == p.name && r.1
                == Some(JobAction::Fetch { url }),
            Err(_) => r.0 == (JobPhase::Failed { error: PrintError::NoDefaultPrinter }) && r.1
                is None,
        }),
        phase matches JobPhase::Downloading { printer } ==> (event
            matches JobEvent::FetchSucceeded { doc_path } ==> r.0 == (JobPhase::Dispatching {
            printer,
            doc_path,
        }) && r.1 == Some(JobAction::Dispatch { printer, doc_path })),
        event matches JobEvent::FetchHttpError { status } ==> (phase is Downloading ==> r.0 == (
        JobPhase::Failed { error: PrintError::DownloadFailed(status) }) && r.1 is None),
        phase is Downloading && event is FetchTransportFailed ==> r.0 == (JobPhase::Failed {
            error: PrintError::TransportError,
        }) && r.1 is None,
        phase matches JobPhase::Dispatching { printer, doc_path } ==> {
            &&& event is DispatchSucceeded ==> r.0 == (JobPhase::Done { printer }) && r.1
                == Some(JobAction::Cleanup { doc_path })
            &&& event is HelperMissing ==> r.0 == (JobPhase::Failed {
                error: PrintError::PrintHelperNotFound,
            }) && r.1 == Some(JobAction::Cleanup { doc_path })
            &&& event matches JobEvent::DispatchRejected { diagnostic } ==> r.0 == (
            JobPhase::Failed { error: PrintError::DispatchFailed(diagnostic) }) && r.1 == Some(
                JobAction::Cleanup { doc_path },
            )
        },
        !accepts(phase, event) ==> r.0 == phase && r.1 is None,
        r.1 matches Some(a) && a is Dispatch ==> phase is Downloading && event
            is FetchSucceeded,
        phase matches JobPhase::Dispatching { printer: _, doc_path } ==> (accepts(phase, event)
            ==> phase_is_terminal(r.0) && r.1 == Some(JobAction::Cleanup { doc_path })),
{
    match (phase, event) {
        (JobPhase::Resolving { url }, JobEvent::PrintersListed { printers }) => {
            match resolve_default(&printers) {
                Ok(p) => (
                    JobPhase::Downloading { printer: p.name },
                    Some(JobAction::Fetch { url }),
                ),
                Err(_) => (JobPhase::Failed { error: PrintError::NoDefaultPrinter }, None),
            }
        },
        (JobPhase::Downloading { printer }, JobEvent::FetchSucceeded { doc_path }) => {
            let printer2 = printer.clone();
            let doc_path2 = doc_path.clone();
            (
                JobPhase::Dispatching { printer, doc_path },
                Some(JobAction::Dispatch { printer: printer2, doc_path: doc_path2 }),
            )
        },
        (JobPhase::Downloading { printer: _ }, JobEvent::FetchHttpError { status }) => (
            JobPhase::Failed { error: PrintError::DownloadFailed(status) },
            None,
        ),
        (JobPhase::Downloading { printer: _ }, JobEvent::FetchTransportFailed) => (
            JobPhase::Failed { error: PrintError::TransportError },
            None,
        ),
        (JobPhase::Dispatching { printer, doc_path }, JobEvent::DispatchSucceeded) => (
            JobPhase::Done { printer },
            Some(JobAction::Cleanup { doc_path }),
        ),
        (JobPhase::Dispatching { printer: _, doc_path }, JobEvent::HelperMissing) => (
            JobPhase::Failed { error: PrintError::PrintHelperNotFound },
            Some(JobAction::Cleanup { doc_path }),
        ),
        (
            JobPhase::Dispatching { printer: _, doc_path },
            JobEvent::DispatchRejected { diagnostic },
        ) => (
            JobPhase::Failed { error: PrintError::DispatchFailed(diagnostic) },
            Some(JobAction::Cleanup { doc_path }),
        ),
        (p, _) => (p, None),
    }
}

/// An explicit non-empty printer name in the request bypasses default
/// resolution entirely: the job never enters `Resolving` and never asks for
/// the directory.
pub proof fn lemma_explicit_printer_bypasses_resolution(req: PrintParams)
    requires
        req.printer is Some,
        req.printer.unwrap()@.len() > 0,
    ensures
        start_spec(req).1 != Some(JobAction::QueryPrinters),
        !(start_spec(req).0 is Resolving),
        req.url@.len() > 0 ==> start_spec(req).0 == (JobPhase::Downloading {
            printer: req.printer.unwrap(),
        }) && start_spec(req).1 == Some(JobAction::Fetch { url: req.url }),
{
}

} // verus!
