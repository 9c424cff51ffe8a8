use printer_server::models::{PrintError, PrintParams, PrinterInfo};
use printer_server::pipeline::{start, step, JobAction, JobEvent, JobPhase};

fn info(name: &str, driver: &str, is_default: bool) -> PrinterInfo {
    PrinterInfo { name: name.to_string(), driver: driver.to_string(), is_default }
}

#[test]
fn empty_url_fails_at_once() {
    let req = PrintParams { url: String::new(), printer: None };
    let (phase, action) = start(req);
    assert_eq!(phase, JobPhase::Failed { error: PrintError::MissingUrl });
    assert_eq!(action, None);
}

#[test]
fn explicit_printer_skips_resolution() {
    let req = PrintParams {
        url: "http://host/doc.pdf".to_string(),
        printer: Some("LabPrinter".to_string()),
    };
    let (phase, action) = start(req);
    assert_eq!(phase, JobPhase::Downloading { printer: "LabPrinter".to_string() });
    assert_eq!(action, Some(JobAction::Fetch { url: "http://host/doc.pdf".to_string() }));
}

#[test]
fn empty_explicit_printer_falls_back_to_resolution() {
    let req = PrintParams {
        url: "http://host/doc.pdf".to_string(),
        printer: Some(String::new()),
    };
    let (phase, action) = start(req);
    assert_eq!(phase, JobPhase::Resolving { url: "http://host/doc.pdf".to_string() });
    assert_eq!(action, Some(JobAction::QueryPrinters));
}

#[test]
fn successful_job_walks_every_phase() {
    let req = PrintParams { url: "http://host/doc.pdf".to_string(), printer: None };
    let (phase, action) = start(req);
    assert_eq!(phase, JobPhase::Resolving { url: "http://host/doc.pdf".to_string() });
    assert_eq!(action, Some(JobAction::QueryPrinters));

    let printers = vec![info("Aux", "d", false), info("Office", "d", true)];
    let (phase, action) = step(phase, JobEvent::PrintersListed { printers });
    assert_eq!(phase, JobPhase::Downloading { printer: "Office".to_string() });
    assert_eq!(action, Some(JobAction::Fetch { url: "http://host/doc.pdf".to_string() }));

    let (phase, action) = step(
        phase,
        JobEvent::FetchSucceeded { doc_path: "/tmp/document_1.pdf".to_string() },
    );
    assert_eq!(
        phase,
        JobPhase::Dispatching {
            printer: "Office".to_string(),
            doc_path: "/tmp/document_1.pdf".to_string(),
        }
    );
    assert_eq!(
        action,
        Some(JobAction::Dispatch {
            printer: "Office".to_string(),
            doc_path: "/tmp/document_1.pdf".to_string(),
        })
    );

    let (phase, action) = step(phase, JobEvent::DispatchSucceeded);
    assert_eq!(phase, JobPhase::Done { printer: "Office".to_string() });
    assert_eq!(
        action,
        Some(JobAction::Cleanup { doc_path: "/tmp/document_1.pdf".to_string() })
    );
}

#[test]
fn resolution_fails_without_default_printer() {
    let phase = JobPhase::Resolving { url: "http://host/doc.pdf".to_string() };
    let printers = vec![info("Aux", "d", false)];
    let (phase, action) = step(phase, JobEvent::PrintersListed { printers });
    assert_eq!(phase, JobPhase::Failed { error: PrintError::NoDefaultPrinter });
    assert_eq!(action, None);
}

#[test]
fn http_error_short_circuits_before_dispatch() {
    let phase = JobPhase::Downloading { printer: "Office".to_string() };
    let (phase, action) = step(phase, JobEvent::FetchHttpError { status: 404 });
    assert_eq!(phase, JobPhase::Failed { error: PrintError::DownloadFailed(404) });
    assert_eq!(action, None);
    if let JobPhase::Failed { error } = phase {
        assert!(error.message().contains("404"));
    } else {
        unreachable!();
    }
}

#[test]
fn transport_error_short_circuits_before_dispatch() {
    let phase = JobPhase::Downloading { printer: "Office".to_string() };
    let (phase, action) = step(phase, JobEvent::FetchTransportFailed);
    assert_eq!(phase, JobPhase::Failed { error: PrintError::TransportError });
    assert_eq!(action, None);
}

#[test]
fn missing_helper_fails_and_cleans_up() {
    let phase = JobPhase::Dispatching {
        printer: "LabPrinter".to_string(),
        doc_path: "/tmp/document_2.pdf".to_string(),
    };
    let (phase, action) = step(phase, JobEvent::HelperMissing);
    assert_eq!(phase, JobPhase::Failed { error: PrintError::PrintHelperNotFound });
    assert_eq!(
        action,
        Some(JobAction::Cleanup { doc_path: "/tmp/document_2.pdf".to_string() })
    );
}

#[test]
fn rejected_dispatch_fails_and_cleans_up() {
    let phase = JobPhase::Dispatching {
        printer: "Office".to_string(),
        doc_path: "/tmp/document_3.pdf".to_string(),
    };
    let (phase, action) = step(
        phase,
        JobEvent::DispatchRejected { diagnostic: "spooler unreachable".to_string() },
    );
    assert_eq!(
        phase,
        JobPhase::Failed {
            error: PrintError::DispatchFailed("spooler unreachable".to_string())
        }
    );
    assert_eq!(
        action,
        Some(JobAction::Cleanup { doc_path: "/tmp/document_3.pdf".to_string() })
    );
    if let JobPhase::Failed { error } = phase {
        assert_eq!(error.message(), "dispatch failed: spooler unreachable");
    } else {
        unreachable!();
    }
}

#[test]
fn mismatched_event_leaves_job_unchanged() {
    let phase = JobPhase::Done { printer: "Office".to_string() };
    let (phase, action) = step(
        phase,
        JobEvent::FetchSucceeded { doc_path: "/tmp/document_4.pdf".to_string() },
    );
    assert_eq!(phase, JobPhase::Done { printer: "Office".to_string() });
    assert_eq!(action, None);
}
