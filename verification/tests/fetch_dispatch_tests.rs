use printer_server::dispatcher::{
    candidate_paths, dispatch_outcome, helper_print_command, posix_dispatch_args, probe_decision,
    ProbeOutcome,
};
use printer_server::fetcher::{check_status, temp_file_name};
use printer_server::models::PrintError;

#[test]
fn success_statuses_pass() {
    assert!(check_status(200).is_ok());
    assert!(check_status(204).is_ok());
    assert!(check_status(299).is_ok());
}

#[test]
fn failure_statuses_carry_the_code() {
    assert_eq!(check_status(199), Err(PrintError::DownloadFailed(199)));
    assert_eq!(check_status(300), Err(PrintError::DownloadFailed(300)));
    assert_eq!(check_status(404), Err(PrintError::DownloadFailed(404)));
    assert_eq!(check_status(500), Err(PrintError::DownloadFailed(500)));
}

#[test]
fn temp_names_render_the_serial_in_decimal() {
    assert_eq!(temp_file_name(0), "document_0.pdf");
    assert_eq!(temp_file_name(42), "document_42.pdf");
    assert_eq!(temp_file_name(1234567890), "document_1234567890.pdf");
}

#[test]
fn distinct_serials_give_distinct_temp_names() {
    assert_ne!(temp_file_name(1), temp_file_name(2));
    assert_ne!(temp_file_name(7), temp_file_name(70));
    assert_ne!(temp_file_name(u64::MAX), temp_file_name(u64::MAX - 1));
}

#[test]
fn error_messages_are_descriptive() {
    assert_eq!(PrintError::MissingUrl.message(), "no document url was provided");
    assert_eq!(PrintError::NoDefaultPrinter.message(), "no default printer available");
    assert_eq!(
        PrintError::DownloadFailed(404).message(),
        "download failed: HTTP status 404"
    );
    assert_eq!(
        PrintError::TransportError.message(),
        "download failed: connection error"
    );
    assert_eq!(
        PrintError::PrintHelperNotFound.message(),
        "print helper executable not found"
    );
    assert_eq!(
        PrintError::DispatchFailed("boom".to_string()).message(),
        "dispatch failed: boom"
    );
}

#[test]
fn candidate_paths_put_runtime_locations_first() {
    let r = candidate_paths(Some("C:\\srv"));
    let expect = vec![
        "C:\\srv\\SumatraPDF.exe",
        "C:\\srv\\bin\\SumatraPDF.exe",
        "C:\\srv\\tools\\SumatraPDF.exe",
        "C:\\srv\\apps\\SumatraPDF.exe",
        "C:\\srv\\utils\\SumatraPDF.exe",
        "C:\\Program Files\\SumatraPDF\\SumatraPDF.exe",
        "C:\\Program Files (x86)\\SumatraPDF\\SumatraPDF.exe",
        "C:\\SumatraPDF\\SumatraPDF.exe",
    ];
    assert_eq!(r, expect);
}

#[test]
fn candidate_paths_without_cwd_are_the_well_known_ones() {
    let r = candidate_paths(None);
    assert_eq!(r.len(), 3);
    assert_eq!(r[0], "C:\\Program Files\\SumatraPDF\\SumatraPDF.exe");
    assert_eq!(r[2], "C:\\SumatraPDF\\SumatraPDF.exe");
}

#[test]
fn probing_stops_at_the_first_existing_candidate() {
    let cands = vec!["a".to_string(), "b".to_string(), "c".to_string()];
    assert_eq!(
        probe_decision(&cands, 0, true),
        ProbeOutcome::RunHelper { path: "a".to_string() }
    );
    assert_eq!(probe_decision(&cands, 0, false), ProbeOutcome::ProbeNext { next: 1 });
    assert_eq!(probe_decision(&cands, 1, false), ProbeOutcome::ProbeNext { next: 2 });
    assert_eq!(probe_decision(&cands, 2, false), ProbeOutcome::HelperAbsent);
}

#[test]
fn helper_command_embeds_printer_and_path() {
    let cmd = helper_print_command("C:\\S\\SumatraPDF.exe", "LabPrinter", "C:\\t\\document_5.pdf");
    assert_eq!(
        cmd,
        "Start-Process -FilePath \"C:\\S\\SumatraPDF.exe\" -ArgumentList \"-print-to \"\"LabPrinter\"\" \"\"C:\\t\\document_5.pdf\"\"\""
    );
}

#[test]
fn posix_dispatch_arguments_name_the_destination() {
    let args = posix_dispatch_args("Office", "/tmp/document_6.pdf");
    assert_eq!(args, vec!["-d", "Office", "/tmp/document_6.pdf"]);
}

#[test]
fn dispatch_outcome_maps_exit_status() {
    assert!(dispatch_outcome(true, "").is_ok());
    assert_eq!(
        dispatch_outcome(false, "no such printer"),
        Err(PrintError::DispatchFailed("no such printer".to_string()))
    );
}
