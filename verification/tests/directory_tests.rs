use printer_server::directory::{
    parse_default_name, parse_legacy_listing, parse_structured_listing, posix_list,
    resolve_default, windows_list,
};
use printer_server::models::{PrintError, PrinterInfo};

fn info(name: &str, driver: &str, is_default: bool) -> PrinterInfo {
    PrinterInfo { name: name.to_string(), driver: driver.to_string(), is_default }
}

#[test]
fn structured_listing_two_rows() {
    let out = "Name,DriverName,Default\nHP LaserJet,HP Universal,False\nOffice,PCL6,TRUE\n";
    let r = parse_structured_listing(out);
    assert_eq!(r.len(), 2);
    assert_eq!(r[0], info("HP LaserJet", "HP Universal", false));
    assert_eq!(r[1], info("Office", "PCL6", true));
}

#[test]
fn structured_listing_discards_short_rows() {
    let out = "Name,DriverName,Default\nonly,two\nA,B,true";
    let r = parse_structured_listing(out);
    assert_eq!(r.len(), 1);
    assert_eq!(r[0], info("A", "B", true));
}

#[test]
fn structured_listing_trims_fields_and_carriage_returns() {
    let out = "Name,DriverName,Default\r\n  Lab , Driver X , true \r\n";
    let r = parse_structured_listing(out);
    assert_eq!(r.len(), 1);
    assert_eq!(r[0], info("Lab", "Driver X", true));
}

#[test]
fn structured_default_flag_is_case_insensitive() {
    let out = "h\nX,D,tRuE";
    let r = parse_structured_listing(out);
    assert_eq!(r.len(), 1);
    assert!(r[0].is_default);
    let out2 = "h\nX,D,truthy";
    let r2 = parse_structured_listing(out2);
    assert!(!r2[0].is_default);
}

#[test]
fn structured_listing_header_only_is_empty() {
    assert_eq!(parse_structured_listing("Name,DriverName,Default\n").len(), 0);
    assert_eq!(parse_structured_listing("").len(), 0);
}

#[test]
fn legacy_listing_skips_node_field() {
    let out = "Node,Name,DriverName,Default\nHOST,Lab,Driver2,TRUE\nHOST,Aux,Driver3,false";
    let r = parse_legacy_listing(out);
    assert_eq!(r.len(), 2);
    assert_eq!(r[0], info("Lab", "Driver2", true));
    assert_eq!(r[1], info("Aux", "Driver3", false));
}

#[test]
fn legacy_listing_needs_four_fields() {
    let out = "Node,Name,DriverName,Default\nLab,Driver2,TRUE";
    assert_eq!(parse_legacy_listing(out).len(), 0);
}

#[test]
fn windows_list_prefers_structured_method() {
    let structured = "Name,DriverName,Default\nA,B,true";
    let legacy = "Node,Name,DriverName,Default\nH,C,D,false";
    let r = windows_list(Some(structured), Some(legacy));
    assert_eq!(r.len(), 1);
    assert_eq!(r[0], info("A", "B", true));
}

#[test]
fn windows_list_falls_back_to_legacy_method() {
    let structured = "Name,DriverName,Default\n";
    let legacy = "Node,Name,DriverName,Default\nH,C,D,false";
    let r = windows_list(Some(structured), Some(legacy));
    assert_eq!(r.len(), 1);
    assert_eq!(r[0], info("C", "D", false));
}

#[test]
fn windows_list_synthesizes_fallback_when_all_methods_fail() {
    let r = windows_list(None, None);
    assert_eq!(r.len(), 1);
    assert_eq!(r[0], info("Print to File", "Print to File", true));

    let r2 = windows_list(Some("header only\n"), Some(""));
    assert_eq!(r2.len(), 1);
    assert!(r2[0].is_default);
}

#[test]
fn posix_list_marks_default_by_name() {
    let default_out = "system default destination: Office\n";
    let devices = "device for Office: ipp://host/printers/Office\ndevice for Lab: usb://lab\n";
    let r = posix_list(Some(default_out), Some(devices));
    assert_eq!(r.len(), 2);
    assert_eq!(r[0], info("Office", "ipp://host/printers/Office", true));
    assert_eq!(r[1], info("Lab", "usb://lab", false));
}

#[test]
fn posix_list_with_no_destinations_is_empty() {
    let default_out = "no system default destination";
    let r = posix_list(Some(default_out), Some(""));
    assert_eq!(r.len(), 0);
    let r2 = posix_list(None, None);
    assert_eq!(r2.len(), 0);
}

#[test]
fn posix_list_without_default_marks_none() {
    let devices = "device for Lab: usb://lab";
    let r = posix_list(None, Some(devices));
    assert_eq!(r.len(), 1);
    assert!(!r[0].is_default);
}

#[test]
fn parse_default_name_takes_text_after_colon() {
    let r = parse_default_name("system default destination: Office\n");
    assert_eq!(r.map(|v| v.iter().collect::<String>()), Some("Office".to_string()));
    assert!(parse_default_name("no system default destination").is_none());
}

#[test]
fn resolve_default_picks_first_flagged_entry() {
    let list = vec![
        info("A", "d", false),
        info("B", "d", true),
        info("C", "d", true),
    ];
    let r = resolve_default(&list).unwrap();
    assert_eq!(r, info("B", "d", true));
}

#[test]
fn resolve_default_fails_without_flagged_entry() {
    let empty: Vec<PrinterInfo> = Vec::new();
    assert_eq!(resolve_default(&empty), Err(PrintError::NoDefaultPrinter));
    let list = vec![info("A", "d", false)];
    assert_eq!(resolve_default(&list), Err(PrintError::NoDefaultPrinter));
}
