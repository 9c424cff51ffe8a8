//! Data model of the print service: printer descriptors, print requests,
//! and the failure taxonomy of the pipeline.

use crate::decimal::{dec_rep, u64_dec_chars};
use crate::text::chars_to_string;
use vstd::prelude::*;
use vstd::string::StringExecFns;

verus! {

/// A printer as reported by the platform's discovery chain.
#[derive(Debug, PartialEq)]
pub struct PrinterInfo {
    pub name: String,
    pub driver: String,
    pub is_default: bool,
}

/// The mathematical content of a `PrinterInfo`.
pub ghost struct PrinterRec {
    pub name: Seq<char>,
    pub driver: Seq<char>,
    pub is_default: bool,
}

impl View for PrinterInfo {
    type V = PrinterRec;

    open spec fn view(&self) -> PrinterRec {
        PrinterRec { name: self.name@, driver: self.driver@, is_default: self.is_default }
    }
}

impl PrinterInfo {
    /// A field-for-field copy of this descriptor.
    pub fn duplicate(&self) -> (r: PrinterInfo)
        ensures
            r@ == self@,
    {
        PrinterInfo {
            name: self.name.clone(),
            driver: self.driver.clone(),
            is_default: self.is_default,
        }
    }
}

/// A print request: the document URL and an optional explicit printer name.
#[derive(Debug, PartialEq)]
pub struct PrintParams {
    pub url: String,
    pub printer: Option<String>,
}

/// Terminal failures of the print pipeline. Every failure is surfaced to the
/// caller once; nothing is retried.
#[derive(Debug, PartialEq)]
pub enum PrintError {
    /// The request carried an empty document URL.
    MissingUrl,
    /// No printer in the directory listing is flagged as the default.
    NoDefaultPrinter,
    /// The document download answered with a non-success HTTP status.
    DownloadFailed(u16),
    /// The document download failed before any HTTP status was received.
    TransportError,
    /// No candidate location held the platform's print helper executable.
    PrintHelperNotFound,
    /// The dispatch command ran and reported failure; holds its diagnostics.
    DispatchFailed(String),
}

impl PrintError {
    /// The single descriptive message surfaced to the caller for this failure.
    pub open spec fn message_spec(&self) -> Seq<char> {
        match *self {
            PrintError::MissingUrl => "no document url was provided"@,
            PrintError::NoDefaultPrinter => "no default printer available"@,
            PrintError::DownloadFailed(status) => "download failed: HTTP status "@ + dec_rep(
                status as nat,
            ),
            PrintError::TransportError => "download failed: connection error"@,
            PrintError::PrintHelperNotFound => "print helper executable not found"@,
            PrintError::DispatchFailed(diag) => "dispatch failed: "@ + diag@,
        }
    }

    /// Renders this failure as its descriptive message.
    pub fn message(&self) -> (r: String)
        ensures
            r@ == self.message_spec(),
    {
        match self {
            PrintError::MissingUrl => <String as StringExecFns>::from_str("no document url was provided"),
            PrintError::NoDefaultPrinter => <String as StringExecFns>::from_str(
                "no default printer available",
            ),
            PrintError::DownloadFailed(status) => {
                let mut s: String = <String as StringExecFns>::from_str("download failed: HTTP status ");
                let digits = u64_dec_chars(*status as u64);
                let ds = chars_to_string(&digits);
                s.append(ds.as_str());
                s
            },
            PrintError::TransportError => <String as StringExecFns>::from_str(
                "download failed: connection error",
            ),
            PrintError::PrintHelperNotFound => <String as StringExecFns>::from_str(
                "print helper executable not found",
            ),
            PrintError::DispatchFailed(diag) => {
                let mut s: String = <String as StringExecFns>::from_str("dispatch failed: ");
                s.append(diag.as_str());
                s
            },
        }
    }
}

} // verus!
