//! The printer directory: parses the output of each platform's discovery
//! commands into printer descriptors and resolves the default printer.
//! Running the commands is the caller's job; this module turns their text
//! into the directory listing and applies the fallback policy.

use crate::models::{PrintError, PrinterInfo, PrinterRec};
use crate::text::{
    begins_with, chars_of, chars_to_string, copy_range, find_char, find_spec, has_prefix,
    split_fields, split_spec, trim_spec, trimmed, views,
};
use vstd::prelude::*;
use vstd::string::StringExecFns;

verus! {

/// The views of a sequence of printer descriptors.
pub open spec fn recs(s: Seq<PrinterInfo>) -> Seq<PrinterRec> {
    s.map_values(|p: PrinterInfo| p@)
}

/// The view of an optional printer descriptor.
pub open spec fn opt_rec(o: Option<PrinterInfo>) -> Option<PrinterRec> {
    match o {
        Some(p) => Some(p@),
        None => None,
    }
}

/// The view of an optional string slice.
pub open spec fn opt_seq(o: Option<&str>) -> Option<Seq<char>> {
    match o {
        Some(s) => Some(s@),
        None => None,
    }
}

/// The view of an optional character vector.
pub open spec fn opt_chars(o: Option<Vec<char>>) -> Option<Seq<char>> {
    match o {
        Some(v) => Some(v@),
        None => None,
    }
}

/// A default flag set to the literal `true`, compared case-insensitively.
pub open spec fn is_true_flag(s: Seq<char>) -> bool {
    s.len() == 4 && (s[0] == 't' || s[0] == 'T') && (s[1] == 'r' || s[1] == 'R') && (s[2] == 'u'
        || s[2] == 'U') && (s[3] == 'e' || s[3] == 'E')
}

fn is_true_flag_exec(v: &Vec<char>) -> (r: bool)
    ensures
        r == is_true_flag(v@),
{
    v.len() == 4 && (v[0] == 't' || v[0] == 'T') && (v[1] == 'r' || v[1] == 'R') && (v[2] == 'u'
        || v[2] == 'U') && (v[3] == 'e' || v[3] == 'E')
}

/// One row of the structured listing. Fields are comma-separated
/// `name, driver, default-flag`; a row with fewer than three fields is
/// discarded; fields are trimmed.
pub open spec fn structured_row_spec(row: Seq<char>) -> Option<PrinterRec> {
    let f = split_spec(row, ',');
    if f.len() >= 3 {
        Some(
            PrinterRec {
                name: trim_spec(f[0]),
                driver: trim_spec(f[1]),
                is_default: is_true_flag(trim_spec(f[2])),
            },
        )
    } else {
        None
    }
}

/// One row of the legacy inventory listing. A leading node field is
/// skipped: a row needs at least four fields, of which the second is the
/// name, the third the driver and the fourth the default flag.
pub open spec fn legacy_row_spec(row: Seq<char>) -> Option<PrinterRec> {
    let f = split_spec(row, ',');
    if f.len() >= 4 {
        Some(
            PrinterRec {
                name: trim_spec(f[1]),
                driver: trim_spec(f[2]),
                is_default: is_true_flag(trim_spec(f[3])),
            },
        )
    } else {
        None
    }
}

/// The descriptors of the structured rows, in order.
pub open spec fn structured_rows_spec(rows: Seq<Seq<char>>) -> Seq<PrinterRec>
    decreases rows.len(),
{
    if rows.len() == 0 {
        Seq::empty()
    } else {
        match structured_row_spec(rows.first()) {
            Some(rec) => seq![rec] + structured_rows_spec(rows.drop_first()),
            None => structured_rows_spec(rows.drop_first()),
        }
    }
}

/// The descriptors of the legacy rows, in order.
pub open spec fn legacy_rows_spec(rows: Seq<Seq<char>>) -> Seq<PrinterRec>
    decreases rows.len(),
{
    if rows.len() == 0 {
        Seq::empty()
    } else {
        match legacy_row_spec(rows.first()) {
            Some(rec) => seq![rec] + legacy_rows_spec(rows.drop_first()),
            None => legacy_rows_spec(rows.drop_first()),
        }
    }
}

/// The structured listing: its header row skipped, then one descriptor per
/// accepted row.
pub open spec fn structured_listing_spec(out: Seq<char>) -> Seq<PrinterRec> {
    structured_rows_spec(split_spec(out, '\n').drop_first())
}

/// The legacy listing: its header row skipped, then one descriptor per
/// accepted row.
pub open spec fn legacy_listing_spec(out: Seq<char>) -> Seq<PrinterRec> {
    legacy_rows_spec(split_spec(out, '\n').drop_first())
}

fn structured_row(row: &Vec<char>) -> (r: Option<PrinterInfo>)
    ensures
        opt_rec(r) == structured_row_spec(row@),
{
    let f = split_fields(row, ',');
    if f.len() >= 3 {
        let name = trimmed(&f[0]);
        let driver = trimmed(&f[1]);
        let flag = trimmed(&f[2]);
        Some(
            PrinterInfo {
                name: chars_to_string(&name),
                driver: chars_to_string(&driver),
                is_default: is_true_flag_exec(&flag),
            },
        )
    } else {
        None
    }
}

fn legacy_row(row: &Vec<char>) -> (r: Option<PrinterInfo>)
    ensures
        opt_rec(r) == legacy_row_spec(row@),
{
    let f = split_fields(row, ',');
    if f.len() >= 4 {
        let name = trimmed(&f[1]);
        let driver = trimmed(&f[2]);
        let flag = trimmed(&f[3]);
        Some(
            PrinterInfo {
                name: chars_to_string(&name),
                driver: chars_to_string(&driver),
                is_default: is_true_flag_exec(&flag),
            },
        )
    } else {
        None
    }
}

/// Parses the structured printer-management listing.
pub fn parse_structured_listing(out: &str) -> (r: Vec<PrinterInfo>)
    ensures
        recs(r@) == structured_listing_spec(out@),
{
    let v = chars_of(out);
    let lines = split_fields(&v, '\n');
    let mut r: Vec<PrinterInfo> = Vec::new();
    let mut i: usize = 1;
    proof {
        assert(views(lines@).skip(1) =~= views(lines@).drop_first());
    }
    while i < lines.len()
        invariant
            1 <= i <= lines@.len(),
            views(lines@) == split_spec(v@, '\n'),
            v@ == out@,
            structured_listing_spec(out@) == recs(r@) + structured_rows_spec(
                views(lines@).skip(i as int),
            ),
        decreases lines@.len() - i,
    {
        let ghost rest = views(lines@).skip(i as int);
        proof {
            assert(rest.first() == lines@[i as int]@);
            assert(rest.drop_first() =~= views(lines@).skip(i + 1));
        }
        match structured_row(&lines[i]) {
            Some(p) => {
                let ghost rec = p@;
                r.push(p);
                proof {
                    assert(recs(r@) =~= recs(r@.drop_last()) + seq![rec]);
                    assert((recs(r@.drop_last()) + seq![rec]) + structured_rows_spec(
                        views(lines@).skip(i + 1),
                    ) =~= recs(r@.drop_last()) + (seq![rec] + structured_rows_spec(
                        views(lines@).skip(i + 1),
                    )));
                }
            },
            None => {},
        }
        i = i + 1;
    }
    proof {
        assert(views(lines@).skip(lines@.len() as int) =~= Seq::<Seq<char>>::empty());
        assert(recs(r@) + Seq::<PrinterRec>::empty() =~= recs(r@));
    }
    r
}

/// Parses the legacy inventory listing.
pub fn parse_legacy_listing(out: &str) -> (r: Vec<PrinterInfo>)
    ensures
        recs(r@) == legacy_listing_spec(out@),
{
    let v = chars_of(out);
    let lines = split_fields(&v, '\n');
    let mut r: Vec<PrinterInfo> = Vec::new();
    let mut i: usize = 1;
    proof {
        assert(views(lines@).skip(1) =~= views(lines@).drop_first());
    }
    while i < lines.len()
        invariant
            1 <= i <= lines@.len(),
            views(lines@) == split_spec(v@, '\n'),
            v@ == out@,
            legacy_listing_spec(out@) == recs(r@) + legacy_rows_spec(
                views(lines@).skip(i as int),
            ),
        decreases lines@.len() - i,
    {
        let ghost rest = views(lines@).skip(i as int);
        proof {
            assert(rest.first() == lines@[i as int]@);
            assert(rest.drop_first() =~= views(lines@).skip(i + 1));
        }
        match legacy_row(&lines[i]) {
            Some(p) => {
                let ghost rec = p@;
                r.push(p);
                proof {
                    assert(recs(r@) =~= recs(r@.drop_last()) + seq![rec]);
                    assert((recs(r@.drop_last()) + seq![rec]) + legacy_rows_spec(
                        views(lines@).skip(i + 1),
                    ) =~= recs(r@.drop_last()) + (seq![rec] + legacy_rows_spec(
                        views(lines@).skip(i + 1),
                    )));
                }
            },
            None => {},
        }
        i = i + 1;
    }
    proof {
        assert(views(lines@).skip(lines@.len() as int) =~= Seq::<Seq<char>>::empty());
        assert(recs(r@) + Seq::<PrinterRec>::empty() =~= recs(r@));
    }
    r
}

/// The synthesized last-resort descriptor: a virtual print-to-file printer,
/// flagged default.
pub open spec fn fallback_rec() -> PrinterRec {
    PrinterRec { name: "Print to File"@, driver: "Print to File"@, is_default: true }
}

/// The synthesized last-resort descriptor.
pub fn fallback_descriptor() -> (r: PrinterInfo)
    ensures
        r@ == fallback_rec(),
{
    PrinterInfo {
        name: <String as StringExecFns>::from_str("Print to File"),
        driver: <String as StringExecFns>::from_str("Print to File"),
        is_default: true,
    }
}

/// The Windows-family listing: the first discovery method that ran and
/// yielded at least one descriptor wins; if both failed or came back empty,
/// exactly the synthesized fallback descriptor.
pub open spec fn windows_list_spec(structured: Option<Seq<char>>, legacy: Option<Seq<char>>) -> Seq<
    PrinterRec,
> {
    if structured is Some && structured_listing_spec(structured.unwrap()).len() > 0 {
        structured_listing_spec(structured.unwrap())
    } else if legacy is Some && legacy_listing_spec(legacy.unwrap()).len() > 0 {
        legacy_listing_spec(legacy.unwrap())
    } else {
        seq![fallback_rec()]
    }
}

/// Builds the Windows-family listing from the outputs of the two discovery
/// commands; `None` stands for a command that failed to run. The result is
/// never empty.
pub fn windows_list(structured: Option<&str>, legacy: Option<&str>) -> (r: Vec<PrinterInfo>)
    ensures
        recs(r@) == windows_list_spec(opt_seq(structured), opt_seq(legacy)),
        r@.len() >= 1,
{
    match structured {
        Some(out) => {
            let parsed = parse_structured_listing(out);
            if parsed.len() > 0 {
                return parsed;
            }
        },
        None => {},
    }
    match legacy {
        Some(out) => {
            let parsed = parse_legacy_listing(out);
            if parsed.len() > 0 {
                return parsed;
            }
        },
        None => {},
    }
    let mut r: Vec<PrinterInfo> = Vec::new();
    r.push(fallback_descriptor());
    proof {
        assert(recs(r@) =~= seq![fallback_rec()]);
    }
    r
}

/// The Windows-family listing is never empty, whatever the discovery
/// commands produced: a discovery method that yields printers wins, and
/// when every method fails or comes back empty the synthesized fallback
/// stands in.
pub proof fn lemma_windows_listing_nonempty(
    structured: Option<Seq<char>>,
    legacy: Option<Seq<char>>,
)
    ensures
        windows_list_spec(structured, legacy).len() >= 1,
{
}

/// The discovery chain returns the first method that ran and yielded
/// printers: a non-empty structured listing wins outright, and the legacy
/// listing is consulted only when the structured method failed or came back
/// empty. So whenever a discovery method yields printers, the listing holds
/// exactly that method's descriptors — in particular it is non-empty.
pub proof fn lemma_windows_method_priority(
    structured: Option<Seq<char>>,
    legacy: Option<Seq<char>>,
)
    ensures
        structured is Some && structured_listing_spec(structured.unwrap()).len() > 0
            ==> windows_list_spec(structured, legacy) == structured_listing_spec(
            structured.unwrap(),
        ),
        (structured is None || structured_listing_spec(structured.unwrap()).len() == 0)
            && legacy is Some && legacy_listing_spec(legacy.unwrap()).len() > 0
            ==> windows_list_spec(structured, legacy) == legacy_listing_spec(legacy.unwrap()),
{
}

/// The POSIX listing is exactly what the device query yields: whenever that
/// query yields printers the listing is non-empty, and an empty listing is a
/// valid result — no synthetic fallback stands in on this platform.
pub proof fn lemma_posix_listing_is_the_device_query(
    default_out: Option<Seq<char>>,
    devices: Seq<char>,
)
    ensures
        posix_list_spec(default_out, Some(devices)) == posix_rows_spec(
            split_spec(devices, '\n'),
            match default_out {
                Some(o) => default_name_spec(o),
                None => None,
            },
        ),
{
}

/// The default destination reported by the status query: the text after the
/// first `:` of the first line that holds one, trimmed.
pub open spec fn default_from_lines_spec(lines: Seq<Seq<char>>) -> Option<Seq<char>>
    decreases lines.len(),
{
    if lines.len() == 0 {
        None
    } else {
        match find_spec(lines.first(), ':') {
            Some(j) => Some(trim_spec(lines.first().skip(j + 1))),
            None => default_from_lines_spec(lines.drop_first()),
        }
    }
}

/// The default destination name in the status query's output.
pub open spec fn default_name_spec(out: Seq<char>) -> Option<Seq<char>> {
    default_from_lines_spec(split_spec(out, '\n'))
}

/// Extracts the default destination name from the status query's output.
pub fn parse_default_name(out: &str) -> (r: Option<Vec<char>>)
    ensures
        opt_chars(r) == default_name_spec(out@),
{
    let v = chars_of(out);
    let lines = split_fields(&v, '\n');
    let mut i: usize = 0;
    proof {
        assert(views(lines@).skip(0) =~= views(lines@));
    }
    while i < lines.len()
        invariant
            i <= lines@.len(),
            views(lines@) == split_spec(v@, '\n'),
            v@ == out@,
            default_name_spec(out@) == default_from_lines_spec(views(lines@).skip(i as int)),
        decreases lines@.len() - i,
    {
        let ghost rest = views(lines@).skip(i as int);
        proof {
            assert(rest.first() == lines@[i as int]@);
            assert(rest.drop_first() =~= views(lines@).skip(i + 1));
        }
        let line = &lines[i];
        match find_char(line, ':') {
            Some(j) => {
                let tail = copy_range(line, j + 1, line.len());
                let name = trimmed(&tail);
                proof {
                    assert(tail@ =~= line@.skip(j + 1));
                }
                return Some(name);
            },
            None => {},
        }
        i = i + 1;
    }
    proof {
        assert(views(lines@).skip(lines@.len() as int) =~= Seq::<Seq<char>>::empty());
    }
    None
}

/// One line of the POSIX destination listing, of the shape
/// `device for <name>: <uri>`. The name is the trimmed text between the
/// prefix and the first `:`; the uri after it serves as the driver field;
/// the default flag is set iff the name equals the queried default name.
pub open spec fn posix_line_spec(line: Seq<char>, default_name: Option<Seq<char>>) -> Option<
    PrinterRec,
> {
    if has_prefix(line, "device for "@) {
        let rest = line.skip("device for "@.len() as int);
        match find_spec(rest, ':') {
            Some(j) => Some(
                PrinterRec {
                    name: trim_spec(rest.take(j)),
                    driver: trim_spec(rest.skip(j + 1)),
                    is_default: default_name == Some(trim_spec(rest.take(j))),
                },
            ),
            None => None,
        }
    } else {
        None
    }
}

/// The descriptors of the POSIX destination lines, in order.
pub open spec fn posix_rows_spec(lines: Seq<Seq<char>>, default_name: Option<Seq<char>>) -> Seq<
    PrinterRec,
>
    decreases lines.len(),
{
    if lines.len() == 0 {
        Seq::empty()
    } else {
        match posix_line_spec(lines.first(), default_name) {
            Some(rec) => seq![rec] + posix_rows_spec(lines.drop_first(), default_name),
            None => posix_rows_spec(lines.drop_first(), default_name),
        }
    }
}

/// The POSIX listing: every destination line of the device query, the
/// default marked by name against the default query. A failed or empty
/// device query gives an empty listing; there is no synthetic fallback.
pub open spec fn posix_list_spec(
    default_out: Option<Seq<char>>,
    devices_out: Option<Seq<char>>,
) -> Seq<PrinterRec> {
    let dname = match default_out {
        Some(o) => default_name_spec(o),
        None => None,
    };
    match devices_out {
        Some(d) => posix_rows_spec(split_spec(d, '\n'), dname),
        None => Seq::empty(),
    }
}

fn eq_chars(a: &Vec<char>, b: &Vec<char>) -> (r: bool)
    ensures
        r == (a@ == b@),
{
    if a.len() != b.len() {
        return false;
    }
    let mut j: usize = 0;
    while j < a.len()
        invariant
            j <= a@.len() == b@.len(),
            forall|k: int| 0 <= k < j ==> a@[k] == b@[k],
        decreases a@.len() - j,
    {
        if a[j] != b[j] {
            return false;
        }
        j = j + 1;
    }
    proof {
        assert(a@ =~= b@);
    }
    true
}

fn posix_line(line: &Vec<char>, default_name: &Option<Vec<char>>) -> (r: Option<PrinterInfo>)
    ensures
        opt_rec(r) == posix_line_spec(line@, opt_chars(*default_name)),
{
    let prefix = chars_of("device for ");
    if !begins_with(line, &prefix) {
        return None;
    }
    let rest = copy_range(line, prefix.len(), line.len());
    proof {
        assert(rest@ =~= line@.skip("device for "@.len() as int));
    }
    match find_char(&rest, ':') {
        Some(j) => {
            let head = copy_range(&rest, 0, j);
            let name = trimmed(&head);
            let tail = copy_range(&rest, j + 1, rest.len());
            let uri = trimmed(&tail);
            proof {
                assert(head@ =~= rest@.take(j as int));
                assert(tail@ =~= rest@.skip(j + 1));
            }
            let is_default = match default_name {
                Some(d) => eq_chars(&name, d),
                None => false,
            };
            Some(
                PrinterInfo {
                    name: chars_to_string(&name),
                    driver: chars_to_string(&uri),
                    is_default,
                },
            )
        },
        None => None,
    }
}

/// Builds the POSIX listing from the outputs of the default query and the
/// device query; `None` stands for a command that failed to run.
pub fn posix_list(default_out: Option<&str>, devices_out: Option<&str>) -> (r: Vec<PrinterInfo>)
    ensures
        recs(r@) == posix_list_spec(opt_seq(default_out), opt_seq(devices_out)),
{
    let default_name: Option<Vec<char>> = match default_out {
        Some(out) => parse_default_name(out),
        None => None,
    };
    let ghost dname = opt_chars(default_name);
    let mut r: Vec<PrinterInfo> = Vec::new();
    match devices_out {
        Some(d) => {
            let v = chars_of(d);
            let lines = split_fields(&v, '\n');
            let mut i: usize = 0;
            proof {
                assert(views(lines@).skip(0) =~= views(lines@));
            }
            while i < lines.len()
                invariant
                    i <= lines@.len(),
                    views(lines@) == split_spec(v@, '\n'),
                    v@ == d@,
                    dname == opt_chars(default_name),
                    posix_rows_spec(split_spec(d@, '\n'), dname) == recs(r@) + posix_rows_spec(
                        views(lines@).skip(i as int),
                        dname,
                    ),
                decreases lines@.len() - i,
            {
                let ghost rest = views(lines@).skip(i as int);
                proof {
                    assert(rest.first() == lines@[i as int]@);
                    assert(rest.drop_first() =~= views(lines@).skip(i + 1));
                }
                match posix_line(&lines[i], &default_name) {
                    Some(p) => {
                        let ghost rec = p@;
                        r.push(p);
                        proof {
                            assert(recs(r@) =~= recs(r@.drop_last()) + seq![rec]);
                            assert((recs(r@.drop_last()) + seq![rec]) + posix_rows_spec(
                                views(lines@).skip(i + 1),
                                dname,
                            ) =~= recs(r@.drop_last()) + (seq![rec] + posix_rows_spec(
                                views(lines@).skip(i + 1),
                                dname,
                            )));
                        }
                    },
                    None => {},
                }
                i = i + 1;
            }
            proof {
                assert(views(lines@).skip(lines@.len() as int) =~= Seq::<Seq<char>>::empty());
                assert(recs(r@) + Seq::<PrinterRec>::empty() =~= recs(r@));
            }
            r
        },
        None => {
            proof {
                assert(recs(r@) =~= Seq::<PrinterRec>::empty());
            }
            r
        },
    }
}

/// The outcome of default resolution over a listing: the first descriptor
/// flagged default, or `NoDefaultPrinter` if none is flagged.
pub open spec fn resolve_default_spec(s: Seq<PrinterRec>) -> Result<PrinterRec, PrintError>
    decreases s.len(),
{
    if s.len() == 0 {
        Err(PrintError::NoDefaultPrinter)
    } else if s.first().is_default {
        Ok(s.first())
    } else {
        resolve_default_spec(s.drop_first())
    }
}

/// The view of a resolution outcome.
pub open spec fn res_rec(r: Result<PrinterInfo, PrintError>) -> Result<PrinterRec, PrintError> {
    match r {
        Ok(p) => Ok(p@),
        Err(e) => Err(e),
    }
}

/// Resolves the default printer: the first descriptor in the listing
/// flagged default, or `NoDefaultPrinter` if none is flagged.
pub fn resolve_default(list: &Vec<PrinterInfo>) -> (r: Result<PrinterInfo, PrintError>)
    ensures
        res_rec(r) == resolve_default_spec(recs(list@)),
{
    let mut i: usize = 0;
    proof {
        assert(recs(list@).skip(0) =~= recs(list@));
    }
    while i < list.len()
        invariant
            i <= list@.len(),
            resolve_default_spec(recs(list@)) == resolve_default_spec(recs(list@).skip(i as int)),
        decreases list@.len() - i,
    {
        proof {
            assert(recs(list@).skip(i as int).first() == list@[i as int]@);
            assert(recs(list@).skip(i as int).drop_first() =~= recs(list@).skip(i + 1));
        }
        if list[i].is_default {
            return Ok(list[i].duplicate());
        }
        i = i + 1;
    }
    proof {
        assert(recs(list@).skip(list@.len() as int) =~= Seq::<PrinterRec>::empty());
    }
    Err(PrintError::NoDefaultPrinter)
}

/// Default resolution returns a descriptor present in the listing and
/// flagged default — the first one so flagged — and fails with
/// `NoDefaultPrinter` exactly when no descriptor in the listing is flagged.
pub proof fn lemma_resolve_default_law(s: Seq<PrinterRec>)
    ensures
        match resolve_default_spec(s) {
            Ok(p) => p.is_default && exists|j: int|
                0 <= j < s.len() && s[j] == p && (forall|k: int|
                    0 <= k < j ==> !(#[trigger] s[k]).is_default),
            Err(e) => e == PrintError::NoDefaultPrinter && forall|i: int|
                0 <= i < s.len() ==> !(#[trigger] s[i]).is_default,
        },
    decreases s.len(),
{
    if s.len() == 0 {
    } else if s.first().is_default {
        let j = 0int;
        assert(s[j] == s.first());
    } else {
        lemma_resolve_default_law(s.drop_first());
        match resolve_default_spec(s.drop_first()) {
            Ok(p) => {
                let j0 = choose|j: int|
                    0 <= j < s.drop_first().len() && s.drop_first()[j] == p && (forall|k: int|
                        0 <= k < j ==> !(#[trigger] s.drop_first()[k]).is_default);
                assert(s[j0 + 1] == s.drop_first()[j0]);
                assert(forall|k: int| 0 <= k < j0 + 1 ==> !(#[trigger] s[k]).is_default) by {
                    assert(forall|k: int|
                        1 <= k < j0 + 1 ==> s[k] == s.drop_first()[k - 1]
                            && !s.drop_first()[k - 1].is_default);
                }
            },
            Err(_) => {
                assert(forall|i: int|
                    1 <= i < s.len() ==> !(#[trigger] s[i]).is_default) by {
                    assert(forall|i: int|
                        1 <= i < s.len() ==> s[i] == s.drop_first()[i - 1]
                            && !s.drop_first()[i - 1].is_default);
                }
            },
        }
    }
}

} // verus!
