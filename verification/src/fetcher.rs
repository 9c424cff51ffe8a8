//! Document-fetch bookkeeping: the download status policy and the unique
//! naming of temporary document files. The network transfer itself is
//! performed outside this crate and reports its outcome as plain values.

use crate::decimal::{dec_rep, lemma_dec_inj, lemma_dec_len, u64_dec_chars};
use crate::models::PrintError;
use crate::text::chars_to_string;
use vstd::prelude::*;
use vstd::string::StringExecFns;

verus! {

broadcast use vstd::string::group_string_axioms;

/// An HTTP status that counts as a successful download.
pub open spec fn is_success_status(status: u16) -> bool {
    200 <= status < 300
}

/// Accepts or rejects a download by its HTTP status: a success status
/// passes, anything else is `DownloadFailed` carrying that status.
pub fn check_status(status: u16) -> (r: Result<(), PrintError>)
    ensures
        r is Ok <==> is_success_status(status),
        !is_success_status(status) ==> r == Err::<(), PrintError>(
            PrintError::DownloadFailed(status),
        ),
{
    if 200 <= status && status < 300 {
        Ok(())
    } else {
        Err(PrintError::DownloadFailed(status))
    }
}

/// The name of the temporary file for the job with serial number `n`.
pub open spec fn temp_name_spec(n: nat) -> Seq<char> {
    "document_"@ + dec_rep(n) + ".pdf"@
}

/// The temporary-file name for job serial number `n`: its decimal serial
/// between a fixed stem and a `.pdf` suffix.
pub fn temp_file_name(n: u64) -> (r: String)
    ensures
        r@ == temp_name_spec(n as nat),
{
    let mut s: String = <String as StringExecFns>::from_str("document_");
    let digits = u64_dec_chars(n);
    let ds = chars_to_string(&digits);
    s.append(ds.as_str());
    s.append(".pdf");
    s
}

/// Jobs with distinct serial numbers get distinct temporary-file names,
/// so concurrent jobs never share a temporary path.
pub proof fn lemma_temp_name_unique(a: u64, b: u64)
    requires
        a != b,
    ensures
        temp_name_spec(a as nat) != temp_name_spec(b as nat),
{
    reveal_strlit("document_");
    reveal_strlit(".pdf");
    lemma_dec_len(a as nat);
    lemma_dec_len(b as nat);
    if temp_name_spec(a as nat) == temp_name_spec(b as nat) {
        let la = dec_rep(a as nat).len() as int;
        let lb = dec_rep(b as nat).len() as int;
        assert("document_"@.len() == 9);
        assert(".pdf"@.len() == 4);
        assert(temp_name_spec(a as nat).len() == 9 + la + 4);
        assert(temp_name_spec(b as nat).len() == 9 + lb + 4);
        assert(la == lb);
        assert(dec_rep(a as nat) =~= temp_name_spec(a as nat).subrange(9, 9 + la));
        assert(dec_rep(b as nat) =~= temp_name_spec(b as nat).subrange(9, 9 + lb));
        lemma_dec_inj(a as nat, b as nat);
        assert(false);
    }
}

} // verus!
