//! Checks around a model download. The HTTP transfer, the progress events
//! and the file operations stand outside this module.
use vstd::prelude::*;

use crate::text::{contains_str, has_infix, join2, join3, nat_text, u64_text};

verus! {

/// The extension of the file that a download is written to before it is
/// moved into place.
pub const PARTIAL_EXTENSION: &'static str = "bin.partial";

/// The model size that a downloaded file name refers to: "small" or
/// "medium" when the name holds that word, else none ("").
pub open spec fn model_size_of_file(file_name: Option<Seq<char>>) -> Seq<char> {
    match file_name {
        Some(n) => if has_infix(n, "small"@) {
            "small"@
        } else if has_infix(n, "medium"@) {
            "medium"@
        } else {
            ""@
        },
        None => ""@,
    }
}

/// The model size that a downloaded file name refers to; empty when none,
/// in which case the size of the file is not checked.
pub fn model_size_for_file(file_name: Option<&str>) -> (r: &'static str)
    ensures
        r@ == model_size_of_file(
            match file_name {
                Some(n) => Some(n@),
                None => None,
            },
        ),
{
    match file_name {
        Some(n) => if contains_str(n, "small") {
            "small"
        } else if contains_str(n, "medium") {
            "medium"
        } else {
            ""
        },
        None => "",
    }
}

/// The message for a download that ended early.
pub open spec fn incomplete_download_message(downloaded: u64, total: u64) -> Seq<char> {
    "Model download was incomplete (downloaded "@ + nat_text(downloaded as nat) + " of "@
        + nat_text(total as nat) + " bytes). Please try again."@
}

/// A download is complete when it received as many bytes as announced; a
/// download whose size was not announced (0) is taken as it is.
pub fn check_download_complete(downloaded: u64, total: u64) -> (r: Result<(), String>)
    ensures
        r is Ok <==> (total == 0 || downloaded == total),
        r matches Err(e) ==> e@ == incomplete_download_message(downloaded, total),
{
    if total > 0 && downloaded != total {
        let d = u64_text(downloaded);
        let t = u64_text(total);
        let mut m = join3("Model download was incomplete (downloaded ", d.as_str(), " of ");
        m.append(t.as_str());
        m.append(" bytes). Please try again.");
        return Err(m);
    }
    Ok(())
}

/// The error for a download request that could not be sent.
pub fn request_failed_message(detail: &str) -> (r: String)
    ensures
        r@ == "Download request failed: "@ + detail@,
{
    join2("Download request failed: ", detail)
}

/// The error for a download answered with an unsuccessful status.
pub fn status_failed_message(status: &str) -> (r: String)
    ensures
        r@ == "Download failed with status: "@ + status@,
{
    join2("Download failed with status: ", status)
}

/// The error for a download interrupted in the middle.
pub fn stream_failed_message(detail: &str) -> (r: String)
    ensures
        r@ == "Download stream error: "@ + detail@,
{
    join2("Download stream error: ", detail)
}

} // verus!
