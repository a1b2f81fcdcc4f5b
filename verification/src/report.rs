//! What is reported of a benchmark, in words.

use vstd::prelude::*;

verus! {

/// A summary in one line, given its figures as text: the rates in megabits per second and the
/// times to first byte in milliseconds.
pub fn summary_line(
    upload_rate: &str,
    upload_ttfb: &str,
    download_rate: &str,
    download_ttfb: &str,
) -> (line: String)
    ensures
        line@ == upload_rate@ + " Mbit/s up (ttfb "@ + upload_ttfb@ + "ms), "@ + download_rate@
            + " Mbit/s down (ttfb "@ + download_ttfb@ + "ms)"@,
{
    let mut line = String::from_str(upload_rate);
    line.append(" Mbit/s up (ttfb ");
    line.append(upload_ttfb);
    line.append("ms), ");
    line.append(download_rate);
    line.append(" Mbit/s down (ttfb ");
    line.append(download_ttfb);
    line.append("ms)");
    line
}

} // verus!
