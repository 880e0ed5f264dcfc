//! Output naming.
//!
//! By convention the first two columns of the record set are the
//! identifying fields; the output file of a record is named from them, as
//! `{first}-{second}.png`. No path characters are sanitized, and two
//! records sharing their first two fields overwrite each other: that is a
//! documented limitation, kept for compatibility.

use vstd::prelude::*;
use vstd::string::StringExecFns;

verus! {

/// The file name derived from a record's first two fields.
pub open spec fn spec_output_filename(first: Seq<char>, second: Seq<char>) -> Seq<char> {
    first + "-"@ + second + ".png"@
}

/// Derives the deterministic output file name of one record.
pub fn output_filename(record: &Vec<String>) -> (r: String)
    requires
        record@.len() >= 2,
    ensures
        r@ == spec_output_filename(record@[0]@, record@[1]@),
{
    let mut r = String::new();
    r.append(record[0].as_str());
    r.append("-");
    r.append(record[1].as_str());
    r.append(".png");
    proof {
        assert(r@ =~= spec_output_filename(record@[0]@, record@[1]@));
    }
    r
}

} // verus!
