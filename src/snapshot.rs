use vstd::prelude::*;
use vstd::string::*;

use crate::tick::clock_seconds;

verus! {

/// The chrono pattern of a snapshot's time stamp: local year, month, day,
/// hour and minute, `YYYYMMDDHHmm`.
pub open spec fn stamp_pattern() -> Seq<char> {
    seq!['%', 'Y', '%', 'm', '%', 'd', '%', 'H', '%', 'M']
}

pub open spec fn suffix() -> Seq<char> {
    seq!['_', 'm', 'o', 'n', 'i', 't', 'o', 'r', 's', '.', 'j', 's', 'o', 'n']
}

/// Ends in month, day, hour and minute as eight decimal digits, after a year
/// of at least four characters.
pub open spec fn is_minute_stamp(s: Seq<char>) -> bool {
    &&& s.len() >= 12
    &&& forall|i: int| s.len() - 8 <= i < s.len() ==> '0' <= #[trigger] s[i] <= '9'
}

/// Relies on chrono::DateTime::from_timestamp (`None` where the seconds lie
/// outside chrono's calendar), DateTime::with_timezone to the machine's
/// local zone, and DateTime::format with `pattern`, whose items are all
/// ones that chrono writes without error: the year in at least four
/// characters, then month, day, hour and minute as two zero-padded digits
/// each.
#[verifier::external_body]
fn local_stamp(secs: i64, pattern: &str) -> (r: Option<String>)
    requires
        pattern@ == stamp_pattern(),
    ensures
        r matches Some(stamp) ==> is_minute_stamp(stamp@),
{
    match chrono::DateTime::from_timestamp(secs, 0) {
        Some(t) => Some(t.with_timezone(&chrono::Local).format(pattern).to_string()),
        None => None,
    }
}

/// The snapshot file name for a store tick whose local time reads `stamp`:
/// `YYYYMMDDHHmm_monitors.json`.
pub fn snapshot_file_name(stamp: &str) -> (r: String)
    ensures
        r@ == stamp@ + suffix(),
{
    let mut s = String::from_str(stamp);
    proof {
        reveal_strlit("_monitors.json");
    }
    s.append("_monitors.json");
    s
}

/// The snapshot file name for a store tick now, by the local clock; `None`
/// where the clock cannot be read.
pub fn current_snapshot_file_name() -> (r: Option<String>)
    ensures
        r matches Some(name) ==> exists|stamp: Seq<char>|
            is_minute_stamp(stamp) && name@ == stamp + suffix(),
{
    match clock_seconds() {
        Some(secs) => {
            let pattern = "%Y%m%d%H%M";
            proof {
                reveal_strlit("%Y%m%d%H%M");
            }
            assert(pattern@ =~= stamp_pattern());
            match local_stamp(secs as i64, pattern) {
                Some(stamp) => Some(snapshot_file_name(stamp.as_str())),
                None => None,
            }
        },
        None => None,
    }
}

/// The path of a snapshot file named `file_name` in the directory `dir`.
pub fn snapshot_path(dir: &str, file_name: &str) -> (r: String)
    ensures
        r@ == dir@ + seq!['/'] + file_name@,
{
    let mut s = String::from_str(dir);
    proof {
        reveal_strlit("/");
    }
    s.append("/");
    s.append(file_name);
    s
}

} // verus!
