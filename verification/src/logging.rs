//! Retention of the daily-rotated log files: which files in the log directory
//! are old enough to be removed at start-up.
//!
//! Times are nanoseconds relative to the Unix epoch (negative before it).

use vstd::prelude::*;

verus! {

/// Nanoseconds in a day.
pub const NANOS_PER_DAY: i128 = 86_400_000_000_000;

/// Prefix shared by every log file this program writes (`chryth.log.YYYY-MM-DD`).
pub open spec fn log_file_prefix() -> Seq<char> {
    "chryth.log"@
}

/// Name of a file this program's logger wrote.
pub open spec fn is_log_file_name(name: Seq<char>) -> bool {
    log_file_prefix().is_prefix_of(name)
}

/// Moment before which log files count as expired: `retention_days` days
/// before `now`; none when retention is 0 (clean-up disabled) or the moment
/// is not representable.
pub open spec fn cutoff_of(now_nanos: i128, retention_days: u32) -> Option<i128> {
    let t = now_nanos - retention_days * NANOS_PER_DAY;
    if retention_days == 0 || t < i128::MIN {
        None
    } else {
        Some(t as i128)
    }
}

/// The retention cut-off for a clean-up run at `now_nanos`.
pub fn log_cleanup_cutoff(now_nanos: i128, retention_days: u32) -> (r: Option<i128>)
    ensures
        r == cutoff_of(now_nanos, retention_days),
{
    if retention_days == 0 {
        return None;
    }
    let span: i128 = retention_days as i128 * NANOS_PER_DAY;
    now_nanos.checked_sub(span)
}

/// `s` starts with `prefix`.
fn starts_with(s: &str, prefix: &str) -> (r: bool)
    ensures
        r == prefix@.is_prefix_of(s@),
{
    let n = s.unicode_len();
    let m = prefix.unicode_len();
    if m > n {
        return false;
    }
    let mut i: usize = 0;
    while i < m
        invariant
            n == s@.len(),
            m == prefix@.len(),
            m <= n,
            i <= m,
            forall|j: int| 0 <= j < i ==> s@[j] == prefix@[j],
        decreases m - i,
    {
        if s.get_char(i) != prefix.get_char(i) {
            return false;
        }
        i += 1;
    }
    true
}

/// A directory entry is removed when it is a file, its name is valid Unicode
/// and starts with the log prefix (other programs' files are left alone), and
/// its modification time is known and earlier than the cut-off.
pub open spec fn is_expired_log(
    is_file: bool,
    file_name: Option<Seq<char>>,
    modified_nanos: Option<i128>,
    cutoff_nanos: i128,
) -> bool {
    &&& is_file
    &&& file_name matches Some(n) && is_log_file_name(n)
    &&& modified_nanos matches Some(m) && m < cutoff_nanos
}

/// Whether the clean-up removes a directory entry.
pub fn should_remove_log(
    is_file: bool,
    file_name: Option<&str>,
    modified_nanos: Option<i128>,
    cutoff_nanos: i128,
) -> (r: bool)
    ensures
        r == is_expired_log(
            is_file,
            match file_name {
                Some(n) => Some(n@),
                None => None,
            },
            modified_nanos,
            cutoff_nanos,
        ),
{
    if !is_file {
        return false;
    }
    let name = match file_name {
        Some(n) => n,
        None => return false,
    };
    if !starts_with(name, "chryth.log") {
        return false;
    }
    match modified_nanos {
        Some(m) => m < cutoff_nanos,
        None => false,
    }
}

/// Keeping logs for more days never removes a file that a shorter retention
/// keeps.
pub proof fn law_longer_retention_removes_less(
    now_nanos: i128,
    shorter: u32,
    longer: u32,
    is_file: bool,
    file_name: Option<Seq<char>>,
    modified_nanos: Option<i128>,
)
    requires
        0 < shorter <= longer,
        cutoff_of(now_nanos, longer) is Some,
    ensures
        cutoff_of(now_nanos, shorter) is Some,
        is_expired_log(is_file, file_name, modified_nanos, cutoff_of(now_nanos, longer)->0)
            ==> is_expired_log(
            is_file,
            file_name,
            modified_nanos,
            cutoff_of(now_nanos, shorter)->0,
        ),
{
    assert(shorter * NANOS_PER_DAY <= longer * NANOS_PER_DAY) by (nonlinear_arith)
        requires
            shorter <= longer,
    ;
}

/// With retention 0 there is no cut-off, so nothing is removed.
pub proof fn law_zero_retention_disables_cleanup(now_nanos: i128)
    ensures
        cutoff_of(now_nanos, 0) is None,
{
}

/// A file modified at or after the cut-off is never removed.
pub proof fn law_recent_logs_are_kept(
    is_file: bool,
    file_name: Option<Seq<char>>,
    modified_nanos: i128,
    cutoff_nanos: i128,
)
    requires
        modified_nanos >= cutoff_nanos,
    ensures
        !is_expired_log(is_file, file_name, Some(modified_nanos), cutoff_nanos),
{
}

/// The cut-off lies exactly the retention (in days of 86,400 seconds)
/// before now, and log files are the ones whose name begins `chryth.log`.
pub proof fn law_cutoff_and_log_names(now_nanos: i128, retention_days: u32, name: Seq<char>)
    ensures
        retention_days > 0 && now_nanos - retention_days * 86_400_000_000_000 >= i128::MIN
            ==> cutoff_of(now_nanos, retention_days) == Some(
            (now_nanos - retention_days * 86_400_000_000_000) as i128,
        ),
        is_log_file_name(name) <==> (name.len() >= 10 && name.subrange(0, 10) == seq![
            'c',
            'h',
            'r',
            'y',
            't',
            'h',
            '.',
            'l',
            'o',
            'g',
        ]),
{
    reveal_strlit("chryth.log");
    assert("chryth.log"@ =~= seq!['c', 'h', 'r', 'y', 't', 'h', '.', 'l', 'o', 'g']);
    if name.len() >= 10 && name.subrange(0, 10) == seq![
        'c',
        'h',
        'r',
        'y',
        't',
        'h',
        '.',
        'l',
        'o',
        'g',
    ] {
        assert(log_file_prefix().is_prefix_of(name));
    }
}

} // verus!
