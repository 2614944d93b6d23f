//! The decision rules of lockfile location: which manager a lockfile
//! name belongs to, and which of several candidates was modified most
//! recently.  Reading directories and file times stays with the caller;
//! these functions take and return plain values.

use vstd::prelude::*;
use crate::text::str_eq;
use crate::types::PackageManager;

verus! {

/// The manager a lockfile name belongs to.
pub open spec fn spec_lock_file_kind(name: Seq<char>) -> Option<PackageManager> {
    if name == "package-lock.json"@ {
        Some(PackageManager::Npm)
    } else if name == "yarn.lock"@ {
        Some(PackageManager::Yarn)
    } else if name == "pnpm-lock.yaml"@ {
        Some(PackageManager::Pnpm)
    } else {
        None
    }
}

/// Maps a lockfile name to its manager.
pub fn lock_file_kind(name: &str) -> (r: Option<PackageManager>)
    ensures
        r == spec_lock_file_kind(name@),
{
    if str_eq(name, "package-lock.json") {
        Some(PackageManager::Npm)
    } else if str_eq(name, "yarn.lock") {
        Some(PackageManager::Yarn)
    } else if str_eq(name, "pnpm-lock.yaml") {
        Some(PackageManager::Pnpm)
    } else {
        None
    }
}

/// The running best pick over a prefix of modification times: the
/// first candidate starts as best, and a later one takes over only
/// with a strictly greater known time.
pub open spec fn spec_best_pick(times: Seq<Option<u64>>) -> (int, u64)
    decreases times.len(),
{
    if times.len() == 0 {
        (0, 0)
    } else {
        let prev = spec_best_pick(times.drop_last());
        match times.last() {
            Some(t) => if t > prev.1 {
                (times.len() - 1, t)
            } else {
                prev
            },
            None => prev,
        }
    }
}

/// The index of the most recently modified candidate, `None` only for
/// no candidates at all; candidates without a known time never win,
/// and with no known time at all the first candidate stands.
pub open spec fn spec_most_recent_index(times: Seq<Option<u64>>) -> Option<int> {
    if times.len() == 0 {
        None
    } else {
        Some(spec_best_pick(times).0)
    }
}

/// Picks the most recently modified candidate from their modification
/// times, `None` for missing metadata.
pub fn most_recent_index(times: &Vec<Option<u64>>) -> (r: Option<usize>)
    ensures
        match r {
            Some(i) => spec_most_recent_index(times@) == Some(i as int) && i < times@.len(),
            None => times@.len() == 0,
        },
{
    if times.len() == 0 {
        return None;
    }
    let mut best_index: usize = 0;
    let mut best_time: u64 = 0;
    let mut i: usize = 0;
    proof {
        assert(times@.take(0) =~= Seq::<Option<u64>>::empty());
    }
    while i < times.len()
        invariant
            i <= times.len(),
            best_index <= i,
            times@.len() > 0,
            best_index < times@.len(),
            spec_best_pick(times@.take(i as int)) == (best_index as int, best_time),
        decreases times.len() - i,
    {
        proof {
            assert(times@.take(i + 1).drop_last() =~= times@.take(i as int));
            assert(times@.take(i + 1).last() == times@[i as int]);
        }
        match times[i] {
            Some(t) => {
                if t > best_time {
                    best_index = i;
                    best_time = t;
                }
            },
            None => {},
        }
        i += 1;
    }
    proof {
        assert(times@.take(times@.len() as int) =~= times@);
    }
    Some(best_index)
}

} // verus!
