//! WebView profile management: where the profile lives, when a broken
//! profile may be recovered, how quarantined profiles are named, and which
//! old backups are pruned.
use vstd::prelude::*;
use vstd::string::StringExecFns;

use crate::platform::Platform;
use crate::text::{
    contains_seq, contains_str, is_prefix_of, lowercase_of, occurs_at, starts_with_str,
    to_lowercase,
};

verus! {

/// Directory name of the profile under the portable data directory.
pub const PORTABLE_PROFILE_DIR: &'static str = "webview";

/// Directory name of the WebView2 profile under the local app data directory.
pub const WINDOWS_PROFILE_DIR: &'static str = "EBWebView";

/// File name of the marker that records a recovery attempt.
pub const RECOVERY_MARKER_FILE: &'static str = "webview-recovery.marker";

/// Profile name used in backup names when the profile path has no usable file name.
pub const DEFAULT_PROFILE_NAME: &'static str = "webview";

/// Reason recorded when the frontend never reported ready.
pub const BLANK_STARTUP_REASON: &'static str = "blank startup";

/// Seconds that must pass after a recovery attempt before another is allowed.
pub const RECOVERY_COOLDOWN_SECS: u64 = 600;

/// Number of most recent profile backups that are kept.
pub const KEPT_BACKUPS: usize = 3;

/// The base directory a profile directory is placed under.
#[derive(Clone, Copy, Debug, PartialEq, Eq, Structural)]
pub enum ProfileBase {
    /// The portable installation's data directory.
    PortableData,
    /// The per-user local application data directory.
    AppLocalData,
}

/// Where the WebView profile lives: under the portable data directory when
/// there is one; otherwise, on Windows only, under the local app data
/// directory; otherwise the default profile location is used (`None`).
pub open spec fn spec_profile_dir_location(
    platform: Platform,
    portable_available: bool,
    app_local_available: bool,
) -> Option<(ProfileBase, Seq<char>)> {
    if portable_available {
        Some((ProfileBase::PortableData, PORTABLE_PROFILE_DIR@))
    } else if platform == Platform::Windows && app_local_available {
        Some((ProfileBase::AppLocalData, WINDOWS_PROFILE_DIR@))
    } else {
        None
    }
}

/// Chooses the base directory and the directory name of the WebView profile.
pub fn profile_dir_location(
    platform: Platform,
    portable_available: bool,
    app_local_available: bool,
) -> (location: Option<(ProfileBase, &'static str)>)
    ensures
        match location {
            Some((base, dir)) => spec_profile_dir_location(
                platform,
                portable_available,
                app_local_available,
            ) == Some((base, dir@)),
            None => spec_profile_dir_location(
                platform,
                portable_available,
                app_local_available,
            ) is None,
        },
{
    if portable_available {
        Some((ProfileBase::PortableData, PORTABLE_PROFILE_DIR))
    } else if platform == Platform::Windows && app_local_available {
        Some((ProfileBase::AppLocalData, WINDOWS_PROFILE_DIR))
    } else {
        None
    }
}

/// Recovery is allowed when there is no readable marker age, or when the
/// marker is strictly older than the cool-down. The age is given as whole
/// seconds and the sub-second nanoseconds.
pub open spec fn spec_recovery_allowed(marker_age: Option<(u64, u32)>) -> bool {
    match marker_age {
        None => true,
        Some((secs, nanos)) => secs > RECOVERY_COOLDOWN_SECS || (secs == RECOVERY_COOLDOWN_SECS
            && nanos > 0),
    }
}

/// Whether another profile recovery may run, given how long ago the last
/// attempt's marker was written (`None`: no marker, or its age is unknown).
pub fn recovery_allowed_after(marker_age: Option<(u64, u32)>) -> (allowed: bool)
    ensures
        allowed == spec_recovery_allowed(marker_age),
{
    match marker_age {
        None => true,
        Some((secs, nanos)) => secs > RECOVERY_COOLDOWN_SECS || (secs == RECOVERY_COOLDOWN_SECS
            && nanos > 0),
    }
}

/// The error codes and texts of WebView2 that point at a corrupt profile.
pub open spec fn spec_lowered_message_suggests_corruption(lowered: Seq<char>) -> bool {
    ||| contains_seq(lowered, "0x8007139f"@)
    ||| contains_seq(lowered, "hresult(0x8007139f)"@)
    ||| contains_seq(lowered, "the group or resource is not in the correct state"@)
}

/// Whether an already lower-cased error message points at a corrupt profile.
pub fn lowered_message_suggests_corruption(lowered: &str) -> (corrupt: bool)
    ensures
        corrupt == spec_lowered_message_suggests_corruption(lowered@),
{
    contains_str(lowered, "0x8007139f") || contains_str(lowered, "hresult(0x8007139f)")
        || contains_str(lowered, "the group or resource is not in the correct state")
}

/// Whether a window-creation error message points at a corrupt WebView
/// profile; the message is compared in lower case.
pub fn error_suggests_profile_corruption(message: &str) -> (corrupt: bool)
    ensures
        corrupt == spec_lowered_message_suggests_corruption(lowercase_of(message@)),
{
    let lowered = to_lowercase(message);
    lowered_message_suggests_corruption(lowered.as_str())
}

/// The profile name used in backup names.
pub open spec fn profile_name_or_default(file_name: Option<&str>) -> Seq<char> {
    match file_name {
        Some(name) => name@,
        None => DEFAULT_PROFILE_NAME@,
    }
}

/// Every backup of profile `profile_name` starts with this prefix.
pub open spec fn backup_prefix(profile_name: Seq<char>) -> Seq<char> {
    profile_name + ".backup-"@
}

/// Name of the backup of profile `profile_name` made for `reason` at `timestamp`.
pub open spec fn spec_backup_file_name(
    profile_name: Seq<char>,
    reason: Seq<char>,
    timestamp: Seq<char>,
) -> Seq<char> {
    backup_prefix(profile_name) + reason + "-"@ + timestamp
}

/// Builds `<profile>.backup-<reason>-<timestamp>`, using the default profile
/// name when the profile path has no usable file name.
pub fn backup_file_name(file_name: Option<&str>, reason: &str, timestamp: &str) -> (name: String)
    ensures
        name@ == spec_backup_file_name(profile_name_or_default(file_name), reason@, timestamp@),
{
    let mut name = match file_name {
        Some(f) => String::from_str(f),
        None => String::from_str(DEFAULT_PROFILE_NAME),
    };
    name.append(".backup-");
    name.append(reason);
    name.append("-");
    name.append(timestamp);
    name
}

/// The error reported when renaming the profile into its backup fails.
pub fn quarantine_failure_message(profile_path: &str, error: &str) -> (message: String)
    ensures
        message@ == "failed to quarantine WebView profile "@ + profile_path@ + ": "@ + error@,
{
    let mut message = String::from_str("failed to quarantine WebView profile ");
    message.append(profile_path);
    message.append(": ");
    message.append(error);
    message
}

/// Whether the directory entry `name` is a backup of profile `profile_name`.
pub fn is_profile_backup(name: &str, profile_name: &str) -> (backup: bool)
    ensures
        backup == is_prefix_of(backup_prefix(profile_name@), name@),
{
    let prefix = String::from_str(profile_name).concat(".backup-");
    starts_with_str(name, prefix.as_str())
}


/// A directory entry next to the profile: its name and, when it could be
/// read, its modification time (nanoseconds relative to the Unix epoch).
pub struct BackupEntry {
    pub name: String,
    pub modified: Option<i128>,
}

/// An entry takes part in pruning when it is a backup of the profile and
/// its modification time is known.
pub open spec fn is_prune_candidate(entry: BackupEntry, profile_name: Seq<char>) -> bool {
    is_prefix_of(backup_prefix(profile_name), entry.name@) && entry.modified is Some
}

/// Positions of the prune candidates among the first `n` entries, in order.
pub open spec fn prune_candidates(
    entries: Seq<BackupEntry>,
    profile_name: Seq<char>,
    n: int,
) -> Seq<int>
    decreases n,
{
    if n <= 0 {
        Seq::empty()
    } else {
        let before = prune_candidates(entries, profile_name, n - 1);
        if is_prune_candidate(entries[n - 1], profile_name) {
            before.push(n - 1)
        } else {
            before
        }
    }
}

pub open spec fn modified_key(entries: Seq<BackupEntry>, k: int) -> i128 {
    match entries[k].modified {
        Some(t) => t,
        None => 0,
    }
}

/// Entry `a` comes before entry `b` when ordered by modification time, ties
/// kept in directory order (the order a stable sort gives).
pub open spec fn older_backup(entries: Seq<BackupEntry>, a: int, b: int) -> bool {
    modified_key(entries, a) < modified_key(entries, b) || (modified_key(entries, a)
        == modified_key(entries, b) && a < b)
}

/// How many of `candidates` backups are removed: all but the newest `KEPT_BACKUPS`.
pub open spec fn pruned_count(candidates: nat) -> nat {
    if candidates > KEPT_BACKUPS {
        (candidates - KEPT_BACKUPS) as nat
    } else {
        0
    }
}

/// `removed` is the list of backups to delete: all candidates but the newest
/// `KEPT_BACKUPS`, oldest first.
pub open spec fn is_prune_selection(
    entries: Seq<BackupEntry>,
    profile_name: Seq<char>,
    removed: Seq<usize>,
) -> bool {
    let candidates = prune_candidates(entries, profile_name, entries.len() as int);
    &&& removed.len() == pruned_count(candidates.len())
    &&& forall|p: int| 0 <= p < removed.len() ==> #[trigger] removed[p] < entries.len()
    &&& forall|p: int| 0 <= p < removed.len() ==> candidates.contains(#[trigger] removed[p] as int)
    &&& forall|p: int, q: int|
        0 <= p < q < removed.len() ==> older_backup(
            entries,
            #[trigger] removed[p] as int,
            #[trigger] removed[q] as int,
        )
    &&& forall|k: int, p: int|
        #![trigger candidates.contains(k), removed[p]]
        candidates.contains(k) && (forall|r: int| 0 <= r < removed.len() ==> removed[r] != k) && 0
            <= p < removed.len() ==> older_backup(entries, removed[p] as int, k)
}

fn is_older_backup(entries: &Vec<BackupEntry>, a: usize, b: usize) -> (older: bool)
    requires
        a < entries@.len(),
        b < entries@.len(),
    ensures
        older == older_backup(entries@, a as int, b as int),
{
    let ka = match entries[a].modified {
        Some(t) => t,
        None => 0,
    };
    let kb = match entries[b].modified {
        Some(t) => t,
        None => 0,
    };
    ka < kb || (ka == kb && a < b)
}


/// `s` lists entries strictly from oldest to newest.
pub open spec fn ordered_by_age(entries: Seq<BackupEntry>, s: Seq<usize>) -> bool {
    forall|p: int, q: int|
        0 <= p < q < s.len() ==> older_backup(entries, #[trigger] s[p] as int, #[trigger] s[q] as int)
}

/// Inserts entry `x` into the age-ordered list `sorted`, keeping it ordered.
fn insert_by_age(entries: &Vec<BackupEntry>, sorted: &mut Vec<usize>, x: usize) -> (pos: usize)
    requires
        x < entries@.len(),
        forall|p: int| 0 <= p < old(sorted)@.len() ==> #[trigger] old(sorted)@[p] < entries@.len(),
        forall|p: int| 0 <= p < old(sorted)@.len() ==> #[trigger] old(sorted)@[p] != x,
        ordered_by_age(entries@, old(sorted)@),
    ensures
        pos <= old(sorted)@.len(),
        final(sorted)@ == old(sorted)@.insert(pos as int, x),
        ordered_by_age(entries@, final(sorted)@),
{
    let n = entries.len();
    let len = sorted.len();
    let mut pos: usize = 0;
    while pos < len && !is_older_backup(entries, x, sorted[pos])
        invariant
            n == entries@.len(),
            len == sorted@.len(),
            x < n,
            forall|p: int| 0 <= p < len ==> #[trigger] sorted@[p] < n,
            pos <= len,
            forall|p: int|
                0 <= p < pos ==> !older_backup(entries@, x as int, #[trigger] sorted@[p] as int),
        decreases len - pos,
    {
        pos = pos + 1;
    }
    let ghost before = sorted@;
    proof {
        assert forall|p: int| 0 <= p < pos implies older_backup(
            entries@,
            #[trigger] before[p] as int,
            x as int,
        ) by {
            assert(before[p] != x);
        }
        assert forall|p: int| pos <= p < len implies older_backup(
            entries@,
            x as int,
            #[trigger] before[p] as int,
        ) by {
            if p > pos {
                assert(older_backup(entries@, before[pos as int] as int, before[p] as int));
            }
        }
        before.insert_ensures(pos as int, x);
    }
    sorted.insert(pos, x);
    proof {
        let after = sorted@;
        assert forall|q: int| pos < q < len + 1 implies #[trigger] after[q] == before[q - 1] by {
            assert(after[(q - 1) + 1] == before[q - 1]);
        }
        assert forall|p: int, q: int| 0 <= p < q < len + 1 implies older_backup(
            entries@,
            #[trigger] after[p] as int,
            #[trigger] after[q] as int,
        ) by {
            if q < pos {
            } else if q == pos {
                assert(after[p] == before[p]);
            } else if p < pos {
                assert(after[p] == before[p]);
                assert(older_backup(entries@, before[p] as int, x as int));
            } else if p == pos {
                assert(after[q] == before[q - 1]);
            } else {
                assert(after[p] == before[p - 1]);
                assert(after[q] == before[q - 1]);
            }
        }
    }
    pos
}

/// Inserting the next candidate keeps `after` a listing of exactly the first
/// `c + 1` candidates.
proof fn lemma_insert_keeps_cover(
    before: Seq<usize>,
    after: Seq<usize>,
    pos: int,
    cands: Seq<usize>,
    c: int,
)
    requires
        0 <= c < cands.len(),
        before.len() == c,
        0 <= pos <= c,
        after == before.insert(pos, cands[c]),
        forall|p: int| 0 <= p < c ==> cands.take(c).contains(#[trigger] before[p]),
        forall|j: int| 0 <= j < c ==> before.contains(#[trigger] cands[j]),
    ensures
        after.len() == c + 1,
        forall|p: int| 0 <= p < c + 1 ==> cands.take(c + 1).contains(#[trigger] after[p]),
        forall|j: int| 0 <= j < c + 1 ==> after.contains(#[trigger] cands[j]),
{
    before.insert_ensures(pos, cands[c]);
    assert forall|q: int| pos < q < c + 1 implies #[trigger] after[q] == before[q - 1] by {
        assert(after[(q - 1) + 1] == before[q - 1]);
    }
    assert forall|p: int| 0 <= p < c + 1 implies cands.take(c + 1).contains(#[trigger] after[p]) by {
        if p < pos {
            assert(cands.take(c).contains(before[p]));
            let j = choose|j: int| 0 <= j < c && cands.take(c)[j] == before[p];
            assert(cands.take(c + 1)[j] == after[p]);
        } else if p == pos {
            assert(cands.take(c + 1)[c] == after[p]);
        } else {
            assert(cands.take(c).contains(before[p - 1]));
            let j = choose|j: int| 0 <= j < c && cands.take(c)[j] == before[p - 1];
            assert(cands.take(c + 1)[j] == after[p]);
        }
    }
    assert forall|j: int| 0 <= j < c + 1 implies after.contains(#[trigger] cands[j]) by {
        if j == c {
            assert(after[pos] == cands[j]);
        } else {
            assert(before.contains(cands[j]));
            let p0 = choose|p: int| 0 <= p < c && before[p] == cands[j];
            if p0 < pos {
                assert(after[p0] == cands[j]);
            } else {
                assert(after[p0 + 1] == cands[j]);
            }
        }
    }
}

/// The positions of the backups of profile `profile_name` to delete: every
/// backup with a known modification time except the newest `KEPT_BACKUPS`,
/// listed oldest first.
pub fn backups_to_prune(entries: &Vec<BackupEntry>, profile_name: &str) -> (removed: Vec<usize>)
    ensures
        is_prune_selection(entries@, profile_name@, removed@),
{
    let ghost all = prune_candidates(entries@, profile_name@, entries@.len() as int);
    let n = entries.len();
    // Candidates in directory order.
    let mut cands: Vec<usize> = Vec::new();
    let mut i: usize = 0;
    while i < n
        invariant
            n == entries@.len(),
            i <= n,
            cands@.len() == prune_candidates(entries@, profile_name@, i as int).len(),
            forall|j: int|
                0 <= j < cands@.len() ==> #[trigger] cands@[j] as int == prune_candidates(
                    entries@,
                    profile_name@,
                    i as int,
                )[j],
            forall|j: int| 0 <= j < cands@.len() ==> #[trigger] cands@[j] < i,
            forall|j: int, k: int| 0 <= j < k < cands@.len() ==> cands@[j] < cands@[k],
        decreases n - i,
    {
        let candidate = match entries[i].modified {
            Some(_) => is_profile_backup(entries[i].name.as_str(), profile_name),
            None => false,
        };
        if candidate {
            cands.push(i);
        }
        i = i + 1;
    }
    let m = cands.len();
    // Insertion sort of the candidates, oldest first.
    let mut sorted: Vec<usize> = Vec::new();
    let mut c: usize = 0;
    while c < m
        invariant
            n == entries@.len(),
            m == cands@.len(),
            m == all.len(),
            forall|j: int| 0 <= j < m ==> #[trigger] cands@[j] as int == all[j],
            forall|j: int| 0 <= j < m ==> #[trigger] cands@[j] < n,
            forall|j: int, k: int| 0 <= j < k < m ==> cands@[j] < cands@[k],
            c <= m,
            sorted@.len() == c,
            ordered_by_age(entries@, sorted@),
            forall|p: int| 0 <= p < c ==> cands@.take(c as int).contains(#[trigger] sorted@[p]),
            forall|j: int| 0 <= j < c ==> sorted@.contains(#[trigger] cands@[j]),
        decreases m - c,
    {
        let x = cands[c];
        proof {
            assert forall|p: int| 0 <= p < c implies #[trigger] sorted@[p] < n && sorted@[p] != x by {
                assert(cands@.take(c as int).contains(sorted@[p]));
                let j = choose|j: int| 0 <= j < c && cands@.take(c as int)[j] == sorted@[p];
                assert(cands@[j] < cands@[c as int]);
            }
        }
        let ghost before = sorted@;
        let pos = insert_by_age(entries, &mut sorted, x);
        proof {
            lemma_insert_keeps_cover(before, sorted@, pos as int, cands@, c as int);
        }
        c = c + 1;
    }
    // The oldest ones are removed.
    let remove = if m > KEPT_BACKUPS {
        m - KEPT_BACKUPS
    } else {
        0
    };
    let mut removed: Vec<usize> = Vec::new();
    let mut r: usize = 0;
    while r < remove
        invariant
            remove <= sorted@.len(),
            r <= remove,
            removed@ == sorted@.subrange(0, r as int),
        decreases remove - r,
    {
        removed.push(sorted[r]);
        r = r + 1;
    }
    proof {
        assert forall|p: int| 0 <= p < removed@.len() implies #[trigger] removed@[p]
            < entries@.len() by {
            assert(cands@.take(m as int).contains(sorted@[p]));
            let j = choose|j: int| 0 <= j < m && cands@.take(m as int)[j] == sorted@[p];
            assert(cands@[j] < n);
        }
        assert forall|p: int| 0 <= p < removed@.len() implies all.contains(
            #[trigger] removed@[p] as int,
        ) by {
            assert(cands@.take(m as int).contains(sorted@[p]));
            let j = choose|j: int| 0 <= j < m && cands@.take(m as int)[j] == sorted@[p];
            assert(all[j] == removed@[p] as int);
        }
        assert forall|k: int, p: int|
            #![trigger all.contains(k), removed@[p]]
            all.contains(k) && (forall|r: int| 0 <= r < removed@.len() ==> removed@[r] != k) && 0
                <= p < removed@.len() implies older_backup(entries@, removed@[p] as int, k) by {
            let j = choose|j: int| 0 <= j < all.len() && all[j] == k;
            assert(cands@[j] as int == k);
            assert(sorted@.contains(cands@[j]));
            let q = choose|q: int| 0 <= q < m && sorted@[q] == cands@[j];
            if q < remove {
                assert(removed@[q] == sorted@[q]);
            }
            assert(removed@[p] == sorted@[p]);
        }
    }
    removed
}

/// Law: the local app data profile ("EBWebView") is used on Windows only,
/// and only without portable data; every other platform uses the portable
/// profile when there is one and the default location otherwise.
pub proof fn app_local_profile_only_on_windows(
    platform: Platform,
    portable_available: bool,
    app_local_available: bool,
)
    ensures
        match spec_profile_dir_location(platform, portable_available, app_local_available) {
            Some((ProfileBase::AppLocalData, dir)) => platform == Platform::Windows
                && !portable_available && app_local_available && dir == "EBWebView"@,
            Some((ProfileBase::PortableData, dir)) => portable_available && dir == "webview"@,
            None => !portable_available,
        },
        platform != Platform::Windows ==> (spec_profile_dir_location(
            platform,
            portable_available,
            app_local_available,
        ) is Some <==> portable_available),
        portable_available ==> spec_profile_dir_location(
            platform,
            portable_available,
            app_local_available,
        ) is Some,
{
}

/// Law: the cool-down is a threshold on the marker's age: no marker allows
/// recovery, a marker at most 600 s old blocks it, and once a marker is old
/// enough every older one is too.
pub proof fn cool_down_is_a_threshold(secs: u64, nanos: u32, later_secs: u64, later_nanos: u32)
    ensures
        spec_recovery_allowed(None),
        (secs < 600 || (secs == 600 && nanos == 0)) ==> !spec_recovery_allowed(
            Some((secs, nanos)),
        ),
        (secs > 600) ==> spec_recovery_allowed(Some((secs, nanos))),
        spec_recovery_allowed(Some((secs, nanos))) && (later_secs > secs || (later_secs == secs
            && later_nanos >= nanos)) ==> spec_recovery_allowed(Some((later_secs, later_nanos))),
{
}

/// Law: a backup name ends with the reason and the time stamp it was made
/// with, after the profile's backup prefix.
pub proof fn backup_name_ends_with_reason_and_stamp(
    profile_name: Seq<char>,
    reason: Seq<char>,
    timestamp: Seq<char>,
)
    ensures
        ({
            let name = spec_backup_file_name(profile_name, reason, timestamp);
            let p = backup_prefix(profile_name).len() as int;
            &&& name.len() == profile_name.len() + 8 + reason.len() + 1 + timestamp.len()
            &&& name.subrange(0, profile_name.len() as int) == profile_name
            &&& name.subrange(p, p + reason.len()) == reason
            &&& name[p + reason.len()] == '-'
            &&& name.subrange(name.len() - timestamp.len(), name.len() as int) == timestamp
        }),
{
    reveal_strlit(".backup-");
    reveal_strlit("-");
    let name = spec_backup_file_name(profile_name, reason, timestamp);
    let p = backup_prefix(profile_name).len() as int;
    assert(name.subrange(0, profile_name.len() as int) =~= profile_name);
    assert(name.subrange(p, p + reason.len()) =~= reason);
    assert(name.subrange(name.len() - timestamp.len(), name.len() as int) =~= timestamp);
}

/// Law: every quarantine backup name is recognised as a backup of its
/// profile, so pruning sees it.
pub proof fn backup_names_are_recognised(
    profile_name: Seq<char>,
    reason: Seq<char>,
    timestamp: Seq<char>,
)
    ensures
        is_prefix_of(
            backup_prefix(profile_name),
            spec_backup_file_name(profile_name, reason, timestamp),
        ),
{
    let p = backup_prefix(profile_name);
    let name = spec_backup_file_name(profile_name, reason, timestamp);
    assert(name.subrange(0, p.len() as int) =~= p);
}

/// Law: the `hresult(...)` form adds nothing to the corruption test; a
/// lower-cased message suggests corruption exactly when it holds the bare
/// error code or the "not in the correct state" text.
pub proof fn hresult_form_is_subsumed(lowered: Seq<char>)
    ensures
        spec_lowered_message_suggests_corruption(lowered) == (contains_seq(lowered, "0x8007139f"@)
            || contains_seq(lowered, "the group or resource is not in the correct state"@)),
{
    reveal_strlit("0x8007139f");
    reveal_strlit("hresult(0x8007139f)");
    if contains_seq(lowered, "hresult(0x8007139f)"@) {
        let i = choose|i: int| occurs_at(lowered, "hresult(0x8007139f)"@, i);
        assert(lowered.subrange(i + 8, i + 18) =~= lowered.subrange(i, i + 19).subrange(8, 18));
        assert("hresult(0x8007139f)"@.subrange(8, 18) =~= "0x8007139f"@);
        assert(occurs_at(lowered, "0x8007139f"@, i + 8));
    }
}

} // verus!
