//! Building a timestamped backup file name, and recovering from a backup
//! name the save file it must be restored onto.

use vstd::prelude::*;
use crate::clock::Timestamp;
use crate::names::bkp_prefix;
use crate::names::backup_prefix;
use crate::names::save_prefix;
use crate::names::starts_with;
use crate::names::str_starts_with;
use crate::numeral::pad2;
use crate::numeral::pad4;
use crate::numeral::pad2_string;
use crate::numeral::pad4_string;

verus! {

/// The `YYYY-MM-DD_HH-MM-SS` rendering of a timestamp.
pub open spec fn timestamp_chars(t: Timestamp) -> Seq<char> {
    pad4(t.year as nat) + seq!['-'] + pad2(t.month as nat) + seq!['-'] + pad2(t.day as nat)
        + seq!['_'] + pad2(t.hour as nat) + seq!['-'] + pad2(t.minute as nat) + seq!['-'] + pad2(
        t.second as nat,
    )
}

/// The name of the backup of save `name` taken at time `t`:
/// `BKP_<name>_<timestamp>`.
pub open spec fn backup_name(name: Seq<char>, t: Timestamp) -> Seq<char> {
    bkp_prefix() + name + seq!['_'] + timestamp_chars(t)
}

/// Builds the file name for a backup of save `name` taken at time `t`.
pub fn backup_file_name(name: &str, t: &Timestamp) -> (r: String)
    ensures
        r@ == backup_name(name@, *t),
{
    proof {
        reveal_strlit("BKP_");
        assert("BKP_"@ =~= bkp_prefix());
        reveal_strlit("_");
        assert("_"@ =~= seq!['_']);
        reveal_strlit("-");
        assert("-"@ =~= seq!['-']);
    }
    let mut s = String::from_str("BKP_");
    s.append(name);
    s.append("_");
    let year = pad4_string(t.year as u64);
    s.append(year.as_str());
    s.append("-");
    let month = pad2_string(t.month as u64);
    s.append(month.as_str());
    s.append("-");
    let day = pad2_string(t.day as u64);
    s.append(day.as_str());
    s.append("_");
    let hour = pad2_string(t.hour as u64);
    s.append(hour.as_str());
    s.append("-");
    let minute = pad2_string(t.minute as u64);
    s.append(minute.as_str());
    s.append("-");
    let second = pad2_string(t.second as u64);
    s.append(second.as_str());
    proof {
        assert(s@ =~= backup_name(name@, *t));
    }
    s
}

/// Law: for a well-formed timestamp the rendering has the fixed width of
/// `YYYY-MM-DD_HH-MM-SS`, and the backup name adds to the save name only
/// the prefix, the separator and that rendering.
pub proof fn lemma_backup_name_len(name: Seq<char>, t: Timestamp)
    requires
        t.wf(),
    ensures
        timestamp_chars(t).len() == 19,
        backup_name(name, t).len() == name.len() + 24,
{
    crate::numeral::lemma_pad_len(t.year as nat);
    crate::numeral::lemma_pad_len(t.month as nat);
    crate::numeral::lemma_pad_len(t.day as nat);
    crate::numeral::lemma_pad_len(t.hour as nat);
    crate::numeral::lemma_pad_len(t.minute as nat);
    crate::numeral::lemma_pad_len(t.second as nat);
}

/// The index of the first `'_'` at or after `i`, or the length of `s`
/// when there is none.
pub open spec fn seg_end(s: Seq<char>, i: int) -> int
    decreases s.len() - i,
{
    if i < 0 || i >= s.len() {
        s.len() as int
    } else if s[i] == '_' {
        i
    } else {
        seg_end(s, i + 1)
    }
}

/// When every character from `start` up to `k` differs from `'_'` and `k`
/// is the length or carries `'_'`, the segment ends exactly at `k`.
proof fn lemma_seg_end_at(s: Seq<char>, start: int, k: int)
    requires
        0 <= start <= k <= s.len(),
        forall|j: int| start <= j < k ==> s[j] != '_',
        k == s.len() || s[k] == '_',
    ensures
        seg_end(s, start) == k,
    decreases k - start,
{
    if start < k {
        lemma_seg_end_at(s, start + 1, k);
    }
}

/// The save name a backup name points back to: its second `'_'`-separated
/// segment, the characters between the prefix and the next `'_'` (or the
/// end of the name).
pub open spec fn restore_target(b: Seq<char>) -> Seq<char>
    recommends
        starts_with(b, bkp_prefix()),
{
    b.subrange(bkp_prefix().len() as int, seg_end(b, bkp_prefix().len() as int))
}

/// Whether `s` carries the `BKP_` prefix, so that restoring it is allowed.
pub fn is_backup_name(s: &str) -> (r: bool)
    ensures
        r == starts_with(s@, bkp_prefix()),
{
    proof {
        reveal_strlit("BKP_");
        assert("BKP_"@ =~= bkp_prefix());
    }
    str_starts_with(s, "BKP_")
}

/// The name of the save file a backup must be copied onto.
pub fn restore_target_name(backup: &str) -> (r: String)
    requires
        starts_with(backup@, bkp_prefix()),
    ensures
        r@ == restore_target(backup@),
{
    let len = backup.unicode_len();
    let mut i: usize = 4;
    assert(bkp_prefix().len() == 4);
    while i < len
        invariant
            4 <= i <= len,
            len == backup@.len(),
            forall|j: int| 4 <= j < i ==> backup@[j] != '_',
        decreases len - i,
    {
        if backup.get_char(i) == '_' {
            proof {
                lemma_seg_end_at(backup@, 4, i as int);
            }
            let seg = backup.substring_char(4, i);
            return seg.to_owned();
        }
        i = i + 1;
    }
    proof {
        lemma_seg_end_at(backup@, 4, len as int);
    }
    let seg = backup.substring_char(4, len);
    seg.to_owned()
}

/// Law: a backup name is itself a valid restore argument, and restoring
/// the backup just created of save `name` targets exactly `name` again —
/// the backup/restore round trip comes back to the same save file. The
/// save name must not contain `'_'`, the separator of the name format.
pub proof fn lemma_backup_restore_round_trip(name: Seq<char>, t: Timestamp)
    requires
        forall|i: int| 0 <= i < name.len() ==> name[i] != '_',
    ensures
        starts_with(backup_name(name, t), bkp_prefix()),
        restore_target(backup_name(name, t)) == name,
{
    let b = backup_name(name, t);
    let k = 4 + name.len() as int;
    assert(b.subrange(0, 4) =~= bkp_prefix());
    assert(forall|j: int| 4 <= j < k ==> b[j] == name[j - 4]);
    assert(b[k] == '_');
    lemma_seg_end_at(b, 4, k);
    assert(b.subrange(4, k) =~= name);
}

/// Law: the backup of a save file is itself listed as a backup — its name
/// starts with `BKP_LCSaveFile` whenever the save's name starts with
/// `LCSaveFile`.
pub proof fn lemma_backup_name_is_listed(name: Seq<char>, t: Timestamp)
    requires
        starts_with(name, save_prefix()),
    ensures
        starts_with(backup_name(name, t), backup_prefix()),
{
    let b = backup_name(name, t);
    assert(b.subrange(0, backup_prefix().len() as int) =~= backup_prefix());
}

} // verus!
