//! Prefix tests and the filtered directory listings: which entries are
//! save files, and which are backups.

use vstd::prelude::*;

verus! {

/// The name prefix that marks an entry as a save file.
pub open spec fn save_prefix() -> Seq<char> {
    seq!['L', 'C', 'S', 'a', 'v', 'e', 'F', 'i', 'l', 'e']
}

/// The name prefix that marks an entry as a backup file.
pub open spec fn bkp_prefix() -> Seq<char> {
    seq!['B', 'K', 'P', '_']
}

/// The full prefix of a backup of a save file.
pub open spec fn backup_prefix() -> Seq<char> {
    bkp_prefix() + save_prefix()
}

/// `p` is an initial segment of `s`.
pub open spec fn starts_with(s: Seq<char>, p: Seq<char>) -> bool {
    p.len() <= s.len() && s.subrange(0, p.len() as int) == p
}

/// Whether `s` begins with the characters of `p`.
pub fn str_starts_with(s: &str, p: &str) -> (r: bool)
    ensures
        r == starts_with(s@, p@),
{
    let s_len = s.unicode_len();
    let p_len = p.unicode_len();
    if p_len > s_len {
        return false;
    }
    let mut i: usize = 0;
    while i < p_len
        invariant
            i <= p_len,
            p_len == p@.len(),
            s_len == s@.len(),
            p_len <= s_len,
            forall|j: int| 0 <= j < i ==> s@[j] == p@[j],
        decreases p_len - i,
    {
        if s.get_char(i) != p.get_char(i) {
            assert(!starts_with(s@, p@)) by {
                if starts_with(s@, p@) {
                    assert(s@.subrange(0, p@.len() as int)[i as int] == p@[i as int]);
                }
            }
            return false;
        }
        i = i + 1;
    }
    assert(s@.subrange(0, p@.len() as int) =~= p@);
    true
}

/// The views of a sequence of strings.
pub open spec fn views_of(names: Seq<String>) -> Seq<Seq<char>> {
    names.map_values(|s: String| s@)
}

/// The entries that are save files: those whose name starts with
/// `LCSaveFile`, in enumeration order.
pub open spec fn saves_of(entries: Seq<Seq<char>>) -> Seq<Seq<char>> {
    entries.filter(|s: Seq<char>| starts_with(s, save_prefix()))
}

/// The entries that are backup files: those whose name starts with
/// `BKP_LCSaveFile`, in reverse enumeration order.
pub open spec fn backups_of(entries: Seq<Seq<char>>) -> Seq<Seq<char>> {
    entries.filter(|s: Seq<char>| starts_with(s, backup_prefix())).reverse()
}

/// The names of the save files among the given directory entries: exactly
/// those starting with `LCSaveFile`, kept in enumeration order.
#[verifier::loop_isolation(false)]
pub fn get_current_save_names(entries: &Vec<String>) -> (r: Vec<String>)
    ensures
        views_of(r@) == saves_of(views_of(entries@)),
        forall|i: int|
            0 <= i < r@.len() ==> starts_with(#[trigger] r@[i]@, save_prefix()),
        entries@.len() == 0 ==> r@.len() == 0,
{
    proof {
        reveal_strlit("LCSaveFile");
        assert("LCSaveFile"@ =~= save_prefix());
    }
    let whole = Ghost(views_of(entries@));
    let mut r: Vec<String> = Vec::new();
    let mut i: usize = 0;
    while i < entries.len()
        invariant
            i <= entries@.len(),
            whole@ == views_of(entries@),
            views_of(r@) == whole@.take(i as int).filter(
                |s: Seq<char>| starts_with(s, save_prefix()),
            ),
        decreases entries@.len() - i,
    {
        broadcast use vstd::prelude::Seq::lemma_filter_push;

        let ghost prev = views_of(r@);
        let name = &entries[i];
        assert(name@ == whole@[i as int]);
        if str_starts_with(name.as_str(), "LCSaveFile") {
            r.push(name.clone());
            proof {
                assert(views_of(r@) =~= prev.push(name@));
            }
        }
        proof {
            assert(whole@.take(i + 1 as int) =~= whole@.take(i as int).push(whole@[i as int]));
            assert(whole@.take(i + 1 as int).filter(|s: Seq<char>| starts_with(s, save_prefix()))
                == whole@.take(i as int).push(whole@[i as int]).filter(
                |s: Seq<char>| starts_with(s, save_prefix()),
            ));
        }
        i = i + 1;
    }
    proof {
        assert(whole@.take(entries@.len() as int) =~= whole@);
        broadcast use vstd::prelude::Seq::lemma_filter_pred;

        assert forall|i: int| 0 <= i < r@.len() implies starts_with(
            #[trigger] r@[i]@,
            save_prefix(),
        ) by {
            assert(r@[i]@ == views_of(r@)[i]);
        }
    }
    r
}

/// The names of the backup files among the given directory entries:
/// exactly those starting with `BKP_LCSaveFile`, in reverse enumeration
/// order, so that the youngest entry tends to come first.
#[verifier::loop_isolation(false)]
pub fn get_backup_save_names(entries: &Vec<String>) -> (r: Vec<String>)
    ensures
        views_of(r@) == backups_of(views_of(entries@)),
        forall|i: int|
            0 <= i < r@.len() ==> starts_with(#[trigger] r@[i]@, backup_prefix()),
        entries@.len() == 0 ==> r@.len() == 0,
{
    proof {
        reveal_strlit("BKP_LCSaveFile");
        assert("BKP_LCSaveFile"@ =~= backup_prefix());
    }
    let whole = Ghost(views_of(entries@));
    let mut kept: Vec<String> = Vec::new();
    let mut i: usize = 0;
    while i < entries.len()
        invariant
            i <= entries@.len(),
            whole@ == views_of(entries@),
            views_of(kept@) == whole@.take(i as int).filter(
                |s: Seq<char>| starts_with(s, backup_prefix()),
            ),
        decreases entries@.len() - i,
    {
        broadcast use vstd::prelude::Seq::lemma_filter_push;

        let ghost prev = views_of(kept@);
        let name = &entries[i];
        assert(name@ == whole@[i as int]);
        if str_starts_with(name.as_str(), "BKP_LCSaveFile") {
            kept.push(name.clone());
            proof {
                assert(views_of(kept@) =~= prev.push(name@));
            }
        }
        proof {
            assert(whole@.take(i + 1 as int) =~= whole@.take(i as int).push(whole@[i as int]));
            assert(whole@.take(i + 1 as int).filter(|s: Seq<char>| starts_with(s, backup_prefix()))
                == whole@.take(i as int).push(whole@[i as int]).filter(
                |s: Seq<char>| starts_with(s, backup_prefix()),
            ));
        }
        i = i + 1;
    }
    proof {
        assert(whole@.take(entries@.len() as int) =~= whole@);
    }
    let ghost filtered = views_of(kept@);
    let mut r: Vec<String> = Vec::new();
    let mut j: usize = kept.len();
    while j > 0
        invariant
            j <= kept@.len(),
            filtered == views_of(kept@),
            r@.len() == kept@.len() - j,
            forall|k: int|
                0 <= k < r@.len() ==> #[trigger] r@[k]@ == filtered[kept@.len() - 1 - k],
        decreases j,
    {
        j = j - 1;
        let name = &kept[j];
        r.push(name.clone());
    }
    proof {
        assert(views_of(r@) =~= filtered.reverse());
        broadcast use vstd::prelude::Seq::lemma_filter_pred;

        assert forall|i: int| 0 <= i < r@.len() implies starts_with(
            #[trigger] r@[i]@,
            backup_prefix(),
        ) by {
            assert(r@[i]@ == filtered[r@.len() - 1 - i]);
        }
    }
    r
}

} // verus!
