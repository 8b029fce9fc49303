//! The interactive shell's decisions: rendering a numbered list of names,
//! and reading a selection typed at a prompt.

use vstd::prelude::*;
use crate::names::views_of;
use crate::numeral::dec_digits;
use crate::numeral::u64_to_string;

verus! {

/// One numbered line: the one-based position, a dot, a space, the name.
pub open spec fn line_of(i: int, s: Seq<char>) -> Seq<char> {
    dec_digits((i + 1) as nat) + seq!['.', ' '] + s
}

/// All the numbered lines, joined with newlines.
pub open spec fn lines_joined(items: Seq<Seq<char>>) -> Seq<char>
    decreases items.len(),
{
    if items.len() == 0 {
        Seq::empty()
    } else if items.len() == 1 {
        line_of(0, items[0])
    } else {
        lines_joined(items.drop_last()) + seq!['\n'] + line_of(
            items.len() - 1 as int,
            items.last(),
        )
    }
}

/// Renders the names as a numbered list, one `<i>. <name>` line each,
/// counting from one.
#[verifier::loop_isolation(false)]
pub fn format_save_vec(items: &Vec<String>) -> (r: String)
    ensures
        r@ == lines_joined(views_of(items@)),
{
    proof {
        reveal_strlit("\n");
        assert("\n"@ =~= seq!['\n']);
        reveal_strlit(". ");
        assert(". "@ =~= seq!['.', ' ']);
    }
    let ghost all = views_of(items@);
    let mut r = String::new();
    let mut i: usize = 0;
    while i < items.len()
        invariant
            i <= items@.len(),
            r@ == lines_joined(all.take(i as int)),
        decreases items@.len() - i,
    {
        if i > 0 {
            r.append("\n");
        }
        let number = u64_to_string((i as u64) + 1);
        r.append(number.as_str());
        r.append(". ");
        let name = &items[i];
        r.append(name.as_str());
        proof {
            let taken = all.take(i + 1 as int);
            assert(taken.drop_last() =~= all.take(i as int));
            assert(taken.last() == all[i as int]);
            assert(name@ == all[i as int]);
            assert(r@ =~= lines_joined(taken));
        }
        i = i + 1;
    }
    proof {
        assert(all.take(items@.len() as int) =~= all);
    }
    r
}

/// A digit character and its value.
pub open spec fn is_digit_char(c: char) -> bool {
    c == '0' || c == '1' || c == '2' || c == '3' || c == '4' || c == '5' || c == '6' || c == '7'
        || c == '8' || c == '9'
}

/// The value of a digit character.
pub open spec fn digit_val(c: char) -> nat
    recommends
        is_digit_char(c),
{
    if c == '0' {
        0
    } else if c == '1' {
        1
    } else if c == '2' {
        2
    } else if c == '3' {
        3
    } else if c == '4' {
        4
    } else if c == '5' {
        5
    } else if c == '6' {
        6
    } else if c == '7' {
        7
    } else if c == '8' {
        8
    } else {
        9
    }
}

/// Every character of `s` is a decimal digit.
pub open spec fn all_digits(s: Seq<char>) -> bool {
    forall|i: int| 0 <= i < s.len() ==> is_digit_char(#[trigger] s[i])
}

/// The number a digit string denotes, most significant digit first.
pub open spec fn digits_val(s: Seq<char>) -> nat
    decreases s.len(),
{
    if s.len() == 0 {
        0
    } else {
        digits_val(s.drop_last()) * 10 + digit_val(s.last())
    }
}

/// The value of a digit character, or `None` for any other character.
fn char_digit(c: char) -> (r: Option<u64>)
    ensures
        match r {
            Some(d) => is_digit_char(c) && d == digit_val(c),
            None => !is_digit_char(c),
        },
{
    match c {
        '0' => Some(0),
        '1' => Some(1),
        '2' => Some(2),
        '3' => Some(3),
        '4' => Some(4),
        '5' => Some(5),
        '6' => Some(6),
        '7' => Some(7),
        '8' => Some(8),
        '9' => Some(9),
        _ => None,
    }
}

/// What a line typed at a selection prompt asks for.
#[derive(Clone, Copy, PartialEq, Eq, Structural, Debug)]
pub enum MenuChoice {
    /// Empty input: leave the flow and go back to the main menu.
    Abort,
    /// A number between one and the list length: act on the entry at this
    /// zero-based index.
    Select(usize),
    /// Anything else: show the list and ask again.
    Retry,
}

/// The meaning of input `s` at a selection prompt over `count` entries.
pub open spec fn selection_of(s: Seq<char>, count: nat) -> MenuChoice {
    if s.len() == 0 {
        MenuChoice::Abort
    } else if all_digits(s) && 1 <= digits_val(s) <= count {
        MenuChoice::Select((digits_val(s) - 1) as usize)
    } else {
        MenuChoice::Retry
    }
}

/// A prefix that already denotes more than `count` can only grow: every
/// longer digit string still denotes more than `count`.
proof fn lemma_digits_val_monotone(s: Seq<char>, i: int, count: nat)
    requires
        0 <= i <= s.len(),
        digits_val(s.take(i)) > count,
    ensures
        digits_val(s) > count,
    decreases s.len() - i,
{
    if i == s.len() {
        assert(s.take(i) =~= s);
    } else {
        let t = s.take(i + 1);
        assert(t.drop_last() =~= s.take(i));
        assert(digits_val(t) == digits_val(s.take(i)) * 10 + digit_val(t.last()));
        lemma_digits_val_monotone(s, i + 1, count);
    }
}

/// Reads input typed at a selection prompt over `count` entries: empty
/// input aborts the flow, a number from 1 to `count` selects that entry
/// (returned as a zero-based index), anything else asks again.
#[verifier::loop_isolation(false)]
pub fn parse_menu_selection(input: &str, count: usize) -> (r: MenuChoice)
    ensures
        r == selection_of(input@, count as nat),
{
    let len = input.unicode_len();
    if len == 0 {
        return MenuChoice::Abort;
    }
    let mut value: u128 = 0;
    let mut over: bool = false;
    let mut i: usize = 0;
    while i < len
        invariant
            i <= len,
            forall|j: int| 0 <= j < i ==> is_digit_char(#[trigger] input@[j]),
            !over ==> value == digits_val(input@.take(i as int)) && value <= count as u128,
            over ==> digits_val(input@.take(i as int)) > count as nat,
        decreases len - i,
    {
        let c = input.get_char(i);
        let d = match char_digit(c) {
            Some(d) => d,
            None => {
                return MenuChoice::Retry;
            },
        };
        proof {
            let t = input@.take(i + 1 as int);
            assert(t.drop_last() =~= input@.take(i as int));
            assert(t.last() == input@[i as int]);
        }
        if over {
            proof {
                assert(digits_val(input@.take(i + 1 as int)) == digits_val(
                    input@.take(i as int),
                ) * 10 + digit_val(input@[i as int]));
            }
        } else {
            let next = value * 10 + (d as u128);
            if next > count as u128 {
                over = true;
            } else {
                value = next;
            }
        }
        i = i + 1;
    }
    proof {
        assert(input@.take(len as int) =~= input@);
    }
    if over {
        proof {
            lemma_digits_val_monotone(input@, len as int, count as nat);
        }
        return MenuChoice::Retry;
    }
    if value == 0 {
        return MenuChoice::Retry;
    }
    MenuChoice::Select((value as usize) - 1)
}

/// What a line typed at the main menu asks for.
#[derive(Clone, Copy, PartialEq, Eq, Structural, Debug)]
pub enum MainChoice {
    /// Input `1`: enter the backup-creation flow.
    Create,
    /// Input `2`: enter the backup-restore flow.
    Load,
    /// Anything else: show the menu again.
    ShowMenu,
}

/// The meaning of input `s` at the main menu.
pub open spec fn main_choice_of(s: Seq<char>) -> MainChoice {
    if s == seq!['1'] {
        MainChoice::Create
    } else if s == seq!['2'] {
        MainChoice::Load
    } else {
        MainChoice::ShowMenu
    }
}

/// Reads input typed at the main menu: `1` enters the creation flow, `2`
/// the restore flow, anything else shows the menu again.
pub fn parse_main_choice(input: &str) -> (r: MainChoice)
    ensures
        r == main_choice_of(input@),
{
    if input.unicode_len() != 1 {
        return MainChoice::ShowMenu;
    }
    let c = input.get_char(0);
    proof {
        assert(input@ =~= seq![input@[0]]);
    }
    if c == '1' {
        MainChoice::Create
    } else if c == '2' {
        MainChoice::Load
    } else {
        MainChoice::ShowMenu
    }
}

} // verus!
