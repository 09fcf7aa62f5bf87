//! A bounded history of recent input lines, kept by shifting.
//!
//! The history is a fixed number of slots, filled front to back; once
//! every slot is taken, inserting drops the oldest entry by shifting
//! the rest one slot toward the front.

use vstd::prelude::*;

verus! {

/// The number of slots the history holds.
pub const STRING_ARRAY_LENGTH: usize = 10;

/// A history of empty slots.
pub open spec fn empty_history() -> Seq<Seq<char>> {
    Seq::new(STRING_ARRAY_LENGTH as nat, |i: int| Seq::<char>::empty())
}

/// The history shifted one slot toward the front: every entry moves
/// down one index, the first is dropped, the last keeps its value.
pub open spec fn shifted(s: Seq<Seq<char>>) -> Seq<Seq<char>> {
    Seq::new(s.len(), |i: int| if i < s.len() - 1 {
        s[i + 1]
    } else {
        s[s.len() - 1]
    })
}

/// The index of the first empty slot, or the length if every slot is
/// taken.
pub open spec fn first_empty_slot(s: Seq<Seq<char>>) -> int
    decreases s.len(),
{
    if s.len() == 0 {
        0
    } else if s.first().len() == 0 {
        0
    } else {
        1 + first_empty_slot(s.drop_first())
    }
}

/// The history after inserting an entry: it fills the first empty
/// slot, or, with every slot taken, the rest shift toward the front
/// and the entry takes the last slot.
pub open spec fn inserted(s: Seq<Seq<char>>, entry: Seq<char>) -> Seq<Seq<char>> {
    let j = first_empty_slot(s);
    if j < s.len() {
        s.update(j, entry)
    } else {
        shifted(s).update(s.len() - 1, entry)
    }
}

/// Law: the first empty slot is the least index holding an empty
/// entry: if everything below `i` is taken and `i` (when in range) is
/// empty, the first empty slot is `i`.
pub proof fn lemma_first_empty_slot_is_least(s: Seq<Seq<char>>, i: int)
    requires
        0 <= i <= s.len(),
        forall|k: int| 0 <= k < i ==> #[trigger] s[k].len() != 0,
        i < s.len() ==> s[i].len() == 0,
    ensures
        first_empty_slot(s) == i,
    decreases s.len(),
{
    if s.len() > 0 && i > 0 {
        assert(s.first().len() != 0);
        let t = s.drop_first();
        assert(forall|k: int| 0 <= k < i - 1 ==> #[trigger] t[k].len() != 0);
        if i - 1 < t.len() {
            assert(t[i - 1] == s[i]);
        }
        lemma_first_empty_slot_is_least(t, i - 1);
    }
}

/// Creates a history of empty slots.
pub fn create_empty_strings() -> (r: Vec<String>)
    ensures
        r.deep_view() == empty_history(),
{
    let mut r: Vec<String> = Vec::new();
    let mut i: usize = 0;
    while i < STRING_ARRAY_LENGTH
        invariant
            i <= STRING_ARRAY_LENGTH,
            r.deep_view() =~= empty_history().take(i as int),
        decreases STRING_ARRAY_LENGTH - i,
    {
        let ghost prev = r.deep_view();
        r.push(String::new());
        proof {
            assert(r.deep_view() =~= prev.push(Seq::<char>::empty()));
            assert(empty_history().take(i + 1) =~= empty_history().take(i as int).push(
                Seq::<char>::empty(),
            ));
        }
        i = i + 1;
    }
    proof {
        assert(empty_history().take(STRING_ARRAY_LENGTH as int) =~= empty_history());
    }
    r
}

/// Shifts the entries one slot toward the front, dropping the first;
/// the last slot keeps its value.
pub fn shift_input_values(user_inputs: Vec<String>) -> (r: Vec<String>)
    requires
        user_inputs@.len() == STRING_ARRAY_LENGTH,
    ensures
        r.deep_view() == shifted(user_inputs.deep_view()),
{
    let ghost orig = user_inputs.deep_view();
    let mut user_inputs = user_inputs;
    let mut i: usize = 0;
    while i < STRING_ARRAY_LENGTH - 1
        invariant
            i <= STRING_ARRAY_LENGTH - 1,
            user_inputs@.len() == STRING_ARRAY_LENGTH,
            orig.len() == STRING_ARRAY_LENGTH,
            forall|k: int|
                0 <= k < i ==> #[trigger] user_inputs.deep_view()[k] == shifted(orig)[k],
            forall|k: int|
                i <= k < STRING_ARRAY_LENGTH ==> #[trigger] user_inputs.deep_view()[k]
                    == orig[k],
        decreases STRING_ARRAY_LENGTH - i,
    {
        let ghost before = user_inputs.deep_view();
        let next = user_inputs[i + 1].clone();
        proof {
            assert(user_inputs.deep_view()[i + 1] == orig[i + 1]);
            assert(next@ == orig[i + 1]);
        }
        user_inputs[i] = next;
        proof {
            assert(user_inputs.deep_view() =~= before.update(i as int, orig[i + 1]));
            assert(user_inputs.deep_view()[i as int] == shifted(orig)[i as int]);
        }
        i = i + 1;
    }
    proof {
        assert(user_inputs.deep_view() =~= shifted(orig));
    }
    user_inputs
}

/// Inserts an entry into the history: it fills the first empty slot,
/// or, with every slot taken, the oldest entry is dropped and the new
/// one takes the last slot.
pub fn insert_new_input(user_inputs: Vec<String>, input: String) -> (r: Vec<String>)
    requires
        user_inputs@.len() == STRING_ARRAY_LENGTH,
    ensures
        r.deep_view() == inserted(user_inputs.deep_view(), input@),
{
    let ghost orig = user_inputs.deep_view();
    let mut user_inputs = user_inputs;
    let mut i: usize = 0;
    let mut found = false;
    while i < STRING_ARRAY_LENGTH && !found
        invariant
            i <= STRING_ARRAY_LENGTH,
            user_inputs@.len() == STRING_ARRAY_LENGTH,
            user_inputs.deep_view() == orig,
            forall|k: int| 0 <= k < i ==> #[trigger] user_inputs.deep_view()[k].len() != 0,
            found ==> i < STRING_ARRAY_LENGTH && user_inputs.deep_view()[i as int].len() == 0,
        decreases STRING_ARRAY_LENGTH - i + (if found {
            0int
        } else {
            1int
        }),
    {
        if user_inputs[i].as_str().is_empty() {
            found = true;
            proof {
                assert(user_inputs.deep_view()[i as int] == user_inputs@[i as int]@);
            }
        } else {
            i = i + 1;
        }
    }
    if found {
        proof {
            lemma_first_empty_slot_is_least(user_inputs.deep_view(), i as int);
            assert(first_empty_slot(orig) == i);
        }
        let ghost before = user_inputs.deep_view();
        user_inputs[i] = input;
        proof {
            assert(user_inputs.deep_view() =~= before.update(i as int, input@));
            assert(user_inputs.deep_view() =~= inserted(orig, input@));
        }
        user_inputs
    } else {
        proof {
            lemma_first_empty_slot_is_least(user_inputs.deep_view(), STRING_ARRAY_LENGTH as int);
            assert(first_empty_slot(orig) == STRING_ARRAY_LENGTH as int);
        }
        let mut user_inputs = shift_input_values(user_inputs);
        proof {
            assert(user_inputs.deep_view().len() == STRING_ARRAY_LENGTH);
            assert(user_inputs@.len() == STRING_ARRAY_LENGTH);
        }
        let ghost before = user_inputs.deep_view();
        user_inputs[STRING_ARRAY_LENGTH - 1] = input;
        proof {
            assert(user_inputs.deep_view() =~= before.update(STRING_ARRAY_LENGTH - 1, input@));
            assert(user_inputs.deep_view() =~= inserted(orig, input@));
        }
        user_inputs
    }
}

} // verus!
