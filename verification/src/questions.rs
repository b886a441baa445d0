//! The question page of the client: which item is shown, and which comes
//! next.
use vstd::prelude::*;
use crate::item::Item;

verus! {

/// The question shown when there is no item at the current index.
pub open spec fn default_question() -> Seq<char> {
    "a question"@
}

/// The index after `index` when cycling through `len` items; unchanged when
/// there is no item.
pub fn next_index(index: usize, len: usize) -> (next: usize)
    requires
        len == 0 || index < usize::MAX,
    ensures
        len == 0 ==> next == index,
        len != 0 ==> next == (index + 1) % (len as int),
        len != 0 ==> next < len,
{
    if len != 0 {
        (index + 1) % len
    } else {
        index
    }
}

/// The question to show: that of the item at `index`, or the default
/// question when there is none.
pub fn current_question(items: &[Item], index: usize) -> (q: String)
    ensures
        index < items@.len() ==> q@ == items@[index as int].question_text(),
        index >= items@.len() ==> q@ == default_question(),
{
    if index < items.len() {
        items[index].question().clone()
    } else {
        String::from_str("a question")
    }
}

/// The index shown after pressing "next" `steps` times from `index`, with
/// `len` items.
pub open spec fn advance(index: nat, len: nat, steps: nat) -> nat
    decreases steps,
{
    if steps == 0 || len == 0 {
        index
    } else {
        (advance(index, len, (steps - 1) as nat) + 1) % len
    }
}

/// Pressing "next" `steps` times from a valid index lands on the index
/// `steps` further on, wrapping around.
proof fn lemma_advance(index: nat, len: nat, steps: nat)
    requires
        index < len,
    ensures
        advance(index, len, steps) == (index + steps) % len,
    decreases steps,
{
    if steps == 0 {
        vstd::arithmetic::div_mod::lemma_small_mod(index, len);
    } else {
        lemma_advance(index, len, (steps - 1) as nat);
        vstd::arithmetic::div_mod::lemma_add_mod_noop((index + steps - 1) as int, 1, len as int);
        if len > 1 {
            vstd::arithmetic::div_mod::lemma_small_mod(1, len);
        } else {
            assert((index + steps) % 1 == 0);
            assert(advance(index, len, steps) == 0);
        }
    }
}

/// Pressing "next" once per item comes back to the question one started
/// from: every question is shown in turn.
pub proof fn law_next_index_cycles(index: nat, len: nat)
    requires
        index < len,
    ensures
        advance(index, len, len) == index,
        forall|k: nat| k < len ==> #[trigger] advance(index, len, k) < len,
{
    lemma_advance(index, len, len);
    vstd::arithmetic::div_mod::lemma_mod_add_multiples_vanish(index as int, len as int);
    vstd::arithmetic::div_mod::lemma_small_mod(index, len);
    assert forall|k: nat| k < len implies #[trigger] advance(index, len, k) < len by {
        lemma_advance(index, len, k);
    }
}

} // verus!
