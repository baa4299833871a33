//! How prompts are found in the transcript, and how it grows and is cut.

use vstd::prelude::*;

use crate::transcript::{
    entry_for, indexed_count, is_indexed, last_numbered, last_turn_start, nth_indexed, number_of,
    position_of, shell_index_at, BlockModel, EntryId, EntryModel, TranscriptModel,
};

verus! {

/// A prompt that starts a turn of its own.
pub open spec fn starts_a_turn(entry: EntryModel) -> bool {
    entry.block is UserPrompt && !entry.block->is_interjection
}

/// A prompt that carries this number.
pub open spec fn carries(entry: EntryModel, number: usize) -> bool {
    entry.block is UserPrompt && entry.block->prompt_index == Some(number)
}

/// How many turns start in the first `n` entries.
pub open spec fn turns_before(entries: Seq<EntryModel>, n: int) -> nat
    decreases n,
{
    if n <= 0 {
        0
    } else if starts_a_turn(entries[n - 1]) {
        turns_before(entries, n - 1) + 1
    } else {
        turns_before(entries, n - 1)
    }
}

/// Prompts of the user start turns unless they were sent into one; only prompts carry numbers.
pub proof fn law_turn_starts(block: BlockModel)
    ensures
        block matches BlockModel::UserPrompt { prompt_index, is_interjection, .. } ==> {
            &&& is_indexed(block) == !is_interjection
            &&& number_of(block) == prompt_index
        },
        !(block is UserPrompt) ==> !is_indexed(block) && number_of(block) is None,
{
}

proof fn lemma_turns_before(entries: Seq<EntryModel>, n: int)
    requires
        0 <= n <= entries.len(),
    ensures
        indexed_count(entries.take(n)) == turns_before(entries, n),
    decreases n,
{
    if n > 0 {
        lemma_turns_before(entries, n - 1);
        assert(entries.take(n).drop_last() =~= entries.take(n - 1));
        assert(entries.take(n).last() == entries[n - 1]);
    }
}

proof fn lemma_turn_start_is(entries: Seq<EntryModel>, at: int)
    requires
        0 <= at < entries.len(),
        starts_a_turn(entries[at]),
        forall|j: int| at < j < entries.len() ==> !starts_a_turn(#[trigger] entries[j]),
    ensures
        last_turn_start(entries) == Some(at),
    decreases entries.len(),
{
    if at < entries.len() - 1 {
        assert(!starts_a_turn(entries[entries.len() - 1]));
        let rest = entries.drop_last();
        assert forall|j: int| at < j < rest.len() implies !starts_a_turn(#[trigger] rest[j]) by {
            assert(rest[j] == entries[j]);
        }
        lemma_turn_start_is(rest, at);
    }
}

proof fn lemma_no_turn_start(entries: Seq<EntryModel>)
    requires
        forall|j: int| 0 <= j < entries.len() ==> !starts_a_turn(#[trigger] entries[j]),
    ensures
        last_turn_start(entries) is None,
    decreases entries.len(),
{
    if entries.len() > 0 {
        let rest = entries.drop_last();
        assert(!starts_a_turn(entries[entries.len() - 1]));
        assert forall|j: int| 0 <= j < rest.len() implies !starts_a_turn(#[trigger] rest[j]) by {
            assert(rest[j] == entries[j]);
        }
        lemma_no_turn_start(rest);
    }
}

/// The number of the turn that an entry belongs to is the one that the turn's prompt carries, and
/// where it carries none, the count of turns before it. A position past the end stands for the
/// last entry.
pub proof fn law_turn_number(entries: Seq<EntryModel>, entry_idx: usize, start: int)
    requires
        entries.len() <= usize::MAX,
        0 <= start <= entry_idx,
        start < entries.len(),
        starts_a_turn(entries[start]),
        forall|j: int|
            start < j <= entry_idx && j < entries.len() ==> !starts_a_turn(#[trigger] entries[j]),
    ensures
        entries[start].block->prompt_index matches Some(n) ==> shell_index_at(entries, entry_idx)
            == Some(n),
        entries[start].block->prompt_index is None ==> shell_index_at(entries, entry_idx) == Some(
            turns_before(entries, start) as usize,
        ),
{
    let upto = if entry_idx < entries.len() {
        entries.take(entry_idx + 1)
    } else {
        entries
    };
    assert(upto[start] == entries[start]);
    assert forall|j: int| start < j < upto.len() implies !starts_a_turn(#[trigger] upto[j]) by {
        assert(upto[j] == entries[j]);
    }
    lemma_turn_start_is(upto, start);
    lemma_turns_before(entries, start + 1);
    assert(turns_before(entries, start + 1) == turns_before(entries, start) + 1);
}

/// Before the first turn there is no number.
pub proof fn law_no_turn_no_number(entries: Seq<EntryModel>, entry_idx: usize)
    requires
        forall|j: int|
            0 <= j <= entry_idx && j < entries.len() ==> !starts_a_turn(#[trigger] entries[j]),
    ensures
        shell_index_at(entries, entry_idx) is None,
{
    let upto = if entry_idx < entries.len() {
        entries.take(entry_idx + 1)
    } else {
        entries
    };
    assert forall|j: int| 0 <= j < upto.len() implies !starts_a_turn(#[trigger] upto[j]) by {
        assert(upto[j] == entries[j]);
    }
    lemma_no_turn_start(upto);
}

proof fn lemma_carried(entries: Seq<EntryModel>, number: usize, at: int)
    requires
        entries.len() <= usize::MAX,
        0 <= at < entries.len(),
        carries(entries[at], number),
        forall|j: int| at < j < entries.len() ==> !carries(#[trigger] entries[j], number),
    ensures
        last_numbered(entries, number) == Some(at as usize),
    decreases entries.len(),
{
    if at < entries.len() - 1 {
        assert(!carries(entries[entries.len() - 1], number));
        let rest = entries.drop_last();
        assert forall|j: int| at < j < rest.len() implies !carries(#[trigger] rest[j], number) by {
            assert(rest[j] == entries[j]);
        }
        lemma_carried(rest, number, at);
    }
}

proof fn lemma_not_carried(entries: Seq<EntryModel>, number: usize)
    requires
        forall|j: int| 0 <= j < entries.len() ==> !carries(#[trigger] entries[j], number),
    ensures
        last_numbered(entries, number) is None,
    decreases entries.len(),
{
    if entries.len() > 0 {
        assert(!carries(entries[entries.len() - 1], number));
        let rest = entries.drop_last();
        assert forall|j: int| 0 <= j < rest.len() implies !carries(#[trigger] rest[j], number) by {
            assert(rest[j] == entries[j]);
        }
        lemma_not_carried(rest, number);
    }
}

proof fn lemma_turns_grow(entries: Seq<EntryModel>, i: int, j: int)
    requires
        0 <= i <= j,
    ensures
        turns_before(entries, i) <= turns_before(entries, j),
    decreases j,
{
    if i < j {
        lemma_turns_grow(entries, i, j - 1);
    }
}

proof fn lemma_nth_in(entries: Seq<EntryModel>, n: usize, upto: int)
    requires
        entries.len() <= usize::MAX,
        0 <= upto <= entries.len(),
    ensures
        forall|at: int|
            0 <= at < upto && #[trigger] starts_a_turn(entries[at]) && turns_before(entries, at)
                == n ==> nth_indexed(entries.take(upto), n) == Some(at as usize),
        turns_before(entries, upto) <= n ==> nth_indexed(entries.take(upto), n) is None,
    decreases upto,
{
    if upto > 0 {
        lemma_nth_in(entries, n, upto - 1);
        lemma_turns_before(entries, upto - 1);
        assert(entries.take(upto).drop_last() =~= entries.take(upto - 1));
        assert(entries.take(upto).last() == entries[upto - 1]);
        lemma_turns_grow(entries, upto - 1, upto);
    }
}

/// The entry for a number is the last prompt that carries it.
pub proof fn law_entry_by_number(entries: Seq<EntryModel>, number: usize, at: int)
    requires
        entries.len() <= usize::MAX,
        0 <= at < entries.len(),
        carries(entries[at], number),
        forall|j: int| at < j < entries.len() ==> !carries(#[trigger] entries[j], number),
    ensures
        entry_for(entries, number) == Some(at as usize),
{
    lemma_carried(entries, number, at);
}

/// Where no prompt carries the number, its entry is the start of the turn that has that many turns
/// before it.
pub proof fn law_entry_by_count(entries: Seq<EntryModel>, number: usize, at: int)
    requires
        entries.len() <= usize::MAX,
        forall|j: int| 0 <= j < entries.len() ==> !carries(#[trigger] entries[j], number),
        0 <= at < entries.len(),
        starts_a_turn(entries[at]),
        turns_before(entries, at) == number,
    ensures
        entry_for(entries, number) == Some(at as usize),
{
    lemma_not_carried(entries, number);
    lemma_nth_in(entries, number, entries.len() as int);
    assert(entries.take(entries.len() as int) =~= entries);
}

/// Where no prompt carries the number and there are not that many turns, there is no entry.
pub proof fn law_no_entry(entries: Seq<EntryModel>, number: usize)
    requires
        entries.len() <= usize::MAX,
        forall|j: int| 0 <= j < entries.len() ==> !carries(#[trigger] entries[j], number),
        turns_before(entries, entries.len() as int) <= number,
    ensures
        entry_for(entries, number) is None,
{
    lemma_not_carried(entries, number);
    lemma_nth_in(entries, number, entries.len() as int);
    assert(entries.take(entries.len() as int) =~= entries);
}

/// The position of an id is the first entry that has it.
pub proof fn law_position(entries: Seq<EntryModel>, id: EntryId, at: int)
    requires
        entries.len() <= usize::MAX,
        0 <= at < entries.len(),
        entries[at].id == id,
        forall|j: int| 0 <= j < at ==> (#[trigger] entries[j]).id != id,
    ensures
        position_of(entries, id) == Some(at as usize),
    decreases entries.len(),
{
    let rest = entries.drop_last();
    if at < rest.len() {
        assert(rest[at] == entries[at]);
        assert forall|j: int| 0 <= j < at implies (#[trigger] rest[j]).id != id by {
            assert(rest[j] == entries[j]);
        }
        law_position(rest, id, at);
    } else {
        assert forall|j: int| 0 <= j < rest.len() implies (#[trigger] rest[j]).id != id by {
            assert(rest[j] == entries[j]);
        }
        law_no_position(rest, id);
    }
}

/// An id that no entry has is nowhere.
pub proof fn law_no_position(entries: Seq<EntryModel>, id: EntryId)
    requires
        forall|j: int| 0 <= j < entries.len() ==> (#[trigger] entries[j]).id != id,
    ensures
        position_of(entries, id) is None,
    decreases entries.len(),
{
    if entries.len() > 0 {
        let rest = entries.drop_last();
        assert(entries[entries.len() - 1].id != id);
        assert forall|j: int| 0 <= j < rest.len() implies (#[trigger] rest[j]).id != id by {
            assert(rest[j] == entries[j]);
        }
        law_no_position(rest, id);
    }
}

/// A new block comes last and gets the next id; everything before it stays.
pub proof fn law_growing(transcript: TranscriptModel, block: BlockModel)
    ensures
        ({
            let after = transcript.with_block(block);
            let n = transcript.entries.len();
            &&& after.entries.len() == n + 1
            &&& after.entries.take(n as int) == transcript.entries
            &&& after.entries[n as int].block == block
            &&& after.entries[n as int].id == EntryId(transcript.next_id)
            &&& transcript.next_id < u64::MAX ==> after.next_id == transcript.next_id + 1
            &&& after.selected == transcript.selected
            &&& after.inline_edit_height == transcript.inline_edit_height
            &&& after.viewport == transcript.viewport
        }),
{
    assert(transcript.with_block(block).entries.take(transcript.entries.len() as int)
        =~= transcript.entries);
}

/// A cut keeps what comes before it and nothing else, and a selection only if it lies there.
pub proof fn law_cutting(transcript: TranscriptModel, at: usize)
    requires
        at <= transcript.entries.len(),
    ensures
        ({
            let after = transcript.cut_at(at);
            &&& after.entries.len() == at
            &&& forall|i: int|
                0 <= i < at ==> #[trigger] after.entries[i] == transcript.entries[i]
            &&& transcript.selected matches Some(s) ==> {
                &&& s < at ==> after.selected == Some(s)
                &&& s >= at ==> after.selected is None
            }
            &&& transcript.selected is None ==> after.selected is None
            &&& after.inline_edit_height == transcript.inline_edit_height
            &&& after.viewport == transcript.viewport
            &&& after.next_id == transcript.next_id
        }),
{
}

} // verus!
