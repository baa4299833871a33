//! The conversation as shown: its blocks, and how prompts are numbered among them.

use vstd::prelude::*;
use vstd::string::*;

verus! {

/// Identifies an entry of the transcript for as long as it stays there.
#[derive(Debug, Clone, Copy, PartialEq, Eq, Structural)]
pub struct EntryId(pub u64);

/// A prompt of the user.
#[derive(Debug, Clone, PartialEq, Eq)]
pub struct UserPromptBlock {
    pub text: String,
    /// The number that the shell gave to this prompt, where it is known.
    pub prompt_index: Option<usize>,
    /// Sent into a running turn. The shell does not number these.
    pub is_interjection: bool,
}

impl UserPromptBlock {
    /// A prompt whose number is not known.
    pub fn new(text: String) -> (r: Self)
        ensures
            r.text@ == text@,
            r.prompt_index is None,
            !r.is_interjection,
    {
        UserPromptBlock { text, prompt_index: None, is_interjection: false }
    }
}

/// A block of the transcript.
#[derive(Debug, Clone, PartialEq, Eq)]
pub enum RenderBlock {
    UserPrompt(UserPromptBlock),
    AgentMessage(String),
    System(String),
}

/// The contents of a [`RenderBlock`].
pub enum BlockModel {
    UserPrompt { text: Seq<char>, prompt_index: Option<usize>, is_interjection: bool },
    AgentMessage { text: Seq<char> },
    System { text: Seq<char> },
}

impl View for RenderBlock {
    type V = BlockModel;

    open spec fn view(&self) -> BlockModel {
        match *self {
            RenderBlock::UserPrompt(b) => BlockModel::UserPrompt {
                text: b.text@,
                prompt_index: b.prompt_index,
                is_interjection: b.is_interjection,
            },
            RenderBlock::AgentMessage(text) => BlockModel::AgentMessage { text: text@ },
            RenderBlock::System(text) => BlockModel::System { text: text@ },
        }
    }
}

impl RenderBlock {
    /// A prompt whose number is not known.
    pub fn user_prompt(text: String) -> (r: Self)
        ensures
            r@ == (BlockModel::UserPrompt {
                text: text@,
                prompt_index: None,
                is_interjection: false,
            }),
    {
        RenderBlock::UserPrompt(UserPromptBlock::new(text))
    }

    /// A prompt that was sent into a running turn.
    pub fn interjection_prompt(text: String) -> (r: Self)
        ensures
            r@ == (BlockModel::UserPrompt {
                text: text@,
                prompt_index: None,
                is_interjection: true,
            }),
    {
        RenderBlock::UserPrompt(
            UserPromptBlock { text, prompt_index: None, is_interjection: true },
        )
    }

    /// A message of the agent.
    pub fn agent_message(text: String) -> (r: Self)
        ensures
            r@ == (BlockModel::AgentMessage { text: text@ }),
    {
        RenderBlock::AgentMessage(text)
    }

    /// A notice of the program itself.
    pub fn system(text: String) -> (r: Self)
        ensures
            r@ == (BlockModel::System { text: text@ }),
    {
        RenderBlock::System(text)
    }
}

/// An entry of the transcript.
#[derive(Debug)]
pub struct ScrollbackEntry {
    pub id: EntryId,
    pub block: RenderBlock,
}

/// The contents of a [`ScrollbackEntry`].
pub struct EntryModel {
    pub id: EntryId,
    pub block: BlockModel,
}

impl View for ScrollbackEntry {
    type V = EntryModel;

    open spec fn view(&self) -> EntryModel {
        EntryModel { id: self.id, block: self.block@ }
    }
}

/// The contents of each entry of a list.
pub open spec fn entries_of(entries: Seq<ScrollbackEntry>) -> Seq<EntryModel> {
    Seq::new(entries.len(), |i: int| entries[i]@)
}

/// Which part of the transcript is in view.
#[derive(Debug, Clone, Copy, PartialEq, Eq, Structural)]
pub enum Viewport {
    /// The end of the transcript.
    Bottom,
    /// An entry in the middle of the screen.
    CenteredOn(usize),
    /// Wherever the user scrolled to.
    Free,
}

/// The transcript and what is selected and in view of it.
#[derive(Debug)]
pub struct ScrollbackState {
    pub entries: Vec<ScrollbackEntry>,
    pub selected: Option<usize>,
    pub inline_edit_height: Option<u16>,
    pub viewport: Viewport,
    pub next_id: u64,
}

/// The contents of a [`ScrollbackState`].
pub struct TranscriptModel {
    pub entries: Seq<EntryModel>,
    pub selected: Option<usize>,
    pub inline_edit_height: Option<u16>,
    pub viewport: Viewport,
    pub next_id: u64,
}

impl View for ScrollbackState {
    type V = TranscriptModel;

    open spec fn view(&self) -> TranscriptModel {
        TranscriptModel {
            entries: entries_of(self.entries@),
            selected: self.selected,
            inline_edit_height: self.inline_edit_height,
            viewport: self.viewport,
            next_id: self.next_id,
        }
    }
}

impl TranscriptModel {
    /// The transcript with one more entry at its end.
    pub open spec fn with_block(self, block: BlockModel) -> TranscriptModel {
        TranscriptModel {
            entries: self.entries.push(EntryModel { id: EntryId(self.next_id), block }),
            next_id: self.next_id.wrapping_add(1),
            ..self
        }
    }

    /// The transcript up to but without entry `at`. A selection in the rest is gone with it.
    pub open spec fn cut_at(self, at: usize) -> TranscriptModel {
        TranscriptModel {
            entries: self.entries.take(at as int),
            selected: match self.selected {
                Some(s) if s < at => Some(s),
                _ => None,
            },
            ..self
        }
    }
}

/// The position of the entry with an id.
pub open spec fn position_of(entries: Seq<EntryModel>, id: EntryId) -> Option<usize>
    decreases entries.len(),
{
    if entries.len() == 0 {
        None
    } else if let Some(i) = position_of(entries.drop_last(), id) {
        Some(i)
    } else if entries.last().id == id {
        Some((entries.len() - 1) as usize)
    } else {
        None
    }
}

impl ScrollbackState {
    /// An empty transcript.
    pub fn new() -> (r: Self)
        ensures
            r@ == (TranscriptModel {
                entries: Seq::empty(),
                selected: None,
                inline_edit_height: None,
                viewport: Viewport::Bottom,
                next_id: 0,
            }),
    {
        let r = ScrollbackState {
            entries: Vec::new(),
            selected: None,
            inline_edit_height: None,
            viewport: Viewport::Bottom,
            next_id: 0,
        };
        assert(r@.entries =~= Seq::<EntryModel>::empty());
        r
    }

    /// How many entries there are.
    pub fn len(&self) -> (n: usize)
        ensures
            n == self@.entries.len(),
    {
        self.entries.len()
    }

    /// The entry at a position.
    pub fn entry(&self, idx: usize) -> (r: Option<&ScrollbackEntry>)
        ensures
            match r {
                Some(e) => idx < self@.entries.len() && e@ == self@.entries[idx as int],
                None => idx >= self@.entries.len(),
            },
    {
        if idx < self.entries.len() {
            Some(&self.entries[idx])
        } else {
            None
        }
    }

    /// Adds an entry at the end.
    pub fn push_block(&mut self, block: RenderBlock) -> (id: EntryId)
        ensures
            id == EntryId(old(self)@.next_id),
            final(self)@ == old(self)@.with_block(block@),
    {
        let id = EntryId(self.next_id);
        self.next_id = self.next_id.wrapping_add(1);
        self.entries.push(ScrollbackEntry { id, block });
        assert(self@.entries =~= old(self)@.with_block(block@).entries);
        id
    }

    /// The position of the entry with an id, the first if several have it.
    pub fn index_of_id(&self, id: EntryId) -> (r: Option<usize>)
        ensures
            r == position_of(self@.entries, id),
    {
        let mut i: usize = 0;
        assert(self@.entries.take(0).len() == 0);
        while i < self.entries.len()
            invariant
                i <= self.entries@.len(),
                position_of(self@.entries.take(i as int), id) is None,
            decreases self.entries@.len() - i,
        {
            let ghost next = self@.entries.take(i + 1);
            assert(next.drop_last() =~= self@.entries.take(i as int));
            assert(next.last() == self.entries@[i as int]@);
            if self.entries[i].id == id {
                proof {
                    lemma_position_kept(self@.entries, id, i + 1);
                }
                return Some(i);
            }
            i = i + 1;
        }
        assert(self@.entries.take(i as int) =~= self@.entries);
        None
    }

    /// Removes the entries from `at` on and hands them out.
    pub fn remove_from(&mut self, at: usize) -> (removed: Vec<ScrollbackEntry>)
        requires
            at <= old(self)@.entries.len(),
        ensures
            final(self)@ == old(self)@.cut_at(at),
            entries_of(removed@) == old(self)@.entries.skip(at as int),
    {
        let removed = self.entries.split_off(at);
        self.selected = match self.selected {
            Some(s) if s < at => Some(s),
            _ => None,
        };
        assert(self@.entries =~= old(self)@.cut_at(at).entries);
        assert(entries_of(removed@) =~= old(self)@.entries.skip(at as int));
        removed
    }

    /// The selected position.
    pub fn selected(&self) -> (r: Option<usize>)
        ensures
            r == self@.selected,
    {
        self.selected
    }

    /// Selects a position.
    pub fn set_selected(&mut self, selected: Option<usize>)
        ensures
            final(self)@ == (TranscriptModel { selected, ..old(self)@ }),
    {
        self.selected = selected;
    }

    /// Rows that the inline editor takes, while it is open.
    pub fn inline_edit_height(&self) -> (r: Option<u16>)
        ensures
            r == self@.inline_edit_height,
    {
        self.inline_edit_height
    }

    /// Sets the rows that the inline editor takes.
    pub fn set_inline_edit_height(&mut self, rows: Option<u16>)
        ensures
            final(self)@ == (TranscriptModel { inline_edit_height: rows, ..old(self)@ }),
    {
        self.inline_edit_height = rows;
    }

    /// Brings the end of the transcript into view.
    pub fn goto_bottom(&mut self)
        ensures
            final(self)@ == (TranscriptModel { viewport: Viewport::Bottom, ..old(self)@ }),
    {
        self.viewport = Viewport::Bottom;
    }

    /// Brings an entry to the middle of the screen.
    pub fn scroll_to_entry_center(&mut self, idx: usize)
        ensures
            final(self)@ == (TranscriptModel {
                viewport: Viewport::CenteredOn(idx),
                ..old(self)@
            }),
    {
        self.viewport = Viewport::CenteredOn(idx);
    }
}

proof fn lemma_position_kept(entries: Seq<EntryModel>, id: EntryId, n: int)
    requires
        0 <= n <= entries.len(),
        position_of(entries.take(n), id) is Some,
    ensures
        position_of(entries, id) == position_of(entries.take(n), id),
    decreases entries.len(),
{
    if n < entries.len() {
        let rest = entries.drop_last();
        assert(rest.take(n) =~= entries.take(n));
        lemma_position_kept(rest, id, n);
    } else {
        assert(entries.take(n) =~= entries);
    }
}

/// A prompt that the shell numbers.
pub open spec fn is_indexed(block: BlockModel) -> bool {
    block matches BlockModel::UserPrompt { is_interjection, .. } && !is_interjection
}

/// The number that a block carries, if it is a prompt with one.
pub open spec fn number_of(block: BlockModel) -> Option<usize> {
    match block {
        BlockModel::UserPrompt { prompt_index, .. } => prompt_index,
        _ => None,
    }
}

/// How many prompts that the shell numbers stand in `entries`.
pub open spec fn indexed_count(entries: Seq<EntryModel>) -> nat
    decreases entries.len(),
{
    if entries.len() == 0 {
        0
    } else {
        indexed_count(entries.drop_last()) + if is_indexed(entries.last().block) {
            1nat
        } else {
            0
        }
    }
}

/// The position of the prompt that started the last turn of `entries`.
pub open spec fn last_turn_start(entries: Seq<EntryModel>) -> Option<int>
    decreases entries.len(),
{
    if entries.len() == 0 {
        None
    } else if is_indexed(entries.last().block) {
        Some(entries.len() - 1)
    } else {
        last_turn_start(entries.drop_last())
    }
}

/// The shell's number for the turn that an entry belongs to: the one that the turn's prompt
/// carries, or else its position among the numbered prompts.
pub open spec fn shell_index_at(entries: Seq<EntryModel>, entry_idx: usize) -> Option<usize> {
    let upto = if entry_idx < entries.len() {
        entries.take(entry_idx + 1)
    } else {
        entries
    };
    match last_turn_start(upto) {
        None => None,
        Some(i) => match number_of(entries[i].block) {
            Some(n) => Some(n),
            None => Some((indexed_count(entries.take(i + 1)) - 1) as usize),
        },
    }
}

/// The last entry that carries the number `target`.
pub open spec fn last_numbered(entries: Seq<EntryModel>, target: usize) -> Option<usize>
    decreases entries.len(),
{
    if entries.len() == 0 {
        None
    } else if number_of(entries.last().block) == Some(target) {
        Some((entries.len() - 1) as usize)
    } else {
        last_numbered(entries.drop_last(), target)
    }
}

/// The position of the numbered prompt before which `n` others stand.
pub open spec fn nth_indexed(entries: Seq<EntryModel>, n: usize) -> Option<usize>
    decreases entries.len(),
{
    if entries.len() == 0 {
        None
    } else if let Some(i) = nth_indexed(entries.drop_last(), n) {
        Some(i)
    } else if is_indexed(entries.last().block) && indexed_count(entries.drop_last()) == n {
        Some((entries.len() - 1) as usize)
    } else {
        None
    }
}

/// The entry of the prompt that the shell numbers `target`: the last one that carries the
/// number, or else the one at that position among the numbered prompts.
pub open spec fn entry_for(entries: Seq<EntryModel>, target: usize) -> Option<usize> {
    match last_numbered(entries, target) {
        Some(i) => Some(i),
        None => nth_indexed(entries, target),
    }
}

/// Interjections render as user prompts but the shell never numbers them, so counting them would
/// skew the positional prompt-to-entry mapping.
pub fn is_indexed_user_prompt(block: &RenderBlock) -> (r: bool)
    ensures
        r == is_indexed(block@),
{
    match block {
        RenderBlock::UserPrompt(b) => !b.is_interjection,
        _ => false,
    }
}

fn prompt_number(block: &RenderBlock) -> (r: Option<usize>)
    ensures
        r == number_of(block@),
{
    match block {
        RenderBlock::UserPrompt(b) => b.prompt_index,
        _ => None,
    }
}

fn count_indexed(scrollback: &ScrollbackState, n: usize) -> (count: usize)
    requires
        n <= scrollback@.entries.len(),
    ensures
        count == indexed_count(scrollback@.entries.take(n as int)),
{
    let mut count: usize = 0;
    let mut i: usize = 0;
    while i < n
        invariant
            i <= n <= scrollback@.entries.len(),
            scrollback@.entries.len() == scrollback.entries@.len(),
            count <= i,
            count == indexed_count(scrollback@.entries.take(i as int)),
        decreases n - i,
    {
        let ghost next = scrollback@.entries.take(i + 1);
        assert(next.drop_last() =~= scrollback@.entries.take(i as int));
        assert(next.last() == scrollback.entries@[i as int]@);
        if is_indexed_user_prompt(&scrollback.entries[i].block) {
            count = count + 1;
        }
        i = i + 1;
    }
    count
}

/// The shell's number for the turn that an entry belongs to.
pub fn shell_prompt_index_at(scrollback: &ScrollbackState, entry_idx: usize) -> (r: Option<usize>)
    ensures
        r == shell_index_at(scrollback@.entries, entry_idx),
{
    let ghost entries = scrollback@.entries;
    let mut n: usize = if entry_idx < scrollback.entries.len() {
        entry_idx + 1
    } else {
        scrollback.entries.len()
    };
    let ghost upto = entries.take(n as int);
    assert(entry_idx >= entries.len() ==> upto =~= entries);
    while n > 0
        invariant
            n <= scrollback.entries@.len(),
            entries == scrollback@.entries,
            entry_idx < entries.len() ==> upto == entries.take(entry_idx + 1),
            entry_idx >= entries.len() ==> upto == entries,
            last_turn_start(upto) == last_turn_start(entries.take(n as int)),
        decreases n,
    {
        let idx: usize = n - 1;
        assert(entries.take(n as int).drop_last() =~= entries.take(idx as int));
        assert(entries.take(n as int).last() == scrollback.entries@[idx as int]@);
        // A mid-turn interjection belongs to the enclosing turn; keep walking back to that turn's
        // starting prompt.
        if is_indexed_user_prompt(&scrollback.entries[idx].block) {
            if let Some(pi) = prompt_number(&scrollback.entries[idx].block) {
                return Some(pi);
            }
            let count: usize = count_indexed(scrollback, n);
            assert(count >= 1);
            return Some(count - 1);
        }
        n = idx;
    }
    None
}

/// The entry of the prompt that the shell numbers `target_prompt_index`.
pub fn find_user_prompt_entry_for_shell_index(
    scrollback: &ScrollbackState,
    target_prompt_index: usize,
) -> (r: Option<usize>)
    ensures
        r == entry_for(scrollback@.entries, target_prompt_index),
        r matches Some(i) ==> i < scrollback@.entries.len(),
{
    let ghost entries = scrollback@.entries;
    let mut n: usize = scrollback.entries.len();
    assert(entries.take(n as int) =~= entries);
    while n > 0
        invariant
            n <= scrollback.entries@.len(),
            entries == scrollback@.entries,
            last_numbered(entries, target_prompt_index) == last_numbered(
                entries.take(n as int),
                target_prompt_index,
            ),
        decreases n,
    {
        let idx: usize = n - 1;
        assert(entries.take(n as int).drop_last() =~= entries.take(idx as int));
        assert(entries.take(n as int).last() == scrollback.entries@[idx as int]@);
        if let Some(pi) = prompt_number(&scrollback.entries[idx].block) {
            if pi == target_prompt_index {
                return Some(idx);
            }
        }
        n = idx;
    }
    let mut count: usize = 0;
    let mut idx: usize = 0;
    while idx < scrollback.entries.len()
        invariant
            idx <= scrollback.entries@.len(),
            count <= idx,
            entries == scrollback@.entries,
            last_numbered(entries, target_prompt_index) is None,
            count == indexed_count(entries.take(idx as int)),
            nth_indexed(entries.take(idx as int), target_prompt_index) is None,
        decreases scrollback.entries@.len() - idx,
    {
        let ghost next = entries.take(idx + 1);
        assert(next.drop_last() =~= entries.take(idx as int));
        assert(next.last() == scrollback.entries@[idx as int]@);
        if is_indexed_user_prompt(&scrollback.entries[idx].block) {
            if count == target_prompt_index {
                proof {
                    lemma_nth_kept(entries, target_prompt_index, idx + 1);
                }
                return Some(idx);
            }
            count = count + 1;
        }
        idx = idx + 1;
    }
    assert(entries.take(idx as int) =~= entries);
    None
}

proof fn lemma_nth_kept(entries: Seq<EntryModel>, n: usize, upto: int)
    requires
        0 <= upto <= entries.len(),
        nth_indexed(entries.take(upto), n) is Some,
    ensures
        nth_indexed(entries, n) == nth_indexed(entries.take(upto), n),
    decreases entries.len(),
{
    if upto < entries.len() {
        let rest = entries.drop_last();
        assert(rest.take(upto) =~= entries.take(upto));
        lemma_nth_kept(rest, n, upto);
    } else {
        assert(entries.take(upto) =~= entries);
    }
}

proof fn lemma_last_numbered(entries: Seq<EntryModel>, target: usize)
    requires
        entries.len() <= usize::MAX,
    ensures
        last_numbered(entries, target) matches Some(i) ==> {
            &&& i < entries.len()
            &&& number_of(entries[i as int].block) == Some(target)
        },
    decreases entries.len(),
{
    if entries.len() > 0 {
        lemma_last_numbered(entries.drop_last(), target);
    }
}

proof fn lemma_nth_indexed(entries: Seq<EntryModel>, n: usize)
    requires
        entries.len() <= usize::MAX,
    ensures
        nth_indexed(entries, n) matches Some(i) ==> {
            &&& i < entries.len()
            &&& is_indexed(entries[i as int].block)
            &&& indexed_count(entries.take(i as int)) == n
        },
    decreases entries.len(),
{
    if entries.len() > 0 {
        let rest = entries.drop_last();
        lemma_nth_indexed(rest, n);
        if let Some(i) = nth_indexed(rest, n) {
            assert(entries.take(i as int) =~= rest.take(i as int));
        } else {
            assert(entries.take(entries.len() - 1) =~= rest);
        }
    }
}

/// The entry found for a prompt is one of the transcript, and a prompt of the user.
pub proof fn lemma_entry_in_range(entries: Seq<EntryModel>, target: usize)
    requires
        entries.len() <= usize::MAX,
    ensures
        entry_for(entries, target) matches Some(i) ==> {
            &&& i < entries.len()
            &&& entries[i as int].block is UserPrompt
        },
{
    lemma_last_numbered(entries, target);
    lemma_nth_indexed(entries, target);
}

proof fn lemma_last_numbered_is(entries: Seq<EntryModel>, target: usize, at: int)
    requires
        entries.len() <= usize::MAX,
        0 <= at < entries.len(),
        number_of(entries[at].block) == Some(target),
        forall|j: int|
            at < j < entries.len() ==> number_of((#[trigger] entries[j]).block) != Some(target),
    ensures
        last_numbered(entries, target) == Some(at as usize),
    decreases entries.len(),
{
    if at < entries.len() - 1 {
        lemma_last_numbered_is(entries.drop_last(), target, at);
    }
}

proof fn lemma_not_numbered(entries: Seq<EntryModel>, target: usize)
    requires
        forall|j: int|
            0 <= j < entries.len() ==> number_of((#[trigger] entries[j]).block) != Some(target),
    ensures
        last_numbered(entries, target) is None,
    decreases entries.len(),
{
    if entries.len() > 0 {
        lemma_not_numbered(entries.drop_last(), target);
    }
}

proof fn lemma_count_grows(entries: Seq<EntryModel>, i: int, j: int)
    requires
        0 <= i <= j <= entries.len(),
    ensures
        indexed_count(entries.take(i)) <= indexed_count(entries.take(j)),
    decreases j,
{
    if i < j {
        assert(entries.take(j).drop_last() =~= entries.take(j - 1));
        lemma_count_grows(entries, i, j - 1);
    }
}

proof fn lemma_nth_indexed_is(entries: Seq<EntryModel>, at: int, n: usize)
    requires
        entries.len() <= usize::MAX,
        0 <= at < entries.len(),
        is_indexed(entries[at].block),
        indexed_count(entries.take(at)) == n,
    ensures
        nth_indexed(entries, n) == Some(at as usize),
    decreases entries.len(),
{
    let rest = entries.drop_last();
    if at < rest.len() {
        assert(rest.take(at) =~= entries.take(at));
        lemma_nth_indexed_is(rest, at, n);
    } else {
        assert(entries.take(at) =~= rest);
        lemma_nth_indexed(rest, n);
        if let Some(i) = nth_indexed(rest, n) {
            assert(rest.take(i + 1).drop_last() =~= rest.take(i as int));
            lemma_count_grows(rest, i + 1, rest.len() as int);
            assert(rest.take(rest.len() as int) =~= rest);
        }
    }
}

/// The number that a prompt's entry leads to leads back to the entry, as long as that number is
/// not carried by a prompt further down or, where the prompt's place stands in for its number, by
/// any prompt.
pub proof fn law_prompt_numbers_lead_back(entries: Seq<EntryModel>, at: usize)
    requires
        entries.len() <= usize::MAX,
        at < entries.len(),
        is_indexed(entries[at as int].block),
        match number_of(entries[at as int].block) {
            Some(n) => forall|j: int|
                at < j < entries.len() ==> number_of((#[trigger] entries[j]).block) != Some(n),
            None => forall|j: int|
                0 <= j < entries.len() ==> number_of((#[trigger] entries[j]).block) != Some(
                    indexed_count(entries.take(at as int)) as usize,
                ),
        },
    ensures
        shell_index_at(entries, at) is Some,
        entry_for(entries, shell_index_at(entries, at)->0) == Some(at),
{
    let upto = entries.take(at + 1);
    assert(upto.last() == entries[at as int]);
    assert(upto.drop_last() =~= entries.take(at as int));
    match number_of(entries[at as int].block) {
        Some(n) => lemma_last_numbered_is(entries, n, at as int),
        None => {
            let n = indexed_count(entries.take(at as int));
            lemma_count_bounded(entries.take(at as int));
            lemma_not_numbered(entries, n as usize);
            lemma_nth_indexed_is(entries, at as int, n as usize);
        },
    }
}

proof fn lemma_count_bounded(entries: Seq<EntryModel>)
    ensures
        indexed_count(entries) <= entries.len(),
    decreases entries.len(),
{
    if entries.len() > 0 {
        lemma_count_bounded(entries.drop_last());
    }
}

/// Whatever is not a numbered prompt, an interjection among them, belongs to the turn of the entry
/// before it.
pub proof fn law_entries_belong_to_their_turn(entries: Seq<EntryModel>, at: usize)
    requires
        0 < at < entries.len(),
        !is_indexed(entries[at as int].block),
    ensures
        shell_index_at(entries, at) == shell_index_at(entries, (at - 1) as usize),
{
    assert(entries.take(at + 1).drop_last() =~= entries.take(at as int));
    assert(entries.take(at + 1).last() == entries[at as int]);
}

} // verus!
