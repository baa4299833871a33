//! The rewind flow of one agent as the user drives it: how each request and choice changes the
//! agent, and what it asks of the outside.

use vstd::prelude::*;
use vstd::string::*;

use crate::app_state::{
    effects_of, no_effects, one_effect, AgentId, AgentModel, AgentView, Effect, EffectModel,
};
use crate::composer::{draft_of, stash_prompt, PromptModel, StashedPrompt};
use crate::input::{is_confirm_style, target_of};
use crate::phase::{PhaseModel, RewindMode, RewindPhase, RewindState};
use crate::points::{edited_from, has_tracked_edits_from, point_for, position_for};
use crate::text::{copy_text, same_text, text_of, trim, trimmed};
use crate::transcript::{
    entry_for, find_user_prompt_entry_for_shell_index, position_of, shell_index_at,
    shell_prompt_index_at, TranscriptModel,
};

verus! {

/// Some prompt from `target` on edited files, as far as the agent's points are known.
pub open spec fn edits_from(agent: AgentModel, target: usize) -> bool {
    match agent.points {
        Some(points) => edited_from(points, target),
        None => false,
    }
}

/// Whether restoring the agent to `target` would move anything on disk.
pub fn agent_has_tracked_edits_from(agent: &AgentView, target: usize) -> (r: bool)
    ensures
        r == edits_from(agent@, target),
{
    match &agent.rewind_points {
        Some(points) => has_tracked_edits_from(points.as_slice(), target),
        None => false,
    }
}

/// The preview of the prompt with the index `target`, where a point has one.
pub open spec fn preview_for(agent: AgentModel, target: usize) -> Option<Seq<char>> {
    match agent.points {
        Some(points) => match point_for(points, target) {
            Some(point) => point.prompt_preview,
            None => None,
        },
        None => None,
    }
}

/// The preview of the prompt with the index `target`.
pub fn prompt_preview_for(agent: &AgentView, target: usize) -> (r: Option<String>)
    ensures
        text_of(r) == preview_for(agent@, target),
{
    match &agent.rewind_points {
        Some(points) => match position_for(points.as_slice(), target) {
            Some(i) => copy_text(&points[i].prompt_preview),
            None => None,
        },
        None => None,
    }
}

/// Takes the draft out of the open flow, and closes the flow.
pub(crate) fn take_draft(agent: &mut AgentView) -> (draft: Option<StashedPrompt>)
    ensures
        draft_of(draft) == old(agent)@.draft(),
        final(agent)@ == (AgentModel { flow: None, ..old(agent)@ }),
{
    match agent.rewind_state.take() {
        Some(state) => state.stashed_draft,
        None => None,
    }
}

/// Puts a draft, if there is one, back in the composer.
pub(crate) fn restore_draft(agent: &mut AgentView, draft: Option<StashedPrompt>)
    ensures
        final(agent)@ == old(agent)@.with_draft(draft_of(draft)),
{
    if let Some(d) = draft {
        agent.prompt.restore(d);
    }
}

pub(crate) fn anchor_of(agent: &AgentView) -> (r: usize)
    ensures
        r == agent@.anchor(),
{
    match &agent.rewind_state {
        Some(state) => state.anchor_entry_idx,
        None => 0,
    }
}

/// Ends the flow without a rewind: the draft comes back, the points are forgotten.
pub fn dismiss(agent: &mut AgentView)
    ensures
        final(agent)@ == old(agent)@.dismissed(),
{
    let draft = take_draft(agent);
    restore_draft(agent, draft);
    agent.rewind_points = None;
}

/// Opens the error panel. The draft stays stashed until it is dismissed.
pub(crate) fn fail(agent: &mut AgentView, message: String)
    ensures
        final(agent)@ == old(agent)@.failed(message@),
{
    let anchor: usize = anchor_of(agent);
    let draft = take_draft(agent);
    agent.rewind_state = Some(
        RewindState {
            phase: RewindPhase::Error { message },
            anchor_entry_idx: anchor,
            stashed_draft: draft,
            selected_prompt_index: None,
        },
    );
}

/// The agent with the mode question on screen, its facts read off the agent.
pub open spec fn asked_mode(
    agent: AgentModel,
    target: usize,
    anchor: usize,
    draft: Option<PromptModel>,
) -> AgentModel {
    agent.with_flow(
        PhaseModel::ModeSelect {
            target,
            has_file_changes: edits_from(agent, target),
            offer_files_only: agent.inline_edit is None,
            active_idx: 0,
            preview: preview_for(agent, target),
        },
        anchor,
        draft,
        Some(target),
    )
}

/// Puts the mode question on screen.
pub fn open_mode_select(
    agent: &mut AgentView,
    target: usize,
    anchor: usize,
    draft: Option<StashedPrompt>,
    prompt_preview: Option<String>,
    has_file_changes: bool,
    offer_files_only: bool,
)
    ensures
        final(agent)@ == old(agent)@.with_flow(
            PhaseModel::ModeSelect {
                target,
                has_file_changes,
                offer_files_only,
                active_idx: 0,
                preview: text_of(prompt_preview),
            },
            anchor,
            draft_of(draft),
            Some(target),
        ),
{
    agent.rewind_state = Some(
        RewindState {
            phase: RewindPhase::ModeSelect {
                target_prompt_index: target,
                has_file_changes,
                offer_files_only,
                active_idx: 0,
                prompt_preview,
            },
            anchor_entry_idx: anchor,
            stashed_draft: draft,
            selected_prompt_index: Some(target),
        },
    );
}

/// The agent after a confirm-style panel was left for the mode question; any other panel stays.
pub open spec fn asked_mode_again(agent: AgentModel) -> AgentModel {
    match agent.flow {
        Some(state) if is_confirm_style(state.phase) => asked_mode(
            agent,
            target_of(state.phase),
            state.anchor,
            state.draft,
        ),
        _ => agent,
    }
}

/// Back out of a confirm-style phase to a fresh mode select.
/// The facts are re-derived from the points and the live inline-edit state rather than carried
/// through every phase.
pub fn back_to_mode_select(agent: &mut AgentView)
    ensures
        final(agent)@ == asked_mode_again(old(agent)@),
{
    let state = match agent.rewind_state.take() {
        Some(state) => state,
        None => {
            return;
        },
    };
    let target: usize = match &state.phase {
        RewindPhase::FilePreview { target_prompt_index, .. } => *target_prompt_index,
        RewindPhase::Confirm { target_prompt_index, .. } => *target_prompt_index,
        RewindPhase::OrphanWarning { target_prompt_index, .. } => *target_prompt_index,
        _ => {
            agent.rewind_state = Some(state);
            return;
        },
    };
    let preview = prompt_preview_for(agent, target);
    let has_file_changes = agent_has_tracked_edits_from(agent, target);
    let offer_files_only = agent.inline_edit.is_none();
    open_mode_select(
        agent,
        target,
        state.anchor_entry_idx,
        state.stashed_draft,
        preview,
        has_file_changes,
        offer_files_only,
    );
}

/// The agent after a turn was picked: its entry is selected, and the mode question is open.
pub open spec fn picked(agent: AgentModel, target: usize) -> AgentModel {
    let anchor = entry_for(agent.transcript.entries, target);
    let selected = AgentModel {
        transcript: TranscriptModel {
            selected: if anchor is Some {
                anchor
            } else {
                agent.transcript.selected
            },
            ..agent.transcript
        },
        ..agent
    };
    asked_mode(
        selected,
        target,
        match anchor {
            Some(i) => i,
            None => 0,
        },
        agent.draft(),
    )
}

/// Picks the turn to rewind to.
pub fn pick(agent: &mut AgentView, prompt_index: usize)
    ensures
        final(agent)@ == picked(old(agent)@, prompt_index),
{
    let preview = prompt_preview_for(agent, prompt_index);
    let has_file_changes = agent_has_tracked_edits_from(agent, prompt_index);
    let offer_files_only = agent.inline_edit.is_none();
    let anchor = find_user_prompt_entry_for_shell_index(&agent.scrollback, prompt_index);
    if let Some(entry_idx) = anchor {
        agent.scrollback.set_selected(Some(entry_idx));
    }
    let draft = take_draft(agent);
    open_mode_select(
        agent,
        prompt_index,
        match anchor {
            Some(i) => i,
            None => 0,
        },
        draft,
        preview,
        has_file_changes,
        offer_files_only,
    );
}

/// The agent after the flow was opened. The composer's draft is stashed. A running turn is
/// offered to be cancelled first; otherwise the points are being loaded.
pub open spec fn begun(
    agent: AgentModel,
    busy_anchor: usize,
    anchor: usize,
    selected: Option<usize>,
) -> AgentModel {
    let stashed = AgentModel { prompt: agent.prompt.after_stash(), ..agent };
    if agent.session.state is Idle {
        stashed.with_flow(PhaseModel::Loading, anchor, agent.prompt.stashed(), selected)
    } else {
        stashed.with_flow(
            PhaseModel::CancelOffer { active_idx: 0 },
            busy_anchor,
            agent.prompt.stashed(),
            selected,
        )
    }
}

/// What opening the flow asks for: the points, unless a turn is running.
pub open spec fn begin_effects(agent: AgentModel, id: AgentId, session: Seq<char>) -> Seq<
    EffectModel,
> {
    if agent.session.state is Idle {
        seq![EffectModel::FetchRewindPoints { agent: id, session }]
    } else {
        seq![]
    }
}

fn begin(
    agent: &mut AgentView,
    id: AgentId,
    session_id: String,
    busy_anchor: usize,
    anchor: usize,
    selected: Option<usize>,
) -> (effects: Vec<Effect>)
    ensures
        final(agent)@ == begun(old(agent)@, busy_anchor, anchor, selected),
        effects_of(effects@) == begin_effects(old(agent)@, id, session_id@),
{
    let draft = stash_prompt(&mut agent.prompt);
    if agent.session.state.is_busy() {
        agent.rewind_state = Some(RewindState::new_cancel_offer(busy_anchor, draft, selected));
        return no_effects();
    }
    agent.rewind_state = Some(
        RewindState {
            phase: RewindPhase::Loading,
            anchor_entry_idx: anchor,
            stashed_draft: draft,
            selected_prompt_index: selected,
        },
    );
    one_effect(Effect::FetchRewindPoints { agent_id: id, session_id })
}

/// The last position of the transcript; 0 where it is empty.
pub open spec fn last_entry(agent: AgentModel) -> usize {
    if agent.transcript.entries.len() == 0 {
        0
    } else {
        (agent.transcript.entries.len() - 1) as usize
    }
}

/// The agent after a rewind was asked for, at the selected entry if there is one. A jump picker
/// that is still open is closed, so that it cannot come back stale when the flow ends.
pub open spec fn opened(agent: AgentModel) -> AgentModel {
    let closed = AgentModel { jump_picker_open: false, ..agent };
    match agent.transcript.selected {
        Some(idx) => begun(
            closed,
            last_entry(agent),
            idx,
            shell_index_at(agent.transcript.entries, idx),
        ),
        None => begun(closed, last_entry(agent), 0, None),
    }
}

/// Asks for a rewind at the selected entry. `None` without a session.
pub fn open_at_selection(agent: &mut AgentView, id: AgentId) -> (r: Option<Vec<Effect>>)
    ensures
        match (old(agent)@.session.session_id, r) {
            (Some(session), Some(effects)) => {
                &&& final(agent)@ == opened(old(agent)@)
                &&& effects_of(effects@) == begin_effects(old(agent)@, id, session)
            },
            (None, None) => final(agent)@ == old(agent)@,
            _ => false,
        },
{
    let session_id = match &agent.session.session_id {
        Some(s) => s.clone(),
        None => {
            return None;
        },
    };
    agent.jump_picker_open = false;
    let selected = agent.scrollback.selected();
    let shell_idx = match selected {
        Some(idx) => shell_prompt_index_at(&agent.scrollback, idx),
        None => None,
    };
    let busy_anchor: usize = agent.scrollback.len().saturating_sub(1);
    let anchor: usize = match selected {
        Some(idx) => idx,
        None => 0,
    };
    Some(begin(agent, id, session_id, busy_anchor, anchor, shell_idx))
}

/// The agent after the list of turns was asked for, whatever is selected.
pub open spec fn listed(agent: AgentModel) -> AgentModel {
    begun(AgentModel { jump_picker_open: false, ..agent }, last_entry(agent), 0, None)
}

/// Asks for the list of turns. `None` without a session.
pub fn open_list(agent: &mut AgentView, id: AgentId) -> (r: Option<Vec<Effect>>)
    ensures
        match (old(agent)@.session.session_id, r) {
            (Some(session), Some(effects)) => {
                &&& final(agent)@ == listed(old(agent)@)
                &&& effects_of(effects@) == begin_effects(old(agent)@, id, session)
            },
            (None, None) => final(agent)@ == old(agent)@,
            _ => false,
        },
{
    let session_id = match &agent.session.session_id {
        Some(s) => s.clone(),
        None => {
            return None;
        },
    };
    agent.jump_picker_open = false;
    let busy_anchor: usize = agent.scrollback.len().saturating_sub(1);
    Some(begin(agent, id, session_id, busy_anchor, 0, None))
}

/// The agent with the inline editor closed.
pub open spec fn editor_closed(agent: AgentModel) -> AgentModel {
    AgentModel {
        inline_edit: None,
        transcript: TranscriptModel { inline_edit_height: None, ..agent.transcript },
        ..agent
    }
}

pub(crate) fn exit_inline_edit(agent: &mut AgentView)
    ensures
        final(agent)@ == editor_closed(old(agent)@),
{
    agent.inline_edit = None;
    agent.scrollback.set_inline_edit_height(None);
}

/// The agent, and what is asked for, after the edited prompt was submitted. An edit that comes to
/// nothing only closes the editor. Otherwise the flow opens at the prompt's entry.
pub open spec fn edit_submitted(agent: AgentModel, id: AgentId, session: Seq<char>) -> (
    AgentModel,
    Seq<EffectModel>,
) {
    match agent.inline_edit {
        None => (agent, seq![]),
        Some(edit) => {
            let text = trimmed(edit.text);
            if text.len() == 0 || text == trimmed(edit.original) {
                (editor_closed(agent), seq![])
            } else {
                let anchor = match position_of(agent.transcript.entries, edit.entry_id) {
                    Some(i) => i,
                    None => match agent.transcript.selected {
                        Some(i) => i,
                        None => 0,
                    },
                };
                (
                    begun(agent, anchor, anchor, Some(edit.prompt_index)),
                    begin_effects(agent, id, session),
                )
            }
        },
    }
}

/// Submits the edited prompt. `None` without a session.
pub fn submit_edit(agent: &mut AgentView, id: AgentId) -> (r: Option<Vec<Effect>>)
    ensures
        match (old(agent)@.session.session_id, r) {
            (Some(session), Some(effects)) => (final(agent)@, effects_of(effects@))
                == edit_submitted(old(agent)@, id, session),
            (None, None) => final(agent)@ == old(agent)@,
            _ => false,
        },
{
    let session_id = match &agent.session.session_id {
        Some(s) => s.clone(),
        None => {
            return None;
        },
    };
    let (text, original, target, entry_id) = match &agent.inline_edit {
        Some(edit) => (
            trim(edit.textarea.text()),
            trim(edit.original.as_str()),
            edit.prompt_index,
            edit.entry_id,
        ),
        None => {
            return Some(no_effects());
        },
    };
    // Unchanged/empty edits have nothing to submit: just close the editor.
    if text.as_str().is_empty() || same_text(text.as_str(), original.as_str()) {
        exit_inline_edit(agent);
        return Some(no_effects());
    }
    let anchor: usize = match agent.scrollback.index_of_id(entry_id) {
        Some(i) => i,
        None => match agent.scrollback.selected() {
            Some(i) => i,
            None => 0,
        },
    };
    Some(begin(agent, id, session_id, anchor, anchor, Some(target)))
}

/// The agent with the edited prompt put aside to be sent once the rewind has landed.
pub open spec fn resubmit_stashed(agent: AgentModel) -> AgentModel {
    match agent.inline_edit {
        Some(edit) => AgentModel { pending_resubmit: Some(trimmed(edit.text)), ..agent },
        None => agent,
    }
}

/// The single place the inline-edit resubmit gets set: called right before every
/// `Effect::RewindExecute`. Dismissal, errors and empty lists never set it, so they need no
/// clearing; the editor stays open there.
pub fn stash_inline_resubmit_if_editing(agent: &mut AgentView)
    ensures
        final(agent)@ == resubmit_stashed(old(agent)@),
{
    if let Some(edit) = &agent.inline_edit {
        let text = trim(edit.textarea.text());
        agent.pending_inline_resubmit = Some(text);
    }
}

/// The agent, and what is asked for, after the rewind was started. Without a session the flow
/// ends instead.
pub open spec fn executed(
    agent: AgentModel,
    id: AgentId,
    target: usize,
    mode: RewindMode,
) -> (AgentModel, Seq<EffectModel>) {
    match agent.session.session_id {
        None => (agent.dismissed(), seq![]),
        Some(session) => (
            resubmit_stashed(
                agent.with_flow(
                    PhaseModel::Executing { target, mode },
                    agent.anchor(),
                    agent.draft(),
                    None,
                ),
            ),
            seq![EffectModel::RewindExecute { agent: id, session, target, mode }],
        ),
    }
}

/// Enter `Executing` and ask for the rewind. The flow hands over its anchor and draft.
pub fn enter_executing(
    agent: &mut AgentView,
    agent_id: AgentId,
    target: usize,
    anchor: usize,
    draft: Option<StashedPrompt>,
    mode: RewindMode,
) -> (effects: Vec<Effect>)
    ensures
        ({
            let before = AgentModel { flow: None, ..old(agent)@ };
            match before.session.session_id {
                None => {
                    &&& final(agent)@ == (AgentModel { points: None, ..before }).with_draft(
                        draft_of(draft),
                    )
                    &&& effects_of(effects@) == Seq::<EffectModel>::empty()
                },
                Some(session) => {
                    &&& final(agent)@ == resubmit_stashed(
                        before.with_flow(
                            PhaseModel::Executing { target, mode },
                            anchor,
                            draft_of(draft),
                            None,
                        ),
                    )
                    &&& effects_of(effects@) == seq![
                        EffectModel::RewindExecute { agent: agent_id, session, target, mode },
                    ]
                },
            }
        }),
{
    let session_id = match &agent.session.session_id {
        Some(s) => s.clone(),
        None => {
            restore_draft(agent, draft);
            agent.rewind_state = None;
            agent.rewind_points = None;
            return no_effects();
        },
    };
    agent.rewind_state = Some(
        RewindState {
            phase: RewindPhase::Executing { target_prompt_index: target, mode },
            anchor_entry_idx: anchor,
            stashed_draft: draft,
            selected_prompt_index: None,
        },
    );
    stash_inline_resubmit_if_editing(agent);
    one_effect(
        Effect::RewindExecute { agent_id, session_id, target_prompt_index: target, mode },
    )
}

/// What the mode question offers, or would offer, for `target`: whether files would move, and
/// whether rewinding files alone is on the list.
pub open spec fn offered(agent: AgentModel, target: usize) -> (bool, bool) {
    match agent.flow {
        Some(state) => match state.phase {
            PhaseModel::ModeSelect { has_file_changes, offer_files_only, .. } => (
                has_file_changes,
                offer_files_only,
            ),
            _ => (edits_from(agent, target), agent.inline_edit is None),
        },
        None => (edits_from(agent, target), agent.inline_edit is None),
    }
}

/// A rewind in `mode` may move files. `All` with nothing tracked on disk moves none.
pub open spec fn touches_files(mode: RewindMode, has_file_changes: bool) -> bool {
    match mode {
        RewindMode::FilesOnly => true,
        RewindMode::All => has_file_changes,
        RewindMode::ConversationOnly => false,
    }
}

/// The agent, and what is asked for, after a mode was chosen. Anything that touches files goes
/// through a dry run first. A pure conversation rewind is gated by the warning that the first
/// prompt's edits would be orphaned, or by the confirm setting, and otherwise starts at once.
pub open spec fn mode_chosen(
    agent: AgentModel,
    id: AgentId,
    confirm: bool,
    target: usize,
    mode: RewindMode,
) -> (AgentModel, Seq<EffectModel>) {
    let (has_file_changes, offer_files_only) = offered(agent, target);
    if mode is FilesOnly && (!has_file_changes || !offer_files_only) {
        (agent, seq![])
    } else if touches_files(mode, has_file_changes) {
        match agent.session.session_id {
            None => (agent.dismissed(), seq![]),
            Some(session) => (
                agent.with_flow(
                    PhaseModel::Previewing { target, mode },
                    agent.anchor(),
                    agent.draft(),
                    Some(target),
                ),
                seq![EffectModel::RewindPreview { agent: id, session, target, mode }],
            ),
        }
    } else if target == 0 && has_file_changes {
        (
            agent.with_flow(
                PhaseModel::OrphanWarning {
                    target,
                    active_idx: 0,
                    preview: preview_for(agent, target),
                },
                agent.anchor(),
                agent.draft(),
                Some(target),
            ),
            seq![],
        )
    } else if confirm {
        (
            agent.with_flow(
                PhaseModel::Confirm {
                    target,
                    mode,
                    active_idx: 0,
                    preview: preview_for(agent, target),
                },
                agent.anchor(),
                agent.draft(),
                Some(target),
            ),
            seq![],
        )
    } else {
        executed(agent, id, target, mode)
    }
}

/// Chooses what to rewind. `confirm` is the confirm-before-rewind setting.
pub fn choose_mode(
    agent: &mut AgentView,
    id: AgentId,
    confirm: bool,
    target: usize,
    mode: RewindMode,
) -> (effects: Vec<Effect>)
    ensures
        (final(agent)@, effects_of(effects@)) == mode_chosen(
            old(agent)@,
            id,
            confirm,
            target,
            mode,
        ),
{
    let asked = match &agent.rewind_state {
        Some(state) => match &state.phase {
            RewindPhase::ModeSelect { has_file_changes, offer_files_only, .. } => Some(
                (*has_file_changes, *offer_files_only),
            ),
            _ => None,
        },
        None => None,
    };
    let (has_file_changes, offer_files_only) = match asked {
        Some(facts) => facts,
        None => (agent_has_tracked_edits_from(agent, target), agent.inline_edit.is_none()),
    };
    // The files-only row is dim (no tracked edits) or absent (inline resubmit) in these cases,
    // so a stray key or click must not slip past it.
    if matches!(mode, RewindMode::FilesOnly) && (!has_file_changes || !offer_files_only) {
        return no_effects();
    }
    let anchor: usize = anchor_of(agent);
    let preview = prompt_preview_for(agent, target);
    // `All` with nothing tracked on disk moves no files, so it takes the conversation path below.
    // The wire mode stays `All` either way.
    let touches = match mode {
        RewindMode::FilesOnly => true,
        RewindMode::All => has_file_changes,
        RewindMode::ConversationOnly => false,
    };
    let draft = take_draft(agent);
    if touches {
        let session_id = match &agent.session.session_id {
            Some(s) => s.clone(),
            None => {
                restore_draft(agent, draft);
                agent.rewind_points = None;
                return no_effects();
            },
        };
        agent.rewind_state = Some(
            RewindState {
                phase: RewindPhase::Previewing { target_prompt_index: target, mode },
                anchor_entry_idx: anchor,
                stashed_draft: draft,
                selected_prompt_index: Some(target),
            },
        );
        return one_effect(
            Effect::RewindPreview { agent_id: id, session_id, target_prompt_index: target, mode },
        );
    }
    if target == 0 && has_file_changes {
        // Rewinding the conversation to prompt 0 clears every file snapshot, so the discarded
        // turns' edits stay on disk with no later files-only rewind able to undo them.
        agent.rewind_state = Some(
            RewindState {
                phase: RewindPhase::OrphanWarning {
                    target_prompt_index: target,
                    active_idx: 0,
                    prompt_preview: preview,
                },
                anchor_entry_idx: anchor,
                stashed_draft: draft,
                selected_prompt_index: Some(target),
            },
        );
        return no_effects();
    }
    if confirm {
        agent.rewind_state = Some(
            RewindState {
                phase: RewindPhase::Confirm {
                    target_prompt_index: target,
                    mode,
                    active_idx: 0,
                    prompt_preview: preview,
                },
                anchor_entry_idx: anchor,
                stashed_draft: draft,
                selected_prompt_index: Some(target),
            },
        );
        return no_effects();
    }
    enter_executing(agent, id, target, anchor, draft, mode)
}

/// The agent, and what is asked for, after it was agreed to cancel the running turn: the turn is
/// cancelled, then the points are loaded. The rewind itself takes prompts off the history, so the
/// cancel must not take one off too.
pub open spec fn cancel_agreed(agent: AgentModel, id: AgentId) -> (
    AgentModel,
    Seq<EffectModel>,
) {
    match agent.session.session_id {
        None => (agent, seq![]),
        Some(session) => (
            agent.with_flow(
                PhaseModel::Loading,
                agent.anchor(),
                agent.draft(),
                match agent.flow {
                    Some(state) => state.selected,
                    None => None,
                },
            ),
            seq![
                EffectModel::CancelTurn {
                    session,
                    cancel_subagents: true,
                    trigger: None,
                    rewind_prompt_id: None,
                },
                EffectModel::FetchRewindPoints { agent: id, session },
            ],
        ),
    }
}

/// Cancels the running turn and goes on with the flow.
pub fn cancel_then_proceed(agent: &mut AgentView, id: AgentId) -> (effects: Vec<Effect>)
    ensures
        (final(agent)@, effects_of(effects@)) == cancel_agreed(old(agent)@, id),
{
    let session_id = match &agent.session.session_id {
        Some(s) => s.clone(),
        None => {
            return no_effects();
        },
    };
    let anchor: usize = anchor_of(agent);
    let selected = match &agent.rewind_state {
        Some(state) => state.selected_prompt_index,
        None => None,
    };
    let draft = take_draft(agent);
    agent.rewind_state = Some(
        RewindState {
            phase: RewindPhase::Loading,
            anchor_entry_idx: anchor,
            stashed_draft: draft,
            selected_prompt_index: selected,
        },
    );
    let mut effects: Vec<Effect> = Vec::new();
    effects.push(
        Effect::CancelTurn {
            session_id: session_id.clone(),
            cancel_subagents: true,
            trigger: None,
            rewind_prompt_id: None,
        },
    );
    effects.push(Effect::FetchRewindPoints { agent_id: id, session_id });
    assert(effects_of(effects@) =~= cancel_agreed(old(agent)@, id).1);
    effects
}

/// The mode that a confirm-style panel commits to.
pub open spec fn committed_mode(phase: PhaseModel) -> RewindMode {
    match phase {
        PhaseModel::FilePreview { mode, .. } => mode,
        PhaseModel::Confirm { mode, .. } => mode,
        _ => RewindMode::ConversationOnly,
    }
}

/// The agent, and what is asked for, after a confirm row was chosen. Only the three confirm-style
/// panels can commit; anything else stays exactly as it is.
pub open spec fn confirmed(agent: AgentModel, id: AgentId, target: usize) -> (
    AgentModel,
    Seq<EffectModel>,
) {
    match agent.flow {
        Some(state) if is_confirm_style(state.phase) => executed(
            agent,
            id,
            target,
            committed_mode(state.phase),
        ),
        _ => (agent, seq![]),
    }
}

/// Commits to the rewind that a confirm-style panel describes.
pub fn confirm(agent: &mut AgentView, id: AgentId, target: usize) -> (effects: Vec<Effect>)
    ensures
        (final(agent)@, effects_of(effects@)) == confirmed(old(agent)@, id, target),
{
    let mode = match &agent.rewind_state {
        Some(state) => match &state.phase {
            RewindPhase::FilePreview { mode, .. } => *mode,
            RewindPhase::Confirm { mode, .. } => *mode,
            // The orphan warning only ever guards a conversation-only rewind.
            RewindPhase::OrphanWarning { .. } => RewindMode::ConversationOnly,
            _ => {
                return no_effects();
            },
        },
        None => {
            return no_effects();
        },
    };
    let anchor: usize = anchor_of(agent);
    let draft = take_draft(agent);
    enter_executing(agent, id, target, anchor, draft, mode)
}

} // verus!
