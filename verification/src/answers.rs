//! The rewind flow of one agent as the shell answers it: the points that were loaded, the result
//! of a dry run, and the outcome of the rewind.

use vstd::prelude::*;
use vstd::string::*;

use crate::app_state::{
    effects_of, no_effects, one_effect, ActivePane, AgentId, AgentModel, AgentState, AgentView,
    Effect, EffectModel, SessionModel,
};
use crate::composer::{stash_prompt, PromptModel};
use crate::flow::{
    anchor_of, editor_closed, exit_inline_edit, fail, open_mode_select, preview_for,
    prompt_preview_for, restore_draft, take_draft,
};
use crate::phase::{
    copy_points, file_count, file_count_phrase, mode_of, points_of, shown_conflicts,
    ConflictDisplay, PhaseModel, PointModel, ResponseModel, RewindMode, RewindPhase,
    RewindPointInfo, RewindResponse, RewindState,
};
use crate::points::{
    edited_from, has_tracked_edits_from, law_newest_first, newest_first, newest_position,
    position_for, resolved, sort_newest_first,
};
use crate::text::{copy_text, text_of, trim, trimmed};
use crate::transcript::{
    entry_for, find_user_prompt_entry_for_shell_index, BlockModel, RenderBlock, TranscriptModel,
    Viewport,
};

verus! {

/// The agent after its points were loaded. With none the flow ends. With a turn in mind the mode
/// question opens for it, or for the newest turn where it is not among the points. Otherwise the
/// picker opens.
pub open spec fn points_loaded(agent: AgentModel, points: Seq<PointModel>) -> AgentModel {
    let known = AgentModel { points: Some(points), flow: None, ..agent };
    let wanted = match agent.flow {
        Some(state) => state.selected,
        None => None,
    };
    if points.len() == 0 {
        known.with_draft(agent.draft())
    } else {
        let (composer, draft) = match agent.draft() {
            Some(d) => (known, Some(d)),
            None => (
                AgentModel { prompt: agent.prompt.after_stash(), ..known },
                agent.prompt.stashed(),
            ),
        };
        match wanted {
            Some(t) => {
                let point = resolved(points, t);
                let anchor = entry_for(agent.transcript.entries, point.prompt_index);
                AgentModel {
                    transcript: TranscriptModel {
                        selected: if anchor is Some {
                            anchor
                        } else {
                            agent.transcript.selected
                        },
                        ..agent.transcript
                    },
                    ..composer
                }.with_flow(
                    PhaseModel::ModeSelect {
                        target: point.prompt_index,
                        has_file_changes: edited_from(points, point.prompt_index),
                        offer_files_only: agent.inline_edit is None,
                        active_idx: 0,
                        preview: point.prompt_preview,
                    },
                    match anchor {
                        Some(i) => i,
                        None => 0,
                    },
                    draft,
                    Some(point.prompt_index),
                )
            },
            None => {
                let sorted = newest_first(points);
                let anchor = match entry_for(agent.transcript.entries, sorted[0].prompt_index) {
                    Some(i) => i,
                    None => 0,
                };
                AgentModel {
                    transcript: TranscriptModel {
                        viewport: Viewport::CenteredOn(anchor),
                        ..agent.transcript
                    },
                    ..composer
                }.with_flow(PhaseModel::Picker { points: sorted, selected: 0 }, anchor, draft, None)
            },
        }
    }
}

/// Takes in the points that were loaded. Says whether there were any.
pub fn take_points(agent: &mut AgentView, points: Vec<RewindPointInfo>) -> (any: bool)
    ensures
        final(agent)@ == points_loaded(old(agent)@, points_of(points@)),
        any == (points@.len() > 0),
{
    agent.rewind_points = Some(copy_points(&points));
    let wanted = match &agent.rewind_state {
        Some(state) => state.selected_prompt_index,
        None => None,
    };
    let stashed = take_draft(agent);
    if points.len() == 0 {
        restore_draft(agent, stashed);
        return false;
    }
    let draft = match stashed {
        Some(d) => Some(d),
        None => stash_prompt(&mut agent.prompt),
    };
    if let Some(t) = wanted {
        let at: usize = match position_for(points.as_slice(), t) {
            Some(i) => i,
            None => newest_position(points.as_slice()),
        };
        let target: usize = points[at].prompt_index;
        let preview = copy_text(&points[at].prompt_preview);
        let has_file_changes = has_tracked_edits_from(points.as_slice(), target);
        // Inline edit-and-resubmit: the conversation rewind is a given, so hide the files-only row
        let offer_files_only = agent.inline_edit.is_none();
        let anchor = find_user_prompt_entry_for_shell_index(&agent.scrollback, target);
        if let Some(entry_idx) = anchor {
            agent.scrollback.set_selected(Some(entry_idx));
        }
        open_mode_select(
            agent,
            target,
            match anchor {
                Some(i) => i,
                None => 0,
            },
            draft,
            preview,
            has_file_changes,
            offer_files_only,
        );
        return true;
    }
    let sorted = sort_newest_first(&points);
    proof {
        law_newest_first(points_of(points@));
        assert(points_of(sorted@)[0] == sorted@[0]@);
    }
    let anchor: usize = match find_user_prompt_entry_for_shell_index(
        &agent.scrollback,
        sorted[0].prompt_index,
    ) {
        Some(i) => i,
        None => 0,
    };
    agent.rewind_state = Some(
        RewindState {
            phase: RewindPhase::Picker { points: sorted, selected: 0 },
            anchor_entry_idx: anchor,
            stashed_draft: draft,
            selected_prompt_index: None,
        },
    );
    agent.scrollback.scroll_to_entry_center(anchor);
    true
}

/// The dry run that the flow on screen waits for is the one for `target` in `mode`.
pub open spec fn awaits(agent: AgentModel, target: usize, mode: RewindMode) -> bool {
    agent.flow matches Some(state) && state.phase == (PhaseModel::Previewing { target, mode })
}

/// Whether a preview result still belongs to the flow on screen.
/// Esc during the dry run drops the whole flow, and a late result must not resurrect it.
pub fn awaiting_preview(agent: &AgentView, target: usize, mode: RewindMode) -> (r: bool)
    ensures
        r == awaits(agent@, target, mode),
{
    match &agent.rewind_state {
        Some(state) => match &state.phase {
            RewindPhase::Previewing { target_prompt_index, mode: m } => *target_prompt_index
                == target && *m == mode,
            _ => false,
        },
        None => false,
    }
}

/// The agent after a dry run came back. A result that nothing waits for changes nothing.
/// Conflicts are rows of the panel, not a failure; a real error comes with both lists empty.
pub open spec fn previewed(
    agent: AgentModel,
    response: ResponseModel,
    target: usize,
    mode: RewindMode,
) -> AgentModel {
    if !awaits(agent, target, mode) {
        agent
    } else if response.error is Some && response.clean_files.len() == 0
        && response.conflicts.len() == 0 {
        agent.failed(response.error->0)
    } else {
        agent.with_flow(
            PhaseModel::FilePreview {
                target,
                mode,
                clean_files: response.clean_files,
                conflicts: shown_conflicts(response.conflicts),
                active_idx: 0,
                preview: preview_for(agent, target),
            },
            agent.anchor(),
            agent.draft(),
            Some(target),
        )
    }
}

/// Takes in the result of a dry run.
pub fn take_preview(
    agent: &mut AgentView,
    response: RewindResponse,
    target_prompt_index: usize,
    mode: RewindMode,
)
    ensures
        final(agent)@ == previewed(old(agent)@, response@, target_prompt_index, mode),
{
    if !awaiting_preview(agent, target_prompt_index, mode) {
        return;
    }
    let anchor: usize = anchor_of(agent);
    if response.clean_files.len() == 0 && response.conflicts.len() == 0 {
        if let Some(error) = response.error {
            fail(agent, error);
            return;
        }
    }
    let conflicts = ConflictDisplay::from_conflicts(&response.conflicts);
    let preview = prompt_preview_for(agent, target_prompt_index);
    let draft = take_draft(agent);
    agent.rewind_state = Some(
        RewindState {
            phase: RewindPhase::FilePreview {
                target_prompt_index,
                mode,
                clean_files: response.clean_files,
                conflicts,
                active_idx: 0,
                prompt_preview: preview,
            },
            anchor_entry_idx: anchor,
            stashed_draft: draft,
            selected_prompt_index: Some(target_prompt_index),
        },
    );
}

/// The agent after a dry run could not be done. One that nothing waits for changes nothing.
pub open spec fn preview_lost(
    agent: AgentModel,
    error: Seq<char>,
    target: usize,
    mode: RewindMode,
) -> AgentModel {
    if awaits(agent, target, mode) {
        agent.failed(error)
    } else {
        agent
    }
}

/// Takes in that a dry run could not be done.
pub fn lose_preview(
    agent: &mut AgentView,
    error: String,
    target_prompt_index: usize,
    mode: RewindMode,
)
    ensures
        final(agent)@ == preview_lost(old(agent)@, error@, target_prompt_index, mode),
{
    if awaiting_preview(agent, target_prompt_index, mode) {
        fail(agent, error);
    }
}

/// The agent after the rewind could not be done. A pending resubmit dies with it; the editor
/// stays open, so that dismissing the error returns to editing.
pub open spec fn rewind_lost(agent: AgentModel, error: Seq<char>) -> AgentModel {
    AgentModel { pending_resubmit: None, ..agent }.failed(error)
}

/// Takes in that the rewind could not be done.
pub fn lose_rewind(agent: &mut AgentView, error: String)
    ensures
        final(agent)@ == rewind_lost(old(agent)@, error@),
{
    agent.pending_inline_resubmit = None;
    fail(agent, error);
}

/// The mode that a rewind was done in: the one the shell reports, or else the one that the flow
/// was executing.
pub open spec fn done_mode(agent: AgentModel, response: ResponseModel) -> RewindMode {
    match response.mode {
        Some(wire) => mode_of(wire),
        None => match agent.flow {
            Some(state) => match state.phase {
                PhaseModel::Executing { mode, .. } => mode,
                _ => RewindMode::ConversationOnly,
            },
            None => RewindMode::ConversationOnly,
        },
    }
}

/// What the user is told of a rewind. A resubmit speaks for itself: only files that moved are
/// mentioned then.
pub open spec fn landing_notice(mode: RewindMode, reverted: nat, resubmits: bool) -> Option<
    Seq<char>,
> {
    if resubmits {
        if reverted == 0 {
            None
        } else {
            Some("Reverted "@ + file_count(reverted))
        }
    } else {
        Some(
            match mode {
                RewindMode::ConversationOnly => "Reverted conversation"@,
                RewindMode::FilesOnly => "Reverted "@ + file_count(reverted),
                RewindMode::All => if reverted == 0 {
                    "Reverted conversation"@
                } else {
                    "Reverted conversation and "@ + file_count(reverted)
                },
            },
        )
    }
}

fn landing_message(mode: RewindMode, reverted: usize, resubmits: bool) -> (r: Option<String>)
    ensures
        text_of(r) == landing_notice(mode, reverted as nat, resubmits),
{
    if resubmits {
        if reverted == 0 {
            return None;
        }
        let mut message = "Reverted ".to_owned();
        message.append(file_count_phrase(reverted).as_str());
        return Some(message);
    }
    match mode {
        RewindMode::ConversationOnly => Some("Reverted conversation".to_owned()),
        RewindMode::FilesOnly => {
            let mut message = "Reverted ".to_owned();
            message.append(file_count_phrase(reverted).as_str());
            Some(message)
        },
        RewindMode::All => {
            if reverted == 0 {
                return Some("Reverted conversation".to_owned());
            }
            let mut message = "Reverted conversation and ".to_owned();
            message.append(file_count_phrase(reverted).as_str());
            Some(message)
        },
    }
}

/// The transcript after a rewind of the conversation: without the turn at `target` and all that
/// follows it.
pub open spec fn rewound(transcript: TranscriptModel, target: usize) -> TranscriptModel {
    match entry_for(transcript.entries, target) {
        Some(at) => transcript.cut_at(at),
        None => transcript,
    }
}

/// The agent with a notice on screen; where there is no room for one, in the transcript.
pub open spec fn told(agent: AgentModel, notice: Option<Seq<char>>, minimal: bool) -> AgentModel {
    match notice {
        None => agent,
        Some(text) => if minimal {
            AgentModel {
                transcript: agent.transcript.with_block(BlockModel::System { text }),
                ..agent
            }
        } else {
            AgentModel { toast: Some(text), ..agent }
        },
    }
}

/// The composer after a rewind. The prompt that was rewound to comes back for a new start, unless
/// it is resubmitted or only files moved; then, or without one, the draft comes back.
pub open spec fn refilled(
    prompt: PromptModel,
    draft: Option<PromptModel>,
    prompt_text: Option<Seq<char>>,
    fresh_start: bool,
) -> PromptModel {
    match (prompt_text, draft) {
        (Some(text), _) if fresh_start => PromptModel { text, images: Seq::empty() },
        (_, Some(d)) => d,
        (_, None) => prompt,
    }
}

/// The agent after a rewind that went through.
pub open spec fn landed(agent: AgentModel, response: ResponseModel, minimal: bool) -> AgentModel {
    let mode = done_mode(agent, response);
    let conversation = !(mode is FilesOnly);
    let resubmits = agent.pending_resubmit is Some;
    let closed = if resubmits {
        editor_closed(agent)
    } else {
        agent
    };
    let cut = if conversation {
        AgentModel {
            transcript: rewound(closed.transcript, response.target_prompt_index),
            last_turn_summary: None,
            summary_generation: agent.summary_generation.wrapping_add(1),
            ..closed
        }
    } else {
        closed
    };
    let notice = landing_notice(mode, response.reverted_files.len(), resubmits);
    let shown = told(cut, notice, minimal);
    AgentModel {
        flow: None,
        points: None,
        pending_resubmit: None,
        prompt: refilled(
            agent.prompt,
            agent.draft(),
            response.prompt_text,
            conversation && !resubmits,
        ),
        active_pane: if conversation {
            ActivePane::Prompt
        } else {
            agent.active_pane
        },
        transcript: if conversation {
            TranscriptModel { viewport: Viewport::Bottom, ..shown.transcript }
        } else {
            shown.transcript
        },
        ..shown
    }
}

/// The agent after the shell answered a rewind. A refused rewind drops a pending resubmit and
/// shows the error; the editor stays open.
pub open spec fn answered(agent: AgentModel, response: ResponseModel, minimal: bool) -> AgentModel {
    if response.success {
        landed(agent, response, minimal)
    } else {
        rewind_lost(
            agent,
            match response.error {
                Some(e) => e,
                None => "unknown error"@,
            },
        )
    }
}

/// Part of the transcript went away with the rewind.
pub open spec fn truncates(agent: AgentModel, response: ResponseModel) -> bool {
    &&& response.success
    &&& !(done_mode(agent, response) is FilesOnly)
    &&& entry_for(agent.transcript.entries, response.target_prompt_index) is Some
}

/// What is left to do outside of the agent once a rewind was answered.
pub struct Landing {
    /// Part of the transcript went away.
    pub truncated: bool,
    /// The edited prompt, to be sent now.
    pub resubmit: Option<String>,
}

/// Takes in the shell's answer to a rewind.
pub fn take_answer(agent: &mut AgentView, response: RewindResponse, minimal: bool) -> (r: Landing)
    ensures
        final(agent)@ == answered(old(agent)@, response@, minimal),
        r.truncated == truncates(old(agent)@, response@),
        text_of(r.resubmit) == if response.success {
            old(agent)@.pending_resubmit
        } else {
            None
        },
{
    // Taken unconditionally, so that a failed rewind drops it.
    let resubmit = agent.pending_inline_resubmit.take();
    if !response.success {
        let error = match response.error {
            Some(e) => e,
            None => "unknown error".to_owned(),
        };
        fail(agent, error);
        return Landing { truncated: false, resubmit: None };
    }
    // The rewind went through: the inline editor's job is done. Close it before the truncation
    // below removes its entry.
    if resubmit.is_some() {
        exit_inline_edit(agent);
    }
    let target: usize = response.target_prompt_index;
    // The response echoes the mode it applied; the phase it was launched from is the fallback.
    let executing = match &agent.rewind_state {
        Some(state) => match &state.phase {
            RewindPhase::Executing { mode, .. } => *mode,
            _ => RewindMode::ConversationOnly,
        },
        None => RewindMode::ConversationOnly,
    };
    let mode = match &response.mode {
        Some(wire) => RewindMode::from_wire(wire.as_str()),
        None => executing,
    };
    let draft = take_draft(agent);
    let conversation = !matches!(mode, RewindMode::FilesOnly);
    let mut truncated = false;
    if conversation {
        // The summary describes turns that the rewind just removed. A new generation keeps a copy
        // that is still being read from coming back.
        agent.last_turn_summary = None;
        agent.summary_generation = agent.summary_generation.wrapping_add(1);
        if let Some(at) = find_user_prompt_entry_for_shell_index(&agent.scrollback, target) {
            let _removed = agent.scrollback.remove_from(at);
            truncated = true;
        }
    }
    let reverted: usize = response.reverted_files.len();
    if let Some(message) = landing_message(mode, reverted, resubmit.is_some()) {
        if minimal {
            // There is no toast area and committed lines cannot be erased, so the confirmation
            // stays in the transcript there.
            let _id = agent.scrollback.push_block(RenderBlock::system(message));
        } else {
            agent.toast = Some(message);
        }
    }
    if conversation && resubmit.is_none() {
        match &response.prompt_text {
            Some(text) => agent.prompt.set_text(text.as_str()),
            None => restore_draft(agent, draft),
        }
    } else {
        // The composer was never the subject, so the draft comes straight back.
        restore_draft(agent, draft);
    }
    agent.rewind_points = None;
    if conversation {
        agent.active_pane = ActivePane::Prompt;
        agent.scrollback.goto_bottom();
    }
    Landing { truncated, resubmit }
}

/// The agent, and what is asked for, after a prompt was sent as it stands, past the composer. An
/// idle session starts a turn with it; a busy one queues it.
pub open spec fn sent(agent: AgentModel, id: AgentId, text: Seq<char>) -> (
    AgentModel,
    Seq<EffectModel>,
) {
    if agent.session.state is Idle {
        (
            AgentModel {
                session: SessionModel { state: AgentState::TurnRunning, ..agent.session },
                transcript: agent.transcript.with_block(
                    BlockModel::UserPrompt { text, prompt_index: None, is_interjection: false },
                ),
                ..agent
            },
            seq![EffectModel::SendPrompt { agent: id, text }],
        )
    } else {
        (
            AgentModel {
                session: SessionModel {
                    queued_prompts: agent.session.queued_prompts.push(text),
                    ..agent.session
                },
                ..agent
            },
            seq![],
        )
    }
}

/// Sends a prompt as it stands, past the composer.
pub fn send_prompt(agent: &mut AgentView, id: AgentId, text: String) -> (effects: Vec<Effect>)
    ensures
        (final(agent)@, effects_of(effects@)) == sent(old(agent)@, id, text@),
{
    if agent.session.state.is_busy() {
        agent.session.queued_prompts.push(text);
        assert(agent@.session.queued_prompts =~= old(agent)@.session.queued_prompts.push(text@));
        return no_effects();
    }
    agent.session.state = AgentState::TurnRunning;
    let _id = agent.scrollback.push_block(RenderBlock::user_prompt(text.clone()));
    one_effect(Effect::SendPrompt { agent_id: id, text })
}

/// The composer with a prompt that could not be sent: in place of a blank one, or after what is
/// already written.
pub open spec fn prefilled(prompt: PromptModel, text: Seq<char>) -> PromptModel {
    if trimmed(prompt.text).len() == 0 {
        PromptModel { text, images: Seq::empty() }
    } else {
        PromptModel { text: prompt.text + ("\n"@ + text), ..prompt }
    }
}

/// Puts a prompt that could not be sent into the composer.
pub fn prefill(agent: &mut AgentView, text: String)
    ensures
        final(agent)@ == (AgentModel { prompt: prefilled(old(agent)@.prompt, text@), ..old(agent)@
        }),
{
    if trim(agent.prompt.text()).as_str().is_empty() {
        agent.prompt.set_text(text.as_str());
    } else {
        let mut line = "\n".to_owned();
        line.append(text.as_str());
        agent.prompt.append_text(line.as_str());
    }
}

} // verus!
