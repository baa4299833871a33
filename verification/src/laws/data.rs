//! What the models of the data stand for: every value that a program holds is in its model, and
//! what goes over the wire means what it says.

use vstd::prelude::*;
use vstd::string::*;

use crate::app_state::{
    effects_of, requests_of, AgentId, AgentView, AppView, Effect, EffectModel, HostRequest,
    InlineEdit, RequestModel, Session,
};
use crate::composer::{draft_of, images_of, PromptImage, PromptModel, PromptWidget, StashedPrompt};
use crate::phase::{
    conflict_infos_of, conflict_label, conflicts_of, mode_of, points_of, shown_conflict,
    shown_conflicts, wire_of, ConflictDisplay, ConflictInfoModel, PhaseModel, RewindConflictInfo,
    RewindMode, RewindPhase, RewindPointInfo, RewindResponse, RewindState,
};
use crate::text::{text_of, texts_of};
use crate::transcript::{
    entries_of, BlockModel, RenderBlock, ScrollbackEntry, ScrollbackState, UserPromptBlock,
};

verus! {

/// A text that may be missing is there in the model exactly if it is there, and as it is.
pub proof fn law_optional_text(text: Option<String>)
    ensures
        text is None <==> text_of(text) is None,
        text matches Some(t) ==> text_of(text) == Some(t@),
{
}

/// Lists keep their length and their order, item by item.
pub proof fn law_lists(
    texts: Seq<String>,
    points: Seq<RewindPointInfo>,
    infos: Seq<RewindConflictInfo>,
    conflicts: Seq<ConflictDisplay>,
    images: Seq<PromptImage>,
    entries: Seq<ScrollbackEntry>,
    effects: Seq<Effect>,
    requests: Seq<HostRequest>,
    i: int,
)
    ensures
        texts_of(texts).len() == texts.len(),
        points_of(points).len() == points.len(),
        conflict_infos_of(infos).len() == infos.len(),
        conflicts_of(conflicts).len() == conflicts.len(),
        images_of(images).len() == images.len(),
        entries_of(entries).len() == entries.len(),
        effects_of(effects).len() == effects.len(),
        requests_of(requests).len() == requests.len(),
        0 <= i < texts.len() ==> texts_of(texts)[i] == texts[i]@,
        0 <= i < points.len() ==> points_of(points)[i] == points[i]@,
        0 <= i < infos.len() ==> conflict_infos_of(infos)[i] == infos[i]@,
        0 <= i < conflicts.len() ==> conflicts_of(conflicts)[i] == conflicts[i]@,
        0 <= i < images.len() ==> images_of(images)[i] == images[i]@,
        0 <= i < entries.len() ==> entries_of(entries)[i] == entries[i]@,
        0 <= i < effects.len() ==> effects_of(effects)[i] == effects[i]@,
        0 <= i < requests.len() ==> requests_of(requests)[i] == requests[i]@,
{
}

/// A point, a conflict and an answer of the shell, field by field.
pub proof fn law_messages(
    point: RewindPointInfo,
    info: RewindConflictInfo,
    conflict: ConflictDisplay,
    response: RewindResponse,
)
    ensures
        point@.prompt_index == point.prompt_index,
        point@.created_at == point.created_at@,
        point@.num_file_snapshots == point.num_file_snapshots,
        point@.prompt_preview == text_of(point.prompt_preview),
        point@.has_file_changes == point.has_file_changes,
        info@.path == info.path@,
        info@.conflict_type == info.conflict_type@,
        conflict@.path == conflict.path@,
        conflict@.label == conflict.label@,
        response@.success == response.success,
        response@.target_prompt_index == response.target_prompt_index,
        response@.reverted_files == texts_of(response.reverted_files@),
        response@.clean_files == texts_of(response.clean_files@),
        response@.conflicts == conflict_infos_of(response.conflicts@),
        response@.error == text_of(response.error),
        response@.mode == text_of(response.mode),
        response@.prompt_text == text_of(response.prompt_text),
{
}

/// A phase, field by field.
pub proof fn law_phases(phase: RewindPhase)
    ensures
        match phase {
            RewindPhase::Loading => phase@ is Loading,
            RewindPhase::Picker { points, selected } => phase@ == (PhaseModel::Picker {
                points: points_of(points@),
                selected,
            }),
            RewindPhase::CancelOffer { active_idx } => phase@ == (PhaseModel::CancelOffer {
                active_idx,
            }),
            RewindPhase::ModeSelect {
                target_prompt_index,
                has_file_changes,
                offer_files_only,
                active_idx,
                prompt_preview,
            } => phase@ == (PhaseModel::ModeSelect {
                target: target_prompt_index,
                has_file_changes,
                offer_files_only,
                active_idx,
                preview: text_of(prompt_preview),
            }),
            RewindPhase::Previewing { target_prompt_index, mode } => phase@
                == (PhaseModel::Previewing { target: target_prompt_index, mode }),
            RewindPhase::FilePreview {
                target_prompt_index,
                mode,
                clean_files,
                conflicts,
                active_idx,
                prompt_preview,
            } => phase@ == (PhaseModel::FilePreview {
                target: target_prompt_index,
                mode,
                clean_files: texts_of(clean_files@),
                conflicts: conflicts_of(conflicts@),
                active_idx,
                preview: text_of(prompt_preview),
            }),
            RewindPhase::Confirm { target_prompt_index, mode, active_idx, prompt_preview } => phase@
                == (PhaseModel::Confirm {
                target: target_prompt_index,
                mode,
                active_idx,
                preview: text_of(prompt_preview),
            }),
            RewindPhase::OrphanWarning { target_prompt_index, active_idx, prompt_preview } => phase@
                == (PhaseModel::OrphanWarning {
                target: target_prompt_index,
                active_idx,
                preview: text_of(prompt_preview),
            }),
            RewindPhase::Executing { target_prompt_index, mode } => phase@
                == (PhaseModel::Executing { target: target_prompt_index, mode }),
            RewindPhase::Error { message } => phase@ == (PhaseModel::Error { message: message@ }),
        },
{
}

/// A flow and the drafts that it and the composer hold, field by field.
pub proof fn law_flows_and_drafts(
    state: RewindState,
    draft: Option<StashedPrompt>,
    widget: PromptWidget,
    image: PromptImage,
)
    ensures
        state@.phase == state.phase@,
        state@.anchor == state.anchor_entry_idx,
        state@.draft == draft_of(state.stashed_draft),
        state@.selected == state.selected_prompt_index,
        draft is None <==> draft_of(draft) is None,
        draft matches Some(d) ==> draft_of(draft) == Some(d@) && d@.text == d.text@ && d@.images
            == images_of(d.images@),
        widget@.text == widget.text@,
        widget@.images == images_of(widget.images@),
        image@.element_id == image.element_id,
        image@.mime_type == image.mime_type@,
        image@.data == image.data@,
{
}

/// The transcript and its entries, field by field.
pub proof fn law_transcripts(
    scrollback: ScrollbackState,
    entry: ScrollbackEntry,
    prompt: UserPromptBlock,
    text: String,
)
    ensures
        scrollback@.entries == entries_of(scrollback.entries@),
        scrollback@.selected == scrollback.selected,
        scrollback@.inline_edit_height == scrollback.inline_edit_height,
        scrollback@.viewport == scrollback.viewport,
        scrollback@.next_id == scrollback.next_id,
        entry@.id == entry.id,
        entry@.block == entry.block@,
        RenderBlock::UserPrompt(prompt)@ == (BlockModel::UserPrompt {
            text: prompt.text@,
            prompt_index: prompt.prompt_index,
            is_interjection: prompt.is_interjection,
        }),
        RenderBlock::AgentMessage(text)@ == (BlockModel::AgentMessage { text: text@ }),
        RenderBlock::System(text)@ == (BlockModel::System { text: text@ }),
{
}

/// An agent and what belongs to it, field by field.
pub proof fn law_agents(agent: AgentView, session: Session, edit: InlineEdit)
    ensures
        agent@.session == agent.session@,
        agent@.transcript == agent.scrollback@,
        agent@.prompt == agent.prompt@,
        agent.rewind_state is None <==> agent@.flow is None,
        agent.rewind_state matches Some(s) ==> agent@.flow == Some(s@),
        agent.rewind_points is None <==> agent@.points is None,
        agent.rewind_points matches Some(p) ==> agent@.points == Some(points_of(p@)),
        agent.inline_edit is None <==> agent@.inline_edit is None,
        agent.inline_edit matches Some(e) ==> agent@.inline_edit == Some(e@),
        agent@.pending_resubmit == text_of(agent.pending_inline_resubmit),
        agent@.toast == text_of(agent.toast),
        agent@.active_pane == agent.active_pane,
        agent@.jump_picker_open == agent.jump_picker_open,
        agent@.last_turn_summary == text_of(agent.last_turn_summary),
        agent@.summary_generation == agent.summary_generation,
        session@.session_id == text_of(session.session_id),
        session@.state == session.state,
        session@.queued_prompts == texts_of(session.queued_prompts@),
        edit@.prompt_index == edit.prompt_index,
        edit@.entry_id == edit.entry_id,
        edit@.original == edit.original@,
        edit@.text == edit.textarea.content@,
{
}

/// The program, field by field, with every agent that a slot holds first under its id.
pub proof fn law_programs(app: AppView, i: int)
    ensures
        app@.active_view == app.active_view,
        app@.settings == app.current_ui,
        app@.screen_mode == app.screen_mode,
        app@.toast == text_of(app.toast),
        app@.requests == requests_of(app.host_requests@),
        ({
            let slots = app.agents.slots@;
            0 <= i < slots.len() && (forall|j: int|
                0 <= j < i ==> (#[trigger] slots[j]).id != slots[i].id) ==> {
                &&& app@.agents.contains_key(slots[i].id)
                &&& app@.agents[slots[i].id] == slots[i].view@
            }
        }),
        forall|id: AgentId| #[trigger]
            app@.agents.contains_key(id) ==> exists|k: int|
                0 <= k < app.agents.slots@.len() && (#[trigger] app.agents.slots@[k]).id == id,
{
    let slots = app.agents.slots@;
    if 0 <= i < slots.len() && (forall|j: int|
        0 <= j < i ==> (#[trigger] slots[j]).id != slots[i].id) {
        let id = slots[i].id;
        assert(crate::app_state::is_slot(slots, id, i));
        let k = crate::app_state::slot_of(slots, id);
        assert(crate::app_state::is_slot(slots, id, k));
        if k < i {
            assert(slots[k].id != id);
        }
        if i < k {
            assert(slots[i].id != id);
        }
    }
}

/// An effect carries what it was made with.
pub proof fn law_effects(effect: Effect, request: HostRequest)
    ensures
        match effect {
            Effect::FetchRewindPoints { agent_id, session_id } => effect@
                == (EffectModel::FetchRewindPoints { agent: agent_id, session: session_id@ }),
            Effect::CancelTurn { session_id, cancel_subagents, trigger, rewind_prompt_id } =>
                effect@ == (EffectModel::CancelTurn {
                session: session_id@,
                cancel_subagents,
                trigger: text_of(trigger),
                rewind_prompt_id: text_of(rewind_prompt_id),
            }),
            Effect::RewindPreview { agent_id, session_id, target_prompt_index, mode } => effect@
                == (EffectModel::RewindPreview {
                agent: agent_id,
                session: session_id@,
                target: target_prompt_index,
                mode,
            }),
            Effect::RewindExecute { agent_id, session_id, target_prompt_index, mode } => effect@
                == (EffectModel::RewindExecute {
                agent: agent_id,
                session: session_id@,
                target: target_prompt_index,
                mode,
            }),
            Effect::PersistSetting { key, value, rollback_value } => effect@
                == (EffectModel::PersistSetting { key: key@, value, rollback_value }),
            Effect::SendPrompt { agent_id, text } => effect@ == (EffectModel::SendPrompt {
                agent: agent_id,
                text: text@,
            }),
        },
        match request {
            HostRequest::ReleaseRetainedMemory { reason } => request@
                == (RequestModel::ReleaseRetainedMemory { reason: reason@ }),
            HostRequest::RefreshSettingsModals => request@ is RefreshSettingsModals,
        },
{
}

/// Stashing takes a written draft whole, attachments and all, and leaves the composer empty; a
/// composer without text keeps what it has.
pub proof fn law_stashing(prompt: PromptModel)
    ensures
        prompt.text.len() > 0 ==> {
            &&& prompt.stashed() == Some(prompt)
            &&& prompt.after_stash().text.len() == 0
            &&& prompt.after_stash().images.len() == 0
        },
        prompt.text.len() == 0 ==> {
            &&& prompt.stashed() is None
            &&& prompt.after_stash() == prompt
        },
{
}

/// The words on the wire for each mode, and what each word means. Anything unknown leaves the
/// files alone.
pub proof fn law_wire_words(word: Seq<char>)
    ensures
        wire_of(RewindMode::All) == "all"@,
        wire_of(RewindMode::ConversationOnly) == "conversation_only"@,
        wire_of(RewindMode::FilesOnly) == "files_only"@,
        mode_of(word) is All <==> word == "all"@,
        mode_of(word) is FilesOnly <==> word == "files_only"@ || word == "code_only"@,
        mode_of(word) is ConversationOnly <==> word != "all"@ && word != "files_only"@ && word
            != "code_only"@,
{
    reveal_strlit("all");
    reveal_strlit("files_only");
    reveal_strlit("code_only");
    assert("all"@.len() == 3);
    assert("files_only"@.len() == 10);
    assert("code_only"@.len() == 9);
}

/// A conflict is shown with its path and the word for its kind, each in its place.
pub proof fn law_conflicts_shown(infos: Seq<ConflictInfoModel>, i: int)
    ensures
        conflict_label("deleted_externally"@) == "deleted"@,
        conflict_label("created_externally"@) == "added"@,
        conflict_label("modified_externally"@) == "modified"@,
        shown_conflicts(infos).len() == infos.len(),
        0 <= i < infos.len() ==> {
            let kind = infos[i].conflict_type;
            &&& shown_conflicts(infos)[i] == shown_conflict(infos[i])
            &&& shown_conflict(infos[i]).path == infos[i].path
            &&& shown_conflict(infos[i]).label == conflict_label(kind)
            &&& kind != "deleted_externally"@ && kind != "created_externally"@ && kind
                != "modified_externally"@ ==> conflict_label(kind) == "conflict"@
        },
{
    reveal_strlit("modified_externally");
    reveal_strlit("deleted_externally");
    reveal_strlit("created_externally");
    assert("modified_externally"@[0] == 'm');
    assert("deleted_externally"@[0] == 'd');
    assert("created_externally"@[0] == 'c');
}

} // verus!
