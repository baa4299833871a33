//! What each request and choice of the user does to an agent.

use vstd::prelude::*;

use crate::app_state::{AgentId, AgentModel, EffectModel};
use crate::composer::PromptModel;
use crate::flow::{
    asked_mode_again, begin_effects, begun, cancel_agreed, confirmed, edit_submitted, edits_from,
    executed, listed, mode_chosen, opened, picked, preview_for,
};
use crate::phase::{PhaseModel, RewindMode, StateModel};
use crate::points::{edited_from, point_for};
use crate::text::trimmed;
use crate::transcript::{entry_for, position_of, shell_index_at, TranscriptModel};

verus! {

/// The draft that an open flow holds.
pub open spec fn held_draft(agent: AgentModel) -> Option<PromptModel> {
    if agent.flow is Some {
        agent.flow->0.draft
    } else {
        None
    }
}

/// The entry that an open flow is anchored at; the first without one.
pub open spec fn held_anchor(agent: AgentModel) -> usize {
    if agent.flow is Some {
        agent.flow->0.anchor
    } else {
        0
    }
}

/// The phase on screen.
pub open spec fn on_screen(agent: AgentModel, phase: PhaseModel) -> bool {
    agent.flow is Some && agent.flow->0.phase == phase
}

/// Nothing but the flow changed, and that only in its phase and the turn it is about: it keeps
/// its anchor and its draft.
pub open spec fn flow_went_on(before: AgentModel, after: AgentModel, about: Option<usize>) -> bool {
    &&& after == (AgentModel { flow: after.flow, ..before })
    &&& after.flow is Some
    &&& after.flow->0.anchor == held_anchor(before)
    &&& after.flow->0.draft == held_draft(before)
    &&& after.flow->0.selected == about
}

/// The flow is over: the draft is back in the composer, the points are forgotten, and nothing else
/// changed.
pub open spec fn flow_ended(before: AgentModel, after: AgentModel) -> bool {
    &&& after == (AgentModel { flow: None, points: None, prompt: after.prompt, ..before })
    &&& held_draft(before) is Some ==> after.prompt == held_draft(before)->0
    &&& held_draft(before) is None ==> after.prompt == before.prompt
}

/// Leaving the flow ends it and brings the draft back.
pub proof fn law_dismissing(agent: AgentModel)
    ensures
        flow_ended(agent, agent.dismissed()),
{
}

/// The error panel shows the message it is given, and keeps the draft for when it is left.
pub proof fn law_failing(agent: AgentModel, message: Seq<char>)
    ensures
        flow_went_on(agent, agent.failed(message), None),
        on_screen(agent.failed(message), PhaseModel::Error { message }),
{
}

/// Opening the flow stashes what is written, if anything, and empties the composer.
pub proof fn law_opening_stashes(
    agent: AgentModel,
    busy_anchor: usize,
    anchor: usize,
    selected: Option<usize>,
)
    ensures
        ({
            let after = begun(agent, busy_anchor, anchor, selected);
            &&& after == (AgentModel { flow: after.flow, prompt: after.prompt, ..agent })
            &&& after.flow is Some
            &&& after.flow->0.selected == selected
            &&& agent.prompt.text.len() > 0 ==> {
                &&& after.flow->0.draft == Some(agent.prompt)
                &&& after.prompt.text.len() == 0
                &&& after.prompt.images.len() == 0
            }
            &&& agent.prompt.text.len() == 0 ==> {
                &&& after.flow->0.draft is None
                &&& after.prompt == agent.prompt
            }
            &&& agent.session.state is Idle ==> {
                &&& after.flow->0.phase is Loading
                &&& after.flow->0.anchor == anchor
            }
            &&& agent.session.state is TurnRunning || agent.session.state is Cancelling ==> {
                &&& after.flow->0.phase == (PhaseModel::CancelOffer { active_idx: 0 })
                &&& after.flow->0.anchor == busy_anchor
            }
        }),
{
}

/// The points are fetched exactly when no turn is in the way.
pub proof fn law_opening_fetches(agent: AgentModel, id: AgentId, session: Seq<char>)
    ensures
        agent.session.state is Idle ==> begin_effects(agent, id, session) == seq![
            EffectModel::FetchRewindPoints { agent: id, session },
        ],
        !(agent.session.state is Idle) ==> begin_effects(agent, id, session).len() == 0,
{
}

/// Asking for a rewind is about the turn of the selected entry, and anchored there; with a turn in
/// the way, at the end of the transcript. Asking for the list is about no turn.
pub proof fn law_opening_anchors(agent: AgentModel)
    requires
        agent.transcript.entries.len() <= usize::MAX,
    ensures
        ({
            let after = opened(agent);
            let list = listed(agent);
            &&& after == (AgentModel {
                flow: after.flow,
                prompt: after.prompt,
                jump_picker_open: false,
                ..agent
            })
            &&& list == (AgentModel {
                flow: list.flow,
                prompt: after.prompt,
                jump_picker_open: false,
                ..agent
            })
            &&& after.flow is Some && list.flow is Some
            &&& list.flow->0.phase == after.flow->0.phase
            &&& list.flow->0.draft == after.flow->0.draft
            &&& after.flow->0.phase is Loading <==> agent.session.state is Idle
            &&& after.flow->0.phase == (PhaseModel::CancelOffer { active_idx: 0 }) <==> !(
            agent.session.state is Idle)
            &&& agent.prompt.text.len() > 0 ==> {
                &&& after.flow->0.draft == Some(agent.prompt)
                &&& after.prompt.text.len() == 0
                &&& after.prompt.images.len() == 0
            }
            &&& agent.prompt.text.len() == 0 ==> {
                &&& after.flow->0.draft is None
                &&& after.prompt == agent.prompt
            }
            &&& agent.transcript.selected matches Some(i) ==> {
                &&& after.flow->0.selected == shell_index_at(agent.transcript.entries, i)
                &&& agent.session.state is Idle ==> after.flow->0.anchor == i
            }
            &&& agent.transcript.selected is None ==> {
                &&& after.flow->0.selected is None
                &&& agent.session.state is Idle ==> after.flow->0.anchor == 0
            }
            &&& list.flow->0.selected is None
            &&& agent.session.state is Idle ==> list.flow->0.anchor == 0
            &&& !(agent.session.state is Idle) ==> {
                let end = if agent.transcript.entries.len() == 0 {
                    0
                } else {
                    agent.transcript.entries.len() - 1
                };
                &&& after.flow->0.anchor == end
                &&& list.flow->0.anchor == end
            }
        }),
{
}

/// Without an edit there is nothing to submit, and an edit that is blank or says what the prompt
/// said already just closes the editor.
pub proof fn law_idle_submits(agent: AgentModel, id: AgentId, session: Seq<char>)
    ensures
        agent.inline_edit is None ==> edit_submitted(agent, id, session) == (agent, Seq::<
            EffectModel,
        >::empty()),
        agent.inline_edit matches Some(edit) ==> (trimmed(edit.text).len() == 0 || trimmed(
            edit.text,
        ) == trimmed(edit.original)) ==> edit_submitted(agent, id, session) == (
            AgentModel {
                inline_edit: None,
                transcript: TranscriptModel { inline_edit_height: None, ..agent.transcript },
                ..agent
            },
            Seq::<EffectModel>::empty(),
        ),
{
}

/// A real edit opens the flow for the prompt that was edited, at its entry; where that is gone, at
/// the selected one. The editor stays open, and nothing is sent yet.
pub proof fn law_edit_submits(agent: AgentModel, id: AgentId, session: Seq<char>)
    requires
        agent.inline_edit is Some,
        trimmed(agent.inline_edit->0.text).len() > 0,
        trimmed(agent.inline_edit->0.text) != trimmed(agent.inline_edit->0.original),
    ensures
        ({
            let edit = agent.inline_edit->0;
            let (after, effects) = edit_submitted(agent, id, session);
            let place = position_of(agent.transcript.entries, edit.entry_id);
            &&& after == (AgentModel { flow: after.flow, prompt: after.prompt, ..agent })
            &&& after.flow is Some
            &&& after.flow->0.selected == Some(edit.prompt_index)
            &&& place matches Some(i) ==> after.flow->0.anchor == i
            &&& place is None && agent.transcript.selected is Some ==> after.flow->0.anchor
                == agent.transcript.selected->0
            &&& place is None && agent.transcript.selected is None ==> after.flow->0.anchor == 0
            &&& agent.session.state is Idle ==> {
                &&& after.flow->0.phase is Loading
                &&& effects == seq![EffectModel::FetchRewindPoints { agent: id, session }]
            }
            &&& !(agent.session.state is Idle) ==> {
                &&& after.flow->0.phase == (PhaseModel::CancelOffer { active_idx: 0 })
                &&& effects.len() == 0
            }
            &&& agent.prompt.text.len() > 0 ==> {
                &&& after.flow->0.draft == Some(agent.prompt)
                &&& after.prompt.text.len() == 0
                &&& after.prompt.images.len() == 0
            }
            &&& agent.prompt.text.len() == 0 ==> {
                &&& after.flow->0.draft is None
                &&& after.prompt == agent.prompt
            }
        }),
{
}

/// What the agent knows of a turn comes from its points, and without points it knows nothing.
pub proof fn law_known_of_a_turn(agent: AgentModel, target: usize)
    ensures
        agent.points matches Some(points) ==> {
            &&& edits_from(agent, target) == edited_from(points, target)
            &&& point_for(points, target) matches Some(p) ==> preview_for(agent, target)
                == p.prompt_preview
            &&& point_for(points, target) is None ==> preview_for(agent, target) is None
        },
        agent.points is None ==> {
            &&& !edits_from(agent, target)
            &&& preview_for(agent, target) is None
        },
{
}

/// Picking a turn selects its entry, if it has one, and asks what to rewind, with the cursor on
/// the first row. Files alone are offered unless a prompt is being edited.
pub proof fn law_picking(agent: AgentModel, target: usize)
    ensures
        ({
            let after = picked(agent, target);
            let entry = entry_for(agent.transcript.entries, target);
            &&& after == (AgentModel {
                flow: after.flow,
                transcript: TranscriptModel {
                    selected: after.transcript.selected,
                    ..agent.transcript
                },
                ..agent
            })
            &&& entry is Some ==> after.transcript.selected == entry
            &&& entry is None ==> after.transcript.selected == agent.transcript.selected
            &&& after.flow is Some
            &&& entry matches Some(i) ==> after.flow->0.anchor == i
            &&& entry is None ==> after.flow->0.anchor == 0
            &&& after.flow->0.draft == held_draft(agent)
            &&& after.flow->0.selected == Some(target)
            &&& after.flow->0.phase == (PhaseModel::ModeSelect {
                target,
                has_file_changes: edits_from(agent, target),
                offer_files_only: agent.inline_edit is None,
                active_idx: 0,
                preview: preview_for(agent, target),
            })
        }),
{
}

/// Going back leads from the three panels that ask for a last word to the mode question of their
/// turn, with the facts as they are now; from anywhere else it leads nowhere.
pub proof fn law_going_back(agent: AgentModel)
    ensures
        ({
            let after = asked_mode_again(agent);
            let asks = |target: usize|
                PhaseModel::ModeSelect {
                    target,
                    has_file_changes: edits_from(agent, target),
                    offer_files_only: agent.inline_edit is None,
                    active_idx: 0,
                    preview: preview_for(agent, target),
                };
            &&& agent.flow is None ==> after == agent
            &&& agent.flow matches Some(state) ==> match state.phase {
                PhaseModel::FilePreview { target, .. } => {
                    &&& flow_went_on(agent, after, Some(target))
                    &&& on_screen(after, asks(target))
                },
                PhaseModel::Confirm { target, .. } => {
                    &&& flow_went_on(agent, after, Some(target))
                    &&& on_screen(after, asks(target))
                },
                PhaseModel::OrphanWarning { target, .. } => {
                    &&& flow_went_on(agent, after, Some(target))
                    &&& on_screen(after, asks(target))
                },
                _ => after == agent,
            }
        }),
{
}

/// Whether files would move and whether they can be chosen alone, as the mode question on screen
/// says; without one, as is known of the agent.
pub open spec fn facts(agent: AgentModel, target: usize) -> (bool, bool) {
    if agent.flow is Some && agent.flow->0.phase is ModeSelect {
        (
            agent.flow->0.phase->ModeSelect_has_file_changes,
            agent.flow->0.phase->ModeSelect_offer_files_only,
        )
    } else {
        (edits_from(agent, target), agent.inline_edit is None)
    }
}

/// Files alone where there are none to move, or where they are not offered: nothing happens.
pub proof fn law_choosing_what_is_not_offered(
    agent: AgentModel,
    id: AgentId,
    confirm: bool,
    target: usize,
)
    requires
        !facts(agent, target).0 || !facts(agent, target).1,
    ensures
        mode_chosen(agent, id, confirm, target, RewindMode::FilesOnly) == (agent, Seq::<
            EffectModel,
        >::empty()),
{
}

/// Files alone, or both where there are files to move: a dry run in that mode is asked for, and
/// waited for.
pub proof fn law_choosing_files(
    agent: AgentModel,
    id: AgentId,
    confirm: bool,
    target: usize,
    mode: RewindMode,
)
    requires
        facts(agent, target).0,
        mode is All || (mode is FilesOnly && facts(agent, target).1),
        agent.session.session_id is Some,
    ensures
        ({
            let (after, effects) = mode_chosen(agent, id, confirm, target, mode);
            &&& flow_went_on(agent, after, Some(target))
            &&& on_screen(after, PhaseModel::Previewing { target, mode })
            &&& effects == seq![
                EffectModel::RewindPreview {
                    agent: id,
                    session: agent.session.session_id->0,
                    target,
                    mode,
                },
            ]
        }),
{
}

/// The conversation alone back to the first prompt while there are edits: the user is warned that
/// those could never be undone, whatever the confirm setting.
pub proof fn law_choosing_to_orphan_edits(agent: AgentModel, id: AgentId, confirm: bool)
    requires
        facts(agent, 0).0,
    ensures
        ({
            let (after, effects) = mode_chosen(agent, id, confirm, 0, RewindMode::ConversationOnly);
            &&& flow_went_on(agent, after, Some(0))
            &&& on_screen(
                after,
                PhaseModel::OrphanWarning {
                    target: 0,
                    active_idx: 0,
                    preview: preview_for(agent, 0),
                },
            )
            &&& effects.len() == 0
        }),
{
}

/// The conversation alone, or both where no files would move, and no edits to orphan: with the
/// confirm setting on the user is asked to confirm that mode for that turn.
pub proof fn law_choosing_the_conversation_with_confirmation(
    agent: AgentModel,
    id: AgentId,
    target: usize,
    mode: RewindMode,
)
    requires
        mode is ConversationOnly || (mode is All && !facts(agent, target).0),
        target > 0 || !facts(agent, target).0,
    ensures
        ({
            let (after, effects) = mode_chosen(agent, id, true, target, mode);
            &&& flow_went_on(agent, after, Some(target))
            &&& on_screen(
                after,
                PhaseModel::Confirm {
                    target,
                    mode,
                    active_idx: 0,
                    preview: preview_for(agent, target),
                },
            )
            &&& effects.len() == 0
        }),
{
}

/// The rewind has started: it is asked for, it is on screen, and the prompt being edited, if any,
/// waits trimmed for it to land.
pub open spec fn rewind_started(
    before: AgentModel,
    after: AgentModel,
    effects: Seq<EffectModel>,
    id: AgentId,
    target: usize,
    mode: RewindMode,
) -> bool {
    &&& after == (AgentModel {
        flow: Some(
            StateModel {
                phase: PhaseModel::Executing { target, mode },
                anchor: held_anchor(before),
                draft: held_draft(before),
                selected: None,
            },
        ),
        pending_resubmit: after.pending_resubmit,
        ..before
    })
    &&& before.inline_edit is None ==> after.pending_resubmit == before.pending_resubmit
    &&& before.inline_edit is Some ==> after.pending_resubmit == Some(
        trimmed(before.inline_edit->0.text),
    )
    &&& effects == seq![
        EffectModel::RewindExecute {
            agent: id,
            session: before.session.session_id->0,
            target,
            mode,
        },
    ]
}

/// The same with the confirm setting off: the rewind starts at once, in the mode that was chosen.
pub proof fn law_choosing_the_conversation_without_confirmation(
    agent: AgentModel,
    id: AgentId,
    target: usize,
    mode: RewindMode,
)
    requires
        mode is ConversationOnly || (mode is All && !facts(agent, target).0),
        target > 0 || !facts(agent, target).0,
        agent.session.session_id is Some,
    ensures
        ({
            let (after, effects) = mode_chosen(agent, id, false, target, mode);
            rewind_started(agent, after, effects, id, target, mode)
        }),
{
}

/// Without a session a choice that would have to ask the shell ends the flow.
pub proof fn law_choosing_without_a_session(
    agent: AgentModel,
    id: AgentId,
    confirm: bool,
    target: usize,
    mode: RewindMode,
)
    requires
        agent.session.session_id is None,
        mode is FilesOnly ==> facts(agent, target).0 && facts(agent, target).1,
        (mode is All && facts(agent, target).0) || mode is FilesOnly || (!confirm && !(target == 0
            && facts(agent, target).0)),
    ensures
        flow_ended(agent, mode_chosen(agent, id, confirm, target, mode).0),
        mode_chosen(agent, id, confirm, target, mode).1.len() == 0,
{
}

/// Every row of the mode question that can be taken leads out of it, as long as there is a session.
pub proof fn law_choices_lead_on(
    agent: AgentModel,
    id: AgentId,
    confirm: bool,
    target: usize,
    mode: RewindMode,
)
    requires
        agent.flow is Some,
        agent.flow->0.phase is ModeSelect,
        agent.session.session_id is Some,
        mode is FilesOnly ==> agent.flow->0.phase->ModeSelect_has_file_changes
            && agent.flow->0.phase->ModeSelect_offer_files_only,
    ensures
        ({
            let after = mode_chosen(agent, id, confirm, target, mode).0;
            &&& after.flow is Some
            &&& after.flow->0.phase is Previewing || after.flow->0.phase is OrphanWarning
                || after.flow->0.phase is Confirm || after.flow->0.phase is Executing
        }),
{
}

/// Agreeing to cancel the running turn cancels it with everything it started, takes no prompt off
/// the history, and then loads the points for the turn that the flow is about.
pub proof fn law_cancelling(agent: AgentModel, id: AgentId)
    ensures
        ({
            let (after, effects) = cancel_agreed(agent, id);
            &&& agent.session.session_id is None ==> after == agent && effects.len() == 0
            &&& agent.session.session_id matches Some(session) ==> {
                &&& flow_went_on(
                    agent,
                    after,
                    if agent.flow is Some {
                        agent.flow->0.selected
                    } else {
                        None
                    },
                )
                &&& on_screen(after, PhaseModel::Loading)
                &&& effects.len() == 2
                &&& effects[0] == (EffectModel::CancelTurn {
                    session,
                    cancel_subagents: true,
                    trigger: None,
                    rewind_prompt_id: None,
                })
                &&& effects[1] == (EffectModel::FetchRewindPoints { agent: id, session })
            }
        }),
{
}

/// Confirming starts the rewind that the panel describes: in its mode from the file list and the
/// plain confirmation, of the conversation alone from the orphan warning. Any other panel, or
/// none, stays as it is. Without a session the flow ends.
pub proof fn law_confirming(agent: AgentModel, id: AgentId, target: usize)
    ensures
        ({
            let (after, effects) = confirmed(agent, id, target);
            let has_session = agent.session.session_id is Some;
            &&& agent.flow is None ==> after == agent && effects.len() == 0
            &&& agent.flow matches Some(state) ==> match state.phase {
                PhaseModel::FilePreview { mode, .. } => {
                    &&& has_session ==> rewind_started(agent, after, effects, id, target, mode)
                    &&& !has_session ==> flow_ended(agent, after) && effects.len() == 0
                },
                PhaseModel::Confirm { mode, .. } => {
                    &&& has_session ==> rewind_started(agent, after, effects, id, target, mode)
                    &&& !has_session ==> flow_ended(agent, after) && effects.len() == 0
                },
                PhaseModel::OrphanWarning { .. } => {
                    &&& has_session ==> rewind_started(
                        agent,
                        after,
                        effects,
                        id,
                        target,
                        RewindMode::ConversationOnly,
                    )
                    &&& !has_session ==> flow_ended(agent, after) && effects.len() == 0
                },
                _ => after == agent && effects.len() == 0,
            }
        }),
{
}

/// Starting a rewind asks the shell for it, or ends the flow where there is no session.
pub proof fn law_executing(agent: AgentModel, id: AgentId, target: usize, mode: RewindMode)
    ensures
        ({
            let (after, effects) = executed(agent, id, target, mode);
            &&& agent.session.session_id is Some ==> rewind_started(
                agent,
                after,
                effects,
                id,
                target,
                mode,
            )
            &&& agent.session.session_id is None ==> flow_ended(agent, after) && effects.len() == 0
        }),
{
}

} // verus!
