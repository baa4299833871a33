//! What each answer of the shell does to an agent.

use vstd::prelude::*;
use vstd::string::*;

use crate::answers::{
    answered, awaits, done_mode, points_loaded, prefilled, preview_lost, previewed, rewind_lost,
    sent, truncates,
};
use crate::app_state::{AgentId, AgentModel, AgentState, EffectModel, SessionModel};
use crate::composer::PromptModel;
use crate::laws::flow::{flow_went_on, held_anchor, held_draft, on_screen};
use crate::laws::points::{
    first_with, last_highest, law_edits_from_the_target_on, law_list_begins_with_the_newest,
    law_turn_resolved,
};
use crate::phase::{
    file_count, mode_of, PhaseModel, PointModel, ResponseModel, RewindMode, StateModel,
};
use crate::points::{descending, law_newest_first, sharing};
use crate::text::trimmed;
use crate::transcript::{entry_for, BlockModel, TranscriptModel, Viewport};

verus! {

/// The draft of the flow after the points came in: the one it holds, or else what has been written
/// meanwhile.
pub open spec fn draft_taken_along(before: AgentModel, after: AgentModel) -> bool {
    if held_draft(before) is Some {
        &&& after.flow->0.draft == held_draft(before)
        &&& after.prompt == before.prompt
    } else if before.prompt.text.len() == 0 {
        &&& after.flow->0.draft is None
        &&& after.prompt == before.prompt
    } else {
        &&& after.flow->0.draft == Some(before.prompt)
        &&& after.prompt.text.len() == 0
        &&& after.prompt.images.len() == 0
    }
}

/// With nothing to rewind to, the flow is over and the draft is back.
pub proof fn law_no_points(agent: AgentModel, points: Seq<PointModel>)
    requires
        points.len() == 0,
    ensures
        ({
            let after = points_loaded(agent, points);
            &&& after == (AgentModel {
                flow: None,
                points: Some(points),
                prompt: after.prompt,
                ..agent
            })
            &&& held_draft(agent) is Some ==> after.prompt == held_draft(agent)->0
            &&& held_draft(agent) is None ==> after.prompt == agent.prompt
        }),
{
}

/// The mode question is open for a point: with its index, its preview, whether anything from it on
/// edited files, and its entry selected and anchored at where it has one.
pub open spec fn asks_about(
    before: AgentModel,
    after: AgentModel,
    points: Seq<PointModel>,
    point: PointModel,
) -> bool {
    let entry = entry_for(before.transcript.entries, point.prompt_index);
    &&& after == (AgentModel {
        flow: after.flow,
        prompt: after.prompt,
        points: Some(points),
        transcript: TranscriptModel { selected: after.transcript.selected, ..before.transcript },
        ..before
    })
    &&& after.flow is Some
    &&& after.flow->0.phase matches PhaseModel::ModeSelect {
        target,
        has_file_changes,
        offer_files_only,
        active_idx,
        preview,
    } && {
        &&& target == point.prompt_index
        &&& preview == point.prompt_preview
        &&& has_file_changes <==> exists|i: int|
            0 <= i < points.len() && (#[trigger] points[i]).prompt_index >= point.prompt_index
                && points[i].num_file_snapshots > 0
        &&& offer_files_only <==> before.inline_edit is None
        &&& active_idx == 0
    }
    &&& after.flow->0.selected == Some(point.prompt_index)
    &&& entry matches Some(i) ==> after.flow->0.anchor == i && after.transcript.selected == entry
    &&& entry is None ==> after.flow->0.anchor == 0 && after.transcript.selected
        == before.transcript.selected
    &&& draft_taken_along(before, after)
}

/// A flow about a turn that is among the points asks about that turn; if several points have its
/// index, about the first of them.
pub proof fn law_points_for_the_wanted_turn(
    agent: AgentModel,
    points: Seq<PointModel>,
    turn: usize,
    i: int,
)
    requires
        agent.flow is Some,
        agent.flow->0.selected == Some(turn),
        first_with(points, turn, i),
    ensures
        points[i].prompt_index == turn,
        asks_about(agent, points_loaded(agent, points), points, points[i]),
{
    law_turn_resolved(points, turn, i);
    law_edits_from_the_target_on(points, turn);
}

/// A flow about a turn that is not among the points asks about the turn with the highest index.
pub proof fn law_points_without_the_wanted_turn(
    agent: AgentModel,
    points: Seq<PointModel>,
    turn: usize,
    i: int,
)
    requires
        agent.flow is Some,
        agent.flow->0.selected == Some(turn),
        forall|j: int| 0 <= j < points.len() ==> (#[trigger] points[j]).prompt_index != turn,
        last_highest(points, i),
    ensures
        asks_about(agent, points_loaded(agent, points), points, points[i]),
{
    law_turn_resolved(points, turn, i);
    law_edits_from_the_target_on(points, points[i].prompt_index);
}

proof fn lemma_first(points: Seq<PointModel>, turn: usize, k: int) -> (i: int)
    requires
        0 <= k < points.len(),
        points[k].prompt_index == turn,
    ensures
        first_with(points, turn, i),
    decreases k,
{
    if exists|j: int| 0 <= j < k && (#[trigger] points[j]).prompt_index == turn {
        let j = choose|j: int| 0 <= j < k && (#[trigger] points[j]).prompt_index == turn;
        lemma_first(points, turn, j)
    } else {
        k
    }
}

proof fn lemma_highest(points: Seq<PointModel>, n: int) -> (i: int)
    requires
        0 < n <= points.len(),
    ensures
        last_highest(points.take(n), i),
    decreases n,
{
    let part = points.take(n);
    if n == 1 {
        0
    } else {
        let i = lemma_highest(points, n - 1);
        let rest = points.take(n - 1);
        assert forall|j: int| 0 <= j < n - 1 implies #[trigger] part[j] == rest[j] by {}
        if part[n - 1].prompt_index >= rest[i].prompt_index {
            assert forall|j: int| 0 <= j < n implies (#[trigger] part[j]).prompt_index
                <= part[n - 1].prompt_index by {
                if j < n - 1 {
                    assert(part[j] == rest[j]);
                }
            }
            n - 1
        } else {
            assert forall|j: int| i < j < n implies (#[trigger] part[j]).prompt_index
                < part[i].prompt_index by {
                if j < n - 1 {
                    assert(part[j] == rest[j]);
                }
            }
            assert forall|j: int| 0 <= j < n implies (#[trigger] part[j]).prompt_index
                <= part[i].prompt_index by {
                if j < n - 1 {
                    assert(part[j] == rest[j]);
                }
            }
            i
        }
    }
}

/// The turn that the flow is about is the turn that is asked about, whenever there is a point for
/// it; only without one it is the turn with the highest index.
pub proof fn law_wanted_turn_is_asked_about(
    agent: AgentModel,
    points: Seq<PointModel>,
    turn: usize,
)
    requires
        points.len() > 0,
        agent.flow is Some,
        agent.flow->0.selected == Some(turn),
    ensures
        ({
            let after = points_loaded(agent, points);
            let asked = after.flow->0.selected->0;
            &&& after.flow is Some
            &&& after.flow->0.phase matches PhaseModel::ModeSelect { target, .. } && target
                == asked
            &&& after.flow->0.selected == Some(asked)
            &&& (exists|i: int|
                0 <= i < points.len() && (#[trigger] points[i]).prompt_index == turn) ==> asked
                == turn
            &&& (forall|i: int|
                0 <= i < points.len() ==> (#[trigger] points[i]).prompt_index != turn) ==> {
                &&& forall|i: int|
                    0 <= i < points.len() ==> (#[trigger] points[i]).prompt_index <= asked
                &&& exists|i: int|
                    0 <= i < points.len() && (#[trigger] points[i]).prompt_index == asked
            }
        }),
{
    if exists|i: int| 0 <= i < points.len() && (#[trigger] points[i]).prompt_index == turn {
        let k = choose|i: int| 0 <= i < points.len() && (#[trigger] points[i]).prompt_index == turn;
        let i = lemma_first(points, turn, k);
        law_points_for_the_wanted_turn(agent, points, turn, i);
    } else {
        let i = lemma_highest(points, points.len() as int);
        assert(points.take(points.len() as int) =~= points);
        law_points_without_the_wanted_turn(agent, points, turn, i);
        assert(points[i].prompt_index == points_loaded(agent, points).flow->0.selected->0);
    }
}

/// A flow about no turn shows all the points from the highest index to the lowest, with the cursor
/// on the first, and brings that turn's entry into view.
pub proof fn law_points_for_the_picker(agent: AgentModel, points: Seq<PointModel>)
    requires
        points.len() > 0,
        agent.flow is Some ==> agent.flow->0.selected is None,
    ensures
        ({
            let after = points_loaded(agent, points);
            &&& after == (AgentModel {
                flow: after.flow,
                prompt: after.prompt,
                points: Some(points),
                transcript: TranscriptModel {
                    viewport: Viewport::CenteredOn(after.flow->0.anchor),
                    ..agent.transcript
                },
                ..agent
            })
            &&& after.flow is Some
            &&& after.flow->0.selected is None
            &&& draft_taken_along(agent, after)
            &&& after.flow->0.phase matches PhaseModel::Picker { points: list, selected } && {
                &&& selected == 0
                &&& list.len() == points.len()
                &&& descending(list)
                &&& forall|index: usize| #[trigger] sharing(list, index) == sharing(points, index)
                &&& forall|i: int|
                    0 <= i < points.len() ==> (#[trigger] points[i]).prompt_index
                        <= list[0].prompt_index
                &&& entry_for(agent.transcript.entries, list[0].prompt_index) matches Some(e)
                    ==> after.flow->0.anchor == e
                &&& entry_for(agent.transcript.entries, list[0].prompt_index) is None
                    ==> after.flow->0.anchor == 0
            }
        }),
{
    law_newest_first(points);
    assert forall|i: int| 0 <= i < points.len() implies (#[trigger] points[i]).prompt_index
        <= crate::points::newest_first(points)[0].prompt_index by {
        law_list_begins_with_the_newest(points, i);
    }
}

/// A dry run is waited for exactly while its own panel is on screen.
pub proof fn law_waiting(agent: AgentModel, target: usize, mode: RewindMode)
    ensures
        awaits(agent, target, mode) <==> on_screen(agent, PhaseModel::Previewing { target, mode }),
{
}

/// A dry run that is waited for and names any file or conflict shows them all, in order, each
/// conflict by its path and kind, whatever else it says; so does one without an error. Only an
/// error that names neither is shown as an error.
pub proof fn law_preview_arrives(
    agent: AgentModel,
    response: ResponseModel,
    target: usize,
    mode: RewindMode,
)
    requires
        on_screen(agent, PhaseModel::Previewing { target, mode }),
    ensures
        ({
            let after = previewed(agent, response, target, mode);
            let names_any = response.clean_files.len() > 0 || response.conflicts.len() > 0;
            &&& names_any || response.error is None ==> {
                &&& flow_went_on(agent, after, Some(target))
                &&& after.flow->0.phase matches PhaseModel::FilePreview {
                    target: t,
                    mode: m,
                    clean_files,
                    conflicts,
                    active_idx,
                    preview,
                } && {
                    &&& t == target
                    &&& m == mode
                    &&& clean_files == response.clean_files
                    &&& conflicts.len() == response.conflicts.len()
                    &&& forall|i: int|
                        0 <= i < conflicts.len() ==> (#[trigger] conflicts[i]).path
                            == response.conflicts[i].path
                    &&& forall|i: int|
                        0 <= i < conflicts.len() ==> (#[trigger] conflicts[i]).label == (
                        if response.conflicts[i].conflict_type == "modified_externally"@ {
                            "modified"@
                        } else if response.conflicts[i].conflict_type == "deleted_externally"@ {
                            "deleted"@
                        } else if response.conflicts[i].conflict_type == "created_externally"@ {
                            "added"@
                        } else {
                            "conflict"@
                        })
                    &&& active_idx == 0
                    &&& preview == crate::flow::preview_for(agent, target)
                }
            }
            &&& !names_any && response.error is Some ==> {
                &&& flow_went_on(agent, after, None)
                &&& on_screen(after, PhaseModel::Error { message: response.error->0 })
            }
        }),
{
    reveal_strlit("modified_externally");
    reveal_strlit("deleted_externally");
    reveal_strlit("created_externally");
    assert("modified_externally"@[0] == 'm');
    assert("deleted_externally"@[0] == 'd');
    assert("created_externally"@[0] == 'c');
}

/// A dry run that could not be done shows why, if it is waited for.
pub proof fn law_preview_fails(
    agent: AgentModel,
    error: Seq<char>,
    target: usize,
    mode: RewindMode,
)
    ensures
        on_screen(agent, PhaseModel::Previewing { target, mode }) ==> {
            &&& flow_went_on(agent, preview_lost(agent, error, target, mode), None)
            &&& on_screen(
                preview_lost(agent, error, target, mode),
                PhaseModel::Error { message: error },
            )
        },
        !on_screen(agent, PhaseModel::Previewing { target, mode }) ==> preview_lost(
            agent,
            error,
            target,
            mode,
        ) == agent,
{
}

/// The error is on screen with this message, the edited prompt no longer waits, and nothing else
/// changed.
pub open spec fn gave_up(before: AgentModel, after: AgentModel, message: Seq<char>) -> bool {
    after == (AgentModel {
        pending_resubmit: None,
        flow: Some(
            StateModel {
                phase: PhaseModel::Error { message },
                anchor: held_anchor(before),
                draft: held_draft(before),
                selected: None,
            },
        ),
        ..before
    })
}

/// A rewind that could not be done, or that the shell refused, shows why.
pub proof fn law_rewind_fails(
    agent: AgentModel,
    error: Seq<char>,
    response: ResponseModel,
    minimal: bool,
)
    ensures
        gave_up(agent, rewind_lost(agent, error), error),
        !response.success && response.error is Some ==> gave_up(
            agent,
            answered(agent, response, minimal),
            response.error->0,
        ),
        !response.success && response.error is None ==> gave_up(
            agent,
            answered(agent, response, minimal),
            "unknown error"@,
        ),
{
}

/// The mode of a rewind is the one the answer names; an answer without one means the rewind on
/// screen, and without that the conversation.
pub proof fn law_mode_of_the_answer(agent: AgentModel, response: ResponseModel)
    ensures
        response.mode matches Some(wire) ==> done_mode(agent, response) == mode_of(wire),
        response.mode is None ==> {
            &&& agent.flow is Some && agent.flow->0.phase is Executing ==> done_mode(
                agent,
                response,
            ) == agent.flow->0.phase->Executing_mode
            &&& !(agent.flow is Some && agent.flow->0.phase is Executing) ==> done_mode(
                agent,
                response,
            ) is ConversationOnly
        },
{
}

/// After a rewind of the conversation the composer holds the prompt that was rewound to, as plain
/// text, in place of any draft. Where the answer has no prompt, where only files moved, or where
/// an edited prompt takes its place, the draft comes back instead.
pub proof fn law_composer_after_a_rewind(
    agent: AgentModel,
    response: ResponseModel,
    minimal: bool,
)
    requires
        response.success,
    ensures
        ({
            let after = answered(agent, response, minimal);
            let fresh = !(done_mode(agent, response) is FilesOnly)
                && agent.pending_resubmit is None;
            &&& fresh && response.prompt_text is Some ==> {
                &&& after.prompt.text == response.prompt_text->0
                &&& after.prompt.images.len() == 0
            }
            &&& !fresh || response.prompt_text is None ==> {
                &&& held_draft(agent) is Some ==> after.prompt == held_draft(agent)->0
                &&& held_draft(agent) is None ==> after.prompt == agent.prompt
            }
        }),
{
}

/// After any rewind the flow and its points are gone and no prompt waits any more; the session is
/// as it was. The editor is closed exactly if its prompt was waiting.
pub proof fn law_flow_after_a_rewind(agent: AgentModel, response: ResponseModel, minimal: bool)
    requires
        response.success,
    ensures
        ({
            let after = answered(agent, response, minimal);
            &&& after.flow is None
            &&& after.points is None
            &&& after.pending_resubmit is None
            &&& after.session == agent.session
            &&& after.jump_picker_open == agent.jump_picker_open
            &&& agent.pending_resubmit is Some ==> {
                &&& after.inline_edit is None
                &&& after.transcript.inline_edit_height is None
            }
            &&& agent.pending_resubmit is None ==> {
                &&& after.inline_edit == agent.inline_edit
                &&& after.transcript.inline_edit_height == agent.transcript.inline_edit_height
            }
        }),
{
}

/// What the user is told: what moved. Before an edited prompt that is sent anyway, only files.
pub open spec fn told_as(
    mode: RewindMode,
    reverted: nat,
    resubmits: bool,
    message: Option<Seq<char>>,
) -> bool {
    &&& resubmits && reverted == 0 ==> message is None
    &&& resubmits && reverted > 0 ==> message == Some("Reverted "@ + file_count(reverted))
    &&& !resubmits && mode is FilesOnly ==> message == Some("Reverted "@ + file_count(reverted))
    &&& !resubmits && (mode is ConversationOnly || (mode is All && reverted == 0)) ==> message
        == Some("Reverted conversation"@)
    &&& !resubmits && mode is All && reverted > 0 ==> message == Some(
        "Reverted conversation and "@ + file_count(reverted),
    )
}

/// The notice of a rewind is a toast; without room for one it is the last line of the transcript,
/// and the toast stays as it was.
pub proof fn law_notice_after_a_rewind(
    agent: AgentModel,
    response: ResponseModel,
    minimal: bool,
    message: Option<Seq<char>>,
)
    requires
        response.success,
        told_as(
            done_mode(agent, response),
            response.reverted_files.len(),
            agent.pending_resubmit is Some,
            message,
        ),
    ensures
        ({
            let after = answered(agent, response, minimal);
            &&& message is None || minimal ==> after.toast == agent.toast
            &&& message is Some && !minimal ==> after.toast == message
            &&& message is Some && minimal ==> {
                &&& after.transcript.entries.len() > 0
                &&& after.transcript.entries.last().block == (BlockModel::System {
                    text: message->0,
                })
            }
        }),
{
}

/// A rewind of the conversation removes the turn it goes back to and all that follows, moves the
/// focus to the composer and the view to the end, and forgets the summary. A rewind of the files
/// does none of that.
pub proof fn law_transcript_after_a_rewind(
    agent: AgentModel,
    response: ResponseModel,
    minimal: bool,
)
    requires
        response.success,
        agent.transcript.entries.len() <= usize::MAX,
    ensures
        ({
            let after = answered(agent, response, minimal);
            let conversation = !(done_mode(agent, response) is FilesOnly);
            let entry = entry_for(agent.transcript.entries, response.target_prompt_index);
            let kept = if conversation && entry is Some {
                entry->0 as int
            } else {
                agent.transcript.entries.len() as int
            };
            let noted = minimal && !(agent.pending_resubmit is Some
                && response.reverted_files.len() == 0);
            &&& 0 <= kept <= agent.transcript.entries.len()
            &&& after.transcript.entries.len() == kept + (if noted {
                1int
            } else {
                0
            })
            &&& forall|i: int|
                0 <= i < kept ==> #[trigger] after.transcript.entries[i]
                    == agent.transcript.entries[i]
            &&& agent.transcript.selected is None ==> after.transcript.selected is None
            &&& agent.transcript.selected matches Some(s) ==> {
                &&& conversation && entry is Some && s >= kept ==> after.transcript.selected
                    is None
                &&& !(conversation && entry is Some && s >= kept) ==> after.transcript.selected
                    == Some(s)
            }
            &&& conversation ==> {
                &&& after.transcript.viewport is Bottom
                &&& after.active_pane is Prompt
                &&& after.last_turn_summary is None
                &&& after.summary_generation == agent.summary_generation.wrapping_add(1)
            }
            &&& !conversation ==> {
                &&& after.transcript.viewport == agent.transcript.viewport
                &&& after.active_pane == agent.active_pane
                &&& after.last_turn_summary == agent.last_turn_summary
                &&& after.summary_generation == agent.summary_generation
            }
            &&& !noted ==> after.transcript.next_id == agent.transcript.next_id
            &&& truncates(agent, response) <==> conversation && entry is Some
        }),
{
    crate::transcript::lemma_entry_in_range(
        agent.transcript.entries,
        response.target_prompt_index,
    );
}

/// A prompt sent past the composer starts a turn if none is running, and stands at the end of the
/// transcript; otherwise it waits behind the prompts that wait already. Nothing else changes.
pub proof fn law_sending(agent: AgentModel, id: AgentId, text: Seq<char>)
    ensures
        ({
            let (after, effects) = sent(agent, id, text);
            &&& agent.session.state is Idle ==> {
                &&& effects == seq![EffectModel::SendPrompt { agent: id, text }]
                &&& after == (AgentModel {
                    session: SessionModel { state: AgentState::TurnRunning, ..agent.session },
                    transcript: after.transcript,
                    ..agent
                })
                &&& after.transcript.entries.len() == agent.transcript.entries.len() + 1
                &&& after.transcript.entries.drop_last() == agent.transcript.entries
                &&& after.transcript.entries.last().block == (BlockModel::UserPrompt {
                    text,
                    prompt_index: None,
                    is_interjection: false,
                })
                &&& after.transcript.selected == agent.transcript.selected
                &&& after.transcript.viewport == agent.transcript.viewport
                &&& after.transcript.inline_edit_height == agent.transcript.inline_edit_height
            }
            &&& !(agent.session.state is Idle) ==> {
                &&& effects.len() == 0
                &&& after == (AgentModel {
                    session: SessionModel {
                        queued_prompts: after.session.queued_prompts,
                        ..agent.session
                    },
                    ..agent
                })
                &&& after.session.queued_prompts.len() == agent.session.queued_prompts.len() + 1
                &&& after.session.queued_prompts.drop_last() == agent.session.queued_prompts
                &&& after.session.queued_prompts.last() == text
            }
        }),
{
    let (after, _) = sent(agent, id, text);
    if agent.session.state is Idle {
        assert(after.transcript.entries.drop_last() =~= agent.transcript.entries);
    } else {
        assert(after.session.queued_prompts.drop_last() =~= agent.session.queued_prompts);
    }
}

/// A prompt put into the composer takes the place of blank space, and goes on a new line after
/// anything else, which stays with its attachments.
pub proof fn law_prefilling(prompt: PromptModel, text: Seq<char>)
    ensures
        trimmed(prompt.text).len() == 0 ==> {
            &&& prefilled(prompt, text).text == text
            &&& prefilled(prompt, text).images.len() == 0
        },
        trimmed(prompt.text).len() > 0 ==> {
            let after = prefilled(prompt, text);
            let n = prompt.text.len() as int;
            &&& after.images == prompt.images
            &&& after.text.len() == n + 1 + text.len()
            &&& after.text.take(n) == prompt.text
            &&& after.text[n] == '\n'
            &&& after.text.skip(n + 1) == text
        },
{
    reveal_strlit("\n");
    let after = prefilled(prompt, text);
    let n = prompt.text.len() as int;
    if trimmed(prompt.text).len() > 0 {
        assert("\n"@.len() == 1);
        assert(after.text.take(n) =~= prompt.text);
        assert(after.text.skip(n + 1) =~= text);
    }
}

} // verus!
