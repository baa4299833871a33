//! What holds of the rewind flow as a whole.

use vstd::prelude::*;
use vstd::string::*;

use crate::answers::{
    answered, awaits, done_mode, points_loaded, prefilled, preview_lost, previewed, rewind_lost,
    truncates,
};
use crate::app_state::{ActiveView, AgentId, AgentModel, AppModel, EffectModel, RequestModel};
use crate::composer::PromptModel;
use crate::dispatch::{
    edit_asked, gone_back, left, list_asked, mode_selected, never_ask_chosen, offer_taken,
    points_answered, preview_answered, preview_refused, rewind_answered, rewind_asked,
    rewind_confirmed, rewind_refused, turn_picked,
};
use crate::flow::{
    asked_mode_again, begin_effects, begun, cancel_agreed, committed_mode, confirmed,
    edit_submitted, editor_closed, edits_from, listed, mode_chosen, offered, opened, picked,
    touches_files,
};
use crate::input::{
    activation, cursor_input, cursor_of, enter_input, has_cursor, is_confirm_style, key_input,
    last_row, moved, pointed, target_of, with_cursor, KeyCode, KeyEvent, KeyEventKind,
};
use crate::layout::{first_radio_row, in_area, overlay_height, radios, row_at, Rect};
use crate::overlay_list::{list_capacity, list_offset};
use crate::phase::{
    mode_of, wire_of, PhaseModel, PointModel, ResponseModel, RewindInput, RewindMode,
};
use crate::points::edited_from;
use crate::render::{
    content_width, last_text_row, panel_ops, picker_ops, picker_shown, picker_spans, radio_ops,
    radio_spans, text_op,
};
use crate::text::trimmed;
use crate::theme::Theme;
use crate::transcript::{entry_for, lemma_entry_in_range, BlockModel};

pub mod answers;
pub mod data;
pub mod drawing;
pub mod flow;
pub mod keys;
pub mod points;
pub mod program;
pub mod rows;
pub mod transcript;
pub mod words;

verus! {

/// A mode survives being written to the wire and read back.
pub proof fn law_wire_round_trip(mode: RewindMode)
    ensures
        mode_of(wire_of(mode)) == mode,
{
    reveal_strlit("all");
    reveal_strlit("files_only");
    reveal_strlit("code_only");
    reveal_strlit("conversation_only");
    assert("all"@.len() == 3);
    assert("files_only"@.len() == 10);
    assert("code_only"@.len() == 9);
    assert("conversation_only"@.len() == 17);
}

/// Edits count for every turn up to their own: a rewind to an earlier turn reverts at least what
/// a rewind to a later one does.
pub proof fn law_edits_cumulative(points: Seq<PointModel>, earlier: usize, later: usize)
    requires
        earlier <= later,
        edited_from(points, later),
    ensures
        edited_from(points, earlier),
{
    let i = choose|i: int|
        0 <= i < points.len() && (#[trigger] points[i]).prompt_index >= later
            && points[i].num_file_snapshots > 0;
    assert(points[i].prompt_index >= earlier);
}

/// The key whose name a choice shows.
pub open spec fn key_shown(key: char) -> KeyCode {
    if key == '\u{8}' {
        KeyCode::Backspace
    } else if key == '\u{1b}' {
        KeyCode::Esc
    } else {
        KeyCode::Char(key)
    }
}

/// Pressing the key that a choice shows does what clicking the choice does.
pub proof fn law_shown_key_is_the_click(phase: PhaseModel, row: usize, kind: KeyEventKind)
    requires
        row < radios(phase).len(),
        radios(phase)[row as int].enabled,
        !(kind is Release),
    ensures
        key_input(
            phase,
            (KeyEvent { code: key_shown(radios(phase)[row as int].key), kind }),
        ) == activation(with_cursor(phase, row)),
{
}

/// A click does what Enter does on the row under the cursor.
pub proof fn law_click_is_enter(phase: PhaseModel)
    ensures
        activation(phase) == match enter_input(phase) {
            RewindInput::ConfirmCursor => cursor_input(phase),
            other => other,
        },
{
}

/// Esc gets out of every phase but a rewind that is under way.
pub proof fn law_esc_always_leaves(phase: PhaseModel, kind: KeyEventKind)
    requires
        !(kind is Release),
    ensures
        key_input(phase, (KeyEvent { code: KeyCode::Esc, kind })) == if phase is Executing {
            RewindInput::Consumed
        } else if phase is Error {
            RewindInput::DismissError
        } else {
            RewindInput::Dismissed
        },
{
}

/// A key that goes up asks for nothing, and a rewind under way takes no keys at all.
pub proof fn law_keys_that_do_nothing(phase: PhaseModel, key: KeyEvent)
    requires
        key.kind is Release || phase is Executing,
    ensures
        key_input(phase, key) is Consumed,
{
}

/// A phase whose list, if it has one, fits into memory.
pub open spec fn fits(phase: PhaseModel) -> bool {
    last_row(phase) <= usize::MAX
}

/// Moving the cursor changes nothing else, and leaves it on a row that can be taken.
pub proof fn law_moved_cursor(phase: PhaseModel, delta: i32)
    requires
        fits(phase),
        last_row(phase) >= 0,
    ensures
        moved(phase, delta) == with_cursor(phase, cursor_of(moved(phase, delta))),
        cursor_of(moved(phase, delta)) <= last_row(phase),
        !(phase is Picker) ==> {
            &&& cursor_of(moved(phase, delta)) < radios(phase).len()
            &&& radios(phase)[cursor_of(moved(phase, delta)) as int].enabled
        },
{
}

/// Pointing at a row changes nothing but the cursor, leaves it on a row that can be taken, and
/// pointing there again changes nothing.
pub proof fn law_pointed_cursor(phase: PhaseModel, idx: usize)
    requires
        fits(phase),
        last_row(phase) >= 0,
    ensures
        pointed(phase, idx) == with_cursor(phase, cursor_of(pointed(phase, idx))),
        cursor_of(pointed(phase, idx)) <= last_row(phase),
        idx <= last_row(phase) ==> cursor_of(pointed(phase, idx)) == idx,
        !(phase is Picker) ==> {
            &&& cursor_of(pointed(phase, idx)) < radios(phase).len()
            &&& radios(phase)[cursor_of(pointed(phase, idx)) as int].enabled
        },
        pointed(pointed(phase, idx), idx) == pointed(phase, idx),
{
}

/// A choice is hit exactly on the screen row it is drawn on, over the whole width of the overlay,
/// and only if it can be taken.
pub proof fn law_choices_are_hit_where_drawn(
    phase: PhaseModel,
    area: Rect,
    col: u16,
    row: u16,
    choice: usize,
)
    requires
        !(phase is Picker),
        !area.too_small(),
        in_area(area, col, row),
    ensures
        row_at(phase, area, col, row) == Some(choice) <==> {
            &&& choice < radios(phase).len()
            &&& radios(phase)[choice as int].enabled
            &&& row == area.y + first_radio_row(phase) + choice
        },
{
}

/// What is hit can be pointed at: after a click the cursor stands on the row that was clicked.
pub proof fn law_click_lands_on_its_row(
    phase: PhaseModel,
    area: Rect,
    col: u16,
    row: u16,
    choice: usize,
)
    requires
        fits(phase),
        has_cursor(phase),
        row_at(phase, area, col, row) == Some(choice),
    ensures
        cursor_of(pointed(phase, choice)) == choice,
{
}

/// Every choice lies inside the height that the overlay asks for, with a blank row below.
pub proof fn law_height_shows_every_choice(phase: PhaseModel, screen_h: u16, choice: usize)
    requires
        !(phase is Picker),
        choice < radios(phase).len(),
    ensures
        first_radio_row(phase) + choice <= overlay_height(phase, screen_h) - 2,
{
}

/// In an area of the height that the overlay asks for, everything it writes stays above the last
/// row, which is blank. A list needs three rows for that, whatever is in it.
pub proof fn law_height_covers_every_row(phase: PhaseModel, area: Rect, screen_h: u16)
    requires
        area.height == overlay_height(phase, screen_h),
        phase is Picker ==> screen_h >= 3,
    ensures
        last_text_row(phase, area) <= area.height - 2,
{
}

proof fn lemma_choice_drawn(
    phase: PhaseModel,
    n: nat,
    area: Rect,
    theme: Theme,
    focused: bool,
    choice: int,
)
    requires
        0 <= choice < n <= radios(phase).len(),
    ensures
        radio_ops(phase, n, area, theme, focused).contains(
            text_op(
                area,
                first_radio_row(phase) + choice,
                radio_spans(radios(phase)[choice], choice == cursor_of(phase), theme),
            ),
        ),
    decreases n,
{
    let text = text_op(
        area,
        first_radio_row(phase) + choice,
        radio_spans(radios(phase)[choice], choice == cursor_of(phase), theme),
    );
    let all = radio_ops(phase, n, area, theme, focused);
    let rest = radio_ops(phase, (n - 1) as nat, area, theme, focused);
    if choice == n - 1 {
        assert(all[rest.len() as int + 1] == text);
    } else {
        lemma_choice_drawn(phase, (n - 1) as nat, area, theme, focused, choice);
        let i = choose|i: int| 0 <= i < rest.len() && rest[i] == text;
        assert(all[i] == text);
    }
}

/// What a click finds is what is drawn there: the choice that is hit is the one whose key, marker
/// and label stand in that row.
pub proof fn law_clicked_choice_is_drawn(
    phase: PhaseModel,
    area: Rect,
    theme: Theme,
    focused: bool,
    col: u16,
    row: u16,
    choice: usize,
)
    requires
        !(phase is Picker),
        row_at(phase, area, col, row) == Some(choice),
    ensures
        panel_ops(phase, area, theme, focused).contains(
            text_op(
                area,
                row - area.y,
                radio_spans(radios(phase)[choice as int], choice == cursor_of(phase), theme),
            ),
        ),
{
    let n = radios(phase).len();
    lemma_choice_drawn(phase, n, area, theme, focused, choice as int);
    let choices = radio_ops(phase, n, area, theme, focused);
    let all = panel_ops(phase, area, theme, focused);
    let text = text_op(
        area,
        row - area.y,
        radio_spans(radios(phase)[choice as int], choice == cursor_of(phase), theme),
    );
    let i = choose|i: int| 0 <= i < choices.len() && choices[i] == text;
    assert(all[all.len() - choices.len() + i] == text);
}

proof fn lemma_turn_drawn(
    points: Seq<PointModel>,
    selected: usize,
    n: nat,
    area: Rect,
    theme: Theme,
    focused: bool,
    i: int,
)
    requires
        0 <= i < n,
    ensures
        ({
            let item = list_offset(selected, list_capacity(area.height)) + i;
            picker_ops(points, selected, n, area, theme, focused).contains(
                text_op(
                    area,
                    i + 2,
                    picker_spans(points[item], item == selected, content_width(area), theme),
                ),
            )
        }),
    decreases n,
{
    let item = list_offset(selected, list_capacity(area.height)) + i;
    let text = text_op(
        area,
        i + 2,
        picker_spans(points[item], item == selected, content_width(area), theme),
    );
    let all = picker_ops(points, selected, n, area, theme, focused);
    let rest = picker_ops(points, selected, (n - 1) as nat, area, theme, focused);
    if i == n - 1 {
        assert(all[rest.len() as int + 1] == text);
    } else {
        lemma_turn_drawn(points, selected, (n - 1) as nat, area, theme, focused, i);
        let k = choose|k: int| 0 <= k < rest.len() && rest[k] == text;
        assert(all[k] == text);
    }
}

/// What a click finds in the picker is what is drawn there: the turn that is hit is the one whose
/// preview stands in that row.
pub proof fn law_clicked_turn_is_drawn(
    points: Seq<PointModel>,
    selected: usize,
    area: Rect,
    theme: Theme,
    focused: bool,
    col: u16,
    row: u16,
    turn: usize,
)
    requires
        points.len() <= usize::MAX,
        row_at(PhaseModel::Picker { points, selected }, area, col, row) == Some(turn),
    ensures
        turn < points.len(),
        panel_ops(PhaseModel::Picker { points, selected }, area, theme, focused).contains(
            text_op(
                area,
                row - area.y,
                picker_spans(
                    points[turn as int],
                    turn == selected,
                    content_width(area),
                    theme,
                ),
            ),
        ),
{
    let n = picker_shown(points.len(), selected, area);
    let i = row - (area.y + 2);
    lemma_turn_drawn(points, selected, n, area, theme, focused, i);
    let turns = picker_ops(points, selected, n, area, theme, focused);
    let all = panel_ops(PhaseModel::Picker { points, selected }, area, theme, focused);
    let text = text_op(
        area,
        row - area.y,
        picker_spans(points[turn as int], turn == selected, content_width(area), theme),
    );
    let k = choose|k: int| 0 <= k < turns.len() && turns[k] == text;
    assert(all[all.len() - turns.len() + k] == text);
}

/// The turn under the cursor of the picker can always be seen, as long as there is room for one.
pub proof fn law_selected_turn_is_in_view(
    points: Seq<PointModel>,
    selected: usize,
    area: Rect,
    col: u16,
)
    requires
        selected < points.len(),
        !area.too_small(),
        area.height > 3,
        area.x <= col < area.x + area.width,
        area.y + area.height <= u16::MAX,
    ensures
        ({
            let offset = list_offset(selected, list_capacity(area.height));
            let row = (area.y + 2 + (selected - offset)) as u16;
            row_at(PhaseModel::Picker { points, selected }, area, col, row) == Some(selected)
        }),
{
}

/// Rewinding files alone cannot be chosen where no edits were tracked or it is not on offer:
/// neither by key, nor by click, nor by cursor, nor by asking for it all the same.
pub proof fn law_files_only_out_of_reach(
    agent: AgentModel,
    id: AgentId,
    confirm: bool,
    area: Rect,
    col: u16,
    row: u16,
    kind: KeyEventKind,
)
    requires
        agent.flow matches Some(state) && state.phase matches PhaseModel::ModeSelect {
            has_file_changes,
            offer_files_only,
            ..
        } && (!has_file_changes || !offer_files_only),
    ensures
        ({
            let phase = agent.flow->0.phase;
            let target = target_of(phase);
            &&& key_input(phase, (KeyEvent { code: KeyCode::Char('f'), kind })) is Consumed
            &&& row_at(phase, area, col, row) != Some(2usize)
            &&& last_row(phase) < 2
            &&& mode_chosen(agent, id, confirm, target, RewindMode::FilesOnly) == (agent, Seq::<
                EffectModel,
            >::empty())
        }),
{
}

/// What the composer will hold once the flow is left.
pub open spec fn kept_draft(agent: AgentModel) -> PromptModel {
    match agent.draft() {
        Some(d) => d,
        None => agent.prompt,
    }
}

/// Nothing of the user's work differs: neither the conversation, nor the draft, nor the edit, nor
/// the session.
pub open spec fn same_work(before: AgentModel, after: AgentModel) -> bool {
    &&& after.transcript.entries == before.transcript.entries
    &&& kept_draft(after) == kept_draft(before)
    &&& after.inline_edit == before.inline_edit
    &&& after.session == before.session
}

/// Leaving the flow puts the draft back as it was.
pub proof fn law_dismiss_restores_the_composer(agent: AgentModel)
    ensures
        agent.dismissed().prompt == kept_draft(agent),
        agent.dismissed().flow is None,
        same_work(agent, agent.dismissed()),
{
}

/// Opening the flow and leaving it again changes nothing but that a jump picker is closed and
/// points from an earlier flow are forgotten.
pub proof fn law_open_then_dismiss(agent: AgentModel)
    requires
        agent.flow is None,
    ensures
        opened(agent).dismissed() == (AgentModel {
            points: None,
            jump_picker_open: false,
            ..agent
        }),
        listed(agent).dismissed() == opened(agent).dismissed(),
{
}

/// Opening the flow loses no work.
pub proof fn law_opening_keeps_work(
    agent: AgentModel,
    busy_anchor: usize,
    anchor: usize,
    selected: Option<usize>,
)
    requires
        agent.flow is None,
    ensures
        same_work(agent, begun(agent, busy_anchor, anchor, selected)),
        same_work(agent, opened(agent)),
        same_work(agent, listed(agent)),
{
}

/// Submitting an edited prompt loses no work: an edit that comes to nothing only closes the editor,
/// and any other stays open behind the flow.
pub proof fn law_submitting_keeps_work(agent: AgentModel, id: AgentId, session: Seq<char>)
    requires
        agent.flow is None,
    ensures
        ({
            let (after, effects) = edit_submitted(agent, id, session);
            match agent.inline_edit {
                Some(edit) if trimmed(edit.text).len() == 0 || trimmed(edit.text) == trimmed(
                    edit.original,
                ) => {
                    &&& after == editor_closed(agent)
                    &&& effects.len() == 0
                },
                _ => same_work(agent, after),
            }
        }),
{
}

/// No choice in the flow, and no answer short of a rewind that went through, loses any work.
pub proof fn law_flow_keeps_work(
    agent: AgentModel,
    id: AgentId,
    confirm: bool,
    target: usize,
    mode: RewindMode,
    points: Seq<PointModel>,
    response: ResponseModel,
    error: Seq<char>,
    minimal: bool,
)
    ensures
        same_work(agent, picked(agent, target)),
        same_work(agent, mode_chosen(agent, id, confirm, target, mode).0),
        same_work(agent, asked_mode_again(agent)),
        same_work(agent, cancel_agreed(agent, id).0),
        same_work(agent, confirmed(agent, id, target).0),
        same_work(agent, points_loaded(agent, points)),
        same_work(agent, previewed(agent, response, target, mode)),
        same_work(agent, preview_lost(agent, error, target, mode)),
        same_work(agent, rewind_lost(agent, error)),
        !response.success ==> same_work(agent, answered(agent, response, minimal)),
{
}

/// The panel on screen agrees with what is known of the agent: the mode question states the facts,
/// a dry run is only for a rewind that may move files, a plain confirmation only for one that
/// moves none, and the orphan warning only where edits would be orphaned.
pub open spec fn flow_agrees(agent: AgentModel) -> bool {
    match agent.flow {
        None => true,
        Some(state) => match state.phase {
            PhaseModel::ModeSelect { target, has_file_changes, offer_files_only, .. } => {
                &&& has_file_changes == edits_from(agent, target)
                &&& offer_files_only == (agent.inline_edit is None)
            },
            PhaseModel::Previewing { target, mode } => touches_files(
                mode,
                edits_from(agent, target),
            ),
            PhaseModel::FilePreview { target, mode, .. } => touches_files(
                mode,
                edits_from(agent, target),
            ),
            PhaseModel::Confirm { target, mode, .. } => !touches_files(
                mode,
                edits_from(agent, target),
            ),
            PhaseModel::OrphanWarning { target, .. } => target == 0 && edits_from(agent, 0),
            _ => true,
        },
    }
}

/// A choice for `target` is one that the panel on screen offers, if it is about a turn at all.
pub open spec fn about_the_panel(agent: AgentModel, target: usize) -> bool {
    match agent.flow {
        Some(state) if state.phase is ModeSelect || is_confirm_style(state.phase) => target
            == target_of(state.phase),
        _ => true,
    }
}

/// One of the panels that ask for a last word is on screen.
pub open spec fn confirmation_open(agent: AgentModel) -> bool {
    agent.flow matches Some(state) && is_confirm_style(state.phase)
}

/// The panel on screen agrees with what is known of the agent at every step of the flow.
pub proof fn law_flow_agrees(
    agent: AgentModel,
    id: AgentId,
    confirm: bool,
    target: usize,
    mode: RewindMode,
    points: Seq<PointModel>,
    response: ResponseModel,
    error: Seq<char>,
    minimal: bool,
)
    requires
        flow_agrees(agent),
    ensures
        flow_agrees(opened(agent)),
        flow_agrees(listed(agent)),
        flow_agrees(agent.dismissed()),
        flow_agrees(picked(agent, target)),
        about_the_panel(agent, target) ==> flow_agrees(
            mode_chosen(agent, id, confirm, target, mode).0,
        ),
        flow_agrees(asked_mode_again(agent)),
        flow_agrees(cancel_agreed(agent, id).0),
        flow_agrees(confirmed(agent, id, target).0),
        flow_agrees(points_loaded(agent, points)),
        flow_agrees(previewed(agent, response, target, mode)),
        flow_agrees(preview_lost(agent, error, target, mode)),
        flow_agrees(answered(agent, response, minimal)),
{
    assert(touches_files(RewindMode::FilesOnly, true));
}

/// Some effect starts a rewind.
pub open spec fn rewinds(effects: Seq<EffectModel>) -> bool {
    exists|i: int| 0 <= i < effects.len() && (#[trigger] effects[i]) is RewindExecute
}

/// No file moves unless the user saw what would move: a rewind that may move files is started
/// only from the list that a dry run produced.
pub proof fn law_files_move_only_after_a_preview(
    agent: AgentModel,
    id: AgentId,
    confirm: bool,
    target: usize,
    mode: RewindMode,
    session: Seq<char>,
)
    requires
        flow_agrees(agent),
        about_the_panel(agent, target),
    ensures
        rewinds(mode_chosen(agent, id, confirm, target, mode).1) ==> !touches_files(
            mode,
            edits_from(agent, target),
        ),
        rewinds(confirmed(agent, id, target).1) ==> (agent.flow->0.phase is FilePreview
            || !touches_files(committed_mode(agent.flow->0.phase), edits_from(agent, target))),
        !rewinds(begin_effects(agent, id, session)),
        !rewinds(edit_submitted(agent, id, session).1),
        !rewinds(cancel_agreed(agent, id).1),
{
}

/// A rewind starts unasked only where the confirm setting is off and no edits would be orphaned.
pub proof fn law_no_rewind_without_consent(
    agent: AgentModel,
    id: AgentId,
    confirm: bool,
    target: usize,
    mode: RewindMode,
)
    ensures
        rewinds(mode_chosen(agent, id, confirm, target, mode).1) ==> {
            &&& !confirm
            &&& !(target == 0 && offered(agent, target).0)
        },
        rewinds(confirmed(agent, id, target).1) ==> confirmation_open(agent),
{
}

/// Confirming where no confirmation is on screen does nothing, and does not touch the setting.
pub proof fn law_confirm_needs_its_panel(app: AppModel, target: usize)
    requires
        app.active_agent() matches Some(id) ==> !confirmation_open(app.agents[id]),
    ensures
        rewind_confirmed(app, target) == (app, Seq::<EffectModel>::empty()),
        never_ask_chosen(app, target) == (app, Seq::<EffectModel>::empty()),
{
    if let Some(id) = app.active_agent() {
        assert(app.agents.insert(id, app.agents[id]) =~= app.agents);
    }
}

/// "Don't ask again" changes the setting only together with a rewind that starts, and the setting
/// is then off.
pub proof fn law_never_ask_goes_with_the_rewind(app: AppModel, target: usize)
    ensures
        never_ask_chosen(app, target).0.settings != app.settings ==> {
            &&& rewinds(never_ask_chosen(app, target).1)
            &&& !never_ask_chosen(app, target).0.settings.confirms()
        },
        rewinds(rewind_confirmed(app, target).1) ==> !never_ask_chosen(
            app,
            target,
        ).0.settings.confirms(),
{
    let effects = rewind_confirmed(app, target).1;
    if effects.len() > 0 {
        assert(effects[0] is RewindExecute);
        assert(never_ask_chosen(app, target).1[0] is RewindExecute);
    }
}

/// Going back from a confirmation brings up the question again as it was before the choice.
pub proof fn law_back_undoes_the_choice(
    agent: AgentModel,
    id: AgentId,
    confirm: bool,
    target: usize,
    mode: RewindMode,
    response: ResponseModel,
)
    ensures
        ({
            let question = picked(agent, target);
            let chosen = mode_chosen(question, id, confirm, target, mode).0;
            let shown = previewed(chosen, response, target, mode);
            &&& confirmation_open(chosen) ==> asked_mode_again(chosen) == question
            &&& confirmation_open(shown) ==> asked_mode_again(shown) == question
        }),
{
}

/// The result of a dry run that was left or replaced changes nothing.
pub proof fn law_stale_previews_are_ignored(
    agent: AgentModel,
    response: ResponseModel,
    error: Seq<char>,
    target: usize,
    mode: RewindMode,
)
    ensures
        !awaits(agent.dismissed(), target, mode),
        !awaits(agent, target, mode) ==> {
            &&& previewed(agent, response, target, mode) == agent
            &&& preview_lost(agent, error, target, mode) == agent
        },
{
}

/// A rewind of files alone leaves the conversation, what is selected and in view of it, the
/// focus, and the summary alone, and gives the draft back.
pub proof fn law_files_only_leaves_the_conversation(
    agent: AgentModel,
    response: ResponseModel,
    minimal: bool,
)
    requires
        response.success,
        done_mode(agent, response) is FilesOnly,
        agent.pending_resubmit is None,
    ensures
        ({
            let after = answered(agent, response, minimal);
            &&& !minimal ==> after.transcript == agent.transcript
            &&& after.transcript.entries.take(agent.transcript.entries.len() as int)
                == agent.transcript.entries
            &&& after.transcript.viewport == agent.transcript.viewport
            &&& after.transcript.selected == agent.transcript.selected
            &&& after.active_pane == agent.active_pane
            &&& after.last_turn_summary == agent.last_turn_summary
            &&& after.prompt == kept_draft(agent)
            &&& !truncates(agent, response)
        }),
{
    let after = answered(agent, response, minimal);
    assert(after.transcript.entries.take(agent.transcript.entries.len() as int)
        =~= agent.transcript.entries);
}

/// A rewind of the conversation keeps exactly what came before the turn that it goes back to. The
/// input is in the composer then, and the summary of the turns that are gone is gone too.
pub proof fn law_conversation_keeps_the_prefix(
    agent: AgentModel,
    response: ResponseModel,
    minimal: bool,
)
    requires
        response.success,
        !(done_mode(agent, response) is FilesOnly),
        agent.transcript.entries.len() <= usize::MAX,
    ensures
        ({
            let after = answered(agent, response, minimal);
            let entries = agent.transcript.entries;
            let kept = match entry_for(entries, response.target_prompt_index) {
                Some(at) => at as int,
                None => entries.len() as int,
            };
            &&& 0 <= kept <= entries.len()
            &&& after.transcript.entries.len() >= kept
            &&& after.transcript.entries.take(kept) == entries.take(kept)
            &&& !minimal ==> after.transcript.entries == entries.take(kept)
            &&& minimal ==> after.transcript.entries.len() <= kept + 1
            &&& minimal && after.transcript.entries.len() == kept + 1
                ==> after.transcript.entries[kept].block is System
            &&& after.transcript.viewport is Bottom
            &&& after.active_pane is Prompt
            &&& after.last_turn_summary is None
            &&& after.summary_generation == agent.summary_generation.wrapping_add(1)
            &&& after.flow is None && after.points is None
        }),
{
    let entries = agent.transcript.entries;
    lemma_entry_in_range(entries, response.target_prompt_index);
    let kept = match entry_for(entries, response.target_prompt_index) {
        Some(at) => at as int,
        None => entries.len() as int,
    };
    let after = answered(agent, response, minimal);
    assert(entries.take(entries.len() as int) =~= entries);
    assert(after.transcript.entries.take(kept) =~= entries.take(kept));
    if !minimal {
        assert(after.transcript.entries =~= entries.take(kept));
    }
}

/// A rewind that failed drops the pending resubmit, and leaving the error returns to the editor,
/// the conversation and the draft as they were.
pub proof fn law_failed_rewind_changes_nothing(agent: AgentModel, error: Seq<char>)
    ensures
        ({
            let after = rewind_lost(agent, error).dismissed();
            &&& after.pending_resubmit is None
            &&& after.inline_edit == agent.inline_edit
            &&& after.transcript == agent.transcript
            &&& after.prompt == kept_draft(agent)
        }),
{
}

/// An edited prompt is sent as it was trimmed when its rewind started, once that went through and
/// while its agent is in view and idle. It stands at the end of the conversation, the editor is
/// closed, and the draft in the composer is untouched.
pub proof fn law_resubmit_after_the_rewind(
    app: AppModel,
    id: AgentId,
    response: ResponseModel,
    text: Seq<char>,
)
    requires
        app.agents.contains_key(id),
        app.agents[id].pending_resubmit == Some(text),
        response.success,
        app.active_view == ActiveView::Agent(id),
        app.agents[id].session.state is Idle,
    ensures
        ({
            let (after, effects) = rewind_answered(app, id, response);
            let agent = after.agents[id];
            &&& effects == seq![EffectModel::SendPrompt { agent: id, text }]
            &&& agent.inline_edit is None
            &&& agent.transcript.inline_edit_height is None
            &&& agent.pending_resubmit is None
            &&& agent.prompt == kept_draft(app.agents[id])
            &&& agent.transcript.entries.len() > 0
            &&& agent.transcript.entries.last().block == (BlockModel::UserPrompt {
                text,
                prompt_index: None,
                is_interjection: false,
            })
        }),
{
}

/// An edited prompt whose agent is no longer in view is not sent. It goes into that agent's
/// composer, after the draft that is there, attachments and all.
pub proof fn law_resubmit_out_of_view(
    app: AppModel,
    id: AgentId,
    response: ResponseModel,
    text: Seq<char>,
)
    requires
        app.agents.contains_key(id),
        app.agents[id].pending_resubmit == Some(text),
        response.success,
        app.active_view != ActiveView::Agent(id),
    ensures
        ({
            let (after, effects) = rewind_answered(app, id, response);
            let draft = kept_draft(app.agents[id]);
            &&& effects.len() == 0
            &&& after.agents[id].prompt == prefilled(draft, text)
            &&& trimmed(draft.text).len() > 0 ==> {
                &&& after.agents[id].prompt.text == draft.text + ("\n"@ + text)
                &&& after.agents[id].prompt.images == draft.images
            }
        }),
{
}

/// The prompt being edited is put aside exactly when its rewind starts: never before, and always
/// then.
pub proof fn law_resubmit_is_armed_by_the_rewind(
    agent: AgentModel,
    id: AgentId,
    confirm: bool,
    target: usize,
    mode: RewindMode,
)
    requires
        agent.pending_resubmit is None,
    ensures
        mode_chosen(agent, id, confirm, target, mode).0.pending_resubmit == (if rewinds(
            mode_chosen(agent, id, confirm, target, mode).1,
        ) && agent.inline_edit is Some {
            Some(trimmed(agent.inline_edit->0.text))
        } else {
            None
        }),
        confirmed(agent, id, target).0.pending_resubmit == (if rewinds(
            confirmed(agent, id, target).1,
        ) && agent.inline_edit is Some {
            Some(trimmed(agent.inline_edit->0.text))
        } else {
            None
        }),
{
    let (a, e) = mode_chosen(agent, id, confirm, target, mode);
    let (b, f) = confirmed(agent, id, target);
    assert(e.len() > 0 && e[0] is RewindExecute ==> rewinds(e));
    assert(f.len() > 0 && f[0] is RewindExecute ==> rewinds(f));
}

/// Memory is given back once for every answer that cut the transcript, and for no other.
pub proof fn law_memory_is_released_with_the_cut(
    app: AppModel,
    id: AgentId,
    response: ResponseModel,
)
    ensures
        rewind_answered(app, id, response).0.requests == (if app.agents.contains_key(id)
            && truncates(app.agents[id], response) {
            app.requests.push(RequestModel::ReleaseRetainedMemory { reason: "rewind-truncate"@ })
        } else {
            app.requests
        }),
{
}

/// An agent is there before and after alike, and unchanged.
pub open spec fn same_agent(before: AppModel, after: AppModel, id: AgentId) -> bool {
    &&& before.agents.contains_key(id) == after.agents.contains_key(id)
    &&& before.agents.contains_key(id) ==> before.agents[id] == after.agents[id]
}

/// What the user does changes the agent in view alone.
pub proof fn law_choices_are_for_the_agent_in_view(
    app: AppModel,
    other: AgentId,
    target: usize,
    mode: RewindMode,
)
    requires
        app.active_view != ActiveView::Agent(other),
    ensures
        same_agent(app, rewind_asked(app).0, other),
        same_agent(app, list_asked(app).0, other),
        same_agent(app, edit_asked(app).0, other),
        same_agent(app, turn_picked(app, target).0, other),
        same_agent(app, mode_selected(app, target, mode).0, other),
        same_agent(app, gone_back(app).0, other),
        same_agent(app, offer_taken(app).0, other),
        same_agent(app, never_ask_chosen(app, target).0, other),
        same_agent(app, left(app).0, other),
{
}

/// An answer of the shell changes the agent that it is for alone.
pub proof fn law_answers_are_for_their_agent(
    app: AppModel,
    id: AgentId,
    other: AgentId,
    points: Seq<PointModel>,
    response: ResponseModel,
    error: Seq<char>,
    target: usize,
    mode: RewindMode,
)
    requires
        other != id,
    ensures
        same_agent(app, points_answered(app, id, points).0, other),
        same_agent(app, preview_answered(app, id, response, target, mode).0, other),
        same_agent(app, preview_refused(app, id, error, target, mode).0, other),
        same_agent(app, rewind_answered(app, id, response).0, other),
        same_agent(app, rewind_refused(app, id, error).0, other),
{
}

} // verus!
