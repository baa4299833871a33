//! The rewind flow in the program: requests and choices go to the agent in view, answers of the
//! shell to the agent they are for.

use vstd::prelude::*;
use vstd::string::*;

use crate::answers::{
    answered, lose_preview, lose_rewind, points_loaded, prefill, prefilled, preview_lost,
    previewed, rewind_lost, send_prompt, sent, take_answer, take_points, take_preview, truncates,
};
use crate::app_state::{
    effects_of, no_effects, ActiveView, AgentId, AgentModel, AppModel, AppView, Effect,
    EffectModel, HostRequest, RequestModel, ScreenMode, SettingValue, UiSettings,
};
use crate::flow::{
    asked_mode_again, back_to_mode_select, begin_effects, cancel_agreed, cancel_then_proceed,
    choose_mode, confirm, confirmed, dismiss, edit_submitted, listed, mode_chosen,
    open_at_selection, open_list, opened, pick, picked, submit_edit,
};
use crate::phase::{
    points_of, PointModel, ResponseModel, RewindMode, RewindPointInfo, RewindResponse,
};

verus! {

/// The notice for a request that needs a session when there is none.
pub const NO_SESSION_NOTICE: &'static str = "No active session";

/// What the outcome of a step looks like when nothing happened.
pub open spec fn idle(app: AppModel) -> (AppModel, Seq<EffectModel>) {
    (app, seq![])
}

/// The outcome of a step that changed one agent.
pub open spec fn agent_step(app: AppModel, id: AgentId, step: (AgentModel, Seq<EffectModel>)) -> (
    AppModel,
    Seq<EffectModel>,
) {
    (app.with_agent(id, step.0), step.1)
}

/// The outcome of a request that needs a session: without one, only a notice.
pub open spec fn session_step(
    app: AppModel,
    id: AgentId,
    step: (AgentModel, Seq<EffectModel>),
) -> (AppModel, Seq<EffectModel>) {
    if app.agents[id].session.session_id is None {
        (app.with_toast(NO_SESSION_NOTICE@), seq![])
    } else {
        agent_step(app, id, step)
    }
}

/// The session of an agent that has one.
pub open spec fn session_of(agent: AgentModel) -> Seq<char> {
    agent.session.session_id->0
}

/// The outcome of asking for a rewind at the selected entry.
pub open spec fn rewind_asked(app: AppModel) -> (AppModel, Seq<EffectModel>) {
    match app.active_agent() {
        None => idle(app),
        Some(id) => {
            let agent = app.agents[id];
            session_step(app, id, (opened(agent), begin_effects(agent, id, session_of(agent))))
        },
    }
}

/// Asks for a rewind at the selected entry.
pub fn dispatch_rewind(app: &mut AppView) -> (effects: Vec<Effect>)
    ensures
        (final(app)@, effects_of(effects@)) == rewind_asked(old(app)@),
{
    let id = match app.active_view {
        ActiveView::Agent(id) => id,
        _ => {
            return no_effects();
        },
    };
    let outcome = match app.agents.get_mut(id) {
        Some(agent) => open_at_selection(agent, id),
        None => {
            return no_effects();
        },
    };
    match outcome {
        Some(effects) => effects,
        None => {
            assert(app@.agents =~= old(app)@.agents);
            app.show_toast(NO_SESSION_NOTICE);
            no_effects()
        },
    }
}

/// The outcome of asking for the list of turns.
pub open spec fn list_asked(app: AppModel) -> (AppModel, Seq<EffectModel>) {
    match app.active_agent() {
        None => idle(app),
        Some(id) => {
            let agent = app.agents[id];
            session_step(app, id, (listed(agent), begin_effects(agent, id, session_of(agent))))
        },
    }
}

/// Asks for the list of turns to rewind to.
pub fn dispatch_rewind_show_picker(app: &mut AppView) -> (effects: Vec<Effect>)
    ensures
        (final(app)@, effects_of(effects@)) == list_asked(old(app)@),
{
    let id = match app.active_view {
        ActiveView::Agent(id) => id,
        _ => {
            return no_effects();
        },
    };
    let outcome = match app.agents.get_mut(id) {
        Some(agent) => open_list(agent, id),
        None => {
            return no_effects();
        },
    };
    match outcome {
        Some(effects) => effects,
        None => {
            assert(app@.agents =~= old(app)@.agents);
            app.show_toast(NO_SESSION_NOTICE);
            no_effects()
        },
    }
}

/// The outcome of submitting the edited prompt.
pub open spec fn edit_asked(app: AppModel) -> (AppModel, Seq<EffectModel>) {
    match app.active_agent() {
        None => idle(app),
        Some(id) => {
            let agent = app.agents[id];
            session_step(app, id, edit_submitted(agent, id, session_of(agent)))
        },
    }
}

/// Submits the prompt that is edited in place.
pub fn dispatch_inline_edit_submit(app: &mut AppView) -> (effects: Vec<Effect>)
    ensures
        (final(app)@, effects_of(effects@)) == edit_asked(old(app)@),
{
    let id = match app.active_view {
        ActiveView::Agent(id) => id,
        _ => {
            return no_effects();
        },
    };
    let outcome = match app.agents.get_mut(id) {
        Some(agent) => submit_edit(agent, id),
        None => {
            return no_effects();
        },
    };
    match outcome {
        Some(effects) => effects,
        None => {
            assert(app@.agents =~= old(app)@.agents);
            app.show_toast(NO_SESSION_NOTICE);
            no_effects()
        },
    }
}

/// The outcome of picking a turn.
pub open spec fn turn_picked(app: AppModel, prompt_index: usize) -> (AppModel, Seq<EffectModel>) {
    match app.active_agent() {
        None => idle(app),
        Some(id) => agent_step(app, id, (picked(app.agents[id], prompt_index), seq![])),
    }
}

/// Picks the turn to rewind to.
pub fn dispatch_rewind_picker_select(app: &mut AppView, prompt_index: usize) -> (effects: Vec<
    Effect,
>)
    ensures
        (final(app)@, effects_of(effects@)) == turn_picked(old(app)@, prompt_index),
{
    if let ActiveView::Agent(id) = app.active_view {
        if let Some(agent) = app.agents.get_mut(id) {
            pick(agent, prompt_index);
        }
    }
    no_effects()
}

/// The outcome of choosing a mode.
pub open spec fn mode_selected(app: AppModel, target: usize, mode: RewindMode) -> (
    AppModel,
    Seq<EffectModel>,
) {
    match app.active_agent() {
        None => idle(app),
        Some(id) => agent_step(
            app,
            id,
            mode_chosen(app.agents[id], id, app.settings.confirms(), target, mode),
        ),
    }
}

/// The turn is picked and a mode chosen.
pub fn dispatch_rewind_select_mode(app: &mut AppView, target: usize, mode: RewindMode) -> (effects:
    Vec<Effect>)
    ensures
        (final(app)@, effects_of(effects@)) == mode_selected(old(app)@, target, mode),
{
    let id = match app.active_view {
        ActiveView::Agent(id) => id,
        _ => {
            return no_effects();
        },
    };
    let confirm = app.current_ui.confirm_before_rewind_enabled();
    match app.agents.get_mut(id) {
        Some(agent) => choose_mode(agent, id, confirm, target, mode),
        None => no_effects(),
    }
}

/// The outcome of going back to the mode question.
pub open spec fn gone_back(app: AppModel) -> (AppModel, Seq<EffectModel>) {
    match app.active_agent() {
        None => idle(app),
        Some(id) => agent_step(app, id, (asked_mode_again(app.agents[id]), seq![])),
    }
}

/// Goes back to the mode question.
pub fn dispatch_rewind_back_to_mode_select(app: &mut AppView) -> (effects: Vec<Effect>)
    ensures
        (final(app)@, effects_of(effects@)) == gone_back(old(app)@),
{
    if let ActiveView::Agent(id) = app.active_view {
        if let Some(agent) = app.agents.get_mut(id) {
            back_to_mode_select(agent);
        }
    }
    no_effects()
}

/// The outcome of agreeing to cancel the running turn.
pub open spec fn offer_taken(app: AppModel) -> (AppModel, Seq<EffectModel>) {
    match app.active_agent() {
        None => idle(app),
        Some(id) => agent_step(app, id, cancel_agreed(app.agents[id], id)),
    }
}

/// Cancels the running turn and goes on with the rewind.
pub fn dispatch_rewind_cancel_offer(app: &mut AppView) -> (effects: Vec<Effect>)
    ensures
        (final(app)@, effects_of(effects@)) == offer_taken(old(app)@),
{
    let id = match app.active_view {
        ActiveView::Agent(id) => id,
        _ => {
            return no_effects();
        },
    };
    match app.agents.get_mut(id) {
        Some(agent) => cancel_then_proceed(agent, id),
        None => no_effects(),
    }
}

/// The outcome of confirming a rewind.
pub open spec fn rewind_confirmed(app: AppModel, target: usize) -> (AppModel, Seq<EffectModel>) {
    match app.active_agent() {
        None => idle(app),
        Some(id) => agent_step(app, id, confirmed(app.agents[id], id, target)),
    }
}

/// Commits to the rewind that the panel on screen describes.
pub fn dispatch_rewind_confirm(app: &mut AppView, target: usize) -> (effects: Vec<Effect>)
    ensures
        (final(app)@, effects_of(effects@)) == rewind_confirmed(old(app)@, target),
{
    let id = match app.active_view {
        ActiveView::Agent(id) => id,
        _ => {
            return no_effects();
        },
    };
    match app.agents.get_mut(id) {
        Some(agent) => confirm(agent, id, target),
        None => no_effects(),
    }
}

/// The outcome of confirming a rewind for good: where it starts and the setting is on, the
/// setting goes off, here and in storage.
pub open spec fn never_ask_chosen(app: AppModel, target: usize) -> (AppModel, Seq<EffectModel>) {
    let (after, effects) = rewind_confirmed(app, target);
    if effects.len() > 0 && app.settings.confirms() {
        (
            AppModel {
                settings: UiSettings { confirm_before_rewind: Some(false) },
                requests: app.requests.push(RequestModel::RefreshSettingsModals),
                ..after
            },
            effects.push(
                EffectModel::PersistSetting {
                    key: "confirm_before_rewind"@,
                    value: SettingValue::Bool(false),
                    rollback_value: SettingValue::Bool(true),
                },
            ),
        )
    } else {
        (after, effects)
    }
}

/// "Yes, and don't ask again": quietly turns confirm-before-rewind off, then executes.
/// The rewind goes first: if the phase can't commit, the setting must not change either.
pub fn dispatch_rewind_confirm_never_ask(app: &mut AppView, target: usize) -> (effects: Vec<Effect>)
    ensures
        (final(app)@, effects_of(effects@)) == never_ask_chosen(old(app)@, target),
{
    let mut effects = dispatch_rewind_confirm(app, target);
    if effects.len() == 0 {
        return effects;
    }
    if app.current_ui.confirm_before_rewind_enabled() {
        app.current_ui.confirm_before_rewind = Some(false);
        app.request(HostRequest::RefreshSettingsModals);
        let ghost started = effects_of(effects@);
        let persist = Effect::PersistSetting {
            key: "confirm_before_rewind",
            value: SettingValue::Bool(false),
            rollback_value: SettingValue::Bool(true),
        };
        effects.push(persist);
        assert(effects_of(effects@) =~= started.push(persist@));
    }
    effects
}

/// The outcome of leaving the flow.
pub open spec fn left(app: AppModel) -> (AppModel, Seq<EffectModel>) {
    match app.active_agent() {
        None => idle(app),
        Some(id) => agent_step(app, id, (app.agents[id].dismissed(), seq![])),
    }
}

/// Leaves the flow.
pub fn dispatch_rewind_dismiss(app: &mut AppView) -> (effects: Vec<Effect>)
    ensures
        (final(app)@, effects_of(effects@)) == left(old(app)@),
{
    if let ActiveView::Agent(id) = app.active_view {
        if let Some(agent) = app.agents.get_mut(id) {
            dismiss(agent);
        }
    }
    no_effects()
}

/// Leaves the error panel, and the flow with it.
pub fn dispatch_rewind_dismiss_error(app: &mut AppView) -> (effects: Vec<Effect>)
    ensures
        (final(app)@, effects_of(effects@)) == left(old(app)@),
{
    dispatch_rewind_dismiss(app)
}

/// The outcome of the shell's answer to a rewind. Where part of the transcript went away, its
/// memory is given back. An edited prompt that waited for it is sent if its agent is in view, and
/// otherwise put into that agent's composer.
pub open spec fn rewind_answered(app: AppModel, id: AgentId, response: ResponseModel) -> (
    AppModel,
    Seq<EffectModel>,
) {
    if !app.agents.contains_key(id) {
        idle(app)
    } else {
        let before = app.agents[id];
        let after = answered(before, response, app.screen_mode is Minimal);
        let host = if truncates(before, response) {
            AppModel {
                requests: app.requests.push(
                    RequestModel::ReleaseRetainedMemory { reason: "rewind-truncate"@ },
                ),
                ..app
            }
        } else {
            app
        };
        match before.pending_resubmit {
            Some(text) if response.success => if app.active_view == ActiveView::Agent(id) {
                agent_step(host, id, sent(after, id, text))
            } else {
                agent_step(
                    host,
                    id,
                    (AgentModel { prompt: prefilled(after.prompt, text), ..after }, seq![]),
                )
            },
            _ => agent_step(host, id, (after, seq![])),
        }
    }
}

/// Takes in the shell's answer to a rewind.
pub fn dispatch_rewind_success(app: &mut AppView, agent_id: AgentId, response: RewindResponse) -> (
effects: Vec<Effect>)
    ensures
        (final(app)@, effects_of(effects@)) == rewind_answered(old(app)@, agent_id, response@),
{
    let minimal = matches!(app.screen_mode, ScreenMode::Minimal);
    let landing = match app.agents.get_mut(agent_id) {
        Some(agent) => take_answer(agent, response, minimal),
        None => {
            return no_effects();
        },
    };
    if landing.truncated {
        app.request(HostRequest::ReleaseRetainedMemory { reason: "rewind-truncate" });
    }
    if let Some(text) = landing.resubmit {
        let in_view = app.active_view == ActiveView::Agent(agent_id);
        if let Some(agent) = app.agents.get_mut(agent_id) {
            let effects = if in_view {
                // Sent from the rewound point, past the composer, so that the draft in it stays.
                send_prompt(agent, agent_id, text)
            } else {
                // The view moved on during the rewind: leave the prompt where it can be sent.
                prefill(agent, text);
                no_effects()
            };
            assert(app@.agents =~= old(app)@.agents.insert(agent_id, app@.agents[agent_id]));
            return effects;
        }
    }
    no_effects()
}

/// The outcome of the points that were loaded for an agent.
pub open spec fn points_answered(app: AppModel, id: AgentId, points: Seq<PointModel>) -> (
    AppModel,
    Seq<EffectModel>,
) {
    if !app.agents.contains_key(id) {
        idle(app)
    } else {
        let after = app.with_agent(id, points_loaded(app.agents[id], points));
        if points.len() == 0 {
            (after.with_toast("No undoable prompts"@), seq![])
        } else {
            (after, seq![])
        }
    }
}

/// Takes in the points that were loaded for an agent.
pub fn handle_rewind_points_loaded(
    app: &mut AppView,
    agent_id: AgentId,
    points: Vec<RewindPointInfo>,
) -> (effects: Vec<Effect>)
    ensures
        (final(app)@, effects_of(effects@)) == points_answered(
            old(app)@,
            agent_id,
            points_of(points@),
        ),
{
    let any = match app.agents.get_mut(agent_id) {
        Some(agent) => take_points(agent, points),
        None => {
            return no_effects();
        },
    };
    if !any {
        app.show_toast("No undoable prompts");
    }
    no_effects()
}

/// The outcome of a dry run for an agent.
pub open spec fn preview_answered(
    app: AppModel,
    id: AgentId,
    response: ResponseModel,
    target: usize,
    mode: RewindMode,
) -> (AppModel, Seq<EffectModel>) {
    if !app.agents.contains_key(id) {
        idle(app)
    } else {
        agent_step(app, id, (previewed(app.agents[id], response, target, mode), seq![]))
    }
}

/// Takes in the result of a dry run.
pub fn handle_rewind_preview_complete(
    app: &mut AppView,
    agent_id: AgentId,
    response: RewindResponse,
    target_prompt_index: usize,
    mode: RewindMode,
) -> (effects: Vec<Effect>)
    ensures
        (final(app)@, effects_of(effects@)) == preview_answered(
            old(app)@,
            agent_id,
            response@,
            target_prompt_index,
            mode,
        ),
{
    if let Some(agent) = app.agents.get_mut(agent_id) {
        take_preview(agent, response, target_prompt_index, mode);
    }
    no_effects()
}

/// The outcome of a dry run that could not be done.
pub open spec fn preview_refused(
    app: AppModel,
    id: AgentId,
    error: Seq<char>,
    target: usize,
    mode: RewindMode,
) -> (AppModel, Seq<EffectModel>) {
    if !app.agents.contains_key(id) {
        idle(app)
    } else {
        agent_step(app, id, (preview_lost(app.agents[id], error, target, mode), seq![]))
    }
}

/// Takes in that a dry run could not be done.
pub fn handle_rewind_preview_failed(
    app: &mut AppView,
    agent_id: AgentId,
    error: String,
    target_prompt_index: usize,
    mode: RewindMode,
) -> (effects: Vec<Effect>)
    ensures
        (final(app)@, effects_of(effects@)) == preview_refused(
            old(app)@,
            agent_id,
            error@,
            target_prompt_index,
            mode,
        ),
{
    if let Some(agent) = app.agents.get_mut(agent_id) {
        lose_preview(agent, error, target_prompt_index, mode);
    }
    no_effects()
}

/// The outcome of a rewind that could not be done.
pub open spec fn rewind_refused(app: AppModel, id: AgentId, error: Seq<char>) -> (
    AppModel,
    Seq<EffectModel>,
) {
    if !app.agents.contains_key(id) {
        idle(app)
    } else {
        agent_step(app, id, (rewind_lost(app.agents[id], error), seq![]))
    }
}

/// Takes in that a rewind could not be done.
pub fn handle_rewind_execute_failed(app: &mut AppView, agent_id: AgentId, error: String) -> (
effects: Vec<Effect>)
    ensures
        (final(app)@, effects_of(effects@)) == rewind_refused(old(app)@, agent_id, error@),
{
    if let Some(agent) = app.agents.get_mut(agent_id) {
        lose_rewind(agent, error);
    }
    no_effects()
}

} // verus!
