//! Which agent a request, choice or answer reaches, and what the program does along with it.

use vstd::prelude::*;
use vstd::string::*;

use crate::answers::{
    answered, points_loaded, prefilled, preview_lost, previewed, rewind_lost, sent, truncates,
};
use crate::app_state::{
    ActiveView, AgentId, AgentModel, AppModel, EffectModel, RequestModel, SettingValue, UiSettings,
};
use crate::dispatch::{
    edit_asked, gone_back, left, list_asked, mode_selected, never_ask_chosen, offer_taken,
    points_answered, preview_answered, preview_refused, rewind_answered, rewind_asked,
    rewind_confirmed, rewind_refused, turn_picked, NO_SESSION_NOTICE,
};
use crate::flow::{
    asked_mode_again, begin_effects, cancel_agreed, confirmed, edit_submitted, listed, mode_chosen,
    opened, picked,
};
use crate::phase::{PointModel, ResponseModel, RewindMode};

verus! {

/// Nothing happened.
pub open spec fn untouched(app: AppModel, outcome: (AppModel, Seq<EffectModel>)) -> bool {
    outcome.0 == app && outcome.1.len() == 0
}

/// One agent changed, to what it is now, and nothing else did.
pub open spec fn one_agent_became(
    app: AppModel,
    after: AppModel,
    id: AgentId,
    agent: AgentModel,
) -> bool {
    &&& after.active_view == app.active_view
    &&& after.settings == app.settings
    &&& after.screen_mode == app.screen_mode
    &&& after.toast == app.toast
    &&& after.requests == app.requests
    &&& after.agents.contains_key(id)
    &&& after.agents[id] == agent
    &&& forall|other: AgentId| #[trigger]
        after.agents.contains_key(other) <==> app.agents.contains_key(other) || other == id
    &&& forall|other: AgentId|
        other != id && app.agents.contains_key(other) ==> #[trigger] after.agents[other]
            == app.agents[other]
}

/// Nothing but a notice.
pub open spec fn only_notified(
    app: AppModel,
    outcome: (AppModel, Seq<EffectModel>),
    message: Seq<char>,
) -> bool {
    &&& outcome.0 == (AppModel { toast: Some(message), ..app })
    &&& outcome.1.len() == 0
}

/// The agent in view, where there is one.
pub open spec fn in_view(app: AppModel, id: AgentId) -> bool {
    app.active_view == ActiveView::Agent(id) && app.agents.contains_key(id)
}

/// The confirm setting is on unless it was turned off.
pub proof fn law_confirm_setting(settings: UiSettings)
    ensures
        settings.confirm_before_rewind is None ==> settings.confirms(),
        settings.confirm_before_rewind == Some(true) ==> settings.confirms(),
        settings.confirm_before_rewind == Some(false) ==> !settings.confirms(),
{
}

/// Whatever the user does without an agent in view does nothing.
pub proof fn law_nobody_in_view(app: AppModel, target: usize, mode: RewindMode)
    requires
        forall|id: AgentId| !in_view(app, id),
    ensures
        untouched(app, rewind_asked(app)),
        untouched(app, list_asked(app)),
        untouched(app, edit_asked(app)),
        untouched(app, turn_picked(app, target)),
        untouched(app, mode_selected(app, target, mode)),
        untouched(app, gone_back(app)),
        untouched(app, offer_taken(app)),
        untouched(app, rewind_confirmed(app, target)),
        untouched(app, never_ask_chosen(app, target)),
        untouched(app, left(app)),
{
    if let ActiveView::Agent(id) = app.active_view {
        assert(!in_view(app, id));
    }
}

/// A request without a session is answered with a notice, and nothing else.
pub proof fn law_no_session(app: AppModel, id: AgentId)
    requires
        in_view(app, id),
        app.agents[id].session.session_id is None,
    ensures
        only_notified(app, rewind_asked(app), NO_SESSION_NOTICE@),
        only_notified(app, list_asked(app), NO_SESSION_NOTICE@),
        only_notified(app, edit_asked(app), NO_SESSION_NOTICE@),
{
}

/// A request with a session opens the flow of the agent in view, for that session.
pub proof fn law_requests(app: AppModel, id: AgentId, session: Seq<char>)
    requires
        in_view(app, id),
        app.agents[id].session.session_id == Some(session),
    ensures
        ({
            let agent = app.agents[id];
            let edit = edit_submitted(agent, id, session);
            &&& one_agent_became(app, rewind_asked(app).0, id, opened(agent))
            &&& rewind_asked(app).1 == begin_effects(agent, id, session)
            &&& one_agent_became(app, list_asked(app).0, id, listed(agent))
            &&& list_asked(app).1 == begin_effects(agent, id, session)
            &&& one_agent_became(app, edit_asked(app).0, id, edit.0)
            &&& edit_asked(app).1 == edit.1
        }),
{
}

/// A choice goes to the agent in view; the confirm setting of the program counts.
pub proof fn law_choices(app: AppModel, id: AgentId, target: usize, mode: RewindMode)
    requires
        in_view(app, id),
    ensures
        ({
            let agent = app.agents[id];
            let confirm = app.settings.confirm_before_rewind != Some(false);
            &&& one_agent_became(app, turn_picked(app, target).0, id, picked(agent, target))
            &&& turn_picked(app, target).1.len() == 0
            &&& one_agent_became(
                app,
                mode_selected(app, target, mode).0,
                id,
                mode_chosen(agent, id, confirm, target, mode).0,
            )
            &&& mode_selected(app, target, mode).1 == mode_chosen(
                agent,
                id,
                confirm,
                target,
                mode,
            ).1
            &&& one_agent_became(app, gone_back(app).0, id, asked_mode_again(agent))
            &&& gone_back(app).1.len() == 0
            &&& one_agent_became(app, offer_taken(app).0, id, cancel_agreed(agent, id).0)
            &&& offer_taken(app).1 == cancel_agreed(agent, id).1
            &&& one_agent_became(
                app,
                rewind_confirmed(app, target).0,
                id,
                confirmed(agent, id, target).0,
            )
            &&& rewind_confirmed(app, target).1 == confirmed(agent, id, target).1
            &&& one_agent_became(app, left(app).0, id, agent.dismissed())
            &&& left(app).1.len() == 0
        }),
{
}

/// "Don't ask again" confirms. If that started the rewind and the setting was on, the setting goes
/// off, open settings panels are told, and after the rewind the setting is stored, to go back on
/// should storing fail.
pub proof fn law_never_ask(app: AppModel, target: usize)
    ensures
        ({
            let (plain, plain_effects) = rewind_confirmed(app, target);
            let (after, effects) = never_ask_chosen(app, target);
            let turns_off = plain_effects.len() > 0 && app.settings.confirm_before_rewind != Some(
                false,
            );
            &&& !turns_off ==> after == plain && effects == plain_effects
            &&& turns_off ==> {
                &&& after.active_view == plain.active_view
                &&& after.agents == plain.agents
                &&& after.screen_mode == plain.screen_mode
                &&& after.toast == plain.toast
                &&& after.settings.confirm_before_rewind == Some(false)
                &&& after.requests == app.requests.push(RequestModel::RefreshSettingsModals)
                &&& effects.len() == plain_effects.len() + 1
                &&& effects.drop_last() == plain_effects
                &&& effects.last() == (EffectModel::PersistSetting {
                    key: "confirm_before_rewind"@,
                    value: SettingValue::Bool(false),
                    rollback_value: SettingValue::Bool(true),
                })
            }
        }),
{
    let (plain, plain_effects) = rewind_confirmed(app, target);
    let (after, effects) = never_ask_chosen(app, target);
    if effects.len() > plain_effects.len() {
        assert(effects.drop_last() =~= plain_effects);
    }
}

/// An answer for an agent that is gone does nothing.
pub proof fn law_nobody_to_answer(
    app: AppModel,
    id: AgentId,
    points: Seq<PointModel>,
    response: ResponseModel,
    error: Seq<char>,
    target: usize,
    mode: RewindMode,
)
    requires
        !app.agents.contains_key(id),
    ensures
        untouched(app, points_answered(app, id, points)),
        untouched(app, preview_answered(app, id, response, target, mode)),
        untouched(app, preview_refused(app, id, error, target, mode)),
        untouched(app, rewind_answered(app, id, response)),
        untouched(app, rewind_refused(app, id, error)),
{
}

/// An answer goes to its agent, in view or not, and asks for nothing further. Points that are none
/// at all are also announced.
pub proof fn law_answers(
    app: AppModel,
    id: AgentId,
    points: Seq<PointModel>,
    response: ResponseModel,
    error: Seq<char>,
    target: usize,
    mode: RewindMode,
)
    requires
        app.agents.contains_key(id),
    ensures
        ({
            let agent = app.agents[id];
            let loaded = points_answered(app, id, points);
            &&& loaded.1.len() == 0
            &&& points.len() > 0 ==> one_agent_became(
                app,
                loaded.0,
                id,
                points_loaded(agent, points),
            )
            &&& points.len() == 0 ==> {
                &&& loaded.0.toast == Some("No undoable prompts"@)
                &&& one_agent_became(
                    app,
                    AppModel { toast: app.toast, ..loaded.0 },
                    id,
                    points_loaded(agent, points),
                )
            }
            &&& one_agent_became(
                app,
                preview_answered(app, id, response, target, mode).0,
                id,
                previewed(agent, response, target, mode),
            )
            &&& preview_answered(app, id, response, target, mode).1.len() == 0
            &&& one_agent_became(
                app,
                preview_refused(app, id, error, target, mode).0,
                id,
                preview_lost(agent, error, target, mode),
            )
            &&& preview_refused(app, id, error, target, mode).1.len() == 0
            &&& one_agent_became(
                app,
                rewind_refused(app, id, error).0,
                id,
                rewind_lost(agent, error),
            )
            &&& rewind_refused(app, id, error).1.len() == 0
        }),
{
}

/// The answer to a rewind lands with its agent. If a prompt waited for it and it went through, the
/// prompt is sent while the agent is in view, and goes into its composer otherwise. If part of the
/// transcript went away, its memory is asked back.
pub proof fn law_rewind_lands(app: AppModel, id: AgentId, response: ResponseModel)
    requires
        app.agents.contains_key(id),
    ensures
        ({
            let before = app.agents[id];
            let landed = answered(before, response, app.screen_mode is Minimal);
            let (after, effects) = rewind_answered(app, id, response);
            let rest = AppModel { requests: app.requests, ..after };
            &&& truncates(before, response) ==> {
                &&& after.requests.len() == app.requests.len() + 1
                &&& after.requests.drop_last() == app.requests
                &&& after.requests.last() == (RequestModel::ReleaseRetainedMemory {
                    reason: "rewind-truncate"@,
                })
            }
            &&& !truncates(before, response) ==> after.requests == app.requests
            &&& before.pending_resubmit is None || !response.success ==> {
                &&& one_agent_became(app, rest, id, landed)
                &&& effects.len() == 0
            }
            &&& before.pending_resubmit matches Some(text) ==> response.success ==> {
                &&& app.active_view == ActiveView::Agent(id) ==> {
                    &&& one_agent_became(app, rest, id, sent(landed, id, text).0)
                    &&& effects == sent(landed, id, text).1
                }
                &&& app.active_view != ActiveView::Agent(id) ==> {
                    &&& one_agent_became(
                        app,
                        rest,
                        id,
                        AgentModel { prompt: prefilled(landed.prompt, text), ..landed },
                    )
                    &&& effects.len() == 0
                }
            }
        }),
{
    let before = app.agents[id];
    let (after, effects) = rewind_answered(app, id, response);
    if truncates(before, response) {
        assert(after.requests.drop_last() =~= app.requests);
    }
}

} // verus!
