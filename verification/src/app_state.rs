//! The program's state as far as the rewind flow reads or changes it, and what it asks of the
//! outside.

use vstd::prelude::*;
use vstd::string::*;

use crate::composer::{PromptModel, PromptWidget};
use crate::phase::{
    points_of, PhaseModel, PointModel, RewindMode, RewindPointInfo, RewindState, StateModel,
};
use crate::text::{text_of, texts_of};
use crate::transcript::{EntryId, ScrollbackState, TranscriptModel};

verus! {

/// Identifies an agent.
#[derive(Debug, Clone, Copy, PartialEq, Eq, Structural)]
pub struct AgentId(pub u64);

/// What the program shows.
#[derive(Debug, Clone, Copy, PartialEq, Eq, Structural)]
pub enum ActiveView {
    Welcome,
    Agent(AgentId),
}

/// How the program uses the terminal.
#[derive(Debug, Clone, Copy, PartialEq, Eq, Structural)]
pub enum ScreenMode {
    /// The whole screen, with room for toasts.
    Full,
    /// Lines appended to the terminal's own scrollback; what is committed cannot be erased.
    Minimal,
}

/// Which part of an agent's view has the input.
#[derive(Debug, Clone, Copy, PartialEq, Eq, Structural)]
pub enum ActivePane {
    Prompt,
    Scrollback,
}

/// What an agent's session is doing.
#[derive(Debug, Clone, Copy, PartialEq, Eq, Structural)]
pub enum AgentState {
    Idle,
    TurnRunning,
    Cancelling,
}

impl AgentState {
    /// A turn is running or being cancelled.
    pub fn is_busy(&self) -> (r: bool)
        ensures
            r == !(self is Idle),
    {
        !matches!(*self, AgentState::Idle)
    }
}

/// An agent's session with the shell.
#[derive(Debug)]
pub struct Session {
    pub session_id: Option<String>,
    pub state: AgentState,
    /// Prompts that wait for the running turn to end.
    pub queued_prompts: Vec<String>,
}

/// The contents of a [`Session`].
pub struct SessionModel {
    pub session_id: Option<Seq<char>>,
    pub state: AgentState,
    pub queued_prompts: Seq<Seq<char>>,
}

impl View for Session {
    type V = SessionModel;

    open spec fn view(&self) -> SessionModel {
        SessionModel {
            session_id: text_of(self.session_id),
            state: self.state,
            queued_prompts: texts_of(self.queued_prompts@),
        }
    }
}

/// A text field.
#[derive(Debug, Clone, PartialEq, Eq)]
pub struct TextArea {
    pub content: String,
}

impl TextArea {
    /// The text in the field.
    pub fn text(&self) -> (r: &str)
        ensures
            r@ == self.content@,
    {
        self.content.as_str()
    }

    /// Replaces the text in the field.
    pub fn set_text(&mut self, text: &str)
        ensures
            final(self).content@ == text@,
    {
        self.content = text.to_owned();
    }
}

/// An earlier prompt being edited in place, to be sent again from there.
#[derive(Debug, Clone, PartialEq, Eq)]
pub struct InlineEdit {
    pub prompt_index: usize,
    pub entry_id: EntryId,
    pub original: String,
    pub textarea: TextArea,
}

/// The contents of an [`InlineEdit`].
pub struct EditModel {
    pub prompt_index: usize,
    pub entry_id: EntryId,
    pub original: Seq<char>,
    pub text: Seq<char>,
}

impl View for InlineEdit {
    type V = EditModel;

    open spec fn view(&self) -> EditModel {
        EditModel {
            prompt_index: self.prompt_index,
            entry_id: self.entry_id,
            original: self.original@,
            text: self.textarea.content@,
        }
    }
}

/// An agent and its view.
#[derive(Debug)]
pub struct AgentView {
    pub session: Session,
    pub scrollback: ScrollbackState,
    pub prompt: PromptWidget,
    pub rewind_state: Option<RewindState>,
    pub rewind_points: Option<Vec<RewindPointInfo>>,
    pub inline_edit: Option<InlineEdit>,
    /// The edited prompt to send once the rewind that makes room for it has landed.
    pub pending_inline_resubmit: Option<String>,
    pub toast: Option<String>,
    pub active_pane: ActivePane,
    pub jump_picker_open: bool,
    pub last_turn_summary: Option<String>,
    /// Goes up with every change of the summary, so that a copy read earlier counts as stale.
    pub summary_generation: u64,
}

/// The contents of an [`AgentView`].
pub struct AgentModel {
    pub session: SessionModel,
    pub transcript: TranscriptModel,
    pub prompt: PromptModel,
    pub flow: Option<StateModel>,
    pub points: Option<Seq<PointModel>>,
    pub inline_edit: Option<EditModel>,
    pub pending_resubmit: Option<Seq<char>>,
    pub toast: Option<Seq<char>>,
    pub active_pane: ActivePane,
    pub jump_picker_open: bool,
    pub last_turn_summary: Option<Seq<char>>,
    pub summary_generation: u64,
}

impl View for AgentView {
    type V = AgentModel;

    open spec fn view(&self) -> AgentModel {
        AgentModel {
            session: self.session@,
            transcript: self.scrollback@,
            prompt: self.prompt@,
            flow: match self.rewind_state {
                Some(s) => Some(s@),
                None => None,
            },
            points: match self.rewind_points {
                Some(p) => Some(points_of(p@)),
                None => None,
            },
            inline_edit: match self.inline_edit {
                Some(e) => Some(e@),
                None => None,
            },
            pending_resubmit: text_of(self.pending_inline_resubmit),
            toast: text_of(self.toast),
            active_pane: self.active_pane,
            jump_picker_open: self.jump_picker_open,
            last_turn_summary: text_of(self.last_turn_summary),
            summary_generation: self.summary_generation,
        }
    }
}

impl AgentModel {
    /// The draft that the open flow keeps.
    pub open spec fn draft(self) -> Option<PromptModel> {
        match self.flow {
            Some(s) => s.draft,
            None => None,
        }
    }

    /// The entry that the open flow is anchored at.
    pub open spec fn anchor(self) -> usize {
        match self.flow {
            Some(s) => s.anchor,
            None => 0,
        }
    }

    /// The agent with the flow in another state.
    pub open spec fn with_flow(
        self,
        phase: PhaseModel,
        anchor: usize,
        draft: Option<PromptModel>,
        selected: Option<usize>,
    ) -> AgentModel {
        AgentModel { flow: Some(StateModel { phase, anchor, draft, selected }), ..self }
    }

    /// The agent with a draft, if there is one, back in the composer.
    pub open spec fn with_draft(self, draft: Option<PromptModel>) -> AgentModel {
        match draft {
            Some(d) => AgentModel { prompt: d, ..self },
            None => self,
        }
    }

    /// The agent after the flow ended without a rewind: the draft is back, the points are gone.
    pub open spec fn dismissed(self) -> AgentModel {
        AgentModel { flow: None, points: None, ..self }.with_draft(self.draft())
    }

    /// The agent with the error panel open. The draft stays stashed.
    pub open spec fn failed(self, message: Seq<char>) -> AgentModel {
        self.with_flow(PhaseModel::Error { message }, self.anchor(), self.draft(), None)
    }
}

/// An agent and its id.
#[derive(Debug)]
pub struct AgentSlot {
    pub id: AgentId,
    pub view: AgentView,
}

/// The agents by id. Where several slots have one id, the first counts.
#[derive(Debug)]
pub struct AgentTable {
    pub slots: Vec<AgentSlot>,
}

/// Slot `i` is the first with the id.
pub open spec fn is_slot(slots: Seq<AgentSlot>, id: AgentId, i: int) -> bool {
    &&& 0 <= i < slots.len()
    &&& slots[i].id == id
    &&& forall|j: int| 0 <= j < i ==> (#[trigger] slots[j]).id != id
}

/// The first slot with the id.
pub open spec fn slot_of(slots: Seq<AgentSlot>, id: AgentId) -> int {
    choose|i: int| is_slot(slots, id, i)
}

/// The agents in the slots, by id.
pub open spec fn agents_of(slots: Seq<AgentSlot>) -> Map<AgentId, AgentModel> {
    Map::new(
        |id: AgentId| exists|i: int| is_slot(slots, id, i),
        |id: AgentId| slots[slot_of(slots, id)].view@,
    )
}

impl View for AgentTable {
    type V = Map<AgentId, AgentModel>;

    open spec fn view(&self) -> Map<AgentId, AgentModel> {
        agents_of(self.slots@)
    }
}

proof fn lemma_slot_unique(slots: Seq<AgentSlot>, id: AgentId, i: int)
    requires
        is_slot(slots, id, i),
    ensures
        slot_of(slots, id) == i,
{
    let k = slot_of(slots, id);
    assert(is_slot(slots, id, k));
    if k < i {
        assert(slots[k].id != id);
    }
    if i < k {
        assert(slots[i].id != id);
    }
}

proof fn lemma_slot_replaced(slots: Seq<AgentSlot>, id: AgentId, i: int, slot: AgentSlot)
    requires
        is_slot(slots, id, i),
        slot.id == id,
    ensures
        agents_of(slots.update(i, slot)) == agents_of(slots).insert(id, slot.view@),
{
    let after = slots.update(i, slot);
    assert(is_slot(after, id, i));
    lemma_slot_unique(after, id, i);
    assert forall|other: AgentId, k: int| is_slot(slots, other, k) <==> #[trigger] is_slot(
        after,
        other,
        k,
    ) by {
        assert forall|j: int| 0 <= j < slots.len() implies (#[trigger] after[j]).id
            == slots[j].id by {}
        assert forall|j: int| 0 <= j < slots.len() implies after[j].id == (
        #[trigger] slots[j]).id by {}
    }
    assert forall|other: AgentId| #[trigger]
        agents_of(after).contains_key(other) == agents_of(slots).insert(
            id,
            slot.view@,
        ).contains_key(other) by {
        if agents_of(slots).contains_key(other) {
            let k = choose|k: int| is_slot(slots, other, k);
            assert(is_slot(after, other, k));
        }
        if agents_of(after).contains_key(other) {
            let k = choose|k: int| is_slot(after, other, k);
            assert(is_slot(slots, other, k));
        }
    }
    assert forall|other: AgentId| #[trigger]
        agents_of(after).contains_key(other) implies agents_of(after)[other] == agents_of(
        slots,
    ).insert(id, slot.view@)[other] by {
        let k = choose|k: int| is_slot(after, other, k);
        lemma_slot_unique(after, other, k);
        lemma_slot_unique(slots, other, k);
    }
    assert(agents_of(after) =~= agents_of(slots).insert(id, slot.view@));
}

impl AgentTable {
    fn position(&self, id: AgentId) -> (r: Option<usize>)
        ensures
            match r {
                Some(i) => is_slot(self.slots@, id, i as int) && self@.contains_key(id) && slot_of(
                    self.slots@,
                    id,
                ) == i,
                None => !self@.contains_key(id) && forall|i: int|
                    0 <= i < self.slots@.len() ==> (#[trigger] self.slots@[i]).id != id,
            },
    {
        let mut i: usize = 0;
        while i < self.slots.len()
            invariant
                i <= self.slots@.len(),
                forall|j: int| 0 <= j < i ==> (#[trigger] self.slots@[j]).id != id,
            decreases self.slots@.len() - i,
        {
            if self.slots[i].id == id {
                proof {
                    lemma_slot_unique(self.slots@, id, i as int);
                }
                return Some(i);
            }
            i = i + 1;
        }
        None
    }

    /// The agent with an id.
    pub fn get(&self, id: AgentId) -> (r: Option<&AgentView>)
        ensures
            match r {
                Some(a) => self@.contains_key(id) && a@ == self@[id],
                None => !self@.contains_key(id),
            },
    {
        match self.position(id) {
            Some(i) => Some(&self.slots[i].view),
            None => None,
        }
    }

    /// The agent with an id, to be changed in place.
    pub fn get_mut(&mut self, id: AgentId) -> (r: Option<&mut AgentView>)
        ensures
            match r {
                Some(a) => {
                    &&& old(self)@.contains_key(id)
                    &&& a@ == old(self)@[id]
                    &&& final(self)@ == old(self)@.insert(id, final(a)@)
                },
                None => {
                    &&& !old(self)@.contains_key(id)
                    &&& final(self)@ == old(self)@
                },
            },
    {
        match self.position(id) {
            Some(i) => {
                proof {
                    let slots = self.slots@;
                    assert forall|slot: AgentSlot| slot.id == id implies #[trigger] agents_of(
                        slots.update(i as int, slot),
                    ) == agents_of(slots).insert(id, slot.view@) by {
                        lemma_slot_replaced(slots, id, i as int, slot);
                    }
                }
                Some(&mut self.slots[i].view)
            },
            None => None,
        }
    }
}

/// The user's settings, as far as they are set.
#[derive(Debug, Clone, Copy, PartialEq, Eq, Structural)]
pub struct UiSettings {
    pub confirm_before_rewind: Option<bool>,
}

impl UiSettings {
    /// Confirm-before-rewind; on unless it was turned off.
    pub open spec fn confirms(self) -> bool {
        self.confirm_before_rewind != Some(false)
    }

    /// Confirm-before-rewind; on unless it was turned off.
    pub fn confirm_before_rewind_enabled(&self) -> (r: bool)
        ensures
            r == self.confirms(),
    {
        match self.confirm_before_rewind {
            Some(on) => on,
            None => true,
        }
    }
}

/// Work inside the program that goes along with a step of the flow.
#[derive(Debug, Clone, Copy, PartialEq, Eq)]
pub enum HostRequest {
    /// Give memory that is no longer used back to the system.
    ReleaseRetainedMemory { reason: &'static str },
    /// Show the current settings in the settings panels that are open.
    RefreshSettingsModals,
}

/// The contents of a [`HostRequest`].
pub enum RequestModel {
    ReleaseRetainedMemory { reason: Seq<char> },
    RefreshSettingsModals,
}

impl View for HostRequest {
    type V = RequestModel;

    open spec fn view(&self) -> RequestModel {
        match *self {
            HostRequest::ReleaseRetainedMemory { reason } => RequestModel::ReleaseRetainedMemory {
                reason: reason@,
            },
            HostRequest::RefreshSettingsModals => RequestModel::RefreshSettingsModals,
        }
    }
}

/// The contents of each request of a list.
pub open spec fn requests_of(requests: Seq<HostRequest>) -> Seq<RequestModel> {
    Seq::new(requests.len(), |i: int| requests[i]@)
}

/// The value of a setting.
#[derive(Debug, Clone, Copy, PartialEq, Eq, Structural)]
pub enum SettingValue {
    Bool(bool),
}

/// Work for the outside: a request to the shell, or a setting to store.
#[derive(Debug, Clone, PartialEq, Eq)]
pub enum Effect {
    FetchRewindPoints { agent_id: AgentId, session_id: String },
    CancelTurn {
        session_id: String,
        cancel_subagents: bool,
        trigger: Option<String>,
        rewind_prompt_id: Option<String>,
    },
    /// A dry run that reports what a rewind would do to files.
    RewindPreview {
        agent_id: AgentId,
        session_id: String,
        target_prompt_index: usize,
        mode: RewindMode,
    },
    RewindExecute {
        agent_id: AgentId,
        session_id: String,
        target_prompt_index: usize,
        mode: RewindMode,
    },
    PersistSetting { key: &'static str, value: SettingValue, rollback_value: SettingValue },
    /// A prompt that starts a turn. It is sent as it stands, also where it looks like a command.
    SendPrompt { agent_id: AgentId, text: String },
}

/// The contents of an [`Effect`].
pub enum EffectModel {
    FetchRewindPoints { agent: AgentId, session: Seq<char> },
    CancelTurn {
        session: Seq<char>,
        cancel_subagents: bool,
        trigger: Option<Seq<char>>,
        rewind_prompt_id: Option<Seq<char>>,
    },
    RewindPreview { agent: AgentId, session: Seq<char>, target: usize, mode: RewindMode },
    RewindExecute { agent: AgentId, session: Seq<char>, target: usize, mode: RewindMode },
    PersistSetting { key: Seq<char>, value: SettingValue, rollback_value: SettingValue },
    SendPrompt { agent: AgentId, text: Seq<char> },
}

impl View for Effect {
    type V = EffectModel;

    open spec fn view(&self) -> EffectModel {
        match *self {
            Effect::FetchRewindPoints { agent_id, session_id } => EffectModel::FetchRewindPoints {
                agent: agent_id,
                session: session_id@,
            },
            Effect::CancelTurn { session_id, cancel_subagents, trigger, rewind_prompt_id } =>
                EffectModel::CancelTurn {
                session: session_id@,
                cancel_subagents,
                trigger: text_of(trigger),
                rewind_prompt_id: text_of(rewind_prompt_id),
            },
            Effect::RewindPreview { agent_id, session_id, target_prompt_index, mode } =>
                EffectModel::RewindPreview {
                agent: agent_id,
                session: session_id@,
                target: target_prompt_index,
                mode,
            },
            Effect::RewindExecute { agent_id, session_id, target_prompt_index, mode } =>
                EffectModel::RewindExecute {
                agent: agent_id,
                session: session_id@,
                target: target_prompt_index,
                mode,
            },
            Effect::PersistSetting { key, value, rollback_value } => EffectModel::PersistSetting {
                key: key@,
                value,
                rollback_value,
            },
            Effect::SendPrompt { agent_id, text } => EffectModel::SendPrompt {
                agent: agent_id,
                text: text@,
            },
        }
    }
}

/// The contents of each effect of a list.
pub open spec fn effects_of(effects: Seq<Effect>) -> Seq<EffectModel> {
    Seq::new(effects.len(), |i: int| effects[i]@)
}

/// No effects.
pub fn no_effects() -> (r: Vec<Effect>)
    ensures
        effects_of(r@) == Seq::<EffectModel>::empty(),
{
    let r: Vec<Effect> = Vec::new();
    assert(effects_of(r@) =~= Seq::<EffectModel>::empty());
    r
}

/// One effect alone.
pub fn one_effect(effect: Effect) -> (r: Vec<Effect>)
    ensures
        effects_of(r@) == seq![effect@],
{
    let mut r: Vec<Effect> = Vec::new();
    r.push(effect);
    assert(effects_of(r@) =~= seq![effect@]);
    r
}

/// The program's state.
#[derive(Debug)]
pub struct AppView {
    pub active_view: ActiveView,
    pub agents: AgentTable,
    pub current_ui: UiSettings,
    pub screen_mode: ScreenMode,
    pub toast: Option<String>,
    /// Requests that have not been carried out yet, oldest first.
    pub host_requests: Vec<HostRequest>,
}

/// The contents of an [`AppView`].
pub struct AppModel {
    pub active_view: ActiveView,
    pub agents: Map<AgentId, AgentModel>,
    pub settings: UiSettings,
    pub screen_mode: ScreenMode,
    pub toast: Option<Seq<char>>,
    pub requests: Seq<RequestModel>,
}

impl View for AppView {
    type V = AppModel;

    open spec fn view(&self) -> AppModel {
        AppModel {
            active_view: self.active_view,
            agents: self.agents@,
            settings: self.current_ui,
            screen_mode: self.screen_mode,
            toast: text_of(self.toast),
            requests: requests_of(self.host_requests@),
        }
    }
}

impl AppModel {
    /// The agent in view, if there is one.
    pub open spec fn active_agent(self) -> Option<AgentId> {
        match self.active_view {
            ActiveView::Agent(id) if self.agents.contains_key(id) => Some(id),
            _ => None,
        }
    }

    /// The state with an agent changed.
    pub open spec fn with_agent(self, id: AgentId, agent: AgentModel) -> AppModel {
        AppModel { agents: self.agents.insert(id, agent), ..self }
    }

    /// The state with a notice on screen.
    pub open spec fn with_toast(self, message: Seq<char>) -> AppModel {
        AppModel { toast: Some(message), ..self }
    }
}

impl AppView {
    /// Puts a notice on screen.
    pub fn show_toast(&mut self, message: &str)
        ensures
            final(self)@ == old(self)@.with_toast(message@),
    {
        self.toast = Some(message.to_owned());
    }

    /// Asks for work inside the program.
    pub fn request(&mut self, request: HostRequest)
        ensures
            final(self)@ == (AppModel {
                requests: old(self)@.requests.push(request@),
                ..old(self)@
            }),
    {
        self.host_requests.push(request);
        assert(self@.requests =~= old(self)@.requests.push(request@));
    }
}

} // verus!
