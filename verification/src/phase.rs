//! The rewind flow's data: what the shell reports, the phases of the overlay, and its inputs.

use vstd::prelude::*;
use vstd::string::*;

use crate::composer::{draft_of, PromptModel, StashedPrompt};
use crate::text::{copy_text, decimal, decimal_string, same_text, text_of, texts_of};

verus! {

/// A turn that the conversation can be rewound to.
#[derive(Debug, PartialEq, Eq)]
pub struct RewindPointInfo {
    pub prompt_index: usize,
    pub created_at: String,
    pub num_file_snapshots: usize,
    pub prompt_preview: Option<String>,
    pub has_file_changes: bool,
}

/// The contents of a [`RewindPointInfo`].
pub struct PointModel {
    pub prompt_index: usize,
    pub created_at: Seq<char>,
    pub num_file_snapshots: usize,
    pub prompt_preview: Option<Seq<char>>,
    pub has_file_changes: bool,
}

impl View for RewindPointInfo {
    type V = PointModel;

    open spec fn view(&self) -> PointModel {
        PointModel {
            prompt_index: self.prompt_index,
            created_at: self.created_at@,
            num_file_snapshots: self.num_file_snapshots,
            prompt_preview: text_of(self.prompt_preview),
            has_file_changes: self.has_file_changes,
        }
    }
}

impl Clone for RewindPointInfo {
    fn clone(&self) -> (r: Self)
        ensures
            r@ == self@,
    {
        RewindPointInfo {
            prompt_index: self.prompt_index,
            created_at: self.created_at.clone(),
            num_file_snapshots: self.num_file_snapshots,
            prompt_preview: copy_text(&self.prompt_preview),
            has_file_changes: self.has_file_changes,
        }
    }
}

/// The contents of each point of a list.
pub open spec fn points_of(points: Seq<RewindPointInfo>) -> Seq<PointModel> {
    Seq::new(points.len(), |i: int| points[i]@)
}

/// A copy of a list of points.
pub fn copy_points(points: &Vec<RewindPointInfo>) -> (r: Vec<RewindPointInfo>)
    ensures
        points_of(r@) == points_of(points@),
{
    let mut r: Vec<RewindPointInfo> = Vec::new();
    let mut i: usize = 0;
    while i < points.len()
        invariant
            i <= points@.len(),
            r@.len() == i,
            forall|j: int| 0 <= j < i ==> #[trigger] r@[j]@ == points@[j]@,
        decreases points@.len() - i,
    {
        r.push(points[i].clone());
        i = i + 1;
    }
    assert(points_of(r@) =~= points_of(points@));
    r
}

/// The shell's list of rewind points.
#[derive(Debug, Clone)]
pub struct RewindPointsResponse {
    pub rewind_points: Vec<RewindPointInfo>,
}

/// The shell's answer to a rewind, or to its dry run.
#[derive(Debug, Clone)]
pub struct RewindResponse {
    pub success: bool,
    pub target_prompt_index: usize,
    pub reverted_files: Vec<String>,
    pub clean_files: Vec<String>,
    pub conflicts: Vec<RewindConflictInfo>,
    pub error: Option<String>,
    pub mode: Option<String>,
    pub prompt_text: Option<String>,
}

/// The contents of a [`RewindResponse`].
pub struct ResponseModel {
    pub success: bool,
    pub target_prompt_index: usize,
    pub reverted_files: Seq<Seq<char>>,
    pub clean_files: Seq<Seq<char>>,
    pub conflicts: Seq<ConflictInfoModel>,
    pub error: Option<Seq<char>>,
    pub mode: Option<Seq<char>>,
    pub prompt_text: Option<Seq<char>>,
}

impl View for RewindResponse {
    type V = ResponseModel;

    open spec fn view(&self) -> ResponseModel {
        ResponseModel {
            success: self.success,
            target_prompt_index: self.target_prompt_index,
            reverted_files: texts_of(self.reverted_files@),
            clean_files: texts_of(self.clean_files@),
            conflicts: conflict_infos_of(self.conflicts@),
            error: text_of(self.error),
            mode: text_of(self.mode),
            prompt_text: text_of(self.prompt_text),
        }
    }
}

/// A path that something else changed since the turn that is rewound to.
#[derive(Debug, Clone)]
pub struct RewindConflictInfo {
    pub path: String,
    pub conflict_type: String,
}

/// The contents of a [`RewindConflictInfo`].
pub struct ConflictInfoModel {
    pub path: Seq<char>,
    pub conflict_type: Seq<char>,
}

impl View for RewindConflictInfo {
    type V = ConflictInfoModel;

    open spec fn view(&self) -> ConflictInfoModel {
        ConflictInfoModel { path: self.path@, conflict_type: self.conflict_type@ }
    }
}

/// The contents of each reported conflict.
pub open spec fn conflict_infos_of(conflicts: Seq<RewindConflictInfo>) -> Seq<ConflictInfoModel> {
    Seq::new(conflicts.len(), |i: int| conflicts[i]@)
}

/// One conflicting path plus the short label the preview list shows next to it.
#[derive(Debug, Clone, PartialEq, Eq)]
pub struct ConflictDisplay {
    pub path: String,
    pub label: &'static str,
}

/// The contents of a [`ConflictDisplay`].
pub struct ConflictModel {
    pub path: Seq<char>,
    pub label: Seq<char>,
}

impl View for ConflictDisplay {
    type V = ConflictModel;

    open spec fn view(&self) -> ConflictModel {
        ConflictModel { path: self.path@, label: self.label@ }
    }
}

/// The contents of each conflict of a list.
pub open spec fn conflicts_of(conflicts: Seq<ConflictDisplay>) -> Seq<ConflictModel> {
    Seq::new(conflicts.len(), |i: int| conflicts[i]@)
}

/// The label for a kind of conflict.
pub open spec fn conflict_label(kind: Seq<char>) -> Seq<char> {
    if kind == "deleted_externally"@ {
        "deleted"@
    } else if kind == "created_externally"@ {
        "added"@
    } else if kind == "modified_externally"@ {
        "modified"@
    } else {
        "conflict"@
    }
}

/// How a reported conflict is shown.
pub open spec fn shown_conflict(c: ConflictInfoModel) -> ConflictModel {
    ConflictModel { path: c.path, label: conflict_label(c.conflict_type) }
}

/// How a list of reported conflicts is shown.
pub open spec fn shown_conflicts(conflicts: Seq<ConflictInfoModel>) -> Seq<ConflictModel> {
    Seq::new(conflicts.len(), |i: int| shown_conflict(conflicts[i]))
}

impl ConflictDisplay {
    pub fn from_conflict(c: &RewindConflictInfo) -> (r: Self)
        ensures
            r@ == shown_conflict(c@),
    {
        let kind = c.conflict_type.as_str();
        let label = if same_text(kind, "deleted_externally") {
            "deleted"
        } else if same_text(kind, "created_externally") {
            "added"
        } else if same_text(kind, "modified_externally") {
            "modified"
        } else {
            "conflict"
        };
        ConflictDisplay { path: c.path.clone(), label }
    }

    /// The display form of each reported conflict, in order.
    pub fn from_conflicts(conflicts: &Vec<RewindConflictInfo>) -> (r: Vec<Self>)
        ensures
            conflicts_of(r@) == shown_conflicts(conflict_infos_of(conflicts@)),
    {
        let mut r: Vec<ConflictDisplay> = Vec::new();
        let mut i: usize = 0;
        while i < conflicts.len()
            invariant
                i <= conflicts@.len(),
                r@.len() == i,
                forall|j: int|
                    0 <= j < i ==> #[trigger] r@[j]@ == shown_conflict(conflicts@[j]@),
            decreases conflicts@.len() - i,
        {
            r.push(ConflictDisplay::from_conflict(&conflicts[i]));
            i = i + 1;
        }
        assert(conflicts_of(r@) =~= shown_conflicts(conflict_infos_of(conflicts@)));
        r
    }
}

/// What `/rewind` should restore.
#[derive(Debug, Clone, Copy, PartialEq, Eq, Structural)]
pub enum RewindMode {
    /// Conversation and files.
    All,
    ConversationOnly,
    FilesOnly,
}

/// The wire value of a mode.
pub open spec fn wire_of(mode: RewindMode) -> Seq<char> {
    match mode {
        RewindMode::All => "all"@,
        RewindMode::ConversationOnly => "conversation_only"@,
        RewindMode::FilesOnly => "files_only"@,
    }
}

/// The mode that a wire value stands for. Unknown values move nothing on disk.
pub open spec fn mode_of(wire: Seq<char>) -> RewindMode {
    if wire == "all"@ {
        RewindMode::All
    } else if wire == "files_only"@ || wire == "code_only"@ {
        RewindMode::FilesOnly
    } else {
        RewindMode::ConversationOnly
    }
}

impl RewindMode {
    pub fn as_wire(self) -> (r: &'static str)
        ensures
            r@ == wire_of(self),
    {
        match self {
            RewindMode::All => "all",
            RewindMode::ConversationOnly => "conversation_only",
            RewindMode::FilesOnly => "files_only",
        }
    }

    pub fn from_wire(s: &str) -> (r: Self)
        ensures
            r == mode_of(s@),
    {
        if same_text(s, "all") {
            RewindMode::All
        } else if same_text(s, "files_only") || same_text(s, "code_only") {
            RewindMode::FilesOnly
        } else {
            RewindMode::ConversationOnly
        }
    }
}

/// "1 file" / "N files".
pub open spec fn file_count(n: nat) -> Seq<char> {
    if n == 1 {
        "1 file"@
    } else {
        decimal(n) + " files"@
    }
}

/// "1 file" / "N files", for picker rows and rewind confirmations.
pub fn file_count_phrase(n: usize) -> (r: String)
    ensures
        r@ == file_count(n as nat),
{
    if n == 1 {
        "1 file".to_owned()
    } else {
        let mut r = decimal_string(n);
        r.append(" files");
        r
    }
}

/// Where the rewind flow stands.
#[derive(Debug, Clone, PartialEq, Eq)]
pub enum RewindPhase {
    Loading,
    Picker {
        points: Vec<RewindPointInfo>,
        selected: usize,
    },
    CancelOffer {
        active_idx: usize,
    },
    /// Both / conversation only / files only, after a turn is picked.
    ModeSelect {
        target_prompt_index: usize,
        has_file_changes: bool,
        /// When false, the files-only row is omitted (inline edit-and-resubmit).
        offer_files_only: bool,
        active_idx: usize,
        prompt_preview: Option<String>,
    },
    /// A `force: false` dry run is in flight; nothing has been written yet.
    Previewing {
        target_prompt_index: usize,
        mode: RewindMode,
    },
    /// The dry run came back: the files that would move, plus any external conflicts.
    FilePreview {
        target_prompt_index: usize,
        mode: RewindMode,
        clean_files: Vec<String>,
        conflicts: Vec<ConflictDisplay>,
        active_idx: usize,
        prompt_preview: Option<String>,
    },
    /// The `confirm_before_rewind` gate, for rewinds that touch no files.
    Confirm {
        target_prompt_index: usize,
        mode: RewindMode,
        active_idx: usize,
        prompt_preview: Option<String>,
    },
    /// Conversation-only at prompt 0 with tracked edits: rewinding to 0 clears every file
    /// snapshot, so the discarded turns' edits stay on disk with no way back.
    OrphanWarning {
        target_prompt_index: usize,
        active_idx: usize,
        prompt_preview: Option<String>,
    },
    Executing {
        target_prompt_index: usize,
        mode: RewindMode,
    },
    Error {
        message: String,
    },
}

/// The contents of a [`RewindPhase`].
pub enum PhaseModel {
    Loading,
    Picker { points: Seq<PointModel>, selected: usize },
    CancelOffer { active_idx: usize },
    ModeSelect {
        target: usize,
        has_file_changes: bool,
        offer_files_only: bool,
        active_idx: usize,
        preview: Option<Seq<char>>,
    },
    Previewing { target: usize, mode: RewindMode },
    FilePreview {
        target: usize,
        mode: RewindMode,
        clean_files: Seq<Seq<char>>,
        conflicts: Seq<ConflictModel>,
        active_idx: usize,
        preview: Option<Seq<char>>,
    },
    Confirm { target: usize, mode: RewindMode, active_idx: usize, preview: Option<Seq<char>> },
    OrphanWarning { target: usize, active_idx: usize, preview: Option<Seq<char>> },
    Executing { target: usize, mode: RewindMode },
    Error { message: Seq<char> },
}

impl View for RewindPhase {
    type V = PhaseModel;

    open spec fn view(&self) -> PhaseModel {
        match *self {
            RewindPhase::Loading => PhaseModel::Loading,
            RewindPhase::Picker { points, selected } => PhaseModel::Picker {
                points: points_of(points@),
                selected,
            },
            RewindPhase::CancelOffer { active_idx } => PhaseModel::CancelOffer { active_idx },
            RewindPhase::ModeSelect {
                target_prompt_index,
                has_file_changes,
                offer_files_only,
                active_idx,
                prompt_preview,
            } => PhaseModel::ModeSelect {
                target: target_prompt_index,
                has_file_changes,
                offer_files_only,
                active_idx,
                preview: text_of(prompt_preview),
            },
            RewindPhase::Previewing { target_prompt_index, mode } => PhaseModel::Previewing {
                target: target_prompt_index,
                mode,
            },
            RewindPhase::FilePreview {
                target_prompt_index,
                mode,
                clean_files,
                conflicts,
                active_idx,
                prompt_preview,
            } => PhaseModel::FilePreview {
                target: target_prompt_index,
                mode,
                clean_files: texts_of(clean_files@),
                conflicts: conflicts_of(conflicts@),
                active_idx,
                preview: text_of(prompt_preview),
            },
            RewindPhase::Confirm { target_prompt_index, mode, active_idx, prompt_preview } =>
                PhaseModel::Confirm {
                target: target_prompt_index,
                mode,
                active_idx,
                preview: text_of(prompt_preview),
            },
            RewindPhase::OrphanWarning { target_prompt_index, active_idx, prompt_preview } =>
                PhaseModel::OrphanWarning {
                target: target_prompt_index,
                active_idx,
                preview: text_of(prompt_preview),
            },
            RewindPhase::Executing { target_prompt_index, mode } => PhaseModel::Executing {
                target: target_prompt_index,
                mode,
            },
            RewindPhase::Error { message } => PhaseModel::Error { message: message@ },
        }
    }
}

/// An open rewind flow.
#[derive(Debug)]
pub struct RewindState {
    pub phase: RewindPhase,
    pub anchor_entry_idx: usize,
    pub stashed_draft: Option<StashedPrompt>,
    pub selected_prompt_index: Option<usize>,
}

/// The contents of a [`RewindState`].
pub struct StateModel {
    pub phase: PhaseModel,
    pub anchor: usize,
    pub draft: Option<PromptModel>,
    pub selected: Option<usize>,
}

impl View for RewindState {
    type V = StateModel;

    open spec fn view(&self) -> StateModel {
        StateModel {
            phase: self.phase@,
            anchor: self.anchor_entry_idx,
            draft: draft_of(self.stashed_draft),
            selected: self.selected_prompt_index,
        }
    }
}

impl RewindState {
    pub fn new_cancel_offer(
        anchor: usize,
        draft: Option<StashedPrompt>,
        selected_prompt_index: Option<usize>,
    ) -> (r: Self)
        ensures
            r@ == (StateModel {
                phase: PhaseModel::CancelOffer { active_idx: 0 },
                anchor,
                draft: draft_of(draft),
                selected: selected_prompt_index,
            }),
    {
        RewindState {
            phase: RewindPhase::CancelOffer { active_idx: 0 },
            anchor_entry_idx: anchor,
            stashed_draft: draft,
            selected_prompt_index,
        }
    }
}

/// What a key press or click asks of the flow.
pub enum RewindInput {
    Dismissed,
    CancelTurnThenProceed,
    DismissError,
    Confirm(usize),
    /// Execute this rewind and turn off confirm-before-rewind.
    ConfirmNeverAsk(usize),
    PickerSelect(usize),
    SelectMode(RewindMode, usize),
    BackToModeSelect,
    MoveUp,
    MoveDown,
    ConfirmCursor,
    Consumed,
}

} // verus!
