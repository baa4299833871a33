//! The text of the overlay: the lines above the choices, and the choices themselves.

use vstd::prelude::*;
use vstd::string::*;

use crate::layout::{radios, RadioModel};
use crate::phase::{
    conflicts_of, file_count, file_count_phrase, ConflictDisplay, ConflictModel, PhaseModel,
    PointModel, RewindMode, RewindPhase, RewindPointInfo,
};
use crate::text::{clip, clipped, decimal, decimal_string, ellipsize, ellipsized, text_of, texts_of};
use crate::theme::Tone;

verus! {

/// A line above the choices.
#[derive(Debug, Clone, PartialEq, Eq)]
pub struct Caption {
    pub text: String,
    pub tone: Tone,
}

/// The contents of a [`Caption`].
pub struct CaptionModel {
    pub text: Seq<char>,
    pub tone: Tone,
}

impl View for Caption {
    type V = CaptionModel;

    open spec fn view(&self) -> CaptionModel {
        CaptionModel { text: self.text@, tone: self.tone }
    }
}

/// The contents of each line of a list.
pub open spec fn captions_of(lines: Seq<Caption>) -> Seq<CaptionModel> {
    Seq::new(lines.len(), |i: int| lines[i]@)
}

/// `preview` between `prefix` and `suffix`, cut so that the whole leaves one column of `width`
/// free.
pub open spec fn titled(
    prefix: Seq<char>,
    preview: Seq<char>,
    suffix: Seq<char>,
    width: u16,
) -> Seq<char> {
    let room = width - (prefix.len() + suffix.len() + 1);
    prefix + ellipsized(
        preview,
        if room < 0 {
            0
        } else {
            room
        },
    ) + suffix
}

/// Fit `preview` between `prefix` and `suffix` inside `content_w`, ellipsizing it when needed.
pub fn preview_title(prefix: &str, preview: &str, suffix: &str, content_w: u16) -> (r: String)
    ensures
        r@ == titled(prefix@, preview@, suffix@, content_w),
{
    let chrome: usize = prefix.unicode_len().saturating_add(suffix.unicode_len()).saturating_add(1);
    let max_preview: usize = (content_w as usize).saturating_sub(chrome);
    let mut r = prefix.to_owned();
    r.append(ellipsize(preview, max_preview).as_str());
    r.append(suffix);
    r
}

/// The preview of a turn, or a stand-in for one without.
pub open spec fn preview_or(preview: Option<Seq<char>>, fallback: Seq<char>) -> Seq<char> {
    match preview {
        Some(p) => p,
        None => fallback,
    }
}

fn preview_text<'a>(preview: &'a Option<String>, fallback: &'a str) -> (r: &'a str)
    ensures
        r@ == preview_or(text_of(*preview), fallback@),
{
    match preview {
        Some(p) => p.as_str(),
        None => fallback,
    }
}

/// What follows the preview in the title of the file list.
pub open spec fn file_preview_suffix(total: nat) -> Seq<char> {
    if total > 0 {
        "\u{201D}? ("@ + file_count(total) + ")"@
    } else {
        "\u{201D}?"@
    }
}

/// The line of a conflicting path.
pub open spec fn conflict_line(c: ConflictModel) -> Seq<char> {
    "! "@ + c.path + " ("@ + c.label + ")"@
}

/// The line that stands for what a list leaves out.
pub open spec fn more_line(n: nat) -> Seq<char> {
    "+"@ + decimal(n) + " more"@
}

/// The lines of a list of which five are shown.
pub open spec fn listing(lines: Seq<Seq<char>>, tone: Tone) -> Seq<CaptionModel> {
    let shown = Seq::new(
        if lines.len() > 5 {
            5
        } else {
            lines.len()
        },
        |i: int| CaptionModel { text: lines[i], tone },
    );
    if lines.len() > 5 {
        shown.push(CaptionModel { text: more_line((lines.len() - 5) as nat), tone: Tone::Muted })
    } else {
        shown
    }
}

/// The lines for the files that a rewind would move.
pub open spec fn file_lines(
    clean_files: Seq<Seq<char>>,
    conflicts: Seq<ConflictModel>,
) -> Seq<CaptionModel> {
    if clean_files.len() == 0 && conflicts.len() == 0 {
        seq![CaptionModel { text: "No tracked file changes to restore."@, tone: Tone::Muted }]
    } else {
        listing(clean_files, Tone::Muted) + listing(
            Seq::new(conflicts.len(), |i: int| conflict_line(conflicts[i])),
            Tone::Warning,
        )
    }
}

/// The lines above the choices of a phase, from row 1 down, in an overlay with `width` columns
/// of text. The turn picker has a title alone.
pub open spec fn captions(phase: PhaseModel, width: u16) -> Seq<CaptionModel> {
    match phase {
        PhaseModel::Loading => seq![
            CaptionModel { text: "Loading rewind points..."@, tone: Tone::Muted },
        ],
        PhaseModel::Picker { .. } => seq![
            CaptionModel { text: "Rewind to which turn?"@, tone: Tone::Title },
        ],
        PhaseModel::CancelOffer { .. } => seq![
            CaptionModel { text: "A turn is currently running."@, tone: Tone::Title },
            CaptionModel {
                text: "Would you like to cancel it before rewinding?"@,
                tone: Tone::Muted,
            },
        ],
        PhaseModel::ModeSelect { offer_files_only, .. } => seq![
            CaptionModel {
                text: if offer_files_only {
                    "What do you want to rewind?"@
                } else {
                    "Resubmit from here \u{2014} what should be rewound?"@
                },
                tone: Tone::Title,
            },
        ],
        PhaseModel::Previewing { .. } => seq![
            CaptionModel { text: "Previewing file changes..."@, tone: Tone::Muted },
        ],
        PhaseModel::FilePreview { mode, clean_files, conflicts, preview, .. } => seq![
            CaptionModel {
                text: titled(
                    if mode is FilesOnly {
                        "Rewind file changes only to \u{201C}"@
                    } else {
                        "Rewind file changes and conversation to \u{201C}"@
                    },
                    preview_or(preview, "this turn"@),
                    file_preview_suffix(clean_files.len() + conflicts.len()),
                    width,
                ),
                tone: Tone::Title,
            },
        ] + file_lines(clean_files, conflicts),
        PhaseModel::Confirm { mode, preview, .. } => seq![
            CaptionModel {
                text: titled(
                    if mode is FilesOnly {
                        "Rewind files to \u{201C}"@
                    } else {
                        "Rewind conversation to \u{201C}"@
                    },
                    preview_or(preview, "this turn"@),
                    "\u{201D}?"@,
                    width,
                ),
                tone: Tone::Title,
            },
        ],
        PhaseModel::OrphanWarning { preview, .. } => seq![
            CaptionModel {
                text: titled(
                    "Rewind conversation only to \u{201C}"@,
                    preview_or(preview, "this turn"@),
                    "\u{201D}?"@,
                    width,
                ),
                tone: Tone::Title,
            },
            CaptionModel {
                text:
                    "The removed turns' file changes stay on disk and cannot be undone later."@,
                tone: Tone::Warning,
            },
        ],
        PhaseModel::Executing { .. } => seq![
            CaptionModel { text: "Rewinding..."@, tone: Tone::Muted },
        ],
        PhaseModel::Error { message } => seq![
            CaptionModel { text: "Rewind failed"@, tone: Tone::ErrorTitle },
            CaptionModel { text: clipped(message, width as int), tone: Tone::Body },
        ],
    }
}

/// The lines gathered so far.
pub struct Captions {
    pub lines: Vec<Caption>,
}

impl View for Captions {
    type V = Seq<CaptionModel>;

    open spec fn view(&self) -> Seq<CaptionModel> {
        captions_of(self.lines@)
    }
}

impl Captions {
    fn new() -> (r: Self)
        ensures
            r@ == Seq::<CaptionModel>::empty(),
    {
        let r = Captions { lines: Vec::new() };
        assert(r@ =~= Seq::<CaptionModel>::empty());
        r
    }

    fn push(&mut self, text: String, tone: Tone)
        ensures
            final(self)@ == old(self)@.push(CaptionModel { text: text@, tone }),
    {
        self.lines.push(Caption { text, tone });
        assert(self@ =~= old(self)@.push(CaptionModel { text: text@, tone }));
    }

    fn push_str(&mut self, text: &str, tone: Tone)
        ensures
            final(self)@ == old(self)@.push(CaptionModel { text: text@, tone }),
    {
        self.push(text.to_owned(), tone);
    }

    fn push_more(&mut self, n: usize)
        ensures
            final(self)@ == old(self)@.push(
                CaptionModel { text: more_line(n as nat), tone: Tone::Muted },
            ),
    {
        let mut more = "+".to_owned();
        more.append(decimal_string(n).as_str());
        more.append(" more");
        self.push(more, Tone::Muted);
    }

    fn push_clean(&mut self, clean_files: &Vec<String>)
        ensures
            final(self)@ == old(self)@ + listing(texts_of(clean_files@), Tone::Muted),
    {
        let ghost start = self@;
        let ghost all = listing(texts_of(clean_files@), Tone::Muted);
        let mut i: usize = 0;
        assert(self@ =~= start + all.take(0));
        while i < clean_files.len() && i < 5
            invariant
                i <= 5,
                i <= clean_files@.len(),
                all == listing(texts_of(clean_files@), Tone::Muted),
                self@ == start + all.take(i as int),
            decreases 5 - i,
        {
            self.push(clean_files[i].clone(), Tone::Muted);
            assert(self@ =~= start + all.take(i + 1));
            i = i + 1;
        }
        if clean_files.len() > 5 {
            self.push_more(clean_files.len() - 5);
        }
        assert(self@ =~= start + all);
    }

    fn push_conflicts(&mut self, conflicts: &Vec<ConflictDisplay>)
        ensures
            final(self)@ == old(self)@ + listing(
                Seq::new(
                    conflicts_of(conflicts@).len(),
                    |i: int| conflict_line(conflicts_of(conflicts@)[i]),
                ),
                Tone::Warning,
            ),
    {
        let ghost start = self@;
        let ghost lines = Seq::new(
            conflicts_of(conflicts@).len(),
            |i: int| conflict_line(conflicts_of(conflicts@)[i]),
        );
        let ghost all = listing(lines, Tone::Warning);
        let mut i: usize = 0;
        assert(self@ =~= start + all.take(0));
        while i < conflicts.len() && i < 5
            invariant
                i <= 5,
                i <= conflicts@.len(),
                lines == Seq::new(
                    conflicts_of(conflicts@).len(),
                    |i: int| conflict_line(conflicts_of(conflicts@)[i]),
                ),
                all == listing(lines, Tone::Warning),
                self@ == start + all.take(i as int),
            decreases 5 - i,
        {
            let mut line = "! ".to_owned();
            line.append(conflicts[i].path.as_str());
            line.append(" (");
            line.append(conflicts[i].label);
            line.append(")");
            assert(line@ == conflict_line(conflicts_of(conflicts@)[i as int]));
            self.push(line, Tone::Warning);
            assert(self@ =~= start + all.take(i + 1));
            i = i + 1;
        }
        if conflicts.len() > 5 {
            self.push_more(conflicts.len() - 5);
        }
        assert(self@ =~= start + all);
    }
}

/// The file list of a preview can be counted.
pub open spec fn countable(phase: PhaseModel) -> bool {
    phase matches PhaseModel::FilePreview { clean_files, conflicts, .. } ==> clean_files.len()
        + conflicts.len() <= usize::MAX
}

/// The lines above the choices of a phase.
pub fn phase_captions(phase: &RewindPhase, content_w: u16) -> (r: Captions)
    requires
        countable(phase@),
    ensures
        r@ == captions(phase@, content_w),
{
    let mut out = Captions::new();
    match phase {
        RewindPhase::Loading => {
            out.push_str("Loading rewind points...", Tone::Muted);
        },
        RewindPhase::Picker { .. } => {
            out.push_str("Rewind to which turn?", Tone::Title);
        },
        RewindPhase::CancelOffer { .. } => {
            out.push_str("A turn is currently running.", Tone::Title);
            out.push_str("Would you like to cancel it before rewinding?", Tone::Muted);
        },
        RewindPhase::ModeSelect { offer_files_only, .. } => {
            // Inline edit-and-resubmit: the conversation rewind is a given, so the only question
            // is whether files come along.
            if *offer_files_only {
                out.push_str("What do you want to rewind?", Tone::Title);
            } else {
                out.push_str("Resubmit from here \u{2014} what should be rewound?", Tone::Title);
            }
        },
        RewindPhase::Previewing { .. } => {
            out.push_str("Previewing file changes...", Tone::Muted);
        },
        RewindPhase::FilePreview { mode, clean_files, conflicts, prompt_preview, .. } => {
            let file_total: usize = clean_files.len() + conflicts.len();
            let prefix = match mode {
                RewindMode::FilesOnly => "Rewind file changes only to \u{201C}",
                _ => "Rewind file changes and conversation to \u{201C}",
            };
            let suffix = if file_total > 0 {
                let mut s = "\u{201D}? (".to_owned();
                s.append(file_count_phrase(file_total).as_str());
                s.append(")");
                s
            } else {
                "\u{201D}?".to_owned()
            };
            let title = preview_title(
                prefix,
                preview_text(prompt_preview, "this turn"),
                suffix.as_str(),
                content_w,
            );
            out.push(title, Tone::Title);
            if clean_files.is_empty() && conflicts.is_empty() {
                out.push_str("No tracked file changes to restore.", Tone::Muted);
            } else {
                out.push_clean(clean_files);
                out.push_conflicts(conflicts);
            }
        },
        RewindPhase::Confirm { mode, prompt_preview, .. } => {
            // Reached only when nothing moves on disk (anything that touches files goes through
            // the file list instead), so both conversation modes read the same.
            let prefix = match mode {
                RewindMode::FilesOnly => "Rewind files to \u{201C}",
                _ => "Rewind conversation to \u{201C}",
            };
            let title = preview_title(
                prefix,
                preview_text(prompt_preview, "this turn"),
                "\u{201D}?",
                content_w,
            );
            out.push(title, Tone::Title);
        },
        RewindPhase::OrphanWarning { prompt_preview, .. } => {
            let title = preview_title(
                "Rewind conversation only to \u{201C}",
                preview_text(prompt_preview, "this turn"),
                "\u{201D}?",
                content_w,
            );
            out.push(title, Tone::Title);
            out.push_str(
                "The removed turns' file changes stay on disk and cannot be undone later.",
                Tone::Warning,
            );
        },
        RewindPhase::Executing { .. } => {
            out.push_str("Rewinding...", Tone::Muted);
        },
        RewindPhase::Error { message } => {
            out.push_str("Rewind failed", Tone::ErrorTitle);
            out.push(clip(message.as_str(), content_w as usize), Tone::Body);
        },
    }
    assert(out@ =~= captions(phase@, content_w));
    out
}

/// A choice that the overlay offers as a row of its own.
#[derive(Debug, Clone, Copy, PartialEq, Eq)]
pub struct Radio {
    pub key: char,
    pub label: &'static str,
    pub enabled: bool,
}

impl View for Radio {
    type V = RadioModel;

    open spec fn view(&self) -> RadioModel {
        RadioModel { key: self.key, label: self.label@, enabled: self.enabled }
    }
}

/// The contents of each choice of a list.
pub open spec fn radios_of(rows: Seq<Radio>) -> Seq<RadioModel> {
    Seq::new(rows.len(), |i: int| rows[i]@)
}

/// The choices of a phase, from top to bottom.
pub fn phase_radios(phase: &RewindPhase) -> (rows: Vec<Radio>)
    ensures
        radios_of(rows@) == radios(phase@),
{
    let mut rows: Vec<Radio> = Vec::new();
    match phase {
        RewindPhase::CancelOffer { .. } => {
            rows.push(Radio { key: 'y', label: "Cancel turn and rewind", enabled: true });
            rows.push(Radio { key: 'n', label: "Let it finish", enabled: true });
        },
        RewindPhase::ModeSelect { has_file_changes, offer_files_only, .. } => {
            rows.push(
                Radio { key: 'a', label: "Both conversation and file changes", enabled: true },
            );
            // Sequential lettering in the two-row inline variant; the mnemonic 'c' only reads
            // right with the 'f' row present.
            let key = if *offer_files_only {
                'c'
            } else {
                'b'
            };
            rows.push(Radio { key, label: "Conversation only", enabled: true });
            if *offer_files_only {
                let label = if *has_file_changes {
                    "File changes only"
                } else {
                    "File changes only (none since this turn)"
                };
                rows.push(Radio { key: 'f', label, enabled: *has_file_changes });
            }
        },
        RewindPhase::FilePreview { .. } | RewindPhase::OrphanWarning { .. } => {
            rows.push(Radio { key: 'y', label: "Confirm rewind", enabled: true });
            rows.push(Radio { key: '\u{8}', label: "Back", enabled: true });
        },
        RewindPhase::Confirm { .. } => {
            rows.push(Radio { key: 'y', label: "Yes", enabled: true });
            rows.push(Radio { key: 'a', label: "Yes, and don't ask again", enabled: true });
            rows.push(Radio { key: 'n', label: "No", enabled: true });
        },
        RewindPhase::Error { .. } => {
            rows.push(Radio { key: '\u{1b}', label: "Dismiss", enabled: true });
        },
        _ => {},
    }
    assert(radios_of(rows@) =~= radios(phase@));
    rows
}

/// What the picker shows of a turn, in `width` columns.
pub open spec fn picker_preview(point: PointModel, width: u16) -> Seq<char> {
    ellipsized(
        preview_or(point.prompt_preview, "(no preview)"@),
        if width < 8 {
            0
        } else {
            width - 8
        },
    )
}

/// What the picker shows of a turn's own file snapshots.
pub open spec fn picker_files(point: PointModel) -> Seq<char> {
    if point.num_file_snapshots > 0 {
        " \u{00B7} "@ + file_count(point.num_file_snapshots as nat)
    } else {
        Seq::empty()
    }
}

/// A turn's preview and file count, as its picker row shows them.
pub fn picker_row_text(point: &RewindPointInfo, content_w: u16) -> (r: (String, String))
    ensures
        r.0@ == picker_preview(point@, content_w),
        r.1@ == picker_files(point@),
{
    let preview = ellipsize(
        preview_text(&point.prompt_preview, "(no preview)"),
        content_w.saturating_sub(8) as usize,
    );
    let files = if point.num_file_snapshots > 0 {
        let mut s = " \u{00B7} ".to_owned();
        s.append(file_count_phrase(point.num_file_snapshots).as_str());
        s
    } else {
        String::new()
    };
    (preview, files)
}

} // verus!
