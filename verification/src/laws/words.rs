//! What the overlay says: numbers, cut and padded text, titles and lines.

use vstd::prelude::*;
use vstd::string::*;

use crate::captions::{
    captions, conflict_line, file_lines, file_preview_suffix, listing, picker_files, picker_preview,
    titled, CaptionModel,
};
use crate::phase::{file_count, ConflictModel, PhaseModel, PointModel, RewindMode};
use crate::text::{clipped, decimal, ellipsized, is_white_space, key_name, padded, trimmed};
use crate::theme::Tone;

verus! {

/// The number that a row of decimal digits stands for.
pub open spec fn number_read(digits: Seq<char>) -> int
    decreases digits.len(),
{
    if digits.len() == 0 {
        0
    } else {
        number_read(digits.drop_last()) * 10 + (digits.last() as int - '0' as int)
    }
}

/// A number is written in decimal digits without leading zeros, and reads back as itself.
pub proof fn law_numbers_read_back(n: nat)
    ensures
        number_read(decimal(n)) == n,
        decimal(n).len() > 0,
        forall|i: int| 0 <= i < decimal(n).len() ==> '0' <= #[trigger] decimal(n)[i] <= '9',
        n > 0 ==> decimal(n)[0] != '0',
        n < 10 ==> decimal(n).len() == 1,
    decreases n,
{
    if n >= 10 {
        law_numbers_read_back(n / 10);
        assert(decimal(n).drop_last() =~= decimal(n / 10));
    } else {
        assert(decimal(n).drop_last() =~= Seq::<char>::empty());
        assert(number_read(Seq::<char>::empty()) == 0);
    }
}

/// One file is "1 file", any other number of them that number and "files".
pub proof fn law_file_counts(n: nat)
    ensures
        n == 1 ==> file_count(n) == "1 file"@,
        n != 1 ==> file_count(n) == decimal(n) + " files"@,
{
}

/// Nothing but white space stands in `s` from one position to another.
pub open spec fn blank_between(s: Seq<char>, from: int, to: int) -> bool {
    forall|i: int| from <= i < to ==> is_white_space(#[trigger] s[i])
}

proof fn lemma_trimmed(s: Seq<char>) -> (r: (int, int))
    ensures
        0 <= r.0 <= r.1 <= s.len(),
        trimmed(s) == s.subrange(r.0, r.1),
        blank_between(s, 0, r.0),
        blank_between(s, r.1, s.len() as int),
        r.0 < r.1 ==> !is_white_space(s[r.0]) && !is_white_space(s[r.1 - 1]),
    decreases s.len(),
{
    if s.len() > 0 && is_white_space(s.first()) {
        let rest = s.drop_first();
        let (from, to) = lemma_trimmed(rest);
        assert(rest.subrange(from, to) =~= s.subrange(from + 1, to + 1));
        assert forall|i: int| 0 <= i < from + 1 implies is_white_space(#[trigger] s[i]) by {
            if i > 0 {
                assert(s[i] == rest[i - 1]);
            }
        }
        assert forall|i: int| to + 1 <= i < s.len() implies is_white_space(#[trigger] s[i]) by {
            assert(s[i] == rest[i - 1]);
        }
        (from + 1, to + 1)
    } else if s.len() > 0 && is_white_space(s.last()) {
        let rest = s.drop_last();
        let (from, to) = lemma_trimmed(rest);
        assert(rest.subrange(from, to) =~= s.subrange(from, to));
        assert forall|i: int| 0 <= i < from implies is_white_space(#[trigger] s[i]) by {
            assert(s[i] == rest[i]);
        }
        assert forall|i: int| to <= i < s.len() implies is_white_space(#[trigger] s[i]) by {
            if i < rest.len() {
                assert(s[i] == rest[i]);
            }
        }
        (from, to)
    } else {
        assert(s.subrange(0, s.len() as int) =~= s);
        (0, s.len() as int)
    }
}

/// Trimming takes white space off both ends, all of it, and nothing else.
pub proof fn law_trimming(s: Seq<char>)
    ensures
        exists|from: int, to: int|
            {
                &&& 0 <= from <= to <= s.len()
                &&& trimmed(s) == #[trigger] s.subrange(from, to)
                &&& blank_between(s, 0, from)
                &&& blank_between(s, to, s.len() as int)
                &&& from < to ==> !is_white_space(s[from]) && !is_white_space(s[to - 1])
            },
{
    let (from, to) = lemma_trimmed(s);
    assert(trimmed(s) == s.subrange(from, to));
}

/// Clipping keeps as many characters as there is room for, from the start.
pub proof fn law_clipping(s: Seq<char>, n: int)
    requires
        n >= 0,
    ensures
        s.len() <= n ==> clipped(s, n) == s,
        s.len() > n ==> clipped(s, n).len() == n && clipped(s, n) == s.take(n),
{
    assert(s.take(0) =~= Seq::<char>::empty());
}

/// A text that is too long for its room fills it, its last place with an ellipsis; one that fits
/// stays.
pub proof fn law_ellipsis(s: Seq<char>, n: int)
    requires
        n >= 0,
    ensures
        s.len() <= n ==> ellipsized(s, n) == s,
        s.len() > n && n > 0 ==> {
            &&& ellipsized(s, n).len() == n
            &&& ellipsized(s, n).take(n - 1) == s.take(n - 1)
            &&& ellipsized(s, n).last() == '\u{2026}'
        },
        s.len() > n && n == 0 ==> ellipsized(s, n) == seq!['\u{2026}'],
{
    reveal_strlit("\u{2026}");
    assert("\u{2026}"@ =~= seq!['\u{2026}']);
    if s.len() > n {
        if n > 0 {
            assert(s.take(0) =~= Seq::<char>::empty());
            assert(ellipsized(s, n).take(n - 1) =~= s.take(n - 1));
        } else {
            assert(ellipsized(s, n) =~= seq!['\u{2026}']);
        }
    }
}

/// Padding adds spaces at the end up to the width, and takes nothing away.
pub proof fn law_padding(s: Seq<char>, width: nat)
    ensures
        s.len() >= width ==> padded(s, width) == s,
        s.len() < width ==> {
            &&& padded(s, width).len() == width
            &&& padded(s, width).take(s.len() as int) == s
            &&& forall|i: int| s.len() <= i < width ==> #[trigger] padded(s, width)[i] == ' '
        },
{
    assert(s.len() < width ==> padded(s, width).take(s.len() as int) =~= s);
}

/// Escape and Backspace are shown by name, every other key as it is.
pub proof fn law_key_names(key: char)
    ensures
        key_name('\u{1b}') == "Esc"@,
        key_name('\u{8}') == "Bksp"@,
        key != '\u{1b}' && key != '\u{8}' ==> key_name(key) == seq![key],
{
}

/// A title is the preview between its prefix and its suffix. A preview that does not leave one
/// column free is cut to what is left, with an ellipsis.
pub proof fn law_titles(prefix: Seq<char>, preview: Seq<char>, suffix: Seq<char>, width: u16)
    ensures
        ({
            let room = width - prefix.len() - suffix.len() - 1;
            &&& preview.len() <= room ==> titled(prefix, preview, suffix, width) == prefix + preview
                + suffix
            &&& preview.len() > room && room > 0 ==> titled(prefix, preview, suffix, width)
                == prefix + (preview.take(room - 1) + seq!['\u{2026}']) + suffix
            &&& preview.len() > 0 && room <= 0 ==> titled(prefix, preview, suffix, width) == prefix
                + seq!['\u{2026}'] + suffix
            &&& preview.len() == 0 ==> titled(prefix, preview, suffix, width) == prefix + preview
                + suffix
        }),
{
    reveal_strlit("\u{2026}");
    assert("\u{2026}"@ =~= seq!['\u{2026}']);
    let room = width - prefix.len() - suffix.len() - 1;
    assert(preview.take(0) =~= Seq::<char>::empty());
    assert(Seq::<char>::empty() + seq!['\u{2026}'] =~= seq!['\u{2026}']);
}

/// A line of text in its role.
pub open spec fn line(text: Seq<char>, tone: Tone) -> CaptionModel {
    CaptionModel { text, tone }
}

/// What the panels without a turn in their title say.
pub proof fn law_fixed_lines(phase: PhaseModel, width: u16)
    ensures
        phase is Loading ==> captions(phase, width) == seq![
            line("Loading rewind points..."@, Tone::Muted),
        ],
        phase is Picker ==> captions(phase, width) == seq![
            line("Rewind to which turn?"@, Tone::Title),
        ],
        phase is CancelOffer ==> captions(phase, width) == seq![
            line("A turn is currently running."@, Tone::Title),
            line("Would you like to cancel it before rewinding?"@, Tone::Muted),
        ],
        phase is Previewing ==> captions(phase, width) == seq![
            line("Previewing file changes..."@, Tone::Muted),
        ],
        phase is Executing ==> captions(phase, width) == seq![line("Rewinding..."@, Tone::Muted)],
        phase matches PhaseModel::ModeSelect { offer_files_only, .. } ==> {
            &&& offer_files_only ==> captions(phase, width) == seq![
                line("What do you want to rewind?"@, Tone::Title),
            ]
            &&& !offer_files_only ==> captions(phase, width) == seq![
                line("Resubmit from here \u{2014} what should be rewound?"@, Tone::Title),
            ]
        },
{
}

/// The error panel says that the rewind failed, and the message as far as it fits on a line.
pub proof fn law_error_lines(message: Seq<char>, width: u16)
    ensures
        ({
            let lines = captions(PhaseModel::Error { message }, width);
            &&& lines.len() == 2
            &&& lines[0] == line("Rewind failed"@, Tone::ErrorTitle)
            &&& lines[1].tone is Body
            &&& message.len() <= width ==> lines[1].text == message
            &&& message.len() > width ==> lines[1].text == message.take(width as int)
        }),
{
    assert(message.take(0) =~= Seq::<char>::empty());
}

/// How a turn is called in a title.
pub open spec fn called(preview: Option<Seq<char>>) -> Seq<char> {
    if preview is Some {
        preview->0
    } else {
        "this turn"@
    }
}

/// The plain confirmation names what goes back and the turn; the orphan warning says what is lost.
pub proof fn law_confirmation_lines(phase: PhaseModel, width: u16)
    ensures
        phase matches PhaseModel::Confirm { mode, preview, .. } ==> {
            &&& mode is All || mode is ConversationOnly ==> captions(phase, width) == seq![
                line(
                    titled(
                        "Rewind conversation to \u{201C}"@,
                        called(preview),
                        "\u{201D}?"@,
                        width,
                    ),
                    Tone::Title,
                ),
            ]
            &&& mode is FilesOnly ==> captions(phase, width) == seq![
                line(
                    titled("Rewind files to \u{201C}"@, called(preview), "\u{201D}?"@, width),
                    Tone::Title,
                ),
            ]
        },
        phase matches PhaseModel::OrphanWarning { preview, .. } ==> captions(phase, width) == seq![
            line(
                titled(
                    "Rewind conversation only to \u{201C}"@,
                    called(preview),
                    "\u{201D}?"@,
                    width,
                ),
                Tone::Title,
            ),
            line(
                "The removed turns' file changes stay on disk and cannot be undone later."@,
                Tone::Warning,
            ),
        ],
{
}

/// The file list's title names what goes back, the turn, and how many files there are.
pub proof fn law_file_list_title(
    target: usize,
    mode: RewindMode,
    clean_files: Seq<Seq<char>>,
    conflicts: Seq<ConflictModel>,
    active_idx: usize,
    preview: Option<Seq<char>>,
    width: u16,
)
    ensures
        ({
            let phase = PhaseModel::FilePreview {
                target,
                mode,
                clean_files,
                conflicts,
                active_idx,
                preview,
            };
            let lines = captions(phase, width);
            let total = clean_files.len() + conflicts.len();
            let suffix = if total == 0 {
                "\u{201D}?"@
            } else {
                "\u{201D}? ("@ + file_count(total) + ")"@
            };
            &&& lines.len() == 1 + file_lines(clean_files, conflicts).len()
            &&& lines[0].tone is Title
            &&& mode is FilesOnly ==> lines[0].text == titled(
                "Rewind file changes only to \u{201C}"@,
                called(preview),
                suffix,
                width,
            )
            &&& mode is All || mode is ConversationOnly ==> lines[0].text == titled(
                "Rewind file changes and conversation to \u{201C}"@,
                called(preview),
                suffix,
                width,
            )
            &&& lines.skip(1) == file_lines(clean_files, conflicts)
            &&& suffix == file_preview_suffix(total)
        }),
{
    let phase = PhaseModel::FilePreview {
        target,
        mode,
        clean_files,
        conflicts,
        active_idx,
        preview,
    };
    assert(captions(phase, width).skip(1) =~= file_lines(clean_files, conflicts));
}

/// Up to five lines of a list are shown; of a longer one five, and a line that counts the rest.
pub proof fn law_lists_shown(lines: Seq<Seq<char>>, tone: Tone, i: int)
    ensures
        lines.len() <= 5 ==> listing(lines, tone).len() == lines.len(),
        lines.len() > 5 ==> listing(lines, tone).len() == 6,
        0 <= i < lines.len() && i < 5 ==> listing(lines, tone)[i] == line(lines[i], tone),
        lines.len() > 5 ==> listing(lines, tone)[5] == line(
            "+"@ + decimal((lines.len() - 5) as nat) + " more"@,
            Tone::Muted,
        ),
{
}

/// The files come first, muted, then the conflicts, as warnings with path and kind; where there is
/// neither, a line says so.
pub proof fn law_files_shown(clean_files: Seq<Seq<char>>, conflicts: Seq<ConflictModel>, i: int)
    ensures
        ({
            let shown = file_lines(clean_files, conflicts);
            let n = if clean_files.len() > 5 {
                6
            } else {
                clean_files.len() as int
            };
            &&& clean_files.len() == 0 && conflicts.len() == 0 ==> shown == seq![
                line("No tracked file changes to restore."@, Tone::Muted),
            ]
            &&& clean_files.len() > 0 || conflicts.len() > 0 ==> {
                &&& shown.len() == n + (if conflicts.len() > 5 {
                    6
                } else {
                    conflicts.len() as int
                })
                &&& 0 <= i < clean_files.len() && i < 5 ==> shown[i] == line(
                    clean_files[i],
                    Tone::Muted,
                )
                &&& clean_files.len() > 5 ==> shown[5] == line(
                    "+"@ + decimal((clean_files.len() - 5) as nat) + " more"@,
                    Tone::Muted,
                )
                &&& 0 <= i < conflicts.len() && i < 5 ==> shown[n + i] == line(
                    "! "@ + conflicts[i].path + " ("@ + conflicts[i].label + ")"@,
                    Tone::Warning,
                )
                &&& conflicts.len() > 5 ==> shown[n + 5] == line(
                    "+"@ + decimal((conflicts.len() - 5) as nat) + " more"@,
                    Tone::Muted,
                )
            }
        }),
{
    let lines = Seq::new(conflicts.len(), |i: int| conflict_line(conflicts[i]));
    law_lists_shown(clean_files, Tone::Muted, i);
    law_lists_shown(lines, Tone::Warning, i);
}

/// The picker shows a turn's preview, or that there is none, cut to eight columns less than the
/// text has, and the number of files that the turn itself edited, if any.
pub proof fn law_turns_shown(point: PointModel, width: u16)
    ensures
        ({
            let text = if point.prompt_preview is Some {
                point.prompt_preview->0
            } else {
                "(no preview)"@
            };
            &&& width >= 8 ==> picker_preview(point, width) == ellipsized(text, width - 8)
            &&& width < 8 ==> picker_preview(point, width) == ellipsized(text, 0)
            &&& point.num_file_snapshots == 0 ==> picker_files(point).len() == 0
            &&& point.num_file_snapshots > 0 ==> picker_files(point) == " \u{00B7} "@ + file_count(
                point.num_file_snapshots as nat,
            )
        }),
{
}

} // verus!
