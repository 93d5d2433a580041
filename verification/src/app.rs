//! Observer-side application state.
//!
//! The observer keeps the last snapshot of every task (keyed by id, in
//! first-seen order), a bounded log tail, and the editing state of the
//! task-input form.  Key handling is reduced to a stream of `AppEvent`s;
//! `apply_event` is the single transition function, specified over an
//! abstract view of the whole state.  Cursor positions count characters.

use vstd::prelude::*;
use crate::protocol::UiToEngine;
use crate::scheduler::TaskUpdate;
use crate::screens::{FragmentId, ScreenId};
use crate::task::{snap_view, SnapView, TaskSnapshot};
use crate::text::{dec_digits, insert_char_at, remove_char_at, trim_spaces, trimmed, u64_to_string};

verus! {

/// Which field of the task description form is being edited.
#[derive(Debug, Clone, Copy, PartialEq, Eq, Structural)]
pub enum DraftField {
    Name,
    DatasetFolder,
    Heuristics,
}

/// Which column of the heuristics field has the focus.
#[derive(Debug, Clone, Copy, PartialEq, Eq, Structural)]
pub enum HeuristicsFocus {
    Titles,
    Images,
}

/// One input-level event, produced by the key-handling layer.
#[derive(Debug, Clone)]
pub enum AppEvent {
    Quit,
    ToggleCursor,
    SwitchScreen(ScreenId),
    SwitchFragment(FragmentId),
    OpenTaskInput,
    CloseTaskInput,
    SelectTaskNext,
    SelectTaskPrev,
    CancelSelectedTask,
    DraftSwitchField,
    DraftFocusDescription,
    DraftFocusHypotheses,
    DraftCursorLeft,
    DraftCursorRight,
    DraftMoveUp,
    DraftMoveDown,
    DraftAddHeuristic,
    DraftAddImage,
    DraftBackspace,
    DraftInsertChar(char),
    DraftSubmit,
}

/// What one event produced: a request to quit, and possibly a command for
/// the engine.
#[derive(Debug, Default)]
pub struct EventResult {
    pub quit: bool,
    pub cmd: Option<UiToEngine>,
}

/// A hypothesis row of the task-input form.
#[derive(Debug, Clone)]
pub struct HypothesisDraft {
    pub title: String,
}

/// A heuristic row of the task-input form: a title and its image paths.
#[derive(Debug, Clone)]
pub struct HeuristicDraft {
    pub title: String,
    pub images: Vec<String>,
}

/// The task-input form's whole editing state.
#[derive(Debug, Clone)]
pub struct TaskDraft {
    pub name: String,
    pub dataset_folder: String,
    pub heuristics: Vec<HeuristicDraft>,
    pub hypotheses: Vec<HypothesisDraft>,
    pub field: DraftField,
    pub selected_hypothesis: usize,
    pub selected_heuristic: usize,
    pub selected_image: usize,
    pub heuristics_focus: HeuristicsFocus,
}

/// Mathematical view of a heuristic row.
#[verifier::ext_equal]
pub ghost struct HeurDraftView {
    pub title: Seq<char>,
    pub images: Seq<Seq<char>>,
}

/// The views of a list of strings.
pub open spec fn strs_view(s: Seq<String>) -> Seq<Seq<char>> {
    s.map_values(|x: String| x@)
}

/// The view of a heuristic row.
pub open spec fn heur_view(h: HeuristicDraft) -> HeurDraftView {
    HeurDraftView { title: h.title@, images: strs_view(h.images@) }
}

/// The views of the heuristic rows.
pub open spec fn heurs_view(s: Seq<HeuristicDraft>) -> Seq<HeurDraftView> {
    s.map_values(|h: HeuristicDraft| heur_view(h))
}

/// The title views of the hypothesis rows.
pub open spec fn hypdrafts_view(s: Seq<HypothesisDraft>) -> Seq<Seq<char>> {
    s.map_values(|h: HypothesisDraft| h.title@)
}

/// Mathematical view of the form state.
#[verifier::ext_equal]
pub ghost struct DraftView {
    pub name: Seq<char>,
    pub dataset_folder: Seq<char>,
    pub heuristics: Seq<HeurDraftView>,
    pub hypotheses: Seq<Seq<char>>,
    pub field: DraftField,
    pub selected_hypothesis: nat,
    pub selected_heuristic: nat,
    pub selected_image: nat,
    pub heuristics_focus: HeuristicsFocus,
}

/// The view of the form state.
pub open spec fn draft_view(d: TaskDraft) -> DraftView {
    DraftView {
        name: d.name@,
        dataset_folder: d.dataset_folder@,
        heuristics: heurs_view(d.heuristics@),
        hypotheses: hypdrafts_view(d.hypotheses@),
        field: d.field,
        selected_hypothesis: d.selected_hypothesis as nat,
        selected_heuristic: d.selected_heuristic as nat,
        selected_image: d.selected_image as nat,
        heuristics_focus: d.heuristics_focus,
    }
}

/// Mathematical view of the whole application state.
#[verifier::ext_equal]
pub ghost struct AppView {
    pub tasks: Seq<SnapView>,
    pub selected: nat,
    pub input: Seq<char>,
    pub screen: ScreenId,
    pub fragment: FragmentId,
    pub draft: DraftView,
    pub cursor_pos: nat,
    pub cursor_visible: bool,
    pub queue: Seq<AppEvent>,
    pub logs: Seq<Seq<char>>,
}

/// The observer's state.
#[derive(Debug)]
pub struct AppState {
    pub tasks: Vec<TaskSnapshot>,
    pub selected: usize,
    pub input: String,
    pub screen: ScreenId,
    pub fragment: FragmentId,
    pub draft: TaskDraft,
    pub cursor_pos: usize,
    pub cursor_visible: bool,
    pub event_queue: std::collections::VecDeque<AppEvent>,
    pub logs: Vec<String>,
}

impl AppState {
    /// The view of the whole state.
    pub open spec fn view(self) -> AppView {
        AppView {
            tasks: self.tasks@.map_values(|t: TaskSnapshot| snap_view(t)),
            selected: self.selected as nat,
            input: self.input@,
            screen: self.screen,
            fragment: self.fragment,
            draft: draft_view(self.draft),
            cursor_pos: self.cursor_pos as nat,
            cursor_visible: self.cursor_visible,
            queue: self.event_queue@,
            logs: strs_view(self.logs@),
        }
    }

    /// Task ids are unique (so an upsert replaces exactly one snapshot)
    /// and the log tail never exceeds its retention bound of 5 lines.
    pub open spec fn wf(self) -> bool {
        &&& forall|k: int, l: int|
            0 <= k < l < self.tasks@.len() ==> (#[trigger] self.tasks@[k]).id != (
            #[trigger] self.tasks@[l]).id
        &&& self.logs@.len() <= 5
    }
}

// ---------------------------------------------------------------------------
// View helpers used by the transition functions.
// ---------------------------------------------------------------------------

/// The smaller of two naturals.
pub open spec fn nat_min(a: nat, b: nat) -> nat {
    if a <= b {
        a
    } else {
        b
    }
}

/// `a - 1`, stopping at zero.
pub open spec fn nat_sub1(a: nat) -> nat {
    if a > 0 {
        (a - 1) as nat
    } else {
        0
    }
}

/// Whether a heuristic row is selected.
pub open spec fn has_heur(d: DraftView) -> bool {
    d.selected_heuristic < d.heuristics.len()
}

/// Title of the selected heuristic row (empty when none is selected).
pub open spec fn sel_title(d: DraftView) -> Seq<char> {
    if has_heur(d) {
        d.heuristics[d.selected_heuristic as int].title
    } else {
        Seq::empty()
    }
}

/// Image paths of the selected heuristic row.
pub open spec fn sel_images(d: DraftView) -> Seq<Seq<char>> {
    if has_heur(d) {
        d.heuristics[d.selected_heuristic as int].images
    } else {
        Seq::empty()
    }
}

/// Whether an image path is selected.
pub open spec fn has_image(d: DraftView) -> bool {
    d.selected_image < sel_images(d).len()
}

/// The selected image path (empty when none is selected).
pub open spec fn sel_image(d: DraftView) -> Seq<char> {
    if has_image(d) {
        sel_images(d)[d.selected_image as int]
    } else {
        Seq::empty()
    }
}

/// Whether the cursor is editing inside the heuristics field of the
/// description fragment.
pub open spec fn in_heuristics(a: AppView) -> bool {
    a.fragment == FragmentId::TaskDescription && a.draft.field == DraftField::Heuristics
}

/// Whether the cursor is editing a plain text field of the description
/// fragment.
pub open spec fn in_text_field(a: AppView) -> bool {
    a.fragment == FragmentId::TaskDescription && a.draft.field != DraftField::Heuristics
}

// ---------------------------------------------------------------------------
// Transition functions: what each editing event does to the view.
// ---------------------------------------------------------------------------

/// Moving the cursor left: inside the heuristics field it can hop from the
/// images column back to the titles column; in a text field it steps back
/// one character.
pub open spec fn cursor_left_step(a: AppView) -> AppView {
    if in_heuristics(a) {
        if a.draft.heuristics_focus == HeuristicsFocus::Images {
            if a.cursor_pos == 0 {
                AppView {
                    draft: DraftView { heuristics_focus: HeuristicsFocus::Titles, ..a.draft },
                    cursor_pos: sel_title(a.draft).len(),
                    ..a
                }
            } else if has_image(a.draft) {
                AppView { cursor_pos: nat_min(nat_sub1(a.cursor_pos), sel_image(a.draft).len()), ..a }
            } else {
                a
            }
        } else if has_heur(a.draft) {
            AppView { cursor_pos: nat_min(nat_sub1(a.cursor_pos), sel_title(a.draft).len()), ..a }
        } else {
            a
        }
    } else if in_text_field(a) {
        AppView { cursor_pos: nat_min(nat_sub1(a.cursor_pos), a.input.len()), ..a }
    } else {
        a
    }
}

/// Moving the cursor right: at the end of a heuristic title it hops to the
/// images column; otherwise it steps forward one character.
pub open spec fn cursor_right_step(a: AppView) -> AppView {
    if in_heuristics(a) {
        if a.draft.heuristics_focus == HeuristicsFocus::Titles {
            if has_heur(a.draft) {
                if a.cursor_pos >= sel_title(a.draft).len() {
                    AppView {
                        draft: DraftView { heuristics_focus: HeuristicsFocus::Images, ..a.draft },
                        cursor_pos: if has_image(a.draft) {
                            sel_image(a.draft).len()
                        } else {
                            0
                        },
                        ..a
                    }
                } else {
                    AppView {
                        cursor_pos: nat_min(a.cursor_pos + 1, sel_title(a.draft).len()),
                        ..a
                    }
                }
            } else {
                a
            }
        } else if has_image(a.draft) {
            AppView { cursor_pos: nat_min(a.cursor_pos + 1, sel_image(a.draft).len()), ..a }
        } else {
            a
        }
    } else if in_text_field(a) {
        AppView { cursor_pos: nat_min(a.cursor_pos + 1, a.input.len()), ..a }
    } else {
        a
    }
}

/// Moving the selection up a list.
pub open spec fn selection_up_step(a: AppView) -> AppView {
    if in_heuristics(a) && a.draft.heuristics_focus == HeuristicsFocus::Titles
        && a.draft.selected_heuristic > 0 {
        let d = DraftView {
            selected_heuristic: (a.draft.selected_heuristic - 1) as nat,
            selected_image: 0,
            ..a.draft
        };
        AppView { draft: d, cursor_pos: sel_title(d).len(), ..a }
    } else if in_heuristics(a) && a.draft.heuristics_focus == HeuristicsFocus::Images
        && a.draft.selected_image > 0 {
        let d = DraftView { selected_image: (a.draft.selected_image - 1) as nat, ..a.draft };
        AppView { draft: d, cursor_pos: sel_image(d).len(), ..a }
    } else if a.fragment == FragmentId::TaskHypotheses && a.draft.selected_hypothesis > 0 {
        AppView {
            draft: DraftView {
                selected_hypothesis: (a.draft.selected_hypothesis - 1) as nat,
                ..a.draft
            },
            ..a
        }
    } else {
        a
    }
}

/// Moving the selection down a list.
pub open spec fn selection_down_step(a: AppView) -> AppView {
    if in_heuristics(a) && a.draft.heuristics_focus == HeuristicsFocus::Titles {
        let d = DraftView {
            selected_heuristic: nat_min(
                a.draft.selected_heuristic + 1,
                nat_sub1(a.draft.heuristics.len()),
            ),
            selected_image: 0,
            ..a.draft
        };
        AppView { draft: d, cursor_pos: sel_title(d).len(), ..a }
    } else if in_heuristics(a) && a.draft.heuristics_focus == HeuristicsFocus::Images {
        let d = DraftView {
            selected_image: nat_min(a.draft.selected_image + 1, nat_sub1(sel_images(a.draft).len())),
            ..a.draft
        };
        AppView { draft: d, cursor_pos: sel_image(d).len(), ..a }
    } else if a.fragment == FragmentId::TaskHypotheses {
        AppView {
            draft: DraftView {
                selected_hypothesis: nat_min(
                    a.draft.selected_hypothesis + 1,
                    nat_sub1(a.draft.hypotheses.len()),
                ),
                ..a.draft
            },
            ..a
        }
    } else {
        a
    }
}

/// Appending an empty image path to the selected heuristic row.
pub open spec fn add_image_step(a: AppView) -> AppView {
    if has_heur(a.draft) {
        let row = a.draft.heuristics[a.draft.selected_heuristic as int];
        let row2 = HeurDraftView { images: row.images.push(Seq::empty()), ..row };
        AppView {
            draft: DraftView {
                heuristics: a.draft.heuristics.update(a.draft.selected_heuristic as int, row2),
                selected_image: row.images.len(),
                ..a.draft
            },
            cursor_pos: 0,
            ..a
        }
    } else {
        a
    }
}

/// Deleting the character before the cursor in whatever is being edited.
pub open spec fn backspace_step(a: AppView) -> AppView {
    if in_text_field(a) {
        if 0 < a.cursor_pos <= a.input.len() {
            AppView {
                input: a.input.subrange(0, a.cursor_pos - 1) + a.input.subrange(
                    a.cursor_pos as int,
                    a.input.len() as int,
                ),
                cursor_pos: (a.cursor_pos - 1) as nat,
                ..a
            }
        } else {
            a
        }
    } else if in_heuristics(a) && a.draft.heuristics_focus == HeuristicsFocus::Titles {
        if has_heur(a.draft) && 0 < a.cursor_pos <= sel_title(a.draft).len() {
            let row = a.draft.heuristics[a.draft.selected_heuristic as int];
            let t = row.title;
            let row2 = HeurDraftView {
                title: t.subrange(0, a.cursor_pos - 1) + t.subrange(
                    a.cursor_pos as int,
                    t.len() as int,
                ),
                ..row
            };
            AppView {
                draft: DraftView {
                    heuristics: a.draft.heuristics.update(a.draft.selected_heuristic as int, row2),
                    ..a.draft
                },
                cursor_pos: (a.cursor_pos - 1) as nat,
                ..a
            }
        } else {
            a
        }
    } else if in_heuristics(a) && a.draft.heuristics_focus == HeuristicsFocus::Images {
        if has_image(a.draft) && 0 < a.cursor_pos <= sel_image(a.draft).len() {
            let row = a.draft.heuristics[a.draft.selected_heuristic as int];
            let img = sel_image(a.draft);
            let row2 = HeurDraftView {
                images: row.images.update(
                    a.draft.selected_image as int,
                    img.subrange(0, a.cursor_pos - 1) + img.subrange(
                        a.cursor_pos as int,
                        img.len() as int,
                    ),
                ),
                ..row
            };
            AppView {
                draft: DraftView {
                    heuristics: a.draft.heuristics.update(a.draft.selected_heuristic as int, row2),
                    ..a.draft
                },
                cursor_pos: (a.cursor_pos - 1) as nat,
                ..a
            }
        } else {
            a
        }
    } else {
        a
    }
}

/// Inserting a character at the cursor in whatever is being edited.  In
/// the images column an empty row gains a first empty path to type into.
pub open spec fn insert_char_step(a: AppView, c: char) -> AppView {
    if in_text_field(a) {
        if a.cursor_pos <= a.input.len() {
            AppView {
                input: a.input.subrange(0, a.cursor_pos as int) + seq![c] + a.input.subrange(
                    a.cursor_pos as int,
                    a.input.len() as int,
                ),
                cursor_pos: a.cursor_pos + 1,
                ..a
            }
        } else {
            a
        }
    } else if in_heuristics(a) && a.draft.heuristics_focus == HeuristicsFocus::Titles {
        if has_heur(a.draft) && a.cursor_pos <= sel_title(a.draft).len() {
            let row = a.draft.heuristics[a.draft.selected_heuristic as int];
            let t = row.title;
            let row2 = HeurDraftView {
                title: t.subrange(0, a.cursor_pos as int) + seq![c] + t.subrange(
                    a.cursor_pos as int,
                    t.len() as int,
                ),
                ..row
            };
            AppView {
                draft: DraftView {
                    heuristics: a.draft.heuristics.update(a.draft.selected_heuristic as int, row2),
                    ..a.draft
                },
                cursor_pos: a.cursor_pos + 1,
                ..a
            }
        } else {
            a
        }
    } else if in_heuristics(a) && a.draft.heuristics_focus == HeuristicsFocus::Images {
        if has_heur(a.draft) {
            let b = if sel_images(a.draft).len() == 0 {
                let row = a.draft.heuristics[a.draft.selected_heuristic as int];
                let row2 = HeurDraftView { images: row.images.push(Seq::empty()), ..row };
                AppView {
                    draft: DraftView {
                        heuristics: a.draft.heuristics.update(
                            a.draft.selected_heuristic as int,
                            row2,
                        ),
                        selected_image: 0,
                        ..a.draft
                    },
                    cursor_pos: 0,
                    ..a
                }
            } else {
                a
            };
            if has_image(b.draft) && b.cursor_pos <= sel_image(b.draft).len() {
                let row = b.draft.heuristics[b.draft.selected_heuristic as int];
                let img = sel_image(b.draft);
                let row2 = HeurDraftView {
                    images: row.images.update(
                        b.draft.selected_image as int,
                        img.subrange(0, b.cursor_pos as int) + seq![c] + img.subrange(
                            b.cursor_pos as int,
                            img.len() as int,
                        ),
                    ),
                    ..row
                };
                AppView {
                    draft: DraftView {
                        heuristics: b.draft.heuristics.update(
                            b.draft.selected_heuristic as int,
                            row2,
                        ),
                        ..b.draft
                    },
                    cursor_pos: b.cursor_pos + 1,
                    ..b
                }
            } else {
                b
            }
        } else {
            a
        }
    } else {
        a
    }
}

/// Committing the edited text into the field it belongs to.
pub open spec fn commit_step(a: AppView) -> AppView {
    match a.draft.field {
        DraftField::Name => AppView { draft: DraftView { name: a.input, ..a.draft }, ..a },
        DraftField::DatasetFolder => AppView {
            draft: DraftView { dataset_folder: a.input, ..a.draft },
            ..a
        },
        DraftField::Heuristics => a,
    }
}

/// Loading the current field's text into the edit buffer.
pub open spec fn load_step(a: AppView) -> AppView {
    let text = match a.draft.field {
        DraftField::Name => a.draft.name,
        DraftField::DatasetFolder => a.draft.dataset_folder,
        DraftField::Heuristics => Seq::empty(),
    };
    AppView { input: text, cursor_pos: text.len(), ..a }
}

/// The field after the current one, cycling.
pub open spec fn next_field(f: DraftField) -> DraftField {
    match f {
        DraftField::Name => DraftField::DatasetFolder,
        DraftField::DatasetFolder => DraftField::Heuristics,
        DraftField::Heuristics => DraftField::Name,
    }
}

/// Tab in the description fragment: commit, move to the next field, load.
pub open spec fn switch_field_step(a: AppView) -> AppView {
    if a.fragment == FragmentId::TaskDescription {
        let b = commit_step(a);
        load_step(AppView { draft: DraftView { field: next_field(a.draft.field), ..b.draft }, ..b })
    } else {
        a
    }
}

/// Opening the task-input screen.
pub open spec fn open_input_step(a: AppView) -> AppView {
    AppView {
        screen: ScreenId::TaskInput,
        fragment: FragmentId::TaskDescription,
        draft: DraftView {
            field: DraftField::Name,
            heuristics_focus: HeuristicsFocus::Titles,
            ..a.draft
        },
        input: a.draft.name,
        cursor_pos: a.draft.name.len(),
        ..a
    }
}

/// Closing the task-input screen.
pub open spec fn close_input_step(a: AppView) -> AppView {
    AppView {
        screen: ScreenId::Main,
        fragment: FragmentId::MainTasks,
        input: Seq::empty(),
        cursor_pos: 0,
        ..a
    }
}

/// Resetting the form for the next task.
pub open spec fn reset_step(a: AppView) -> AppView {
    AppView {
        draft: DraftView {
            name: Seq::empty(),
            dataset_folder: "./datasets/mock"@,
            field: DraftField::Name,
            selected_hypothesis: 0,
            selected_heuristic: 0,
            selected_image: 0,
            heuristics_focus: HeuristicsFocus::Titles,
            ..a.draft
        },
        input: Seq::empty(),
        cursor_pos: 0,
        ..a
    }
}

/// Appending a heuristic row with the given title and one default image.
pub open spec fn add_heuristic_step(a: AppView, title: Seq<char>) -> AppView {
    AppView {
        draft: DraftView {
            heuristics: a.draft.heuristics.push(
                HeurDraftView { title: title, images: seq!["/data/new_image.png"@] },
            ),
            selected_heuristic: a.draft.heuristics.len(),
            selected_image: 0,
            ..a.draft
        },
        cursor_pos: title.len(),
        ..a
    }
}

/// Selecting the next task in the list.
pub open spec fn select_next_step(a: AppView) -> AppView {
    if a.tasks.len() == 0 {
        a
    } else {
        AppView { selected: nat_min(a.selected + 1, (a.tasks.len() - 1) as nat), ..a }
    }
}

/// Selecting the previous task in the list.
pub open spec fn select_prev_step(a: AppView) -> AppView {
    if a.tasks.len() == 0 || a.selected == 0 {
        a
    } else {
        AppView { selected: (a.selected - 1) as nat, ..a }
    }
}

/// The default title of a freshly added heuristic row.
pub open spec fn default_heur_title(a: AppView) -> Seq<char> {
    "Heuristic "@ + dec_digits(a.draft.heuristics.len() + 1)
}

/// How every event transforms the view.
pub open spec fn apply_event_view(a: AppView, e: AppEvent) -> AppView {
    match e {
        AppEvent::Quit => a,
        AppEvent::ToggleCursor => AppView { cursor_visible: !a.cursor_visible, ..a },
        AppEvent::SwitchScreen(s) => AppView { screen: s, ..a },
        AppEvent::SwitchFragment(f) => AppView { fragment: f, ..a },
        AppEvent::OpenTaskInput => open_input_step(a),
        AppEvent::CloseTaskInput => close_input_step(a),
        AppEvent::SelectTaskNext => if a.fragment == FragmentId::MainTasks {
            select_next_step(a)
        } else {
            a
        },
        AppEvent::SelectTaskPrev => if a.fragment == FragmentId::MainTasks {
            select_prev_step(a)
        } else {
            a
        },
        AppEvent::CancelSelectedTask => a,
        AppEvent::DraftSwitchField => switch_field_step(a),
        AppEvent::DraftFocusDescription => AppView { fragment: FragmentId::TaskDescription, ..a },
        AppEvent::DraftFocusHypotheses => AppView { fragment: FragmentId::TaskHypotheses, ..a },
        AppEvent::DraftCursorLeft => cursor_left_step(a),
        AppEvent::DraftCursorRight => cursor_right_step(a),
        AppEvent::DraftMoveUp => selection_up_step(a),
        AppEvent::DraftMoveDown => selection_down_step(a),
        AppEvent::DraftAddHeuristic => if a.fragment == FragmentId::TaskDescription
            && a.draft.field == DraftField::Heuristics {
            if a.draft.heuristics_focus == HeuristicsFocus::Images {
                add_image_step(a)
            } else {
                add_heuristic_step(a, default_heur_title(a))
            }
        } else {
            a
        },
        AppEvent::DraftAddImage => add_image_step(a),
        AppEvent::DraftBackspace => backspace_step(a),
        AppEvent::DraftInsertChar(c) => insert_char_step(a, c),
        AppEvent::DraftSubmit => if a.fragment == FragmentId::TaskDescription && a.draft.field
            == DraftField::Heuristics && a.draft.heuristics_focus == HeuristicsFocus::Images {
            add_image_step(a)
        } else {
            close_input_step(reset_step(commit_step(a)))
        },
    }
}

/// Abstract view of a command sent to the engine.
#[verifier::ext_equal]
pub ghost enum CmdView {
    AddTask(Seq<char>),
    CancelTask(nat),
    Shutdown,
}

/// The view of a command.
pub open spec fn cmd_view(c: UiToEngine) -> CmdView {
    match c {
        UiToEngine::AddTask { name } => CmdView::AddTask(name@),
        UiToEngine::CancelTask { id } => CmdView::CancelTask(id as nat),
        UiToEngine::Shutdown => CmdView::Shutdown,
    }
}

/// The view of an optional command.
pub open spec fn opt_cmd_view(c: Option<UiToEngine>) -> Option<CmdView> {
    match c {
        Some(x) => Some(cmd_view(x)),
        None => None,
    }
}

/// Which command, if any, an event asks the engine to run.
pub open spec fn event_cmd(a: AppView, e: AppEvent) -> Option<CmdView> {
    match e {
        AppEvent::CancelSelectedTask => if a.selected < a.tasks.len() {
            Some(CmdView::CancelTask(a.tasks[a.selected as int].id))
        } else {
            None
        },
        AppEvent::DraftSubmit => if a.fragment == FragmentId::TaskDescription && a.draft.field
            == DraftField::Heuristics && a.draft.heuristics_focus == HeuristicsFocus::Images {
            None
        } else {
            let name = trimmed(commit_step(a).draft.name);
            if name.len() > 0 {
                Some(CmdView::AddTask(name))
            } else {
                None
            }
        },
        _ => None,
    }
}

/// One log line as the observer stores it.
pub open spec fn log_line(id: nat, message: Seq<char>) -> Seq<char> {
    "Task "@ + dec_digits(id) + ": "@ + message
}

/// The task list after an upsert: the snapshot replaces the one with the
/// same id, or is appended as a new task.
pub open spec fn upsert_tasks(ts: Seq<SnapView>, sv: SnapView) -> Seq<SnapView> {
    if exists|k: int| 0 <= k < ts.len() && (#[trigger] ts[k]).id == sv.id {
        let k = choose|k: int| 0 <= k < ts.len() && (#[trigger] ts[k]).id == sv.id;
        ts.update(k, sv)
    } else {
        ts.push(sv)
    }
}

/// How an update from the engine transforms the view.
pub open spec fn apply_update_view(a: AppView, u: TaskUpdate) -> AppView {
    match u {
        TaskUpdate::Upsert(s) => {
            let ts = upsert_tasks(a.tasks, snap_view(s));
            let sel = if a.selected >= ts.len() && ts.len() > 0 {
                (ts.len() - 1) as nat
            } else {
                a.selected
            };
            AppView { tasks: ts, selected: sel, ..a }
        },
        TaskUpdate::Log { id, message } => {
            let l2 = a.logs.push(log_line(id as nat, message@));
            AppView {
                logs: if l2.len() > 5 {
                    l2.subrange(1, l2.len() as int)
                } else {
                    l2
                },
                ..a
            }
        },
    }
}

/// Copies a list of strings, preserving each element's view.
fn clone_strings(v: &Vec<String>) -> (r: Vec<String>)
    ensures
        strs_view(r@) == strs_view(v@),
        r@.len() == v@.len(),
{
    let mut out: Vec<String> = Vec::new();
    let mut i: usize = 0;
    while i < v.len()
        invariant
            0 <= i <= v.len(),
            out.len() == i,
            forall|k: int| 0 <= k < i ==> out@[k]@ == v@[k]@,
        decreases v.len() - i,
    {
        out.push(v[i].clone());
        i = i + 1;
    }
    proof {
        assert(strs_view(out@) =~= strs_view(v@));
    }
    out
}

impl AppState {
    /// Fresh observer state: no tasks, the main screen, and a form
    /// pre-filled with example heuristics and hypotheses.
    pub fn new() -> (r: AppState)
        ensures
            r.wf(),
            r.view().tasks.len() == 0,
            r.view().selected == 0,
            r.view().input == Seq::<char>::empty(),
            r.view().screen == ScreenId::Main,
            r.view().fragment == FragmentId::MainTasks,
            r.view().cursor_pos == 0,
            r.view().cursor_visible,
            r.view().queue.len() == 0,
            r.view().logs.len() == 0,
            r.view().draft.name == Seq::<char>::empty(),
            r.view().draft.dataset_folder == "./datasets/mock"@,
            r.view().draft.field == DraftField::Name,
            r.view().draft.selected_hypothesis == 0,
            r.view().draft.selected_heuristic == 0,
            r.view().draft.selected_image == 0,
            r.view().draft.heuristics_focus == HeuristicsFocus::Titles,
            r.view().draft.heuristics == seq![
                HeurDraftView { title: "Edge threshold"@, images: seq!["/data/edge_01.png"@] },
                HeurDraftView {
                    title: "Blob area filter"@,
                    images: seq!["/data/blob_03.png"@, "/data/blob_07.png"@],
                },
            ],
            r.view().draft.hypotheses == seq![
                "Edge + blob fusion"@,
                "Contrast boosted contours"@,
                "Texture density heuristic"@,
            ],
    {
        let mut heuristics: Vec<HeuristicDraft> = Vec::new();
        let mut images: Vec<String> = Vec::new();
        images.push(String::from_str("/data/edge_01.png"));
        heuristics.push(
            HeuristicDraft { title: String::from_str("Edge threshold"), images },
        );
        let mut images: Vec<String> = Vec::new();
        images.push(String::from_str("/data/blob_03.png"));
        images.push(String::from_str("/data/blob_07.png"));
        heuristics.push(
            HeuristicDraft { title: String::from_str("Blob area filter"), images },
        );
        let mut hypotheses: Vec<HypothesisDraft> = Vec::new();
        hypotheses.push(HypothesisDraft { title: String::from_str("Edge + blob fusion") });
        hypotheses.push(HypothesisDraft { title: String::from_str("Contrast boosted contours") });
        hypotheses.push(HypothesisDraft { title: String::from_str("Texture density heuristic") });
        let draft = TaskDraft {
            name: String::new(),
            dataset_folder: String::from_str("./datasets/mock"),
            heuristics,
            hypotheses,
            field: DraftField::Name,
            selected_hypothesis: 0,
            selected_heuristic: 0,
            selected_image: 0,
            heuristics_focus: HeuristicsFocus::Titles,
        };
        let r = AppState {
            tasks: Vec::new(),
            selected: 0,
            input: String::new(),
            screen: ScreenId::Main,
            fragment: FragmentId::MainTasks,
            draft,
            cursor_pos: 0,
            cursor_visible: true,
            event_queue: std::collections::VecDeque::new(),
            logs: Vec::new(),
        };
        proof {
            assert(r.view().draft.heuristics =~~= seq![
                HeurDraftView { title: "Edge threshold"@, images: seq!["/data/edge_01.png"@] },
                HeurDraftView {
                    title: "Blob area filter"@,
                    images: seq!["/data/blob_03.png"@, "/data/blob_07.png"@],
                },
            ]);
            assert(r.view().draft.hypotheses =~~= seq![
                "Edge + blob fusion"@,
                "Contrast boosted contours"@,
                "Texture density heuristic"@,
            ]);
            assert(r.view().tasks =~= Seq::<SnapView>::empty());
            assert(r.view().logs =~= Seq::<Seq<char>>::empty());
        }
        r
    }

    /// Folds one engine update into the observer state: an upsert replaces
    /// (or appends) the task's snapshot and keeps the selection in range;
    /// a log line joins the bounded log tail.
    pub fn apply_update(&mut self, update: TaskUpdate)
        requires
            old(self).wf(),
        ensures
            final(self).wf(),
            final(self).view() == apply_update_view(old(self).view(), update),
    {
        match update {
            TaskUpdate::Upsert(snapshot) => {
                let ghost sv = snap_view(snapshot);
                let ghost ts0 = self.view().tasks;
                let id = snapshot.id;
                let mut k: usize = 0;
                let n = self.tasks.len();
                let mut found: bool = false;
                while k < n && !found
                    invariant
                        0 <= k <= n,
                        n == self.tasks@.len(),
                        !found ==> forall|j: int|
                            0 <= j < k ==> (#[trigger] self.tasks@[j]).id != id,
                        found ==> k < n && self.tasks@[k as int].id == id,
                        self.wf(),
                        self.tasks@ == old(self).tasks@,
                    decreases n - k + (if found { 0int } else { 1int }),
                {
                    if self.tasks[k].id == id {
                        found = true;
                    } else {
                        k = k + 1;
                    }
                }
                if found {
                    self.tasks.set(k, snapshot);
                    proof {
                        let ts = self.view().tasks;
                        assert(ts0[k as int].id == sv.id);
                        let kk = choose|kk: int|
                            0 <= kk < ts0.len() && (#[trigger] ts0[kk]).id == sv.id;
                        assert(kk == k) by {
                            if kk != k {
                                assert(old(self).tasks@[kk].id == old(self).tasks@[k as int].id);
                            }
                        }
                        assert(ts =~= upsert_tasks(ts0, sv));
                    }
                } else {
                    self.tasks.push(snapshot);
                    proof {
                        assert(forall|j: int|
                            0 <= j < ts0.len() ==> (#[trigger] old(self).tasks@[j]).id != id);
                        assert(!(exists|j: int|
                            0 <= j < ts0.len() && (#[trigger] ts0[j]).id == sv.id)) by {
                            if exists|j: int| 0 <= j < ts0.len() && (#[trigger] ts0[j]).id
                                == sv.id {
                                let j = choose|j: int|
                                    0 <= j < ts0.len() && (#[trigger] ts0[j]).id == sv.id;
                                assert(old(self).tasks@[j].id == id);
                            }
                        }
                        assert(self.view().tasks =~= upsert_tasks(ts0, sv));
                    }
                }
                if self.selected >= self.tasks.len() && self.tasks.len() > 0 {
                    self.selected = self.tasks.len() - 1;
                }
                proof {
                    assert(self.view() =~~= apply_update_view(old(self).view(), update));
                }
            },
            TaskUpdate::Log { id, message } => {
                let mut line = String::from_str("Task ");
                let part = u64_to_string(id as u64);
                line.append(part.as_str());
                line.append(": ");
                line.append(message.as_str());
                proof {
                    assert(line@ =~= log_line(id as nat, message@));
                }
                self.logs.push(line);
                if self.logs.len() > 5 {
                    self.logs.remove(0);
                }
                proof {
                    let l2 = old(self).view().logs.push(log_line(id as nat, message@));
                    if l2.len() > 5 {
                        assert(strs_view(self.logs@) =~= l2.subrange(1, l2.len() as int));
                    } else {
                        assert(strs_view(self.logs@) =~= l2);
                    }
                    assert(self.view() =~~= apply_update_view(old(self).view(), update));
                }
            },
        }
    }

    /// Moves the task selection down the list.
    pub fn select_next(&mut self)
        ensures
            final(self).view() == select_next_step(old(self).view()),
    {
        if self.tasks.len() == 0 {
            return;
        }
        let max = self.tasks.len() - 1;
        if self.selected < max {
            self.selected = self.selected + 1;
        } else {
            self.selected = max;
        }
        proof {
            assert(final(self).view() =~~= select_next_step(old(self).view()));
        }
    }

    /// Moves the task selection up the list.
    pub fn select_prev(&mut self)
        ensures
            final(self).view() == select_prev_step(old(self).view()),
    {
        if self.tasks.len() == 0 {
            return;
        }
        if self.selected == 0 {
            return;
        }
        self.selected = self.selected - 1;
        proof {
            assert(final(self).view() =~~= select_prev_step(old(self).view()));
        }
    }

    /// Copies of all task snapshots, in first-seen order.
    pub fn tasks_in_order(&self) -> (r: Vec<TaskSnapshot>)
        ensures
            r@.len() == self.view().tasks.len(),
            forall|k: int| 0 <= k < r@.len() ==> snap_view(#[trigger] r@[k]) == self.view().tasks[k],
    {
        let mut out: Vec<TaskSnapshot> = Vec::new();
        let mut i: usize = 0;
        while i < self.tasks.len()
            invariant
                0 <= i <= self.tasks@.len(),
                out.len() == i,
                forall|k: int|
                    0 <= k < i ==> snap_view(#[trigger] out@[k]) == snap_view(self.tasks@[k]),
            decreases self.tasks@.len() - i,
        {
            out.push(self.tasks[i].duplicate());
            i = i + 1;
        }
        out
    }

    /// A copy of the selected task's snapshot, when the selection is in
    /// range.
    pub fn selected_task(&self) -> (r: Option<TaskSnapshot>)
        ensures
            match r {
                Some(t) => self.view().selected < self.view().tasks.len() && snap_view(t)
                    == self.view().tasks[self.view().selected as int],
                None => self.view().selected >= self.view().tasks.len(),
            },
    {
        if self.selected < self.tasks.len() {
            Some(self.tasks[self.selected].duplicate())
        } else {
            None
        }
    }

    /// The bounded log tail, oldest first.
    pub fn recent_logs(&self) -> (r: &[String])
        ensures
            strs_view(r@) == self.view().logs,
    {
        self.logs.as_slice()
    }

    /// Focuses a fragment.
    pub fn set_fragment(&mut self, fragment: FragmentId)
        ensures
            final(self).view() == (AppView { fragment: fragment, ..old(self).view() }),
    {
        self.fragment = fragment;
        proof {
            assert(final(self).view() =~~= (AppView { fragment: fragment, ..old(self).view() }));
        }
    }

    /// Opens the task-input screen, loading the name field for editing.
    pub fn open_task_input(&mut self)
        ensures
            final(self).view() == open_input_step(old(self).view()),
    {
        self.screen = ScreenId::TaskInput;
        self.fragment = FragmentId::TaskDescription;
        self.draft.field = DraftField::Name;
        self.draft.heuristics_focus = HeuristicsFocus::Titles;
        self.input = self.draft.name.clone();
        self.cursor_pos = self.input.as_str().unicode_len();
        proof {
            assert(final(self).view() =~~= open_input_step(old(self).view()));
        }
    }

    /// Closes the task-input screen.
    pub fn close_task_input(&mut self)
        ensures
            final(self).view() == close_input_step(old(self).view()),
    {
        self.screen = ScreenId::Main;
        self.fragment = FragmentId::MainTasks;
        self.input = String::new();
        self.cursor_pos = 0;
        proof {
            assert(final(self).view() =~~= close_input_step(old(self).view()));
        }
    }

    /// Commits the edit buffer into the current field.
    pub fn commit_draft_field(&mut self)
        ensures
            final(self).view() == commit_step(old(self).view()),
    {
        match self.draft.field {
            DraftField::Name => {
                self.draft.name = self.input.clone();
            },
            DraftField::DatasetFolder => {
                self.draft.dataset_folder = self.input.clone();
            },
            DraftField::Heuristics => {},
        }
        proof {
            assert(final(self).view() =~~= commit_step(old(self).view()));
        }
    }

    /// Loads the current field into the edit buffer.
    pub fn load_draft_field(&mut self)
        ensures
            final(self).view() == load_step(old(self).view()),
    {
        self.input = match self.draft.field {
            DraftField::Name => self.draft.name.clone(),
            DraftField::DatasetFolder => self.draft.dataset_folder.clone(),
            DraftField::Heuristics => String::new(),
        };
        self.cursor_pos = self.input.as_str().unicode_len();
        proof {
            assert(final(self).view() =~~= load_step(old(self).view()));
        }
    }

    /// Resets the form for the next task.
    pub fn reset_draft(&mut self)
        ensures
            final(self).view() == reset_step(old(self).view()),
    {
        self.draft.name = String::new();
        self.draft.dataset_folder = String::from_str("./datasets/mock");
        self.draft.field = DraftField::Name;
        self.draft.selected_hypothesis = 0;
        self.draft.selected_heuristic = 0;
        self.draft.selected_image = 0;
        self.draft.heuristics_focus = HeuristicsFocus::Titles;
        self.input = String::new();
        self.cursor_pos = 0;
        proof {
            assert(final(self).view() =~~= reset_step(old(self).view()));
        }
    }

    /// Appends a heuristic row with the given title and one default image
    /// path, selecting it for editing.
    pub fn add_heuristic(&mut self, title: String)
        requires
            old(self).draft.heuristics@.len() < usize::MAX,
        ensures
            final(self).view() == add_heuristic_step(old(self).view(), title@),
    {
        let tlen = title.as_str().unicode_len();
        let mut images: Vec<String> = Vec::new();
        images.push(String::from_str("/data/new_image.png"));
        self.draft.heuristics.push(HeuristicDraft { title, images });
        self.draft.selected_heuristic = self.draft.heuristics.len() - 1;
        self.draft.selected_image = 0;
        self.cursor_pos = tlen;
        proof {
            assert(heur_view(final(self).draft.heuristics@.last()).images =~=
                seq!["/data/new_image.png"@]);
            assert(final(self).view().draft.heuristics =~= add_heuristic_step(
                old(self).view(),
                title@,
            ).draft.heuristics);
            assert(final(self).view() =~~= add_heuristic_step(old(self).view(), title@));
        }
    }

    /// Toggles the blinking cursor.
    pub fn toggle_cursor(&mut self)
        ensures
            final(self).view() == (AppView {
                cursor_visible: !old(self).view().cursor_visible,
                ..old(self).view()
            }),
    {
        self.cursor_visible = !self.cursor_visible;
        proof {
            assert(final(self).view() =~~= (AppView {
                cursor_visible: !old(self).view().cursor_visible,
                ..old(self).view()
            }));
        }
    }

    /// Queues an event for the next tick.
    pub fn enqueue_event(&mut self, event: AppEvent)
        ensures
            final(self).view() == (AppView {
                queue: old(self).view().queue.push(event),
                ..old(self).view()
            }),
    {
        self.event_queue.push_back(event);
        proof {
            assert(final(self).view() =~~= (AppView {
                queue: old(self).view().queue.push(event),
                ..old(self).view()
            }));
        }
    }

    /// Takes the oldest queued event, if any.
    pub fn pop_event(&mut self) -> (r: Option<AppEvent>)
        ensures
            ({
                let q = old(self).view().queue;
                if q.len() == 0 {
                    r is None && final(self).view() == old(self).view()
                } else {
                    &&& r == Some(q[0])
                    &&& final(self).view() == (AppView {
                        queue: q.subrange(1, q.len() as int),
                        ..old(self).view()
                    })
                }
            }),
    {
        let r = self.event_queue.pop_front();
        proof {
            if old(self).event_queue@.len() == 0 {
                assert(final(self).view() =~~= old(self).view());
            } else {
                assert(final(self).view() =~~= (AppView {
                    queue: old(self).view().queue.subrange(
                        1,
                        old(self).view().queue.len() as int,
                    ),
                    ..old(self).view()
                }));
            }
        }
        r
    }
}

/// Mapping to views distributes over replacing one heuristic row.
proof fn lemma_heurs_view_update(v: Seq<HeuristicDraft>, i: int, row: HeuristicDraft)
    requires
        0 <= i < v.len(),
    ensures
        heurs_view(v.update(i, row)) == heurs_view(v).update(i, heur_view(row)),
{
    assert(heurs_view(v.update(i, row)) =~= heurs_view(v).update(i, heur_view(row)));
}

impl AppState {
    /// Character length of the selected heuristic's title (0 when none).
    fn sel_title_len(&self) -> (r: usize)
        ensures
            r as nat == sel_title(draft_view(self.draft)).len(),
    {
        if self.draft.selected_heuristic < self.draft.heuristics.len() {
            let r = self.draft.heuristics[self.draft.selected_heuristic].title.as_str()
                .unicode_len();
            proof {
                assert(draft_view(self.draft).heuristics[self.draft.selected_heuristic as int]
                    == heur_view(self.draft.heuristics@[self.draft.selected_heuristic as int]));
            }
            r
        } else {
            0
        }
    }

    /// Character length of the selected image path, when one is selected.
    fn sel_image_len(&self) -> (r: Option<usize>)
        ensures
            match r {
                Some(l) => has_image(draft_view(self.draft)) && l as nat == sel_image(
                    draft_view(self.draft),
                ).len(),
                None => !has_image(draft_view(self.draft)),
            },
    {
        let d = &self.draft;
        if d.selected_heuristic < d.heuristics.len() {
            proof {
                assert(draft_view(self.draft).heuristics[d.selected_heuristic as int]
                    == heur_view(d.heuristics@[d.selected_heuristic as int]));
            }
            let row = &d.heuristics[d.selected_heuristic];
            if d.selected_image < row.images.len() {
                proof {
                    assert(strs_view(row.images@)[d.selected_image as int]
                        == row.images@[d.selected_image as int]@);
                }
                Some(row.images[d.selected_image].as_str().unicode_len())
            } else {
                None
            }
        } else {
            None
        }
    }

    /// Moves the editing cursor one step left.
    fn move_cursor_left(&mut self)
        ensures
            final(self).view() == cursor_left_step(old(self).view()),
    {
        let ghost a = self.view();
        if self.fragment == FragmentId::TaskDescription && self.draft.field
            == DraftField::Heuristics {
            if self.draft.heuristics_focus == HeuristicsFocus::Images {
                if self.cursor_pos == 0 {
                    self.draft.heuristics_focus = HeuristicsFocus::Titles;
                    self.cursor_pos = self.sel_title_len();
                } else {
                    match self.sel_image_len() {
                        Some(il) => {
                            let c = self.cursor_pos - 1;
                            self.cursor_pos = if c <= il {
                                c
                            } else {
                                il
                            };
                        },
                        None => {},
                    }
                }
            } else {
                if self.draft.selected_heuristic < self.draft.heuristics.len() {
                    let tl = self.sel_title_len();
                    let c = if self.cursor_pos > 0 {
                        self.cursor_pos - 1
                    } else {
                        0
                    };
                    self.cursor_pos = if c <= tl {
                        c
                    } else {
                        tl
                    };
                }
            }
        } else if self.fragment == FragmentId::TaskDescription {
            let il = self.input.as_str().unicode_len();
            let c = if self.cursor_pos > 0 {
                self.cursor_pos - 1
            } else {
                0
            };
            self.cursor_pos = if c <= il {
                c
            } else {
                il
            };
        }
        proof {
            assert(final(self).view() =~~= cursor_left_step(a));
        }
    }

    /// Moves the editing cursor one step right.
    fn move_cursor_right(&mut self)
        ensures
            final(self).view() == cursor_right_step(old(self).view()),
    {
        let ghost a = self.view();
        if self.fragment == FragmentId::TaskDescription && self.draft.field
            == DraftField::Heuristics {
            if self.draft.heuristics_focus == HeuristicsFocus::Titles {
                if self.draft.selected_heuristic < self.draft.heuristics.len() {
                    let tl = self.sel_title_len();
                    if self.cursor_pos >= tl {
                        self.draft.heuristics_focus = HeuristicsFocus::Images;
                        self.cursor_pos = match self.sel_image_len() {
                            Some(il) => il,
                            None => 0,
                        };
                    } else {
                        let c = self.cursor_pos + 1;
                        self.cursor_pos = if c <= tl {
                            c
                        } else {
                            tl
                        };
                    }
                }
            } else {
                match self.sel_image_len() {
                    Some(il) => {
                        if self.cursor_pos < il {
                            self.cursor_pos = self.cursor_pos + 1;
                        } else {
                            self.cursor_pos = il;
                        }
                    },
                    None => {},
                }
            }
        } else if self.fragment == FragmentId::TaskDescription {
            let il = self.input.as_str().unicode_len();
            if self.cursor_pos < il {
                self.cursor_pos = self.cursor_pos + 1;
            } else {
                self.cursor_pos = il;
            }
        }
        proof {
            assert(final(self).view() =~~= cursor_right_step(a));
        }
    }

    /// Moves the list selection up.
    fn move_selection_up(&mut self)
        ensures
            final(self).view() == selection_up_step(old(self).view()),
    {
        let ghost a = self.view();
        if self.fragment == FragmentId::TaskDescription && self.draft.field
            == DraftField::Heuristics && self.draft.heuristics_focus == HeuristicsFocus::Titles
            && self.draft.selected_heuristic > 0 {
            self.draft.selected_heuristic = self.draft.selected_heuristic - 1;
            self.draft.selected_image = 0;
            self.cursor_pos = self.sel_title_len();
        } else if self.fragment == FragmentId::TaskDescription && self.draft.field
            == DraftField::Heuristics && self.draft.heuristics_focus == HeuristicsFocus::Images
            && self.draft.selected_image > 0 {
            self.draft.selected_image = self.draft.selected_image - 1;
            self.cursor_pos = match self.sel_image_len() {
                Some(il) => il,
                None => 0,
            };
        } else if self.fragment == FragmentId::TaskHypotheses && self.draft.selected_hypothesis
            > 0 {
            self.draft.selected_hypothesis = self.draft.selected_hypothesis - 1;
        }
        proof {
            assert(final(self).view() =~~= selection_up_step(a));
        }
    }

    /// Moves the list selection down.
    fn move_selection_down(&mut self)
        ensures
            final(self).view() == selection_down_step(old(self).view()),
    {
        let ghost a = self.view();
        if self.fragment == FragmentId::TaskDescription && self.draft.field
            == DraftField::Heuristics && self.draft.heuristics_focus
            == HeuristicsFocus::Titles {
            let max = if self.draft.heuristics.len() > 0 {
                self.draft.heuristics.len() - 1
            } else {
                0
            };
            let next = if self.draft.selected_heuristic < max {
                self.draft.selected_heuristic + 1
            } else {
                max
            };
            self.draft.selected_heuristic = next;
            self.draft.selected_image = 0;
            self.cursor_pos = self.sel_title_len();
        } else if self.fragment == FragmentId::TaskDescription && self.draft.field
            == DraftField::Heuristics && self.draft.heuristics_focus
            == HeuristicsFocus::Images {
            let count = if self.draft.selected_heuristic < self.draft.heuristics.len() {
                proof {
                    assert(draft_view(self.draft).heuristics[
                        self.draft.selected_heuristic as int] == heur_view(
                        self.draft.heuristics@[self.draft.selected_heuristic as int],
                    ));
                }
                self.draft.heuristics[self.draft.selected_heuristic].images.len()
            } else {
                0
            };
            let max = if count > 0 {
                count - 1
            } else {
                0
            };
            let next = if self.draft.selected_image < max {
                self.draft.selected_image + 1
            } else {
                max
            };
            self.draft.selected_image = next;
            self.cursor_pos = match self.sel_image_len() {
                Some(il) => il,
                None => 0,
            };
        } else if self.fragment == FragmentId::TaskHypotheses {
            let max = if self.draft.hypotheses.len() > 0 {
                self.draft.hypotheses.len() - 1
            } else {
                0
            };
            let next = if self.draft.selected_hypothesis < max {
                self.draft.selected_hypothesis + 1
            } else {
                max
            };
            self.draft.selected_hypothesis = next;
        }
        proof {
            assert(final(self).view() =~~= selection_down_step(a));
        }
    }

    /// Appends an empty image path to the selected heuristic row.
    fn add_image(&mut self)
        ensures
            final(self).view() == add_image_step(old(self).view()),
    {
        let ghost a = self.view();
        let i = self.draft.selected_heuristic;
        if i < self.draft.heuristics.len() {
            let title = self.draft.heuristics[i].title.clone();
            let mut images = clone_strings(&self.draft.heuristics[i].images);
            let n = images.len();
            images.push(String::new());
            let ghost new_row = HeuristicDraft { title: title, images: images };
            self.draft.heuristics.set(i, HeuristicDraft { title, images });
            self.draft.selected_image = n;
            self.cursor_pos = 0;
            proof {
                lemma_heurs_view_update(old(self).draft.heuristics@, i as int, new_row);
                assert(heur_view(new_row) =~~= (HeurDraftView {
                    images: a.draft.heuristics[i as int].images.push(Seq::empty()),
                    ..a.draft.heuristics[i as int]
                }));
                assert(final(self).view() =~~= add_image_step(a));
            }
        } else {
            proof {
                assert(final(self).view() =~~= add_image_step(a));
            }
        }
    }

    /// Deletes the character before the cursor in whatever is being
    /// edited.
    fn handle_backspace(&mut self)
        ensures
            final(self).view() == backspace_step(old(self).view()),
    {
        let ghost a = self.view();
        if self.fragment == FragmentId::TaskDescription && self.draft.field
            != DraftField::Heuristics {
            let il = self.input.as_str().unicode_len();
            if self.cursor_pos > 0 && self.cursor_pos <= il {
                self.input = remove_char_at(self.input.as_str(), self.cursor_pos - 1);
                self.cursor_pos = self.cursor_pos - 1;
            }
        } else if self.fragment == FragmentId::TaskDescription && self.draft.heuristics_focus
            == HeuristicsFocus::Titles {
            let i = self.draft.selected_heuristic;
            if i < self.draft.heuristics.len() {
                proof {
                    assert(a.draft.heuristics[i as int] == heur_view(
                        self.draft.heuristics@[i as int],
                    ));
                }
                let tl = self.draft.heuristics[i].title.as_str().unicode_len();
                if self.cursor_pos > 0 && self.cursor_pos <= tl {
                    let new_title = remove_char_at(
                        self.draft.heuristics[i].title.as_str(),
                        self.cursor_pos - 1,
                    );
                    let images = clone_strings(&self.draft.heuristics[i].images);
                    let ghost new_row = HeuristicDraft { title: new_title, images: images };
                    self.draft.heuristics.set(i, HeuristicDraft { title: new_title, images });
                    self.cursor_pos = self.cursor_pos - 1;
                    proof {
                        lemma_heurs_view_update(old(self).draft.heuristics@, i as int, new_row);
                    }
                }
            }
        } else if self.fragment == FragmentId::TaskDescription && self.draft.heuristics_focus
            == HeuristicsFocus::Images {
            let i = self.draft.selected_heuristic;
            if i < self.draft.heuristics.len() {
                proof {
                    assert(a.draft.heuristics[i as int] == heur_view(
                        self.draft.heuristics@[i as int],
                    ));
                }
                let j = self.draft.selected_image;
                if j < self.draft.heuristics[i].images.len() {
                    proof {
                        assert(strs_view(self.draft.heuristics@[i as int].images@)[j as int]
                            == self.draft.heuristics@[i as int].images@[j as int]@);
                    }
                    let il = self.draft.heuristics[i].images[j].as_str().unicode_len();
                    if self.cursor_pos > 0 && self.cursor_pos <= il {
                        let new_img = remove_char_at(
                            self.draft.heuristics[i].images[j].as_str(),
                            self.cursor_pos - 1,
                        );
                        let title = self.draft.heuristics[i].title.clone();
                        let mut images = clone_strings(&self.draft.heuristics[i].images);
                        images.set(j, new_img);
                        let ghost new_row = HeuristicDraft { title: title, images: images };
                        self.draft.heuristics.set(i, HeuristicDraft { title, images });
                        self.cursor_pos = self.cursor_pos - 1;
                        proof {
                            lemma_heurs_view_update(
                                old(self).draft.heuristics@,
                                i as int,
                                new_row,
                            );
                            assert(strs_view(new_row.images@) =~= a.draft.heuristics[
                                i as int].images.update(
                                j as int,
                                sel_image(a.draft).subrange(0, a.cursor_pos - 1) + sel_image(
                                    a.draft,
                                ).subrange(a.cursor_pos as int, sel_image(a.draft).len() as int),
                            ));
                        }
                    }
                }
            }
        }
        proof {
            assert(final(self).view() =~~= backspace_step(a));
        }
    }

    /// Inserts a character at the cursor in whatever is being edited.
    fn handle_insert_char(&mut self, c: char)
        requires
            old(self).cursor_pos < usize::MAX,
        ensures
            final(self).view() == insert_char_step(old(self).view(), c),
    {
        let ghost a = self.view();
        if self.fragment == FragmentId::TaskDescription && self.draft.field
            != DraftField::Heuristics {
            let il = self.input.as_str().unicode_len();
            if self.cursor_pos <= il {
                self.input = insert_char_at(self.input.as_str(), self.cursor_pos, c);
                self.cursor_pos = self.cursor_pos + 1;
            }
        } else if self.fragment == FragmentId::TaskDescription && self.draft.heuristics_focus
            == HeuristicsFocus::Titles {
            let i = self.draft.selected_heuristic;
            if i < self.draft.heuristics.len() {
                proof {
                    assert(a.draft.heuristics[i as int] == heur_view(
                        self.draft.heuristics@[i as int],
                    ));
                }
                let tl = self.draft.heuristics[i].title.as_str().unicode_len();
                if self.cursor_pos <= tl {
                    let new_title = insert_char_at(
                        self.draft.heuristics[i].title.as_str(),
                        self.cursor_pos,
                        c,
                    );
                    let images = clone_strings(&self.draft.heuristics[i].images);
                    let ghost new_row = HeuristicDraft { title: new_title, images: images };
                    self.draft.heuristics.set(i, HeuristicDraft { title: new_title, images });
                    self.cursor_pos = self.cursor_pos + 1;
                    proof {
                        lemma_heurs_view_update(old(self).draft.heuristics@, i as int, new_row);
                    }
                }
            }
        } else if self.fragment == FragmentId::TaskDescription && self.draft.heuristics_focus
            == HeuristicsFocus::Images {
            let i = self.draft.selected_heuristic;
            if i < self.draft.heuristics.len() {
                proof {
                    assert(a.draft.heuristics[i as int] == heur_view(
                        self.draft.heuristics@[i as int],
                    ));
                }
                if self.draft.heuristics[i].images.len() == 0 {
                    let title = self.draft.heuristics[i].title.clone();
                    let mut images = clone_strings(&self.draft.heuristics[i].images);
                    images.push(String::new());
                    let ghost new_row = HeuristicDraft { title: title, images: images };
                    self.draft.heuristics.set(i, HeuristicDraft { title, images });
                    self.draft.selected_image = 0;
                    self.cursor_pos = 0;
                    proof {
                        lemma_heurs_view_update(old(self).draft.heuristics@, i as int, new_row);
                    }
                }
                let ghost b = self.view();
                proof {
                    assert(b.draft.heuristics[i as int] == heur_view(
                        self.draft.heuristics@[i as int],
                    ));
                }
                let j = self.draft.selected_image;
                if j < self.draft.heuristics[i].images.len() {
                    proof {
                        assert(strs_view(self.draft.heuristics@[i as int].images@)[j as int]
                            == self.draft.heuristics@[i as int].images@[j as int]@);
                    }
                    let il = self.draft.heuristics[i].images[j].as_str().unicode_len();
                    if self.cursor_pos <= il {
                        let ghost hs_mid = self.draft.heuristics@;
                        let new_img = insert_char_at(
                            self.draft.heuristics[i].images[j].as_str(),
                            self.cursor_pos,
                            c,
                        );
                        let title = self.draft.heuristics[i].title.clone();
                        let mut images = clone_strings(&self.draft.heuristics[i].images);
                        images.set(j, new_img);
                        let ghost new_row2 = HeuristicDraft { title: title, images: images };
                        self.draft.heuristics.set(i, HeuristicDraft { title, images });
                        self.cursor_pos = self.cursor_pos + 1;
                        proof {
                            lemma_heurs_view_update(hs_mid, i as int, new_row2);
                            assert(strs_view(new_row2.images@) =~= b.draft.heuristics[
                                i as int].images.update(
                                j as int,
                                sel_image(b.draft).subrange(0, b.cursor_pos as int) + seq![c]
                                    + sel_image(b.draft).subrange(
                                    b.cursor_pos as int,
                                    sel_image(b.draft).len() as int,
                                ),
                            ));
                        }
                    }
                }
            }
        }
        proof {
            assert(final(self).view() =~~= insert_char_step(a, c));
        }
    }

    /// Applies one event: the single transition of the observer state.
    /// Returns whether the observer should quit and the command, if any,
    /// to forward to the engine.
    pub fn apply_event(&mut self, event: AppEvent) -> (r: EventResult)
        requires
            old(self).draft.heuristics@.len() < usize::MAX,
            old(self).cursor_pos < usize::MAX,
        ensures
            final(self).view() == apply_event_view(old(self).view(), event),
            r.quit == (event is Quit),
            opt_cmd_view(r.cmd) == event_cmd(old(self).view(), event),
    {
        let ghost a = self.view();
        let mut result = EventResult { quit: false, cmd: None };
        match event {
            AppEvent::Quit => {
                result.quit = true;
            },
            AppEvent::ToggleCursor => {
                self.toggle_cursor();
            },
            AppEvent::SwitchScreen(screen) => {
                self.screen = screen;
                proof {
                    assert(self.view() =~~= (AppView { screen: screen, ..a }));
                }
            },
            AppEvent::SwitchFragment(fragment) => {
                self.set_fragment(fragment);
            },
            AppEvent::OpenTaskInput => {
                self.open_task_input();
            },
            AppEvent::CloseTaskInput => {
                self.close_task_input();
            },
            AppEvent::SelectTaskNext => {
                if self.fragment == FragmentId::MainTasks {
                    self.select_next();
                }
            },
            AppEvent::SelectTaskPrev => {
                if self.fragment == FragmentId::MainTasks {
                    self.select_prev();
                }
            },
            AppEvent::CancelSelectedTask => {
                match self.selected_task() {
                    Some(task) => {
                        result.cmd = Some(UiToEngine::CancelTask { id: task.id });
                    },
                    None => {},
                }
            },
            AppEvent::DraftSwitchField => {
                if self.fragment == FragmentId::TaskDescription {
                    self.commit_draft_field();
                    self.draft.field = match self.draft.field {
                        DraftField::Name => DraftField::DatasetFolder,
                        DraftField::DatasetFolder => DraftField::Heuristics,
                        DraftField::Heuristics => DraftField::Name,
                    };
                    self.load_draft_field();
                }
            },
            AppEvent::DraftFocusDescription => {
                self.set_fragment(FragmentId::TaskDescription);
            },
            AppEvent::DraftFocusHypotheses => {
                self.set_fragment(FragmentId::TaskHypotheses);
            },
            AppEvent::DraftCursorLeft => {
                self.move_cursor_left();
            },
            AppEvent::DraftCursorRight => {
                self.move_cursor_right();
            },
            AppEvent::DraftMoveUp => {
                self.move_selection_up();
            },
            AppEvent::DraftMoveDown => {
                self.move_selection_down();
            },
            AppEvent::DraftAddHeuristic => {
                if self.fragment == FragmentId::TaskDescription && self.draft.field
                    == DraftField::Heuristics {
                    if self.draft.heuristics_focus == HeuristicsFocus::Images {
                        self.add_image();
                    } else {
                        let mut title = String::from_str("Heuristic ");
                        let part = u64_to_string((self.draft.heuristics.len() + 1) as u64);
                        title.append(part.as_str());
                        proof {
                            assert(title@ =~= default_heur_title(a));
                        }
                        self.add_heuristic(title);
                    }
                }
            },
            AppEvent::DraftAddImage => {
                self.add_image();
            },
            AppEvent::DraftBackspace => {
                self.handle_backspace();
            },
            AppEvent::DraftInsertChar(c) => {
                self.handle_insert_char(c);
            },
            AppEvent::DraftSubmit => {
                if self.fragment == FragmentId::TaskDescription && self.draft.field
                    == DraftField::Heuristics && self.draft.heuristics_focus
                    == HeuristicsFocus::Images {
                    self.add_image();
                } else {
                    self.commit_draft_field();
                    let name = trim_spaces(self.draft.name.as_str());
                    if name.as_str().unicode_len() > 0 {
                        result.cmd = Some(UiToEngine::AddTask { name });
                    }
                    self.reset_draft();
                    self.close_task_input();
                }
            },
        }
        result
    }
}

} // verus!
