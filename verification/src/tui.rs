//! The snapshot browser's state machine: a tagged mode, a pure transition
//! on key presses, and the effects the embedding application must carry
//! out.  The application owns the terminal, the event pump and the actual
//! copying; the engine decides every mode change and selection move.

use vstd::prelude::*;
use vstd::string::StrSliceExecFns;
use vstd::string::StringExecFns;

use crate::config::Config;
use crate::error::Error;
use crate::text::join_path;
use crate::text::join_spec;
use crate::text::pop_char;
use crate::text::push_char;

verus! {

/// A key press, as the state machine sees it.
#[derive(Debug, Clone, Copy, PartialEq, Eq)]
pub enum Key {
    Char(char),
    Enter,
    Esc,
    Backspace,
    Up,
    Down,
    Left,
    Right,
    Other,
}

/// What the browser's main mode shows.
#[derive(Debug)]
pub enum Content {
    Help,
}

/// The browser's mode: the list with its help text, the destination
/// question, the quit question, or an error notice.
#[derive(Debug)]
pub enum CurrentMode {
    Main(Content),
    Confirming,
    Exiting,
    Error(Error),
}

/// One row of the snapshot list.
#[derive(Debug, PartialEq)]
pub struct ObjList {
    pub id: String,
    pub selected: bool,
}

impl ObjList {
    /// One unselected row per id, in order.
    pub fn from_array(arr: Vec<String>) -> (r: Vec<ObjList>)
        ensures
            r@.len() == arr@.len(),
            forall|k: int|
                0 <= k < arr@.len() ==> (#[trigger] r@[k]).id@ == arr@[k]@ && !r@[k].selected,
    {
        let mut r: Vec<ObjList> = Vec::new();
        let mut i: usize = 0;
        while i < arr.len()
            invariant
                0 <= i <= arr@.len(),
                r@.len() == i,
                forall|k: int| 0 <= k < i ==> (#[trigger] r@[k]).id@ == arr@[k]@ && !r@[k].selected,
            decreases arr@.len() - i,
        {
            r.push(ObjList { id: arr[i].clone(), selected: false });
            i = i + 1;
        }
        r
    }
}

/// What the application must do after a step of the state machine.
#[derive(Debug)]
pub enum Effect {
    Nothing,
    Quit,
    StartClone { source: String, destination: String },
}

/// The state of the snapshot browser.
#[derive(Debug)]
pub struct App {
    pub current_config: Config,
    pub left_size: u16,
    pub list: Vec<ObjList>,
    pub selected: Option<usize>,
    pub last_selected: Option<usize>,
    pub mode: CurrentMode,
    pub copy_dir_input: String,
}

impl App {
    /// A fresh browser over a listing: the first row selected, the menu at
    /// its default width, the destination input primed with the caller's
    /// working directory.
    pub fn new(list: Vec<ObjList>, current_config: Config, initial_dir: String) -> (r: App)
        ensures
            r.current_config == current_config,
            r.left_size == 50,
            r.list == list,
            r.selected == Some(0usize),
            r.last_selected is None,
            r.mode matches CurrentMode::Main(Content::Help),
            r.copy_dir_input == initial_dir,
    {
        App {
            current_config,
            left_size: 50,
            list,
            selected: Some(0),
            last_selected: None,
            mode: CurrentMode::Main(Content::Help),
            copy_dir_input: initial_dir,
        }
    }

    /// The row selected after a step down: the next row, wrapping to the
    /// top from the last; with nothing selected, the last remembered row.
    pub open spec fn next_selection(&self) -> usize {
        match self.selected {
            Some(i) => if i + 1 < self.list@.len() {
                (i + 1) as usize
            } else {
                0usize
            },
            None => match self.last_selected {
                Some(l) => l,
                None => 0usize,
            },
        }
    }

    /// The row selected after a step up: the previous row, wrapping to the
    /// bottom from the first; with nothing selected, the last remembered
    /// row.
    pub open spec fn previous_selection(&self) -> usize {
        match self.selected {
            Some(i) => if i == 0 {
                if self.list@.len() > 0 {
                    (self.list@.len() - 1) as usize
                } else {
                    0usize
                }
            } else {
                (i - 1) as usize
            },
            None => match self.last_selected {
                Some(l) => l,
                None => 0usize,
            },
        }
    }

    /// Moves the selection one row down.
    pub fn next(&mut self)
        ensures
            final(self).selected == Some(old(self).next_selection()),
            final(self).current_config == old(self).current_config,
            final(self).left_size == old(self).left_size,
            final(self).list == old(self).list,
            final(self).last_selected == old(self).last_selected,
            final(self).mode == old(self).mode,
            final(self).copy_dir_input == old(self).copy_dir_input,
    {
        let i: usize = match self.selected {
            Some(i) => {
                if self.list.len() > 0 && i < self.list.len() - 1 {
                    i + 1
                } else {
                    0
                }
            },
            None => match self.last_selected {
                Some(l) => l,
                None => 0,
            },
        };
        self.selected = Some(i);
    }

    /// Moves the selection one row up.
    pub fn previous(&mut self)
        ensures
            final(self).selected == Some(old(self).previous_selection()),
            final(self).current_config == old(self).current_config,
            final(self).left_size == old(self).left_size,
            final(self).list == old(self).list,
            final(self).last_selected == old(self).last_selected,
            final(self).mode == old(self).mode,
            final(self).copy_dir_input == old(self).copy_dir_input,
    {
        let i: usize = match self.selected {
            Some(i) => {
                if i == 0 {
                    if self.list.len() > 0 {
                        self.list.len() - 1
                    } else {
                        0
                    }
                } else {
                    i - 1
                }
            },
            None => match self.last_selected {
                Some(l) => l,
                None => 0,
            },
        };
        self.selected = Some(i);
    }

    /// The selected row, when the selection points at one.
    pub fn get_selected(&self) -> (r: Option<&ObjList>)
        ensures
            match self.selected {
                Some(i) => if i < self.list@.len() {
                    r matches Some(x) && *x == self.list@[i as int]
                } else {
                    r is None
                },
                None => r is None,
            },
    {
        match self.selected {
            Some(i) => {
                if i < self.list.len() {
                    Some(&self.list[i])
                } else {
                    None
                }
            },
            None => None,
        }
    }
}

/// The fields a key step never touches.
pub open spec fn same_core(pre: App, post: App) -> bool {
    &&& post.current_config == pre.current_config
    &&& post.list == pre.list
    &&& post.last_selected == pre.last_selected
}

/// One step from the main mode.  A quit key asks to exit; enter opens the
/// destination question; the arrows move the selection or resize the menu,
/// the width saturating at its bounds.
pub open spec fn main_step(pre: App, key: Key, post: App, eff: Effect) -> bool {
    &&& eff matches Effect::Nothing
    &&& post.copy_dir_input == pre.copy_dir_input
    &&& match key {
        Key::Char(c) => post.left_size == pre.left_size && post.selected == pre.selected && (if c
            == 'q' || c == 'e' {
            post.mode matches CurrentMode::Exiting
        } else {
            post.mode == pre.mode
        }),
        Key::Enter => post.left_size == pre.left_size && post.selected == pre.selected
            && post.mode matches CurrentMode::Confirming,
        Key::Esc => post.left_size == pre.left_size && post.selected == pre.selected
            && post.mode matches CurrentMode::Main(Content::Help),
        Key::Down => post.left_size == pre.left_size && post.selected == Some(pre.next_selection())
            && post.mode == pre.mode,
        Key::Up => post.left_size == pre.left_size && post.selected == Some(
            pre.previous_selection(),
        ) && post.mode == pre.mode,
        Key::Right => post.selected == pre.selected && post.mode == pre.mode && post.left_size == (
        if pre.left_size < 65535 {
            (pre.left_size + 1) as u16
        } else {
            65535u16
        }),
        Key::Left => post.selected == pre.selected && post.mode == pre.mode && post.left_size == (
        if pre.left_size > 0 {
            (pre.left_size - 1) as u16
        } else {
            0u16
        }),
        _ => post.left_size == pre.left_size && post.selected == pre.selected && post.mode
            == pre.mode,
    }
}

/// One step from the destination question.  Characters edit the input;
/// enter asks the application to clone the selected snapshot from under the
/// registry root into the entered destination; escape returns to the list.
pub open spec fn confirming_step(pre: App, key: Key, post: App, eff: Effect) -> bool {
    &&& post.left_size == pre.left_size
    &&& post.selected == pre.selected
    &&& match key {
        Key::Char(c) => post.copy_dir_input@ == pre.copy_dir_input@.push(c) && post.mode
            == pre.mode && eff matches Effect::Nothing,
        Key::Backspace => post.copy_dir_input@ == (if pre.copy_dir_input@.len() > 0 {
            pre.copy_dir_input@.drop_last()
        } else {
            pre.copy_dir_input@
        }) && post.mode == pre.mode && eff matches Effect::Nothing,
        Key::Enter => post.copy_dir_input == pre.copy_dir_input && post.mode == pre.mode && (
        match pre.selected {
            Some(i) => if i < pre.list@.len() {
                eff matches Effect::StartClone { source, destination } && source@ == join_spec(
                    pre.current_config.snapshots_path@,
                    pre.list@[i as int].id@,
                ) && destination@ == pre.copy_dir_input@
            } else {
                eff matches Effect::Nothing
            },
            None => eff matches Effect::Nothing,
        }),
        Key::Esc => post.copy_dir_input == pre.copy_dir_input && (post.mode matches CurrentMode::Main(
            Content::Help,
        )) && (eff matches Effect::Nothing),
        _ => post.copy_dir_input == pre.copy_dir_input && post.mode == pre.mode
            && eff matches Effect::Nothing,
    }
}

/// One step from the quit question: `y` confirms, `n` or escape returns to
/// the list, anything else waits.
pub open spec fn exiting_step(pre: App, key: Key, post: App, eff: Effect) -> bool {
    &&& post.left_size == pre.left_size
    &&& post.selected == pre.selected
    &&& post.copy_dir_input == pre.copy_dir_input
    &&& match key {
        Key::Char(c) => if c == 'y' || c == 'Y' {
            post.mode == pre.mode && eff matches Effect::Quit
        } else if c == 'n' || c == 'N' {
            post.mode matches CurrentMode::Main(Content::Help) && eff matches Effect::Nothing
        } else if c == 'q' {
            post.mode matches CurrentMode::Exiting && eff matches Effect::Nothing
        } else {
            post.mode == pre.mode && eff matches Effect::Nothing
        },
        Key::Esc => post.mode matches CurrentMode::Main(Content::Help)
            && eff matches Effect::Nothing,
        _ => post.mode == pre.mode && eff matches Effect::Nothing,
    }
}

/// One step from the error notice: `q` asks to exit, any other character or
/// escape returns to the list.
pub open spec fn error_step(pre: App, key: Key, post: App, eff: Effect) -> bool {
    &&& eff matches Effect::Nothing
    &&& post.left_size == pre.left_size
    &&& post.selected == pre.selected
    &&& post.copy_dir_input == pre.copy_dir_input
    &&& match key {
        Key::Char(c) => if c == 'q' {
            post.mode matches CurrentMode::Exiting
        } else {
            post.mode matches CurrentMode::Main(Content::Help)
        },
        Key::Esc => post.mode matches CurrentMode::Main(Content::Help),
        _ => post.mode == pre.mode,
    }
}

/// Handles one key press: the single transition of the browser's state
/// machine, with a default quit key in the main mode and a default escape
/// back to the list wherever text is not being edited.
pub fn handle_key(app: &mut App, key: Key) -> (eff: Effect)
    ensures
        same_core(*old(app), *final(app)),
        match old(app).mode {
            CurrentMode::Main(_) => main_step(*old(app), key, *final(app), eff),
            CurrentMode::Confirming => confirming_step(*old(app), key, *final(app), eff),
            CurrentMode::Exiting => exiting_step(*old(app), key, *final(app), eff),
            CurrentMode::Error(_) => error_step(*old(app), key, *final(app), eff),
        },
{
    let in_main: bool = match &app.mode {
        CurrentMode::Main(_) => true,
        _ => false,
    };
    let in_confirming: bool = match &app.mode {
        CurrentMode::Confirming => true,
        _ => false,
    };
    let in_exiting: bool = match &app.mode {
        CurrentMode::Exiting => true,
        _ => false,
    };
    if in_main {
        match key {
            Key::Char(c) => {
                if c == 'q' || c == 'e' {
                    app.mode = CurrentMode::Exiting;
                }
            },
            Key::Enter => {
                app.mode = CurrentMode::Confirming;
            },
            Key::Esc => {
                app.mode = CurrentMode::Main(Content::Help);
            },
            Key::Down => {
                app.next();
            },
            Key::Up => {
                app.previous();
            },
            Key::Right => {
                if app.left_size < 65535 {
                    app.left_size = app.left_size + 1;
                }
            },
            Key::Left => {
                if app.left_size > 0 {
                    app.left_size = app.left_size - 1;
                }
            },
            _ => {},
        }
        Effect::Nothing
    } else if in_confirming {
        match key {
            Key::Char(c) => {
                push_char(&mut app.copy_dir_input, c);
                Effect::Nothing
            },
            Key::Backspace => {
                pop_char(&mut app.copy_dir_input);
                Effect::Nothing
            },
            Key::Enter => {
                match app.selected {
                    Some(i) => {
                        if i < app.list.len() {
                            let source = join_path(
                                app.current_config.snapshots_path.as_str(),
                                app.list[i].id.as_str(),
                            );
                            let destination = app.copy_dir_input.clone();
                            Effect::StartClone { source, destination }
                        } else {
                            Effect::Nothing
                        }
                    },
                    None => Effect::Nothing,
                }
            },
            Key::Esc => {
                app.mode = CurrentMode::Main(Content::Help);
                Effect::Nothing
            },
            _ => Effect::Nothing,
        }
    } else if in_exiting {
        match key {
            Key::Char(c) => {
                if c == 'y' || c == 'Y' {
                    Effect::Quit
                } else if c == 'n' || c == 'N' {
                    app.mode = CurrentMode::Main(Content::Help);
                    Effect::Nothing
                } else if c == 'q' {
                    app.mode = CurrentMode::Exiting;
                    Effect::Nothing
                } else {
                    Effect::Nothing
                }
            },
            Key::Esc => {
                app.mode = CurrentMode::Main(Content::Help);
                Effect::Nothing
            },
            _ => Effect::Nothing,
        }
    } else {
        match key {
            Key::Char(c) => {
                if c == 'q' {
                    app.mode = CurrentMode::Exiting;
                } else {
                    app.mode = CurrentMode::Main(Content::Help);
                }
            },
            Key::Esc => {
                app.mode = CurrentMode::Main(Content::Help);
            },
            _ => {},
        }
        Effect::Nothing
    }
}

/// Applies the outcome of a clone the application carried out for a
/// `StartClone` effect: success moves to the quit question, failure shows
/// the error.
pub fn apply_copy_result(app: &mut App, result: Result<String, Error>)
    ensures
        same_core(*old(app), *final(app)),
        final(app).left_size == old(app).left_size,
        final(app).selected == old(app).selected,
        final(app).copy_dir_input == old(app).copy_dir_input,
        match result {
            Ok(_) => final(app).mode matches CurrentMode::Exiting,
            Err(e) => final(app).mode matches CurrentMode::Error(e2) && e2 == e,
        },
{
    match result {
        Ok(_) => {
            app.mode = CurrentMode::Exiting;
        },
        Err(e) => {
            app.mode = CurrentMode::Error(e);
        },
    }
}

} // verus!
