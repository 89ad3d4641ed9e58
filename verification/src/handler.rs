use vstd::prelude::*;
use crate::app::App;
use crate::text::{pop_char, push_char};

verus! {

/// The key of a key press, as far as the client tells keys apart.
pub enum KeyCode {
    Esc,
    Enter,
    Backspace,
    Char(char),
    F(u8),
    Down,
    Up,
    Left,
    Right,
    Other,
}

/// The modifier keys held with a key press: Control alone, Super alone, or
/// any other combination, none included.
pub enum Modifiers {
    Control,
    Super,
    Other,
}

pub struct KeyPress {
    pub code: KeyCode,
    pub modifiers: Modifiers,
}

pub enum Direction {
    Down,
    Up,
    Left,
    Right,
}

/// What a key press asks for.
pub enum Command {
    CloseErrorPopup,
    CloseSavePopup,
    Quit,
    OpenSavePopup,
    ConfirmSave,
    TypeName(char),
    EraseName,
    RunQuery,
    InsertPath,
    OpenFile,
    Explore(Direction),
    Nothing,
}

/// Work that a key press leaves to the surroundings of the state.
pub enum Task {
    Nothing,
    /// Save the result under the name typed into the dialog.
    SaveFile,
    /// Run the query text and hand the result over.
    RunQuery,
    /// Insert the path of the selected file into the query text.
    InsertPath,
    /// Replace the query text by the content of the selected file.
    OpenFile,
    /// Move the selection of the file browser.
    Explore(Direction),
}

/// The outcome of a key press beyond the new state.
pub struct Step {
    pub task: Task,
    /// Whether the key press also goes to the query editor.
    pub forward: bool,
}

/// The command of a key press, given which dialogs are open.
///
/// Escape closes the error dialog, else the save dialog, else quits. While
/// the save dialog is open, Enter confirms it, a character is typed into it
/// and Backspace erases from it; while it is closed, Control-s opens it. Of
/// what is left, F2 runs the query, Control-a inserts the selected path,
/// Control-o opens the selected file and Super with an arrow moves the file
/// browser's selection.
pub open spec fn command_of(key: KeyPress, error_popup: bool, save_popup: bool) -> Command {
    match (key.code, key.modifiers) {
        (KeyCode::Esc, _) => if error_popup {
            Command::CloseErrorPopup
        } else if save_popup {
            Command::CloseSavePopup
        } else {
            Command::Quit
        },
        (KeyCode::Enter, _) => if save_popup {
            Command::ConfirmSave
        } else {
            Command::Nothing
        },
        (KeyCode::Backspace, _) => if save_popup {
            Command::EraseName
        } else {
            Command::Nothing
        },
        (KeyCode::Char(c), m) => if save_popup {
            Command::TypeName(c)
        } else if m is Control && c == 's' {
            Command::OpenSavePopup
        } else if m is Control && c == 'a' {
            Command::InsertPath
        } else if m is Control && c == 'o' {
            Command::OpenFile
        } else {
            Command::Nothing
        },
        (KeyCode::F(n), _) => if n == 2 {
            Command::RunQuery
        } else {
            Command::Nothing
        },
        (KeyCode::Down, Modifiers::Super) => Command::Explore(Direction::Down),
        (KeyCode::Up, Modifiers::Super) => Command::Explore(Direction::Up),
        (KeyCode::Left, Modifiers::Super) => Command::Explore(Direction::Left),
        (KeyCode::Right, Modifiers::Super) => Command::Explore(Direction::Right),
        _ => Command::Nothing,
    }
}

/// Whether the save dialog is open after a command.
pub open spec fn save_popup_after(command: Command, open: bool) -> bool {
    match command {
        Command::CloseSavePopup | Command::OpenSavePopup | Command::ConfirmSave => !open,
        _ => open,
    }
}

/// The name in the save dialog after a command.
pub open spec fn name_after(command: Command, name: Seq<char>) -> Seq<char> {
    match command {
        Command::TypeName(c) => name.push(c),
        Command::EraseName => if name.len() > 0 {
            name.drop_last()
        } else {
            name
        },
        _ => name,
    }
}

/// The work that a command leaves to the surroundings.
pub open spec fn task_of(command: Command) -> Task {
    match command {
        Command::ConfirmSave => Task::SaveFile,
        Command::RunQuery => Task::RunQuery,
        Command::InsertPath => Task::InsertPath,
        Command::OpenFile => Task::OpenFile,
        Command::Explore(d) => Task::Explore(d),
        _ => Task::Nothing,
    }
}

/// Decides what a key press asks for.
pub fn command(key: KeyPress, error_popup: bool, save_popup: bool) -> (c: Command)
    ensures
        c == command_of(key, error_popup, save_popup),
{
    match key.code {
        KeyCode::Esc => {
            if error_popup {
                Command::CloseErrorPopup
            } else if save_popup {
                Command::CloseSavePopup
            } else {
                Command::Quit
            }
        },
        KeyCode::Char(c) => {
            if save_popup {
                return Command::TypeName(c);
            }
            match key.modifiers {
                Modifiers::Control => {
                    if c == 's' {
                        Command::OpenSavePopup
                    } else if c == 'a' {
                        Command::InsertPath
                    } else if c == 'o' {
                        Command::OpenFile
                    } else {
                        Command::Nothing
                    }
                },
                _ => Command::Nothing,
            }
        },
        KeyCode::Enter => {
            if save_popup {
                Command::ConfirmSave
            } else {
                Command::Nothing
            }
        },
        KeyCode::Backspace => {
            if save_popup {
                Command::EraseName
            } else {
                Command::Nothing
            }
        },
        KeyCode::F(n) => {
            if n == 2 {
                Command::RunQuery
            } else {
                Command::Nothing
            }
        },
        KeyCode::Other => Command::Nothing,
        arrow => {
            match key.modifiers {
                Modifiers::Super => match arrow {
                    KeyCode::Down => Command::Explore(Direction::Down),
                    KeyCode::Up => Command::Explore(Direction::Up),
                    KeyCode::Left => Command::Explore(Direction::Left),
                    _ => Command::Explore(Direction::Right),
                },
                _ => Command::Nothing,
            }
        },
    }
}

/// Applies a key press to the state and says what is left to do.
///
/// The dialogs, the name in the save dialog and the running flag change as
/// the key's command says; the query text, the result and its scroll
/// position stay. The key also goes to the query editor unless the save
/// dialog is open afterwards.
pub fn handle_key_events(key: KeyPress, app: &mut App) -> (step: Step)
    ensures
        step.task == task_of(
            command_of(key, old(app).show_error_popup, old(app).show_save_popup),
        ),
        step.forward == !final(app).show_save_popup,
        final(app).running == (old(app).running && !(command_of(
            key,
            old(app).show_error_popup,
            old(app).show_save_popup,
        ) is Quit)),
        final(app).show_error_popup == (old(app).show_error_popup && !(command_of(
            key,
            old(app).show_error_popup,
            old(app).show_save_popup,
        ) is CloseErrorPopup)),
        final(app).show_save_popup == save_popup_after(
            command_of(key, old(app).show_error_popup, old(app).show_save_popup),
            old(app).show_save_popup,
        ),
        final(app).save_popup.input@ == name_after(
            command_of(key, old(app).show_error_popup, old(app).show_save_popup),
            old(app).save_popup.input@,
        ),
        final(app).input == old(app).input,
        final(app).pages == old(app).pages,
        final(app).table_state == old(app).table_state,
        final(app).error == old(app).error,
{
    let c = command(key, app.show_error_popup, app.show_save_popup);
    let mut task = Task::Nothing;
    match c {
        Command::CloseErrorPopup => {
            app.toggle_error_popup();
        },
        Command::CloseSavePopup => {
            app.toggle_save_popup();
        },
        Command::Quit => {
            app.quit();
        },
        Command::OpenSavePopup => {
            app.toggle_save_popup();
        },
        Command::ConfirmSave => {
            app.toggle_save_popup();
            task = Task::SaveFile;
        },
        Command::TypeName(ch) => {
            push_char(&mut app.save_popup.input, ch);
        },
        Command::EraseName => {
            let _ = pop_char(&mut app.save_popup.input);
        },
        Command::RunQuery => {
            task = Task::RunQuery;
        },
        Command::InsertPath => {
            task = Task::InsertPath;
        },
        Command::OpenFile => {
            task = Task::OpenFile;
        },
        Command::Explore(d) => {
            task = Task::Explore(d);
        },
        Command::Nothing => {},
    }
    Step { task, forward: !app.show_save_popup }
}

} // verus!
