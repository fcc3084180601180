//! Dialogs: a message with buttons, a line of input or a list to pick from.

use crate::input::{Key, KeyPress};
use crate::text::{pop_char, push_char, texts};
use crate::ui::menus::{next_index, previous_index};
use vstd::prelude::*;
use vstd::string::*;

verus! {

#[derive(Debug, Clone, Copy, PartialEq, Eq, Structural)]
pub enum DialogType {
    Confirmation,
    Information,
    Warning,
    Error,
    Input,
    Selection,
}

/// How a dialog was answered.
#[derive(Debug, Clone)]
pub enum DialogResult {
    Okay,
    Cancel,
    Yes,
    No,
    /// The text typed into an input dialog, or the option picked from a
    /// selection dialog.
    Custom(String),
}

#[derive(Debug, Clone)]
pub struct Dialog {
    pub dialog_type: DialogType,
    pub title: String,
    pub message: String,
    pub buttons: Vec<String>,
    pub selected_button: usize,
    pub is_visible: bool,
    pub input_text: String,
    pub options: Vec<String>,
    pub selected_option: usize,
}

/// The labels of the buttons that a kind of dialog starts with.
pub open spec fn default_buttons(dialog_type: DialogType) -> Seq<Seq<char>> {
    match dialog_type {
        DialogType::Confirmation => seq!["Yes"@, "No"@],
        DialogType::Information | DialogType::Error => seq!["OK"@],
        DialogType::Warning | DialogType::Input | DialogType::Selection => seq!["OK"@, "Cancel"@],
    }
}

impl Dialog {
    /// A dialog as it is made: hidden, with the buttons of its kind, the
    /// first button and the first option selected and nothing typed.
    pub open spec fn fresh(
        &self,
        dialog_type: DialogType,
        title: String,
        message: String,
        options: Seq<String>,
    ) -> bool {
        &&& self.dialog_type == dialog_type
        &&& self.title == title
        &&& self.message == message
        &&& texts(self.buttons@) == default_buttons(dialog_type)
        &&& self.selected_button == 0
        &&& !self.is_visible
        &&& self.input_text@.len() == 0
        &&& self.options@ == options
        &&& self.selected_option == 0
    }

    /// The answer that the dialog gives when it is accepted.
    pub open spec fn answer(&self, result: DialogResult) -> bool {
        match self.dialog_type {
            DialogType::Confirmation => if self.selected_button == 0 {
                result is Yes
            } else if self.selected_button == 1 {
                result is No
            } else {
                result is Cancel
            },
            DialogType::Information | DialogType::Error => result is Okay,
            DialogType::Warning => if self.selected_button == 0 {
                result is Okay
            } else {
                result is Cancel
            },
            DialogType::Input => if self.selected_button == 0 {
                result matches DialogResult::Custom(text) && text@ == self.input_text@
            } else {
                result is Cancel
            },
            DialogType::Selection => if self.selected_button == 0 && self.selected_option
                < self.options@.len() {
                result matches DialogResult::Custom(text) && text@
                    == self.options@[self.selected_option as int]@
            } else {
                result is Cancel
            },
        }
    }

    /// The rows that the dialog takes on screen: six for the frame, plus five
    /// for an input line, the options plus three (ten at most) for a
    /// selection, or two plus one for every fifty characters of the message
    /// otherwise; twenty at most.
    pub open spec fn height(&self) -> int {
        let content: int = match self.dialog_type {
            DialogType::Input => 5,
            DialogType::Selection => if self.options@.len() + 3 > 10 {
                10
            } else {
                self.options@.len() as int + 3
            },
            _ => self.message@.len() as int / 50 + 2,
        };
        if 6 + content > 20 {
            20
        } else {
            6 + content
        }
    }

    fn one_button(label: &str) -> (buttons: Vec<String>)
        ensures
            texts(buttons@) == seq![label@],
    {
        let mut buttons: Vec<String> = Vec::new();
        buttons.push(String::from_str(label));
        assert(texts(buttons@) =~= seq![label@]);
        buttons
    }

    fn two_buttons(first: &str, second: &str) -> (buttons: Vec<String>)
        ensures
            texts(buttons@) == seq![first@, second@],
    {
        let mut buttons: Vec<String> = Vec::new();
        buttons.push(String::from_str(first));
        buttons.push(String::from_str(second));
        assert(texts(buttons@) =~= seq![first@, second@]);
        buttons
    }

    /// A question to be answered with yes or no.
    pub fn confirmation(title: String, message: String) -> (dialog: Self)
        ensures
            dialog.fresh(DialogType::Confirmation, title, message, Seq::empty()),
    {
        Self {
            dialog_type: DialogType::Confirmation,
            title,
            message,
            buttons: Self::two_buttons("Yes", "No"),
            selected_button: 0,
            is_visible: false,
            input_text: String::new(),
            options: Vec::new(),
            selected_option: 0,
        }
    }

    pub fn information(title: String, message: String) -> (dialog: Self)
        ensures
            dialog.fresh(DialogType::Information, title, message, Seq::empty()),
    {
        Self {
            dialog_type: DialogType::Information,
            title,
            message,
            buttons: Self::one_button("OK"),
            selected_button: 0,
            is_visible: false,
            input_text: String::new(),
            options: Vec::new(),
            selected_option: 0,
        }
    }

    pub fn warning(title: String, message: String) -> (dialog: Self)
        ensures
            dialog.fresh(DialogType::Warning, title, message, Seq::empty()),
    {
        Self {
            dialog_type: DialogType::Warning,
            title,
            message,
            buttons: Self::two_buttons("OK", "Cancel"),
            selected_button: 0,
            is_visible: false,
            input_text: String::new(),
            options: Vec::new(),
            selected_option: 0,
        }
    }

    pub fn error(title: String, message: String) -> (dialog: Self)
        ensures
            dialog.fresh(DialogType::Error, title, message, Seq::empty()),
    {
        Self {
            dialog_type: DialogType::Error,
            title,
            message,
            buttons: Self::one_button("OK"),
            selected_button: 0,
            is_visible: false,
            input_text: String::new(),
            options: Vec::new(),
            selected_option: 0,
        }
    }

    /// A dialog that asks for a line of text.
    pub fn input(title: String, message: String) -> (dialog: Self)
        ensures
            dialog.fresh(DialogType::Input, title, message, Seq::empty()),
    {
        Self {
            dialog_type: DialogType::Input,
            title,
            message,
            buttons: Self::two_buttons("OK", "Cancel"),
            selected_button: 0,
            is_visible: false,
            input_text: String::new(),
            options: Vec::new(),
            selected_option: 0,
        }
    }

    /// A dialog that asks to pick one of a list of options.
    pub fn selection(title: String, message: String, options: Vec<String>) -> (dialog: Self)
        ensures
            dialog.fresh(DialogType::Selection, title, message, options@),
    {
        Self {
            dialog_type: DialogType::Selection,
            title,
            message,
            buttons: Self::two_buttons("OK", "Cancel"),
            selected_button: 0,
            is_visible: false,
            input_text: String::new(),
            options,
            selected_option: 0,
        }
    }

    pub fn show(&mut self)
        ensures
            *final(self) == (Dialog { is_visible: true, ..*old(self) }),
    {
        self.is_visible = true;
    }

    /// Takes the dialog off the screen.
    pub fn close(&mut self)
        ensures
            *final(self) == (Dialog { is_visible: false, ..*old(self) }),
    {
        self.is_visible = false;
    }

    /// The answer of the dialog as it stands.
    pub fn get_result(&self) -> (result: DialogResult)
        ensures
            self.answer(result),
    {
        match self.dialog_type {
            DialogType::Confirmation => match self.selected_button {
                0 => DialogResult::Yes,
                1 => DialogResult::No,
                _ => DialogResult::Cancel,
            },
            DialogType::Information | DialogType::Error => DialogResult::Okay,
            DialogType::Warning => match self.selected_button {
                0 => DialogResult::Okay,
                _ => DialogResult::Cancel,
            },
            DialogType::Input => match self.selected_button {
                0 => DialogResult::Custom(self.input_text.clone()),
                _ => DialogResult::Cancel,
            },
            DialogType::Selection => match self.selected_button {
                0 => {
                    if self.selected_option < self.options.len() {
                        DialogResult::Custom(self.options[self.selected_option].clone())
                    } else {
                        DialogResult::Cancel
                    }
                },
                _ => DialogResult::Cancel,
            },
        }
    }

    /// The rows that the dialog takes on screen.
    pub fn calculate_height(&self) -> (rows: u16)
        ensures
            rows == self.height(),
            8 <= rows <= 20,
    {
        let content: u16 = match self.dialog_type {
            DialogType::Input => 5,
            DialogType::Selection => if self.options.len() > 7 {
                10
            } else {
                (self.options.len() + 3) as u16
            },
            _ => {
                let lines = self.message.as_str().unicode_len() / 50;
                if lines > 12 {
                    14
                } else {
                    (lines + 2) as u16
                }
            },
        };
        if 6 + content > 20 {
            20
        } else {
            6 + content
        }
    }

    /// What a key press does to a dialog on screen.
    ///
    /// The arrow keys move round the options of a selection dialog; Left and
    /// Right move round the buttons of any other. Enter accepts and Escape
    /// cancels, and either hides the dialog. An input dialog takes characters
    /// and Backspace. A hidden dialog takes no keys.
    pub open spec fn key_handled(pre: Dialog, post: Dialog, press: KeyPress) -> bool {
        let choosing = pre.dialog_type == DialogType::Selection;
        let typing = pre.dialog_type == DialogType::Input;
        if !pre.is_visible {
            post == pre
        } else {
            &&& post.dialog_type == pre.dialog_type
            &&& post.title == pre.title
            &&& post.message == pre.message
            &&& post.buttons == pre.buttons
            &&& post.options == pre.options
            &&& post.is_visible == !(press.key is Enter || press.key is Esc)
            &&& post.selected_button == if press.key is Left && !choosing {
                previous_index(pre.buttons@.len() as int, pre.selected_button as int)
            } else if press.key is Right && !choosing {
                next_index(pre.buttons@.len() as int, pre.selected_button as int)
            } else {
                pre.selected_button as int
            }
            &&& post.selected_option == if (press.key is Left || press.key is Up) && choosing {
                previous_index(pre.options@.len() as int, pre.selected_option as int)
            } else if (press.key is Right || press.key is Down) && choosing {
                next_index(pre.options@.len() as int, pre.selected_option as int)
            } else {
                pre.selected_option as int
            }
            &&& post.input_text@ == match press.key {
                Key::Char(c) => if typing {
                    pre.input_text@.push(c)
                } else {
                    pre.input_text@
                },
                Key::Backspace => if typing && pre.input_text@.len() > 0 {
                    pre.input_text@.drop_last()
                } else {
                    pre.input_text@
                },
                _ => pre.input_text@,
            }
        }
    }

    fn step_back(len: usize, current: usize) -> (at: usize)
        ensures
            at == previous_index(len as int, current as int),
    {
        if current > 0 {
            current - 1
        } else if len > 0 {
            len - 1
        } else {
            0
        }
    }

    fn step_on(len: usize, current: usize) -> (at: usize)
        ensures
            at == next_index(len as int, current as int),
    {
        if len > 0 && current < len - 1 {
            current + 1
        } else {
            0
        }
    }

    /// Handles a key press. Returns the answer once the dialog is answered.
    pub fn handle_key_event(&mut self, press: KeyPress) -> (result: Option<DialogResult>)
        ensures
            Self::key_handled(*old(self), *final(self), press),
            old(self).is_visible && press.key is Enter ==> (result matches Some(answer) && old(
                self,
            ).answer(answer)),
            old(self).is_visible && press.key is Esc ==> (result matches Some(answer)
                && answer is Cancel),
            !(old(self).is_visible && (press.key is Enter || press.key is Esc)) ==> result is None,
    {
        if !self.is_visible {
            return None;
        }
        let choosing = match self.dialog_type {
            DialogType::Selection => true,
            _ => false,
        };
        let typing = match self.dialog_type {
            DialogType::Input => true,
            _ => false,
        };
        match press.key {
            Key::Left => {
                if choosing {
                    self.selected_option = Self::step_back(
                        self.options.len(),
                        self.selected_option,
                    );
                } else {
                    self.selected_button = Self::step_back(
                        self.buttons.len(),
                        self.selected_button,
                    );
                }
                None
            },
            Key::Right => {
                if choosing {
                    self.selected_option = Self::step_on(self.options.len(), self.selected_option);
                } else {
                    self.selected_button = Self::step_on(self.buttons.len(), self.selected_button);
                }
                None
            },
            Key::Up => {
                if choosing {
                    self.selected_option = Self::step_back(
                        self.options.len(),
                        self.selected_option,
                    );
                }
                None
            },
            Key::Down => {
                if choosing {
                    self.selected_option = Self::step_on(self.options.len(), self.selected_option);
                }
                None
            },
            Key::Enter => {
                self.close();
                Some(self.get_result())
            },
            Key::Esc => {
                self.close();
                Some(DialogResult::Cancel)
            },
            Key::Char(c) => {
                if typing {
                    push_char(&mut self.input_text, c);
                }
                None
            },
            Key::Backspace => {
                if typing {
                    pop_char(&mut self.input_text);
                }
                None
            },
            Key::Other => None,
        }
    }
}

/// The dialog on screen, if there is one.
pub struct DialogManager {
    pub current_dialog: Option<Dialog>,
}

impl DialogManager {
    pub fn new() -> (manager: Self)
        ensures
            manager.current_dialog is None,
    {
        Self { current_dialog: None }
    }

    /// Puts a dialog on screen, in place of any other.
    pub fn show_dialog(&mut self, dialog: Dialog)
        ensures
            final(self).current_dialog == Some(Dialog { is_visible: true, ..dialog }),
    {
        let mut dialog = dialog;
        dialog.show();
        self.current_dialog = Some(dialog);
    }

    pub fn hide_dialog(&mut self)
        ensures
            final(self).current_dialog is None,
    {
        self.current_dialog = None;
    }

    /// Whether a dialog is on screen.
    pub fn has_dialog(&self) -> (yes: bool)
        ensures
            yes == (self.current_dialog matches Some(dialog) && dialog.is_visible),
    {
        match &self.current_dialog {
            Some(dialog) => dialog.is_visible,
            None => false,
        }
    }

    /// Hands a key press to the dialog on screen. Once the dialog is
    /// answered it is taken off the screen and the answer is returned.
    pub fn handle_key_event(&mut self, press: KeyPress) -> (result: Option<DialogResult>)
        ensures
            match old(self).current_dialog {
                Some(dialog) => {
                    let answered = dialog.is_visible && (press.key is Enter || press.key is Esc);
                    &&& answered ==> final(self).current_dialog is None
                    &&& answered && press.key is Enter ==> (result matches Some(answer)
                        && dialog.answer(answer))
                    &&& answered && press.key is Esc ==> (result matches Some(answer)
                        && answer is Cancel)
                    &&& !answered ==> result is None && (final(self).current_dialog matches Some(
                        after,
                    ) && Dialog::key_handled(dialog, after, press))
                },
                None => result is None && final(self).current_dialog is None,
            },
    {
        match self.current_dialog.take() {
            Some(dialog) => {
                let mut dialog = dialog;
                match dialog.handle_key_event(press) {
                    Some(result) => Some(result),
                    None => {
                        self.current_dialog = Some(dialog);
                        None
                    },
                }
            },
            None => None,
        }
    }
}

} // verus!
