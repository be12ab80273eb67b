//! The registration screen: one text field.

use vstd::prelude::*;

use crate::input::{FieldModel, TextInputField};
use crate::key::{KeyCode, KeyEvent, KeyEventKind};
use crate::AppState;

verus! {

/// How the text field is shown. The mode changes nothing but the look of the
/// field.
#[derive(Debug, Clone, Copy, PartialEq, Eq, Structural)]
pub enum InputMode {
    Normal,
    Editing,
}

/// The registration screen as its users see it.
pub struct RegisterModel {
    /// The text field.
    pub input: FieldModel,
    /// How the field is shown.
    pub input_mode: InputMode,
    /// The screen that the controller is asked to show next, if any.
    pub should_go_to: Option<AppState>,
}

impl RegisterModel {
    /// The screen as it starts: an empty field in normal mode, and no request
    /// for another screen.
    pub open spec fn initial() -> Self {
        RegisterModel {
            input: FieldModel::empty(),
            input_mode: InputMode::Normal,
            should_go_to: None,
        }
    }

    /// The cursor of the field is inside its text or at one of its ends.
    pub open spec fn wf(self) -> bool {
        self.input.wf()
    }

    /// The screen after a key event.
    ///
    /// Only presses count. `e` sets the mode to normal, Escape asks for the
    /// landing screen. No key reaches the text field.
    pub open spec fn handle_key(self, key: KeyEvent) -> Self {
        if !key.is_press() {
            self
        } else {
            match key.code {
                KeyCode::Char('e') => RegisterModel { input_mode: InputMode::Normal, ..self },
                KeyCode::Esc => RegisterModel { should_go_to: Some(AppState::Landing), ..self },
                _ => self,
            }
        }
    }
}

/// The registration screen.
pub struct RegisterView {
    input: TextInputField,
    input_mode: InputMode,
    /// Set by `handle_key` when a key asks for another screen. The controller
    /// reads it after each key and clears it.
    pub should_go_to: Option<AppState>,
}

impl View for RegisterView {
    type V = RegisterModel;

    closed spec fn view(&self) -> RegisterModel {
        RegisterModel {
            input: self.input@,
            input_mode: self.input_mode,
            should_go_to: self.should_go_to,
        }
    }
}

impl RegisterView {
    /// Reacts to a key event.
    pub fn handle_key(&mut self, key: KeyEvent)
        ensures
            final(self)@ == old(self)@.handle_key(key),
            key.is_press() && key.code == KeyCode::Esc ==> final(self)@.should_go_to == Some(
                AppState::Landing,
            ),
        no_unwind
    {
        if key.kind != KeyEventKind::Press {
            return ;
        }
        match key.code {
            KeyCode::Char('e') => self.input_mode = InputMode::Normal,
            KeyCode::Esc => self.should_go_to = Some(AppState::Landing),
            _ => {},
        }
    }

    /// Reacts to a key event and hands over what the key asked for: the
    /// request for another screen, if there is one. No request is left
    /// behind.
    pub fn handle_input(&mut self, key: KeyEvent) -> (request: Option<AppState>)
        ensures
            request == old(self)@.handle_key(key).should_go_to,
            final(self)@ == (RegisterModel { should_go_to: None, ..old(self)@.handle_key(key) }),
        no_unwind
    {
        self.handle_key(key);
        self.take_transition()
    }

    /// Hands over the request for another screen, if there is one, and
    /// clears it.
    pub fn take_transition(&mut self) -> (request: Option<AppState>)
        ensures
            request == old(self)@.should_go_to,
            final(self)@ == (RegisterModel { should_go_to: None, ..old(self)@ }),
        no_unwind
    {
        let request = self.should_go_to;
        self.should_go_to = None;
        request
    }

    /// The text field.
    pub fn input(&self) -> (input: &TextInputField)
        ensures
            input@ == self@.input,
    {
        &self.input
    }

    /// The text field, to edit it.
    pub fn input_mut(&mut self) -> (input: &mut TextInputField)
        ensures
            input@ == old(self)@.input,
            final(self)@ == (RegisterModel { input: final(input)@, ..old(self)@ }),
    {
        &mut self.input
    }

    /// How the field is shown.
    pub fn input_mode(&self) -> (mode: InputMode)
        ensures
            mode == self@.input_mode,
    {
        self.input_mode
    }
}

impl Default for RegisterView {
    /// The screen as it starts.
    fn default() -> (view: Self)
        ensures
            view@ == RegisterModel::initial(),
    {
        RegisterView {
            input: TextInputField::new(),
            input_mode: InputMode::Normal,
            should_go_to: None,
        }
    }
}

} // verus!
