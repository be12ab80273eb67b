//! The landing screen: a menu of two entries.

use vstd::prelude::*;

use crate::key::{KeyCode, KeyEvent, KeyEventKind};
use crate::list::{ListModel, SelectableList};
use crate::AppState;

verus! {

/// The landing screen as its users see it.
pub struct LandingModel {
    /// The menu and its cursor.
    pub list: ListModel<String>,
    /// The logo shown above the menu.
    pub logo: Seq<char>,
    /// The screen that the controller is asked to show next, if any.
    pub should_go_to: Option<AppState>,
}

impl LandingModel {
    /// The menu holds its two entries, "Login" first, and the cursor is on
    /// one of them.
    pub open spec fn wf(self) -> bool {
        &&& self.list.wf()
        &&& self.list.items.len() == 2
        &&& self.list.items[0]@ == "Login"@
        &&& self.list.items[1]@ == "Register"@
    }

    /// The screen after a key event.
    ///
    /// Only presses count. `j` and Down move the cursor on, `k` and Up move
    /// it back. `l` and Enter activate the entry under the cursor: on the
    /// second entry that asks for the registration screen, on the first entry
    /// it asks for nothing. Every other key leaves the screen as it is.
    pub open spec fn handle_key(self, key: KeyEvent) -> Self {
        if !key.is_press() {
            self
        } else {
            match key.code {
                KeyCode::Char('j') | KeyCode::Down => LandingModel {
                    list: self.list.next(),
                    ..self
                },
                KeyCode::Char('k') | KeyCode::Up => LandingModel {
                    list: self.list.previous(),
                    ..self
                },
                KeyCode::Char('l') | KeyCode::Enter => if self.list.cursor == Some(1nat) {
                    LandingModel { should_go_to: Some(AppState::Register), ..self }
                } else {
                    self
                },
                _ => self,
            }
        }
    }
}

/// The landing screen.
pub struct LandingView {
    landing_list: SelectableList<String>,
    logo: String,
    /// Set by `handle_key` when a key asks for another screen. The controller
    /// reads it after each key and clears it.
    pub should_go_to: Option<AppState>,
}

impl View for LandingView {
    type V = LandingModel;

    closed spec fn view(&self) -> LandingModel {
        LandingModel {
            list: self.landing_list@,
            logo: self.logo@,
            should_go_to: self.should_go_to,
        }
    }
}

impl LandingView {
    /// The landing screen with the given logo, the cursor on "Login", and no
    /// request for another screen.
    pub fn new(logo: String) -> (view: Self)
        ensures
            view@.wf(),
            view@.list.cursor == Some(0nat),
            view@.logo == logo@,
            view@.should_go_to is None,
    {
        let items = vec!["Login".to_owned(), "Register".to_owned()];
        LandingView { landing_list: SelectableList::new(items), logo, should_go_to: None }
    }

    /// Reacts to a key event.
    pub fn handle_key(&mut self, key: KeyEvent)
        ensures
            final(self)@ == old(self)@.handle_key(key),
            old(self)@.wf() ==> final(self)@.wf(),
        no_unwind
    {
        if key.kind != KeyEventKind::Press {
            return ;
        }
        match key.code {
            KeyCode::Char('j') | KeyCode::Down => self.landing_list.select_next(),
            KeyCode::Char('k') | KeyCode::Up => self.landing_list.select_previous(),
            KeyCode::Char('l') | KeyCode::Enter => {
                if let Some(index) = self.landing_list.selected() {
                    if index == 1 {
                        self.should_go_to = Some(AppState::Register);
                    }
                }
            },
            _ => {},
        }
    }

    /// Reacts to a key event and hands over what the key asked for: the
    /// request for another screen, if there is one. No request is left
    /// behind.
    pub fn handle_input(&mut self, key: KeyEvent) -> (request: Option<AppState>)
        ensures
            request == old(self)@.handle_key(key).should_go_to,
            final(self)@ == (LandingModel { should_go_to: None, ..old(self)@.handle_key(key) }),
        no_unwind
    {
        self.handle_key(key);
        self.take_transition()
    }

    /// Hands over the request for another screen, if there is one, and
    /// clears it.
    pub fn take_transition(&mut self) -> (request: Option<AppState>)
        ensures
            request == old(self)@.should_go_to,
            final(self)@ == (LandingModel { should_go_to: None, ..old(self)@ }),
        no_unwind
    {
        let request = self.should_go_to;
        self.should_go_to = None;
        request
    }

    /// The index of the entry under the cursor.
    pub fn selected(&self) -> (cursor: Option<usize>)
        ensures
            self@.list.wf(),
            match cursor {
                Some(i) => self@.list.cursor == Some(i as nat),
                None => self@.list.cursor is None,
            },
        no_unwind
    {
        self.landing_list.selected()
    }

    /// The entries of the menu in order.
    pub fn items(&self) -> (items: &Vec<String>)
        ensures
            items@ == self@.list.items,
    {
        self.landing_list.items()
    }

    /// The logo shown above the menu.
    pub fn logo(&self) -> (logo: &str)
        ensures
            logo@ == self@.logo,
    {
        self.logo.as_str()
    }
}

} // verus!
