//! The controller: it knows which screen is shown, hands each key to that
//! screen, and switches screens when the screen asks for it.

use vstd::prelude::*;

use crate::key::{KeyCode, KeyEvent, KeyEventKind};
use crate::views::landing::{LandingModel, LandingView};
use crate::views::register::{RegisterModel, RegisterView};
use crate::AppState;

verus! {

/// The controller as its users see it.
pub struct AppModel {
    /// Whether the program is to end before the next key is read.
    pub should_exit: bool,
    /// The screen that is shown.
    pub state: AppState,
    /// The landing screen.
    pub landing: LandingModel,
    /// The registration screen.
    pub register: RegisterModel,
}

impl AppModel {
    /// Between two keys no screen has a request pending, the menu is whole,
    /// and the cursor of the text field is inside its text.
    pub open spec fn wf(self) -> bool {
        &&& self.landing.wf()
        &&& self.register.wf()
        &&& self.landing.should_go_to is None
        &&& self.register.should_go_to is None
    }

    /// The controller as it starts: the landing screen is shown, with the
    /// cursor on its first entry.
    pub open spec fn is_initial(self, logo: Seq<char>) -> bool {
        &&& !self.should_exit
        &&& self.state == AppState::Landing
        &&& self.landing.wf()
        &&& self.landing.list.cursor == Some(0nat)
        &&& self.landing.logo == logo
        &&& self.landing.should_go_to is None
        &&& self.register == RegisterModel::initial()
    }

    /// The screen to show after the screen that was shown has answered with
    /// `request`.
    pub open spec fn next_state(state: AppState, request: Option<AppState>) -> AppState {
        match request {
            Some(target) => target,
            None => state,
        }
    }

    /// The controller after a key event.
    ///
    /// Events other than presses change nothing. A press of `q` asks the
    /// program to end, whatever screen is shown, and is handed on like any
    /// other key. The screen that is shown reacts to the key; where it asks
    /// for another screen, that screen is shown from now on. The request is
    /// used up either way.
    pub open spec fn handle_key(self, key: KeyEvent) -> Self {
        if !key.is_press() {
            self
        } else {
            let should_exit = self.should_exit || key.code == KeyCode::Char('q');
            match self.state {
                AppState::Landing => {
                    let landing = self.landing.handle_key(key);
                    AppModel {
                        should_exit,
                        state: Self::next_state(self.state, landing.should_go_to),
                        landing: LandingModel { should_go_to: None, ..landing },
                        register: self.register,
                    }
                },
                AppState::Register => {
                    let register = self.register.handle_key(key);
                    AppModel {
                        should_exit,
                        state: Self::next_state(self.state, register.should_go_to),
                        landing: self.landing,
                        register: RegisterModel { should_go_to: None, ..register },
                    }
                },
            }
        }
    }

    /// A key event leaves a well-formed controller well-formed.
    pub proof fn lemma_handle_key_keeps_wf(self, key: KeyEvent)
        requires
            self.wf(),
        ensures
            self.handle_key(key).wf(),
    {
        if key.is_press() && self.state == AppState::Landing {
            self.landing.list.lemma_step_keeps_wf(crate::list::Step::Next);
            self.landing.list.lemma_step_keeps_wf(crate::list::Step::Previous);
        }
    }
}

/// The controller of the program.
pub struct App {
    should_exit: bool,
    state: AppState,
    landing_view: LandingView,
    register_view: RegisterView,
}

impl View for App {
    type V = AppModel;

    closed spec fn view(&self) -> AppModel {
        AppModel {
            should_exit: self.should_exit,
            state: self.state,
            landing: self.landing_view@,
            register: self.register_view@,
        }
    }
}

impl App {
    #[verifier::type_invariant]
    spec fn inv(&self) -> bool {
        self@.wf()
    }

    /// The controller at the start of the program.
    pub fn new(logo: String) -> (app: Self)
        ensures
            app@.is_initial(logo@),
            app@.wf(),
    {
        App {
            should_exit: false,
            state: AppState::Landing,
            landing_view: LandingView::new(logo),
            register_view: RegisterView::default(),
        }
    }

    /// Reacts to a key event.
    pub fn handle_key(&mut self, key: KeyEvent)
        ensures
            final(self)@ == old(self)@.handle_key(key),
            old(self)@.wf(),
            final(self)@.wf(),
    {
        proof {
            use_type_invariant(&*self);
            self@.lemma_handle_key_keeps_wf(key);
        }
        if key.kind != KeyEventKind::Press {
            return ;
        }
        if let KeyCode::Char('q') = key.code {
            self.should_exit = true;
        }
        match self.state {
            AppState::Landing => {
                let request = self.landing_view.handle_input(key);
                if let Some(state) = request {
                    self.state = state;
                }
            },
            AppState::Register => {
                let request = self.register_view.handle_input(key);
                if let Some(state) = request {
                    self.state = state;
                }
            },
        }
    }

    /// Whether the program is to end.
    pub fn should_exit(&self) -> (exit: bool)
        ensures
            exit == self@.should_exit,
    {
        self.should_exit
    }

    /// The screen that is shown.
    pub fn state(&self) -> (state: AppState)
        ensures
            state == self@.state,
    {
        self.state
    }

    /// The landing screen.
    pub fn landing_view(&self) -> (view: &LandingView)
        ensures
            view@ == self@.landing,
    {
        &self.landing_view
    }

    /// The registration screen.
    pub fn register_view(&self) -> (view: &RegisterView)
        ensures
            view@ == self@.register,
    {
        &self.register_view
    }
}

} // verus!
