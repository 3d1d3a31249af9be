//! The state machine: which mode is active and whether a caffeination
//! session runs, changed only by consuming messages.
use vstd::prelude::*;
use vstd::string::*;
use crate::command::{Command, texts};
use crate::config::{Config, ConfigView};
use crate::waiting_child::{WaitingChild, kill_args};

verus! {

/// One of the two operating modes.
#[derive(Clone, Copy, Debug, PartialEq, Eq, Structural)]
pub enum Mode {
    Laptop,
    Desktop,
}

impl Mode {
    /// The other mode.
    pub open spec fn toggled(self) -> Mode {
        match self {
            Mode::Laptop => Mode::Desktop,
            Mode::Desktop => Mode::Laptop,
        }
    }

    /// The text that tells assistive technology what switching to this mode does.
    pub open spec fn accessibility_text(self) -> Seq<char> {
        match self {
            Mode::Laptop => "Switch to Laptop mode"@,
            Mode::Desktop => "Switch to Desktop mode"@,
        }
    }

    /// The display label.
    pub open spec fn label(self) -> Seq<char> {
        match self {
            Mode::Laptop => "Laptop Mode"@,
            Mode::Desktop => "Desktop Mode"@,
        }
    }

    /// The name of the system symbol that stands for this mode.
    pub open spec fn symbol(self) -> Seq<char> {
        match self {
            Mode::Laptop => "laptopcomputer"@,
            Mode::Desktop => "desktopcomputer"@,
        }
    }

    /// The text that tells assistive technology what switching to this mode does.
    pub fn accessibility_description(&self) -> (r: &'static str)
        ensures
            r@ == self.accessibility_text(),
    {
        match self {
            Mode::Laptop => "Switch to Laptop mode",
            Mode::Desktop => "Switch to Desktop mode",
        }
    }

    /// The display label.
    pub fn description(&self) -> (r: &'static str)
        ensures
            r@ == self.label(),
    {
        match self {
            Mode::Laptop => "Laptop Mode",
            Mode::Desktop => "Desktop Mode",
        }
    }

    /// The name of the system symbol that stands for this mode.
    pub fn sf_symbol(&self) -> (r: &'static str)
        ensures
            r@ == self.symbol(),
    {
        match self {
            Mode::Laptop => "laptopcomputer",
            Mode::Desktop => "desktopcomputer",
        }
    }

    /// The other mode.
    pub fn toggle(&self) -> (r: Mode)
        ensures
            r == self.toggled(),
    {
        match self {
            Mode::Laptop => Mode::Desktop,
            Mode::Desktop => Mode::Laptop,
        }
    }
}

/// A request to change the state; the only way anything outside the state
/// machine influences it.
#[derive(Copy, Clone, Debug, PartialEq, Eq, Structural)]
pub enum StateChangeMessage {
    /// Toggle the current mode
    ToggleMode,
    /// Toggle caffeination
    ToggleCaffeination,
    /// The caffeination process has ended: clear the session
    ClearCaffeination,
    /// Quit the app
    Quit,
}

/// What the host must do after a transition. Every action is a command to
/// run; none of them changes the state by itself.
pub enum Action {
    /// Nothing to do.
    Nothing,
    /// Run the mode's side-effect script to its end, off the consumer's
    /// context; a failure is only logged.
    RunScript(Command),
    /// Spawn the caffeination process and, once it runs, report its id
    /// through `AppState::caffeination_started`; a failure is only logged.
    Spawn(Command),
    /// Run the command that kills the caffeination process; a failure is
    /// only logged.
    Kill(Command),
}

/// The state machine's state.
pub struct AppState {
    config: Config,
    mode: Mode,
    caffeinate: Option<WaitingChild>,
}

/// The model of an `AppState`: the settings, the mode, and the process id of
/// the caffeination session, if one runs.
pub struct AppStateView {
    pub config: ConfigView,
    pub mode: Mode,
    pub session: Option<u32>,
}

/// What the menu shows of a state: the mode's label, its symbol, its
/// accessibility text, and whether caffeination is on.
pub open spec fn presentation(s: AppStateView) -> (Seq<char>, Seq<char>, Seq<char>, bool) {
    (s.mode.label(), s.mode.symbol(), s.mode.accessibility_text(), s.session is Some)
}

/// The state after consuming `m`. Quit is interpreted by the consumer loop
/// and leaves the state alone; so does ToggleCaffeination, whose effect comes
/// back later as a started session or a ClearCaffeination.
pub open spec fn next_state(s: AppStateView, m: StateChangeMessage) -> AppStateView {
    match m {
        StateChangeMessage::ToggleMode => AppStateView { mode: s.mode.toggled(), ..s },
        StateChangeMessage::ClearCaffeination => AppStateView { session: None, ..s },
        _ => s,
    }
}

/// Where the side-effect script of mode `m` lies.
pub open spec fn script_path(c: ConfigView, m: Mode) -> Seq<char> {
    match m {
        Mode::Laptop => c.laptop_applescript_path,
        Mode::Desktop => c.desktop_applescript_path,
    }
}

/// The program that caffeinates.
pub open spec fn caffeinate_program(c: ConfigView) -> Seq<char> {
    match c.caffeinate_app {
        Some(p) => p,
        None => "caffeinate"@,
    }
}

/// Its arguments: the configured option, if any.
pub open spec fn caffeinate_args(c: ConfigView) -> Seq<Seq<char>> {
    match c.caffeinate_options {
        Some(o) => seq![o],
        None => seq![],
    }
}

/// Whether `c` runs `program` with `args`.
pub open spec fn runs(c: Command, program: Seq<char>, args: Seq<Seq<char>>) -> bool {
    c@.program == program && c@.args == args
}

/// The action that consuming `m` in state `s` asks of the host.
pub open spec fn action_for(s: AppStateView, m: StateChangeMessage, a: Action) -> bool {
    match m {
        StateChangeMessage::ToggleMode => a is RunScript && runs(
            a->RunScript_0,
            "osascript"@,
            seq![script_path(s.config, s.mode.toggled())],
        ),
        StateChangeMessage::ToggleCaffeination => match s.session {
            Some(id) => a is Kill && runs(a->Kill_0, "kill"@, kill_args(id)),
            None => a is Spawn && runs(
                a->Spawn_0,
                caffeinate_program(s.config),
                caffeinate_args(s.config),
            ),
        },
        _ => a is Nothing,
    }
}

impl View for AppState {
    type V = AppStateView;

    closed spec fn view(&self) -> AppStateView {
        AppStateView {
            config: self.config@,
            mode: self.mode,
            session: match self.caffeinate {
                Some(c) => Some(c.id()),
                None => None,
            },
        }
    }
}

impl AppState {
    /// The state machine in `mode`, with no caffeination session.
    pub fn new(config: Config, mode: Mode) -> (r: Self)
        ensures
            r@ == (AppStateView { config: config@, mode, session: None }),
    {
        AppState { config, mode, caffeinate: None }
    }

    /// The current mode.
    pub fn mode(&self) -> (r: Mode)
        ensures
            r == self@.mode,
    {
        self.mode
    }

    /// Whether a caffeination session runs.
    pub fn caffeinating(&self) -> (r: bool)
        ensures
            r == self@.session is Some,
    {
        self.caffeinate.is_some()
    }

    /// The process id of the caffeination session, if one runs.
    pub fn caffeination_id(&self) -> (r: Option<u32>)
        ensures
            r == self@.session,
    {
        match &self.caffeinate {
            Some(c) => Some(c.process_id()),
            None => None,
        }
    }

    /// Switches to the other mode, and asks for the new mode's script to run.
    pub fn toggle_mode(&mut self) -> (r: Action)
        ensures
            final(self)@ == next_state(old(self)@, StateChangeMessage::ToggleMode),
            action_for(old(self)@, StateChangeMessage::ToggleMode, r),
    {
        self.mode = self.mode.toggle();
        let path = match self.mode {
            Mode::Laptop => self.config.laptop_applescript_path().clone(),
            Mode::Desktop => self.config.desktop_applescript_path().clone(),
        };
        let mut args: Vec<String> = Vec::new();
        args.push(path);
        let command = Command::new(String::from_str("osascript"), args);
        assert(texts(args@) =~= seq![script_path(old(self)@.config, self.mode)]);
        Action::RunScript(command)
    }

    /// Asks for the session to end when one runs, else for one to start.
    /// The state itself does not change here: a started process is reported
    /// through `caffeination_started`, an ended one by ClearCaffeination.
    pub fn toggle_caffeination(&mut self) -> (r: Action)
        ensures
            final(self)@ == next_state(old(self)@, StateChangeMessage::ToggleCaffeination),
            action_for(old(self)@, StateChangeMessage::ToggleCaffeination, r),
    {
        match &self.caffeinate {
            Some(child) => Action::Kill(child.kill()),
            None => {
                let program = match self.config.caffeinate_app() {
                    Some(p) => String::from_str(p),
                    None => String::from_str("caffeinate"),
                };
                let mut args: Vec<String> = Vec::new();
                match self.config.caffeinate_options() {
                    Some(o) => args.push(String::from_str(o)),
                    None => {},
                }
                let command = Command::new(program, args);
                assert(texts(args@) =~= caffeinate_args(self@.config));
                Action::Spawn(command)
            },
        }
    }

    /// Records that the caffeination process `id` was spawned. A session that
    /// already runs is kept: there is never more than one.
    pub fn caffeination_started(&mut self, id: u32)
        ensures
            old(self)@.session is None ==> final(self)@ == (AppStateView {
                session: Some(id),
                ..old(self)@
            }),
            old(self)@.session is Some ==> final(self)@ == old(self)@,
    {
        if self.caffeinate.is_none() {
            self.caffeinate = Some(WaitingChild::new(id));
        }
    }

    /// Ends the caffeination session, whether or not one runs.
    pub fn clear_caffeinate(&mut self)
        ensures
            final(self)@ == next_state(old(self)@, StateChangeMessage::ClearCaffeination),
    {
        self.caffeinate = None;
    }

    /// Consumes one message. Quit is left to the consumer loop and changes
    /// nothing here.
    pub fn handle(&mut self, message: StateChangeMessage) -> (r: Action)
        ensures
            final(self)@ == next_state(old(self)@, message),
            action_for(old(self)@, message, r),
    {
        match message {
            StateChangeMessage::ToggleMode => self.toggle_mode(),
            StateChangeMessage::ToggleCaffeination => self.toggle_caffeination(),
            StateChangeMessage::ClearCaffeination => {
                self.clear_caffeinate();
                Action::Nothing
            },
            StateChangeMessage::Quit => Action::Nothing,
        }
    }

    /// Tears the state down on quitting: deletes the side-effect scripts and
    /// asks for a still-running session to be killed.
    pub fn shutdown(&mut self) -> (r: Action)
        ensures
            final(self)@ == (AppStateView {
                config: ConfigView { holds_scripts: false, ..old(self)@.config },
                session: None,
                ..old(self)@
            }),
            match old(self)@.session {
                Some(id) => r is Kill && runs(r->Kill_0, "kill"@, kill_args(id)),
                None => r is Nothing,
            },
    {
        self.config.delete_apple_scripts();
        match self.caffeinate.take() {
            Some(child) => Action::Kill(child.kill()),
            None => Action::Nothing,
        }
    }
}

/// Toggling the mode twice gives back the state it started from, and with it
/// the label, symbol and accessibility text the menu shows.
pub proof fn toggle_mode_twice_restores(s: AppStateView)
    ensures
        next_state(next_state(s, StateChangeMessage::ToggleMode), StateChangeMessage::ToggleMode)
            == s,
        presentation(
            next_state(next_state(s, StateChangeMessage::ToggleMode), StateChangeMessage::ToggleMode),
        ) == presentation(s),
{
    assert(s.mode.toggled().toggled() == s.mode);
}

/// Clearing caffeination while none runs changes nothing.
pub proof fn clear_while_idle_changes_nothing(s: AppStateView)
    requires
        s.session is None,
    ensures
        next_state(s, StateChangeMessage::ClearCaffeination) == s,
        presentation(next_state(s, StateChangeMessage::ClearCaffeination)) == presentation(s),
{
}

} // verus!
