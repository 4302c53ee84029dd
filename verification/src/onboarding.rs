//! Signing in: the steps of the dialog and what each key does in it.

use crate::input::KeyCode;
use vstd::prelude::*;
use vstd::utf8::decode_utf8;
use vstd::utf8::valid_utf8;

verus! {

/// A way to sign in.
#[derive(Debug, Clone, Copy, PartialEq, Eq, Structural)]
pub enum AuthMode {
    ChatGPT,
    ApiKey,
}

/// The step the dialog is at.
#[derive(Debug, Clone, Copy, PartialEq, Eq, Structural)]
pub enum SignInState {
    /// The user picks a way to sign in.
    PickMode,
    /// The sign-in goes on in the browser.
    ChatGptContinueInBrowser,
    /// The sign-in went through, and the user is told what to know first.
    ChatGptSuccessMessage,
    /// The sign-in went through.
    ChatGptSuccess,
    /// An API key was asked for and the environment holds none.
    EnvVarMissing,
    /// An API key was asked for and the environment holds one.
    EnvVarFound,
}

/// How far a step of the onboarding is.
#[derive(Debug, Clone, Copy, PartialEq, Eq, Structural)]
pub enum StepState {
    InProgress,
    Complete,
}

/// What the caller is to do after a key.
#[derive(Debug, Clone, Copy, PartialEq, Eq, Structural)]
pub enum AuthAction {
    /// Nothing.
    Nothing,
    /// Start the sign-in with ChatGPT and report how that went.
    StartChatGptLogin,
    /// Look for an API key in the environment and report what was found.
    VerifyApiKey,
}

/// The dialog.
#[derive(Debug)]
pub struct AuthModeWidget {
    /// The way to sign in that is marked.
    pub highlighted_mode: AuthMode,
    /// What went wrong with the last attempt.
    pub error: Option<String>,
    /// The step the dialog is at.
    pub sign_in_state: SignInState,
}

/// The way to sign in that is marked after a key.
pub open spec fn highlighted_after(highlighted: AuthMode, code: KeyCode) -> AuthMode {
    match code {
        KeyCode::Up | KeyCode::Char('k') => AuthMode::ChatGPT,
        KeyCode::Down | KeyCode::Char('j') => AuthMode::ApiKey,
        _ => highlighted,
    }
}

/// The step after a key. Enter leaves the note on the missing key and the
/// message of success; Esc gives the sign-in in the browser up.
pub open spec fn state_after(state: SignInState, code: KeyCode) -> SignInState {
    match code {
        KeyCode::Enter => match state {
            SignInState::EnvVarMissing => SignInState::PickMode,
            SignInState::ChatGptSuccessMessage => SignInState::ChatGptSuccess,
            _ => state,
        },
        KeyCode::Esc => if state == SignInState::ChatGptContinueInBrowser {
            SignInState::PickMode
        } else {
            state
        },
        _ => state,
    }
}

/// What the caller is to do after a key: `1` and `2` pick a way to sign in
/// at once, Enter takes the marked one while the user is picking.
pub open spec fn action_after(state: SignInState, highlighted: AuthMode, code: KeyCode)
    -> AuthAction {
    match code {
        KeyCode::Char('1') => AuthAction::StartChatGptLogin,
        KeyCode::Char('2') => AuthAction::VerifyApiKey,
        KeyCode::Enter => if state == SignInState::PickMode {
            match highlighted {
                AuthMode::ChatGPT => AuthAction::StartChatGptLogin,
                AuthMode::ApiKey => AuthAction::VerifyApiKey,
            }
        } else {
            AuthAction::Nothing
        },
        _ => AuthAction::Nothing,
    }
}

/// `String::from_utf8`, with the error dropped: the text that the bytes
/// encode, if they are valid UTF-8.
#[verifier::external_body]
fn string_from_utf8(bytes: Vec<u8>) -> (text: Option<String>)
    ensures
        text is Some <==> valid_utf8(bytes@),
        text matches Some(s) ==> s@ == decode_utf8(bytes@),
{
    String::from_utf8(bytes).ok()
}

/// What is reported where a failed sign-in left no text to report.
pub const LOGIN_FAILED: &'static str = "login_with_chatgpt subprocess failed";

/// The state of the process that signs in, as one look at it found it.
#[derive(Debug, Clone, Copy, PartialEq, Eq, Structural)]
pub enum LoginProcess {
    /// It has ended; whether it succeeded.
    Exited(bool),
    /// It still runs.
    Running,
    /// It could not be looked at.
    Unknown,
}

/// Whether the sign-in is over, and if so whether it succeeded: a process
/// that cannot be looked at counts as failed.
pub fn login_outcome(process: LoginProcess) -> (done: Option<bool>)
    ensures
        done == match process {
            LoginProcess::Exited(success) => Some(success),
            LoginProcess::Running => None,
            LoginProcess::Unknown => Some(false),
        },
{
    match process {
        LoginProcess::Exited(success) => Some(success),
        LoginProcess::Running => None,
        LoginProcess::Unknown => Some(false),
    }
}

/// What is reported of a failed sign-in: what the process wrote to its
/// standard error, if that could be had and is text; else a fixed message.
pub fn login_failure_message(stderr: Option<Vec<u8>>) -> (message: String)
    ensures
        message@ == match stderr {
            Some(bytes) => if valid_utf8(bytes@) {
                decode_utf8(bytes@)
            } else {
                LOGIN_FAILED@
            },
            None => LOGIN_FAILED@,
        },
{
    let text = match stderr {
        Some(bytes) => string_from_utf8(bytes),
        None => None,
    };
    match text {
        Some(message) => message,
        None => LOGIN_FAILED.to_owned(),
    }
}

/// The frame of an animation that shows ten frames a second, at a time
/// given in milliseconds; the first where the time is not known.
pub fn current_frame(now_ms: Option<u128>) -> (frame: usize)
    ensures
        frame == match now_ms {
            Some(ms) => (ms / 100) as usize,
            None => 0usize,
        },
{
    match now_ms {
        Some(ms) => #[verifier::truncate]
        ((ms / 100) as usize),
        None => 0,
    }
}

impl AuthModeWidget {
    /// The dialog at its first step.
    pub fn new(highlighted_mode: AuthMode) -> (widget: AuthModeWidget)
        ensures
            widget.highlighted_mode == highlighted_mode,
            widget.error is None,
            widget.sign_in_state == SignInState::PickMode,
    {
        AuthModeWidget { highlighted_mode, error: None, sign_in_state: SignInState::PickMode }
    }

    /// Takes a key: moves the mark, the step, or asks the caller to act.
    pub fn handle_key_event(&mut self, code: KeyCode) -> (action: AuthAction)
        ensures
            final(self).highlighted_mode == highlighted_after(old(self).highlighted_mode, code),
            final(self).sign_in_state == state_after(old(self).sign_in_state, code),
            final(self).error == old(self).error,
            action == action_after(old(self).sign_in_state, old(self).highlighted_mode, code),
    {
        match code {
            KeyCode::Up => {
                self.highlighted_mode = AuthMode::ChatGPT;
                AuthAction::Nothing
            },
            KeyCode::Down => {
                self.highlighted_mode = AuthMode::ApiKey;
                AuthAction::Nothing
            },
            KeyCode::Char(c) => {
                if c == 'k' {
                    self.highlighted_mode = AuthMode::ChatGPT;
                    AuthAction::Nothing
                } else if c == 'j' {
                    self.highlighted_mode = AuthMode::ApiKey;
                    AuthAction::Nothing
                } else if c == '1' {
                    AuthAction::StartChatGptLogin
                } else if c == '2' {
                    AuthAction::VerifyApiKey
                } else {
                    AuthAction::Nothing
                }
            },
            KeyCode::Enter => match self.sign_in_state {
                SignInState::PickMode => match self.highlighted_mode {
                    AuthMode::ChatGPT => AuthAction::StartChatGptLogin,
                    AuthMode::ApiKey => AuthAction::VerifyApiKey,
                },
                SignInState::EnvVarMissing => {
                    self.sign_in_state = SignInState::PickMode;
                    AuthAction::Nothing
                },
                SignInState::ChatGptSuccessMessage => {
                    self.sign_in_state = SignInState::ChatGptSuccess;
                    AuthAction::Nothing
                },
                _ => AuthAction::Nothing,
            },
            KeyCode::Esc => {
                if let SignInState::ChatGptContinueInBrowser = self.sign_in_state {
                    self.sign_in_state = SignInState::PickMode;
                }
                AuthAction::Nothing
            },
            _ => AuthAction::Nothing,
        }
    }

    /// Takes in how the start of the sign-in with ChatGPT went: the dialog
    /// waits for the browser, or is back at picking with the error to show.
    pub fn start_chatgpt_login(&mut self, spawned: Result<(), String>)
        ensures
            final(self).highlighted_mode == old(self).highlighted_mode,
            match spawned {
                Ok(_) => final(self).sign_in_state == SignInState::ChatGptContinueInBrowser
                    && final(self).error is None,
                Err(e) => final(self).sign_in_state == SignInState::PickMode && final(self).error
                    == Some(e),
            },
    {
        self.error = None;
        match spawned {
            Ok(_) => {
                self.sign_in_state = SignInState::ChatGptContinueInBrowser;
            },
            Err(e) => {
                self.sign_in_state = SignInState::PickMode;
                self.error = Some(e);
            },
        }
    }

    /// Takes in whether the environment holds an API key.
    pub fn verify_api_key(&mut self, key_is_set: bool)
        ensures
            final(self).highlighted_mode == old(self).highlighted_mode,
            final(self).error == old(self).error,
            final(self).sign_in_state == if key_is_set {
                SignInState::EnvVarFound
            } else {
                SignInState::EnvVarMissing
            },
    {
        if key_is_set {
            self.sign_in_state = SignInState::EnvVarFound;
        } else {
            self.sign_in_state = SignInState::EnvVarMissing;
        }
    }

    /// How far the sign-in is: done once it went through or a key was found.
    pub fn get_step_state(&self) -> (state: StepState)
        ensures
            state == match self.sign_in_state {
                SignInState::ChatGptSuccess | SignInState::EnvVarFound => StepState::Complete,
                _ => StepState::InProgress,
            },
    {
        match self.sign_in_state {
            SignInState::ChatGptSuccess | SignInState::EnvVarFound => StepState::Complete,
            _ => StepState::InProgress,
        }
    }
}

} // verus!
