use vstd::prelude::*;

verus! {

/// The front-panel keys the controller listens to.
#[derive(Clone, Copy, Debug, PartialEq, Eq, Structural)]
pub enum InputKey {
    /// The power button: a short press toggles, a long one also resets the
    /// activation.
    Button,
    /// A power key that toggles at once.
    Power,
    /// The restart key.
    Restart,
}

/// An input the recognizer reacts to.
#[derive(Clone, Copy, Debug, PartialEq, Eq, Structural)]
pub enum InputEvent {
    Pressed(InputKey),
    Released(InputKey),
    /// The long-press timer started for the press with this token ran out.
    TimerElapsed(u64),
}

/// Where the power button's gesture stands.
#[derive(Clone, Copy, Debug, PartialEq, Eq, Structural)]
pub enum GestureState {
    Idle,
    /// Held down, with the token of its long-press timer.
    Pressed(u64),
    /// Held down past the long-press time; already acted on.
    Held,
}

/// What the recognizer asks the outside world to do.
#[derive(Clone, Copy, Debug, PartialEq, Eq, Structural)]
pub enum GestureAction {
    Nothing,
    /// Start the long-press timer for this token.
    StartTimer(u64),
    /// Toggle the power states; `true` for a long press.
    TogglePower(bool),
    /// Restart the board.
    Reboot,
}

/// The recognizer for the front-panel gestures.
#[derive(Clone, Copy, Debug)]
pub struct GestureRecognizer {
    state: GestureState,
    next_token: u64,
}

/// The token after `t`.
pub open spec fn token_after(t: u64) -> u64 {
    if t < u64::MAX { (t + 1) as u64 } else { 0 }
}

/// One transition: the state and token counter that follow `event`, and the
/// action it asks for.
pub open spec fn gesture_step(state: GestureState, token: u64, event: InputEvent) -> (GestureState, u64, GestureAction) {
    match event {
        InputEvent::Pressed(InputKey::Button) => match state {
            GestureState::Idle => (GestureState::Pressed(token), token_after(token), GestureAction::StartTimer(token)),
            _ => (state, token, GestureAction::Nothing),
        },
        InputEvent::Released(InputKey::Button) => match state {
            GestureState::Pressed(_) => (GestureState::Idle, token, GestureAction::TogglePower(false)),
            _ => (GestureState::Idle, token, GestureAction::Nothing),
        },
        InputEvent::TimerElapsed(t) => match state {
            GestureState::Pressed(p) => if p == t {
                (GestureState::Held, token, GestureAction::TogglePower(true))
            } else {
                (state, token, GestureAction::Nothing)
            },
            _ => (state, token, GestureAction::Nothing),
        },
        InputEvent::Pressed(InputKey::Power) => (state, token, GestureAction::TogglePower(false)),
        InputEvent::Pressed(InputKey::Restart) => (state, token, GestureAction::Reboot),
        _ => (state, token, GestureAction::Nothing),
    }
}

impl GestureRecognizer {
    pub closed spec fn state_spec(&self) -> GestureState {
        self.state
    }

    pub closed spec fn token_spec(&self) -> u64 {
        self.next_token
    }

    /// A recognizer with the button released.
    pub fn new() -> (r: GestureRecognizer)
        ensures
            r.state_spec() == GestureState::Idle,
    {
        GestureRecognizer { state: GestureState::Idle, next_token: 0 }
    }

    /// Where the gesture stands.
    pub fn state(&self) -> (r: GestureState)
        ensures
            r == self.state_spec(),
    {
        self.state
    }

    /// Takes one input into account and says what to do about it.
    pub fn handle(&mut self, event: InputEvent) -> (r: GestureAction)
        ensures
            (final(self).state_spec(), final(self).token_spec(), r)
                == gesture_step(old(self).state_spec(), old(self).token_spec(), event),
    {
        let token = self.next_token;
        match event {
            InputEvent::Pressed(InputKey::Button) => match self.state {
                GestureState::Idle => {
                    self.state = GestureState::Pressed(token);
                    self.next_token = if token < u64::MAX { token + 1 } else { 0 };
                    GestureAction::StartTimer(token)
                },
                _ => GestureAction::Nothing,
            },
            InputEvent::Released(InputKey::Button) => {
                let was_pressed = matches!(self.state, GestureState::Pressed(_));
                self.state = GestureState::Idle;
                if was_pressed {
                    GestureAction::TogglePower(false)
                } else {
                    GestureAction::Nothing
                }
            },
            InputEvent::TimerElapsed(t) => match self.state {
                GestureState::Pressed(p) => {
                    if p == t {
                        self.state = GestureState::Held;
                        GestureAction::TogglePower(true)
                    } else {
                        GestureAction::Nothing
                    }
                },
                _ => GestureAction::Nothing,
            },
            InputEvent::Pressed(InputKey::Power) => GestureAction::TogglePower(false),
            InputEvent::Pressed(InputKey::Restart) => GestureAction::Reboot,
            _ => GestureAction::Nothing,
        }
    }
}

/// A press of the button gives exactly one power toggle: a short one when it
/// is released before its timer runs out, a long one when the timer runs out
/// first, and then nothing more on release.
pub proof fn lemma_one_toggle_per_press(token: u64, release_first: bool)
    ensures
        ({
            let (s1, t1, a1) = gesture_step(GestureState::Idle, token, InputEvent::Pressed(InputKey::Button));
            &&& a1 == GestureAction::StartTimer(token)
            &&& if release_first {
                let (s2, t2, a2) = gesture_step(s1, t1, InputEvent::Released(InputKey::Button));
                let (s3, t3, a3) = gesture_step(s2, t2, InputEvent::TimerElapsed(token));
                a2 == GestureAction::TogglePower(false) && a3 == GestureAction::Nothing && s3 == GestureState::Idle
            } else {
                let (s2, t2, a2) = gesture_step(s1, t1, InputEvent::TimerElapsed(token));
                let (s3, t3, a3) = gesture_step(s2, t2, InputEvent::Released(InputKey::Button));
                a2 == GestureAction::TogglePower(true) && a3 == GestureAction::Nothing && s3 == GestureState::Idle
            }
        }),
{
}

} // verus!
