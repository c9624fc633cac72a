//! Rules of the shared forms and touch handling.

use crate::strings::{contains_text, spec_contains};
use vstd::prelude::*;
use vstd::string::StringExecFns;
use vstd::utf8::encode_utf8;

verus! {

/// Fewest bytes a password may have.
pub const MIN_PASSWORD_LENGTH: usize = 8;

/// What the first administrator enters to set the server up.
#[derive(Clone, Debug)]
pub struct AdminSetupData {
    pub username: String,
    pub password: String,
    pub email: String,
    pub fullname: String,
}

/// Why a setup form is not accepted.
#[derive(Debug, Clone, Copy, PartialEq, Eq, Structural)]
pub enum SetupError {
    /// A field is empty.
    MissingField,
    /// The password has fewer than eight bytes.
    ShortPassword,
    /// The address holds no `@`.
    InvalidEmail,
}

impl SetupError {
    /// What the form shows for this error.
    pub open spec fn spec_message(self) -> Seq<char> {
        match self {
            SetupError::MissingField => "All fields are required"@,
            SetupError::ShortPassword => "Password must be at least 8 characters"@,
            SetupError::InvalidEmail => "Please enter a valid email address"@,
        }
    }

    /// What the form shows for this error.
    pub fn message(self) -> (message: String)
        ensures
            message@ == self.spec_message(),
    {
        match self {
            SetupError::MissingField => String::from_str("All fields are required"),
            SetupError::ShortPassword => String::from_str(
                "Password must be at least 8 characters",
            ),
            SetupError::InvalidEmail => String::from_str("Please enter a valid email address"),
        }
    }
}

impl AdminSetupData {
    /// What is wrong with the form, if anything: the first of an empty
    /// field, a password of fewer than eight bytes, and an address
    /// without `@`.
    pub open spec fn spec_validate(self) -> Result<(), SetupError> {
        if self.username@.len() == 0 || self.password@.len() == 0 || self.email@.len() == 0
            || self.fullname@.len() == 0 {
            Err(SetupError::MissingField)
        } else if (encode_utf8(self.password@).len() as usize) < 8 {
            Err(SetupError::ShortPassword)
        } else if !spec_contains(self.email@, "@"@) {
            Err(SetupError::InvalidEmail)
        } else {
            Ok(())
        }
    }

    /// Checks the form before it is sent.
    pub fn validate(&self) -> (checked: Result<(), SetupError>)
        ensures
            checked == self.spec_validate(),
    {
        if self.username.as_str().is_empty() || self.password.as_str().is_empty()
            || self.email.as_str().is_empty() || self.fullname.as_str().is_empty() {
            Err(SetupError::MissingField)
        } else if self.password.as_str().len() < MIN_PASSWORD_LENGTH {
            Err(SetupError::ShortPassword)
        } else if !contains_text(self.email.as_str(), "@") {
            Err(SetupError::InvalidEmail)
        } else {
            Ok(())
        }
    }
}

/// How far a finger may move, in pixels, and still be pressing.
pub const MOVEMENT_THRESHOLD: i64 = 10;

/// How long a press lasts before it counts as long, in milliseconds, where
/// the caller names no other time.
pub const DEFAULT_LONG_PRESS_DELAY: u32 = 600;

/// What the host does with its timer after a touch event.
#[derive(Debug, Clone, Copy, PartialEq, Eq, Structural)]
pub enum TimerAction {
    /// Leave the timer as it is.
    Keep,
    /// Drop the timer that runs, if any, and start one of this many
    /// milliseconds.
    Start(u32),
    /// Drop the timer that runs, if any.
    Cancel,
}

/// A place on the screen.
#[derive(Debug, Clone, Copy, PartialEq, Eq, Structural)]
pub struct TouchPoint {
    pub x: i32,
    pub y: i32,
}

/// A finger on an item, from touch start until it lifts or strays.
#[derive(Debug, Clone, Copy, PartialEq, Eq, Structural)]
pub struct LongPress {
    /// Where the finger came down.
    pub start_position: Option<TouchPoint>,
    /// Whether the press lasted long enough.
    pub is_long_press: bool,
    /// Whether the finger is down and has not strayed.
    pub is_pressing: bool,
    /// Whether a timer runs.
    pub timer_running: bool,
}

/// Whether a finger at `position` has strayed from `start`: it is more
/// than ten pixels away, across or down.
pub open spec fn spec_strayed(start: TouchPoint, position: TouchPoint) -> bool {
    let across = if position.x >= start.x {
        position.x - start.x
    } else {
        start.x - position.x
    };
    let down = if position.y >= start.y {
        position.y - start.y
    } else {
        start.y - position.y
    };
    across > 10 || down > 10
}

impl LongPress {
    /// The state after a finger came down at `position`, where the event
    /// tells it.
    pub open spec fn spec_touch_start(self, position: Option<TouchPoint>) -> LongPress {
        LongPress {
            start_position: match position {
                Some(at) => Some(at),
                None => self.start_position,
            },
            is_long_press: false,
            is_pressing: true,
            timer_running: true,
        }
    }

    /// Whether a move to `position` ends the press.
    pub open spec fn spec_move_cancels(self, position: Option<TouchPoint>) -> bool {
        match (self.start_position, position) {
            (Some(start), Some(at)) => spec_strayed(start, at),
            _ => false,
        }
    }

    /// No finger down.
    pub fn new() -> (press: LongPress)
        ensures
            press == (LongPress {
                start_position: None,
                is_long_press: false,
                is_pressing: false,
                timer_running: false,
            }),
    {
        LongPress {
            start_position: None,
            is_long_press: false,
            is_pressing: false,
            timer_running: false,
        }
    }

    /// A finger came down.  The press begins anew and a timer is started,
    /// of `delay_ms` milliseconds or of 600.
    pub fn touch_start(&mut self, position: Option<TouchPoint>, delay_ms: Option<u32>) -> (action:
        TimerAction)
        ensures
            *final(self) == old(self).spec_touch_start(position),
            action == TimerAction::Start(
                match delay_ms {
                    Some(delay) => delay,
                    None => 600u32,
                },
            ),
    {
        match position {
            Some(at) => {
                self.start_position = Some(at);
            },
            None => {},
        }
        self.is_pressing = true;
        self.is_long_press = false;
        self.timer_running = true;
        match delay_ms {
            Some(delay) => TimerAction::Start(delay),
            None => TimerAction::Start(DEFAULT_LONG_PRESS_DELAY),
        }
    }

    /// The finger lifted: the press is over and the timer is dropped.
    pub fn touch_end(&mut self) -> (action: TimerAction)
        ensures
            *final(self) == (LongPress { is_pressing: false, timer_running: false, ..*old(self) }),
            action == TimerAction::Cancel,
    {
        self.is_pressing = false;
        self.timer_running = false;
        TimerAction::Cancel
    }

    /// The finger moved.  Once it has strayed more than ten pixels from
    /// where it came down, the press is over and the timer is dropped.
    pub fn touch_move(&mut self, position: Option<TouchPoint>) -> (action: TimerAction)
        ensures
            old(self).spec_move_cancels(position) ==> *final(self) == (LongPress {
                is_pressing: false,
                timer_running: false,
                ..*old(self)
            }) && action == TimerAction::Cancel,
            !old(self).spec_move_cancels(position) ==> *final(self) == *old(self) && action
                == TimerAction::Keep,
    {
        let start: TouchPoint = match self.start_position {
            Some(start) => start,
            None => {
                return TimerAction::Keep;
            },
        };
        let at: TouchPoint = match position {
            Some(at) => at,
            None => {
                return TimerAction::Keep;
            },
        };
        let across: i64 = if at.x >= start.x {
            at.x as i64 - start.x as i64
        } else {
            start.x as i64 - at.x as i64
        };
        let down: i64 = if at.y >= start.y {
            at.y as i64 - start.y as i64
        } else {
            start.y as i64 - at.y as i64
        };
        if across > MOVEMENT_THRESHOLD || down > MOVEMENT_THRESHOLD {
            self.is_pressing = false;
            self.timer_running = false;
            TimerAction::Cancel
        } else {
            TimerAction::Keep
        }
    }

    /// The timer ran out.  Returns whether the press is long now: it is,
    /// unless the timer was dropped before.
    pub fn timer_fired(&mut self) -> (fire: bool)
        ensures
            fire == old(self).timer_running,
            fire ==> *final(self) == (LongPress {
                is_long_press: true,
                timer_running: false,
                ..*old(self)
            }),
            !fire ==> *final(self) == *old(self),
    {
        if self.timer_running {
            self.is_long_press = true;
            self.timer_running = false;
            true
        } else {
            false
        }
    }
}

} // verus!
