//! The eight buttons and what is known of each from one poll to the next:
//! whether it is held, whether it was just let go, and whether holding it
//! has started to repeat.

use vstd::prelude::*;

verus! {

/// A timer value that means that no countdown is running.
pub const TIMER_IDLE: i32 = -1;

/// The countdown from the first poll that sees a button held to the first
/// repeat, in microseconds.
pub const REPEAT_DELAY: i32 = 500_000;

/// What one poll that sees the button held takes off the countdown.
pub const POLL_STEP: i32 = 8;

/// A button of the console.
#[derive(Copy, Clone, Debug, Eq, PartialEq, Hash, Structural)]
pub enum Button {
    Up,
    Down,
    Left,
    Right,
    A,
    B,
    Start,
    Select,
}

/// A key of a keyboard that stands in for the buttons.
#[derive(Copy, Clone, Debug, Eq, PartialEq, Hash, Structural)]
pub enum Key {
    Up,
    Down,
    Left,
    Right,
    Z,
    X,
    Return,
    Space,
    /// Any key that no button is bound to.
    Other,
}

impl Key {
    /// The button that the key is bound to.
    pub open spec fn bound(self) -> Option<Button> {
        match self {
            Key::Up => Some(Button::Up),
            Key::Down => Some(Button::Down),
            Key::Left => Some(Button::Left),
            Key::Right => Some(Button::Right),
            Key::Z => Some(Button::A),
            Key::X => Some(Button::B),
            Key::Return => Some(Button::Start),
            Key::Space => Some(Button::Select),
            Key::Other => None,
        }
    }

    /// The button that the key is bound to, or `None` for a key that is
    /// bound to none.
    pub fn button(self) -> (button: Option<Button>)
        ensures
            button == self.bound(),
    {
        match self {
            Key::Up => Some(Button::Up),
            Key::Down => Some(Button::Down),
            Key::Left => Some(Button::Left),
            Key::Right => Some(Button::Right),
            Key::Z => Some(Button::A),
            Key::X => Some(Button::B),
            Key::Return => Some(Button::Start),
            Key::Space => Some(Button::Select),
            Key::Other => None,
        }
    }
}

impl Button {
    /// The two glyphs of the console's font that draw the button.
    pub open spec fn glyphs(self) -> Seq<char> {
        match self {
            Button::Up => seq!['\u{A9}', '\u{AA}'],
            Button::Down => seq!['\u{87}', '\u{88}'],
            Button::Left => seq!['\u{97}', '\u{98}'],
            Button::Right => seq!['\u{A3}', '\u{A4}'],
            Button::A => seq!['\u{B5}', '\u{B6}'],
            Button::B => seq!['\u{B7}', '\u{B8}'],
            Button::Start => seq!['\u{B9}', '\u{BA}'],
            Button::Select => seq!['\u{BB}', '\u{BC}'],
        }
    }

    /// The text that draws the button in the console's font.
    pub fn label(self) -> (text: &'static str)
        ensures
            text@ == self.glyphs(),
    {
        proof {
            reveal_strlit("\u{A9}\u{AA}");
            reveal_strlit("\u{87}\u{88}");
            reveal_strlit("\u{97}\u{98}");
            reveal_strlit("\u{A3}\u{A4}");
            reveal_strlit("\u{B5}\u{B6}");
            reveal_strlit("\u{B7}\u{B8}");
            reveal_strlit("\u{B9}\u{BA}");
            reveal_strlit("\u{BB}\u{BC}");
        }
        let text = match self {
            Button::Up => "\u{A9}\u{AA}",
            Button::Down => "\u{87}\u{88}",
            Button::Left => "\u{97}\u{98}",
            Button::Right => "\u{A3}\u{A4}",
            Button::A => "\u{B5}\u{B6}",
            Button::B => "\u{B7}\u{B8}",
            Button::Start => "\u{B9}\u{BA}",
            Button::Select => "\u{BB}\u{BC}",
        };
        assert(text@ =~= self.glyphs());
        text
    }
}

/// What is known of one button.
#[derive(Copy, Clone, Debug, PartialEq, Eq, Structural)]
pub struct ButtonStatus {
    /// The button is held.
    pub pressed: bool,
    /// The button was held at the poll before and is not any more.
    pub just_released: bool,
    /// The button has been held long enough to repeat.
    pub repeat: bool,
    /// The countdown to the first repeat, in microseconds; `TIMER_IDLE`
    /// while none is running.
    pub timer: i32,
}

impl Default for ButtonStatus {
    fn default() -> (status: ButtonStatus)
        ensures
            status == ButtonStatus::idle(),
    {
        Self { pressed: false, just_released: false, repeat: false, timer: -1 }
    }
}

impl ButtonStatus {
    /// A button that nobody has touched.
    pub open spec fn idle() -> ButtonStatus {
        ButtonStatus { pressed: false, just_released: false, repeat: false, timer: TIMER_IDLE }
    }

    /// The status after a poll that saw the button held (`pressed`) or
    /// not.
    ///
    /// Held: the first poll starts the countdown; each later one takes
    /// `POLL_STEP` off it, and once it has run out the button repeats.
    /// Not held: the countdown stops, and a button that was held counts as
    /// just released.
    pub open spec fn polled(self, pressed: bool) -> ButtonStatus {
        if pressed {
            if self.timer == TIMER_IDLE {
                ButtonStatus { pressed: true, just_released: false, timer: REPEAT_DELAY, ..self }
            } else if self.timer <= 0 {
                ButtonStatus { pressed: true, just_released: false, repeat: true, ..self }
            } else {
                ButtonStatus {
                    pressed: true,
                    just_released: false,
                    repeat: false,
                    timer: (self.timer - POLL_STEP) as i32,
                }
            }
        } else {
            ButtonStatus {
                pressed: false,
                just_released: self.pressed || self.just_released,
                repeat: false,
                timer: TIMER_IDLE,
            }
        }
    }

    /// The status once the release has been taken note of.
    pub open spec fn settled(self) -> ButtonStatus {
        ButtonStatus { just_released: false, ..self }
    }

    /// Whether the button acts now: at the poll that first sees it held,
    /// and at every poll once it repeats.
    pub open spec fn triggers(self) -> bool {
        self.repeat || (self.pressed && self.timer == REPEAT_DELAY)
    }

    /// Takes in one poll of the button.
    pub fn update(&mut self, pressed: bool)
        ensures
            *final(self) == old(self).polled(pressed),
    {
        if pressed {
            self.pressed = true;
            self.just_released = false;
            if self.timer == -1 {
                self.timer = 500_000;
            } else if self.timer <= 0 {
                self.repeat = true
            } else {
                self.timer -= 8;
                self.repeat = false;
            }
        } else {
            if self.pressed {
                self.just_released = true;
            }
            self.pressed = false;
            self.repeat = false;
            self.timer = -1;
        }
    }

    /// Whether the button acts now.
    pub fn should_trigger(&self) -> (acts: bool)
        ensures
            acts == self.triggers(),
    {
        self.repeat || self.pressed && self.timer == 500_000
    }
}

/// What is known of all eight buttons.
#[derive(Copy, Clone, Debug, PartialEq, Eq, Structural)]
pub struct InputStatus {
    pub up: ButtonStatus,
    pub down: ButtonStatus,
    pub left: ButtonStatus,
    pub right: ButtonStatus,
    pub a: ButtonStatus,
    pub b: ButtonStatus,
    pub start: ButtonStatus,
    pub select: ButtonStatus,
}

impl Default for InputStatus {
    fn default() -> (input: InputStatus)
        ensures
            forall|button: Button| input.status(button) == ButtonStatus::idle(),
    {
        let idle = ButtonStatus { pressed: false, just_released: false, repeat: false, timer: -1 };
        InputStatus {
            up: idle,
            down: idle,
            left: idle,
            right: idle,
            a: idle,
            b: idle,
            start: idle,
            select: idle,
        }
    }
}

impl InputStatus {
    /// The status of `button`.
    pub open spec fn status(self, button: Button) -> ButtonStatus {
        match button {
            Button::Up => self.up,
            Button::Down => self.down,
            Button::Left => self.left,
            Button::Right => self.right,
            Button::A => self.a,
            Button::B => self.b,
            Button::Start => self.start,
            Button::Select => self.select,
        }
    }

    /// The input with the status of `button` replaced.
    pub open spec fn with_status(self, button: Button, status: ButtonStatus) -> InputStatus {
        match button {
            Button::Up => InputStatus { up: status, ..self },
            Button::Down => InputStatus { down: status, ..self },
            Button::Left => InputStatus { left: status, ..self },
            Button::Right => InputStatus { right: status, ..self },
            Button::A => InputStatus { a: status, ..self },
            Button::B => InputStatus { b: status, ..self },
            Button::Start => InputStatus { start: status, ..self },
            Button::Select => InputStatus { select: status, ..self },
        }
    }

    /// Takes in one poll of the direction buttons and of A and B. Start
    /// and Select are not polled and stay as they are.
    pub fn update(&mut self, up: bool, down: bool, left: bool, right: bool, a: bool, b: bool)
        ensures
            *final(self) == (InputStatus {
                up: old(self).up.polled(up),
                down: old(self).down.polled(down),
                left: old(self).left.polled(left),
                right: old(self).right.polled(right),
                a: old(self).a.polled(a),
                b: old(self).b.polled(b),
                start: old(self).start,
                select: old(self).select,
            }),
    {
        self.up.update(up);
        self.down.update(down);
        self.left.update(left);
        self.right.update(right);
        self.a.update(a);
        self.b.update(b);
    }

    /// A key went down: the button it is bound to is held, and repeats if
    /// the keyboard says so. No countdown runs for it. A key bound to no
    /// button changes nothing.
    pub fn key_down(&mut self, key: Key, repeat: bool)
        ensures
            *final(self) == (match key.bound() {
                Some(button) => old(self).with_status(
                    button,
                    ButtonStatus { pressed: true, just_released: false, repeat, timer: TIMER_IDLE },
                ),
                None => *old(self),
            }),
    {
        let status = ButtonStatus { pressed: true, just_released: false, repeat, timer: -1 };
        match key {
            Key::Up => {
                self.up = status
            },
            Key::Down => {
                self.down = status
            },
            Key::Left => {
                self.left = status
            },
            Key::Right => {
                self.right = status
            },
            Key::Z => {
                self.a = status
            },
            Key::X => {
                self.b = status
            },
            Key::Return => {
                self.start = status
            },
            Key::Space => {
                self.select = status
            },
            _ => {},
        }
    }

    /// A key went up: the button it is bound to is just released. A key
    /// bound to no button changes nothing.
    pub fn key_up(&mut self, key: Key)
        ensures
            *final(self) == (match key.bound() {
                Some(button) => old(self).with_status(
                    button,
                    ButtonStatus {
                        pressed: false,
                        just_released: true,
                        repeat: false,
                        timer: TIMER_IDLE,
                    },
                ),
                None => *old(self),
            }),
    {
        let status = ButtonStatus {
            pressed: false,
            just_released: true,
            repeat: false,
            timer: -1,
        };
        match key {
            Key::Up => {
                self.up = status
            },
            Key::Down => {
                self.down = status
            },
            Key::Left => {
                self.left = status
            },
            Key::Right => {
                self.right = status
            },
            Key::Z => {
                self.a = status
            },
            Key::X => {
                self.b = status
            },
            Key::Return => {
                self.start = status
            },
            Key::Space => {
                self.select = status
            },
            _ => {},
        }
    }

    /// Ends a frame: no button counts as just released any more. Nothing
    /// else changes.
    pub fn clear_released(&mut self)
        ensures
            *final(self) == (InputStatus {
                up: old(self).up.settled(),
                down: old(self).down.settled(),
                left: old(self).left.settled(),
                right: old(self).right.settled(),
                a: old(self).a.settled(),
                b: old(self).b.settled(),
                start: old(self).start.settled(),
                select: old(self).select.settled(),
            }),
    {
        self.up.just_released = false;
        self.down.just_released = false;
        self.left.just_released = false;
        self.right.just_released = false;
        self.a.just_released = false;
        self.b.just_released = false;
        self.start.just_released = false;
        self.select.just_released = false;
    }

    /// Whether `button` is held.
    pub fn is_pressed(&self, button: Button) -> (held: bool)
        ensures
            held == self.status(button).pressed,
    {
        match button {
            Button::Up => self.up.pressed,
            Button::Down => self.down.pressed,
            Button::Left => self.left.pressed,
            Button::Right => self.right.pressed,
            Button::A => self.a.pressed,
            Button::B => self.b.pressed,
            Button::Start => self.start.pressed,
            Button::Select => self.select.pressed,
        }
    }

    /// Whether `button` repeats.
    pub fn is_repeated(&self, button: Button) -> (repeats: bool)
        ensures
            repeats == self.status(button).repeat,
    {
        match button {
            Button::Up => self.up.repeat,
            Button::Down => self.down.repeat,
            Button::Left => self.left.repeat,
            Button::Right => self.right.repeat,
            Button::A => self.a.repeat,
            Button::B => self.b.repeat,
            Button::Start => self.start.repeat,
            Button::Select => self.select.repeat,
        }
    }

    /// Whether `button` was just released.
    pub fn just_released(&self, button: Button) -> (released: bool)
        ensures
            released == self.status(button).just_released,
    {
        match button {
            Button::Up => self.up.just_released,
            Button::Down => self.down.just_released,
            Button::Left => self.left.just_released,
            Button::Right => self.right.just_released,
            Button::A => self.a.just_released,
            Button::B => self.b.just_released,
            Button::Start => self.start.just_released,
            Button::Select => self.select.just_released,
        }
    }

    /// What is known of `button`.
    pub fn get_status(&self, button: Button) -> (status: &ButtonStatus)
        ensures
            *status == self.status(button),
    {
        match button {
            Button::Up => &self.up,
            Button::Down => &self.down,
            Button::Left => &self.left,
            Button::Right => &self.right,
            Button::A => &self.a,
            Button::B => &self.b,
            Button::Start => &self.start,
            Button::Select => &self.select,
        }
    }
}

} // verus!
