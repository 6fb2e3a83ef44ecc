use vstd::prelude::*;

verus! {

/// Whether a frame has been completed.
pub enum FrameStatus {
    Pending,
    Complete,
}

#[derive(Debug, Copy, Clone, PartialEq, Eq, Structural)]
pub enum Switch {
    TvType,
    LeftDifficulty,
    RightDifficulty,
    GameSelect,
    GameReset,
}

#[derive(Debug, PartialEq, Eq, Clone, Copy, Structural)]
pub enum SwitchPosition {
    Up,
    Down,
}

/// The other position of a switch.
pub open spec fn flipped(position: SwitchPosition) -> SwitchPosition {
    match position {
        SwitchPosition::Up => SwitchPosition::Down,
        SwitchPosition::Down => SwitchPosition::Up,
    }
}

impl core::ops::Not for SwitchPosition {
    type Output = SwitchPosition;

    /// The other position: `!Up` is `Down` and `!Down` is `Up`.
    fn not(self) -> (r: SwitchPosition) {
        match self {
            SwitchPosition::Up => SwitchPosition::Down,
            SwitchPosition::Down => SwitchPosition::Up,
        }
    }
}

impl vstd::std_specs::ops::NotSpecImpl for SwitchPosition {
    open spec fn obeys_not_spec() -> bool {
        true
    }

    open spec fn not_req(self) -> bool {
        true
    }

    open spec fn not_spec(self) -> SwitchPosition {
        flipped(self)
    }
}

/// The bit of the switch port that a switch drives high when it is up.
pub open spec fn switch_bit(switch: Switch) -> u8 {
    match switch {
        Switch::RightDifficulty => 0x80,
        Switch::LeftDifficulty => 0x40,
        Switch::TvType => 0x08,
        Switch::GameSelect => 0x02,
        Switch::GameReset => 0x01,
    }
}

impl Switch {
    /// The contribution of a switch to the switch port: its bit when it is
    /// up, nothing when it is down.
    pub fn port_value_when(&self, position: SwitchPosition) -> (r: u8)
        ensures
            r == if position == SwitchPosition::Up {
                switch_bit(*self)
            } else {
                0
            },
    {
        proof {
            lemma_line_constants();
        }
        match position {
            SwitchPosition::Down => 0,
            SwitchPosition::Up => match self {
                Self::RightDifficulty => 1 << 7,
                Self::LeftDifficulty => 1 << 6,
                Self::TvType => 1 << 3,
                Self::GameSelect => 1 << 1,
                Self::GameReset => 1,
            },
        }
    }
}

#[derive(Debug, Copy, Clone, PartialEq, Eq, Structural)]
pub enum JoystickInput {
    Up,
    Down,
    Left,
    Right,
    Fire,
}

/// The bit of the direction port that a direction pulls low when pressed.
pub open spec fn input_mask(input: JoystickInput) -> u8 {
    match input {
        JoystickInput::Up => 0x01,
        JoystickInput::Down => 0x02,
        JoystickInput::Left => 0x04,
        JoystickInput::Right => 0x08,
        JoystickInput::Fire => 0,
    }
}

pub open spec fn opposite_input(input: JoystickInput) -> JoystickInput {
    match input {
        JoystickInput::Up => JoystickInput::Down,
        JoystickInput::Down => JoystickInput::Up,
        JoystickInput::Left => JoystickInput::Right,
        JoystickInput::Right => JoystickInput::Left,
        JoystickInput::Fire => JoystickInput::Fire,
    }
}

impl JoystickInput {
    pub fn port_mask(&self) -> (r: u8)
        ensures
            r == input_mask(*self),
    {
        proof {
            lemma_line_constants();
        }
        match *self {
            Self::Up => 1,
            Self::Down => 1 << 1,
            Self::Left => 1 << 2,
            Self::Right => 1 << 3,
            Self::Fire => 0,
        }
    }

    pub fn opposite(&self) -> (r: Self)
        ensures
            r == opposite_input(*self),
    {
        match *self {
            Self::Up => Self::Down,
            Self::Down => Self::Up,
            Self::Left => Self::Right,
            Self::Right => Self::Left,
            Self::Fire => Self::Fire,
        }
    }
}

/// A joystick: the four direction lines (low when pressed) and the fire line
/// (low when pressed).
pub struct Joystick {
    direction_port: u8,
    fire_port: bool,
}

/// Whether a direction is pressed on a direction port value.
pub open spec fn pressed(direction_port: u8, input: JoystickInput) -> bool {
    direction_port & input_mask(input) == 0
}

/// The direction port after an input changes state: pressing a direction
/// pulls its line low and releases the opposite one; releasing it lets its
/// line go high.
pub open spec fn set_direction(direction_port: u8, input: JoystickInput, state: bool) -> u8 {
    if state {
        (direction_port & !input_mask(input)) | input_mask(opposite_input(input))
    } else {
        direction_port | input_mask(input)
    }
}

impl Joystick {
    pub closed spec fn direction(&self) -> u8 {
        self.direction_port
    }

    pub closed spec fn fire(&self) -> bool {
        self.fire_port
    }

    /// Only the four direction lines are used, and opposite directions are
    /// never pressed at once.
    pub open spec fn wf(&self) -> bool {
        &&& self.direction() < 16
        &&& !(pressed(self.direction(), JoystickInput::Up) && pressed(
            self.direction(),
            JoystickInput::Down,
        ))
        &&& !(pressed(self.direction(), JoystickInput::Left) && pressed(
            self.direction(),
            JoystickInput::Right,
        ))
    }

    /// A joystick with nothing pressed.
    pub fn new() -> (r: Self)
        ensures
            r.wf(),
            r.direction() == 0b1111,
            r.fire(),
    {
        proof {
            lemma_line_constants();
        }
        Joystick { direction_port: 0b1111, fire_port: true }
    }

    /// Presses (`state == true`) or releases an input. Pressing a direction
    /// releases the opposite one.
    pub fn set_state(&mut self, input: JoystickInput, state: bool)
        requires
            old(self).wf(),
        ensures
            final(self).wf(),
            input == JoystickInput::Fire ==> final(self).direction() == old(self).direction()
                && final(self).fire() == !state,
            input != JoystickInput::Fire ==> final(self).direction() == set_direction(
                old(self).direction(),
                input,
                state,
            ) && final(self).fire() == old(self).fire(),
    {
        proof {
            if input != JoystickInput::Fire {
                lemma_set_direction_keeps_opposites_apart(self.direction_port, input, state);
            }
        }
        match input {
            JoystickInput::Fire => self.fire_port = !state,
            _ => {
                if state {
                    self.direction_port = self.direction_port & !input.port_mask();
                    self.direction_port = self.direction_port | input.opposite().port_mask();
                } else {
                    self.direction_port = self.direction_port | input.port_mask();
                }
            },
        };
    }

    /// The direction port value and the fire line.
    pub fn port_values(&self) -> (r: (u8, bool))
        ensures
            r == (self.direction(), self.fire()),
    {
        (self.direction_port, self.fire_port)
    }
}

/// Joystick law: from a port with no opposite directions pressed at once,
/// any change of a direction input keeps it so, keeps the port within its
/// four lines, and leaves the pressed state of the perpendicular directions
/// alone; a pressed direction reads back as pressed.
pub proof fn lemma_set_direction_keeps_opposites_apart(d: u8, input: JoystickInput, state: bool)
    requires
        d < 16,
        !(pressed(d, JoystickInput::Up) && pressed(d, JoystickInput::Down)),
        !(pressed(d, JoystickInput::Left) && pressed(d, JoystickInput::Right)),
        input != JoystickInput::Fire,
    ensures
        ({
            let n = set_direction(d, input, state);
            &&& n < 16
            &&& !(pressed(n, JoystickInput::Up) && pressed(n, JoystickInput::Down))
            &&& !(pressed(n, JoystickInput::Left) && pressed(n, JoystickInput::Right))
            &&& pressed(n, input) == state
        }),
{
    lemma_direction_lines(d);
}

/// No two opposite lines of a direction port are pulled low at once.
spec fn opposites_apart(n: u8) -> bool {
    &&& n < 16
    &&& !(n & 1 == 0 && n & 2 == 0)
    &&& !(n & 4 == 0 && n & 8 == 0)
}

/// Pressing a line releases its opposite, and releasing it sets it high.
proof fn lemma_direction_lines(d: u8)
    by (bit_vector)
    requires
        opposites_apart(d),
    ensures
        opposites_apart((d & !1u8) | 2u8) && ((d & !1u8) | 2u8) & 1 == 0,
        opposites_apart(d | 1u8) && (d | 1u8) & 1 != 0,
        opposites_apart((d & !2u8) | 1u8) && ((d & !2u8) | 1u8) & 2 == 0,
        opposites_apart(d | 2u8) && (d | 2u8) & 2 != 0,
        opposites_apart((d & !4u8) | 8u8) && ((d & !4u8) | 8u8) & 4 == 0,
        opposites_apart(d | 4u8) && (d | 4u8) & 4 != 0,
        opposites_apart((d & !8u8) | 4u8) && ((d & !8u8) | 4u8) & 8 == 0,
        opposites_apart(d | 8u8) && (d | 8u8) & 8 != 0,
{
}

/// The masks of the port lines, and the idle direction port.
pub(crate) proof fn lemma_line_constants()
    by (bit_vector)
    ensures
        1u8 << 7 == 0x80 && 1u8 << 6 == 0x40 && 1u8 << 3 == 0x08 && 1u8 << 2 == 0x04 && 1u8 << 1
            == 0x02,
        0b1111u8 & 1 != 0 && 0b1111u8 & 2 != 0 && 0b1111u8 & 4 != 0 && 0b1111u8 & 8 != 0,
{
}

#[derive(Debug, Copy, Clone, PartialEq, Eq, Structural)]
pub enum JoystickPort {
    Left,
    Right,
}

} // verus!
