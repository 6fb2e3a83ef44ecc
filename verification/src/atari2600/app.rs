//! How the host keyboard drives the console switches and the joysticks, and
//! how those reach the RIOT and TIA ports.
use crate::atari::{
    flipped, set_direction, switch_bit, Joystick, JoystickInput,
    JoystickPort, Switch, SwitchPosition,
};
use crate::atari2600::riot::{self, Riot};
use crate::atari2600::tia::{self, Tia};
use crate::common::app::HostKey;
use vstd::prelude::*;

verus! {

/// What a key event asks of the console.
#[derive(Debug, Clone, Copy, PartialEq, Eq, Structural)]
pub enum AtariControl {
    /// Flip a toggle switch to its other position.
    FlipSwitch(Switch),
    /// Hold a push switch in a given position.
    PushSwitch(Switch, SwitchPosition),
    /// Press (`true`) or release (`false`) a joystick input.
    Joystick(JoystickPort, JoystickInput, bool),
}

/// The joystick input that a host key stands for: WASD and the left shift or
/// space bar for the left joystick, IJKL or the arrows and N or the period
/// for the right one.
pub open spec fn joystick_input_for(key: HostKey) -> Option<(JoystickPort, JoystickInput)> {
    match key {
        HostKey::W => Some((JoystickPort::Left, JoystickInput::Up)),
        HostKey::A => Some((JoystickPort::Left, JoystickInput::Left)),
        HostKey::S => Some((JoystickPort::Left, JoystickInput::Down)),
        HostKey::D => Some((JoystickPort::Left, JoystickInput::Right)),
        HostKey::LShift | HostKey::Space => Some((JoystickPort::Left, JoystickInput::Fire)),
        HostKey::I | HostKey::Up => Some((JoystickPort::Right, JoystickInput::Up)),
        HostKey::J | HostKey::Left => Some((JoystickPort::Right, JoystickInput::Left)),
        HostKey::K | HostKey::Down => Some((JoystickPort::Right, JoystickInput::Down)),
        HostKey::L | HostKey::Right => Some((JoystickPort::Right, JoystickInput::Right)),
        HostKey::N | HostKey::Period => Some((JoystickPort::Right, JoystickInput::Fire)),
        _ => None,
    }
}

/// The control that a press (`pressed == true`) or a release of a host key
/// asks for. Keys 1 to 3 flip the TV type and difficulty toggles when
/// pressed; keys 4 and 5 hold Game Select and Game Reset down while pressed;
/// the joystick keys press and release their inputs.
pub open spec fn atari_control_for(key: HostKey, pressed: bool) -> Option<AtariControl> {
    match key {
        HostKey::D1 => if pressed {
            Some(AtariControl::FlipSwitch(Switch::TvType))
        } else {
            None
        },
        HostKey::D2 => if pressed {
            Some(AtariControl::FlipSwitch(Switch::LeftDifficulty))
        } else {
            None
        },
        HostKey::D3 => if pressed {
            Some(AtariControl::FlipSwitch(Switch::RightDifficulty))
        } else {
            None
        },
        HostKey::D4 => Some(
            AtariControl::PushSwitch(
                Switch::GameSelect,
                if pressed {
                    SwitchPosition::Down
                } else {
                    SwitchPosition::Up
                },
            ),
        ),
        HostKey::D5 => Some(
            AtariControl::PushSwitch(
                Switch::GameReset,
                if pressed {
                    SwitchPosition::Down
                } else {
                    SwitchPosition::Up
                },
            ),
        ),
        _ => match joystick_input_for(key) {
            Some((port, input)) => Some(AtariControl::Joystick(port, input, pressed)),
            None => None,
        },
    }
}

/// Decides what a key event does to the console.
pub fn atari_control(key: HostKey, pressed: bool) -> (r: Option<AtariControl>)
    ensures
        r == atari_control_for(key, pressed),
{
    match key {
        HostKey::D1 | HostKey::D2 | HostKey::D3 => {
            if !pressed {
                return None;
            }
            let switch = match key {
                HostKey::D1 => Switch::TvType,
                HostKey::D2 => Switch::LeftDifficulty,
                _ => Switch::RightDifficulty,
            };
            Some(AtariControl::FlipSwitch(switch))
        },
        HostKey::D4 | HostKey::D5 => {
            let switch = match key {
                HostKey::D4 => Switch::GameSelect,
                _ => Switch::GameReset,
            };
            let position = if pressed {
                SwitchPosition::Down
            } else {
                SwitchPosition::Up
            };
            Some(AtariControl::PushSwitch(switch, position))
        },
        _ => {
            let mapped = match key {
                HostKey::W => Some((JoystickPort::Left, JoystickInput::Up)),
                HostKey::A => Some((JoystickPort::Left, JoystickInput::Left)),
                HostKey::S => Some((JoystickPort::Left, JoystickInput::Down)),
                HostKey::D => Some((JoystickPort::Left, JoystickInput::Right)),
                HostKey::LShift | HostKey::Space => Some((JoystickPort::Left, JoystickInput::Fire)),
                HostKey::I | HostKey::Up => Some((JoystickPort::Right, JoystickInput::Up)),
                HostKey::J | HostKey::Left => Some((JoystickPort::Right, JoystickInput::Left)),
                HostKey::K | HostKey::Down => Some((JoystickPort::Right, JoystickInput::Down)),
                HostKey::L | HostKey::Right => Some((JoystickPort::Right, JoystickInput::Right)),
                HostKey::N | HostKey::Period => Some((JoystickPort::Right, JoystickInput::Fire)),
                _ => None,
            };
            match mapped {
                Some((port, input)) => Some(AtariControl::Joystick(port, input, pressed)),
                None => None,
            }
        },
    }
}

/// Where a letter key sits on a host keyboard: its row (1 for the top
/// letter row QWERTY..., 2 for ASDF..., 3 for ZXCV...) and its place in the
/// row, counted from the left.
pub open spec fn letter_position(key: HostKey) -> Option<(int, int)> {
    match key {
        HostKey::Q => Some((1, 0)),
        HostKey::W => Some((1, 1)),
        HostKey::E => Some((1, 2)),
        HostKey::R => Some((1, 3)),
        HostKey::T => Some((1, 4)),
        HostKey::Y => Some((1, 5)),
        HostKey::U => Some((1, 6)),
        HostKey::I => Some((1, 7)),
        HostKey::O => Some((1, 8)),
        HostKey::P => Some((1, 9)),
        HostKey::A => Some((2, 0)),
        HostKey::S => Some((2, 1)),
        HostKey::D => Some((2, 2)),
        HostKey::F => Some((2, 3)),
        HostKey::G => Some((2, 4)),
        HostKey::H => Some((2, 5)),
        HostKey::J => Some((2, 6)),
        HostKey::K => Some((2, 7)),
        HostKey::L => Some((2, 8)),
        HostKey::Z => Some((3, 0)),
        HostKey::X => Some((3, 1)),
        HostKey::C => Some((3, 2)),
        HostKey::V => Some((3, 3)),
        HostKey::B => Some((3, 4)),
        HostKey::N => Some((3, 5)),
        HostKey::M => Some((3, 6)),
        _ => None,
    }
}

/// The home key of a joystick's key cluster: S for the left joystick (the
/// WASD cluster), K for the right one (the IJKL cluster).
pub open spec fn cluster_home(port: JoystickPort) -> (int, int) {
    match port {
        JoystickPort::Left => (2, 1),
        JoystickPort::Right => (2, 7),
    }
}

/// Where the key for a direction sits in a cluster around `home`: Up right
/// above it, Left and Right beside it, Down on the home key itself.
pub open spec fn direction_place(home: (int, int), input: JoystickInput) -> (int, int) {
    match input {
        JoystickInput::Up => (home.0 - 1, home.1),
        JoystickInput::Left => (home.0, home.1 - 1),
        JoystickInput::Right => (home.0, home.1 + 1),
        _ => home,
    }
}

/// The direction that an arrow key names.
pub open spec fn arrow_direction(key: HostKey) -> Option<JoystickInput> {
    match key {
        HostKey::Up => Some(JoystickInput::Up),
        HostKey::Down => Some(JoystickInput::Down),
        HostKey::Left => Some(JoystickInput::Left),
        HostKey::Right => Some(JoystickInput::Right),
        _ => None,
    }
}

/// Joystick key law: the letter keys that steer a joystick form an inverted
/// T around the cluster's home key (WASD for the left joystick, IJKL for the
/// right one): a letter key steers exactly when it sits in its cluster at
/// the place of its direction, and a key press presses the input and its
/// release releases it. The arrow keys steer the right joystick in the
/// direction that they name.
pub proof fn lemma_joystick_keys_by_position(key: HostKey, pressed: bool)
    ensures
        letter_position(key) is Some ==> forall|port: JoystickPort, input: JoystickInput|
            input != JoystickInput::Fire ==> ((atari_control_for(key, pressed) == Some(
                AtariControl::Joystick(port, input, pressed),
            )) <==> letter_position(key) == Some(direction_place(cluster_home(port), input))),
        arrow_direction(key) matches Some(d) ==> atari_control_for(key, pressed) == Some(
            AtariControl::Joystick(JoystickPort::Right, d, pressed),
        ),
{
}

/// The digit that a digit key carries, for the keys 1 to 9 and 0.
pub open spec fn digit_of(key: HostKey) -> Option<int> {
    match key {
        HostKey::D1 => Some(1),
        HostKey::D2 => Some(2),
        HostKey::D3 => Some(3),
        HostKey::D4 => Some(4),
        HostKey::D5 => Some(5),
        HostKey::D6 => Some(6),
        HostKey::D7 => Some(7),
        HostKey::D8 => Some(8),
        HostKey::D9 => Some(9),
        HostKey::D0 => Some(0),
        _ => None,
    }
}

/// Switch key law: the digit keys 1 to 5 work the console switches in the
/// order of the switch panel (`switch_index`: TV type, left difficulty,
/// right difficulty, game select, game reset). The first three are toggles,
/// which a key press flips; game select and game reset are push buttons,
/// held down while their key is. The other digit keys do nothing.
pub proof fn lemma_switch_keys(key: HostKey, pressed: bool)
    ensures
        match digit_of(key) {
            Some(n) => if 1 <= n <= 3 {
                if pressed {
                    match atari_control_for(key, pressed) {
                        Some(AtariControl::FlipSwitch(s)) => switch_index(s) == n - 1,
                        _ => false,
                    }
                } else {
                    atari_control_for(key, pressed) is None
                }
            } else if 4 <= n <= 5 {
                match atari_control_for(key, pressed) {
                    Some(AtariControl::PushSwitch(s, p)) => switch_index(s) == n - 1 && (p
                        == SwitchPosition::Down) == pressed,
                    _ => false,
                }
            } else {
                atari_control_for(key, pressed) is None
            },
            None => true,
        },
{
}

/// Control law: a key that drives a joystick or a push switch undoes on its
/// release what it did on its press, and a toggle switch ignores releases.
pub proof fn lemma_release_undoes_press(key: HostKey)
    ensures
        atari_control_for(key, true) matches Some(AtariControl::Joystick(port, input, state)) ==> state
            && atari_control_for(key, false) == Some(AtariControl::Joystick(port, input, false)),
        atari_control_for(key, true) matches Some(AtariControl::PushSwitch(switch, position))
            ==> position == SwitchPosition::Down && atari_control_for(key, false) == Some(
            AtariControl::PushSwitch(switch, SwitchPosition::Up),
        ),
        atari_control_for(key, true) matches Some(AtariControl::FlipSwitch(_)) ==> atari_control_for(
            key,
            false,
        ) is None,
{
}


/// The slot of a switch in the table of switch positions.
pub open spec fn switch_index(switch: Switch) -> int {
    match switch {
        Switch::TvType => 0,
        Switch::LeftDifficulty => 1,
        Switch::RightDifficulty => 2,
        Switch::GameSelect => 3,
        Switch::GameReset => 4,
    }
}

/// The console's own controls: the positions of its switches, and the lines
/// of its two joysticks.
pub struct ConsoleInputs {
    switch_positions: [SwitchPosition; 5],
    left: Joystick,
    right: Joystick,
}

/// What the controls hold: switch positions by `switch_index`, and each
/// joystick's direction lines and fire line (both low when pressed).
pub struct ConsoleInputsView {
    pub switches: Seq<SwitchPosition>,
    pub left_direction: u8,
    pub left_fire: bool,
    pub right_direction: u8,
    pub right_fire: bool,
}

impl View for ConsoleInputs {
    type V = ConsoleInputsView;

    closed spec fn view(&self) -> ConsoleInputsView {
        ConsoleInputsView {
            switches: self.switch_positions@,
            left_direction: self.left.direction(),
            left_fire: self.left.fire(),
            right_direction: self.right.direction(),
            right_fire: self.right.fire(),
        }
    }
}

/// The value of a switch in the switch port: its bit when it is up.
pub open spec fn up_bit(switches: Seq<SwitchPosition>, switch: Switch) -> u8 {
    if switches[switch_index(switch)] == SwitchPosition::Up {
        switch_bit(switch)
    } else {
        0
    }
}

/// The switch port value: bits 2, 4 and 5 are always high, and each switch
/// that is up drives its own bit high.
pub open spec fn switch_port_spec(switches: Seq<SwitchPosition>) -> u8 {
    0b0011_0100u8 | up_bit(switches, Switch::TvType) | up_bit(switches, Switch::LeftDifficulty) | up_bit(
        switches,
        Switch::RightDifficulty,
    ) | up_bit(switches, Switch::GameSelect) | up_bit(switches, Switch::GameReset)
}

/// What a control does to the console's controls: a toggle switch flips to
/// its other position, a push switch takes the given position, and a
/// joystick input is pressed or released (pressing a direction releases the
/// opposite one).
pub open spec fn apply_control_spec(v: ConsoleInputsView, control: AtariControl) -> ConsoleInputsView {
    match control {
        AtariControl::FlipSwitch(s) => ConsoleInputsView {
            switches: v.switches.update(switch_index(s), flipped(v.switches[switch_index(s)])),
            ..v
        },
        AtariControl::PushSwitch(s, p) => ConsoleInputsView {
            switches: v.switches.update(switch_index(s), p),
            ..v
        },
        AtariControl::Joystick(JoystickPort::Left, JoystickInput::Fire, state) => ConsoleInputsView {
            left_fire: !state,
            ..v
        },
        AtariControl::Joystick(JoystickPort::Right, JoystickInput::Fire, state) => ConsoleInputsView {
            right_fire: !state,
            ..v
        },
        AtariControl::Joystick(JoystickPort::Left, input, state) => ConsoleInputsView {
            left_direction: set_direction(v.left_direction, input, state),
            ..v
        },
        AtariControl::Joystick(JoystickPort::Right, input, state) => ConsoleInputsView {
            right_direction: set_direction(v.right_direction, input, state),
            ..v
        },
    }
}

impl ConsoleInputs {
    pub open spec fn wf(&self) -> bool {
        &&& self@.switches.len() == 5
        &&& self.joysticks_wf()
    }

    pub closed spec fn joysticks_wf(&self) -> bool {
        self.left.wf() && self.right.wf()
    }

    /// All switches up, nothing pressed on the joysticks.
    pub fn new() -> (r: Self)
        ensures
            r.wf(),
            r@ == (ConsoleInputsView {
                switches: seq![
                    SwitchPosition::Up,
                    SwitchPosition::Up,
                    SwitchPosition::Up,
                    SwitchPosition::Up,
                    SwitchPosition::Up,
                ],
                left_direction: 0b1111,
                left_fire: true,
                right_direction: 0b1111,
                right_fire: true,
            }),
    {
        let r = ConsoleInputs {
            switch_positions: [
                SwitchPosition::Up,
                SwitchPosition::Up,
                SwitchPosition::Up,
                SwitchPosition::Up,
                SwitchPosition::Up,
            ],
            left: Joystick::new(),
            right: Joystick::new(),
        };
        assert(r.switch_positions@ =~= seq![
            SwitchPosition::Up,
            SwitchPosition::Up,
            SwitchPosition::Up,
            SwitchPosition::Up,
            SwitchPosition::Up,
        ]);
        r
    }

    pub fn switch_position(&self, switch: Switch) -> (r: SwitchPosition)
        requires
            self.wf(),
        ensures
            r == self@.switches[switch_index(switch)],
    {
        let i: usize = match switch {
            Switch::TvType => 0,
            Switch::LeftDifficulty => 1,
            Switch::RightDifficulty => 2,
            Switch::GameSelect => 3,
            Switch::GameReset => 4,
        };
        self.switch_positions[i]
    }

    pub fn flip_switch(&mut self, switch: Switch, position: SwitchPosition)
        requires
            old(self).wf(),
        ensures
            final(self).wf(),
            final(self)@ == (ConsoleInputsView {
                switches: old(self)@.switches.update(switch_index(switch), position),
                ..old(self)@
            }),
    {
        let i: usize = match switch {
            Switch::TvType => 0,
            Switch::LeftDifficulty => 1,
            Switch::RightDifficulty => 2,
            Switch::GameSelect => 3,
            Switch::GameReset => 4,
        };
        self.switch_positions[i] = position;
    }

    pub fn set_joystick_input_state(&mut self, port: JoystickPort, input: JoystickInput, state: bool)
        requires
            old(self).wf(),
        ensures
            final(self).wf(),
            final(self)@ == apply_control_spec(old(self)@, AtariControl::Joystick(port, input, state)),
    {
        match port {
            JoystickPort::Left => self.left.set_state(input, state),
            JoystickPort::Right => self.right.set_state(input, state),
        }
    }

    /// The switch port value; see `switch_port_spec`.
    pub fn switch_port_value(&self) -> (r: u8)
        requires
            self.wf(),
        ensures
            r == switch_port_spec(self@.switches),
    {
        let mut value: u8 = 0b0011_0100;
        value = value | Switch::TvType.port_value_when(self.switch_position(Switch::TvType));
        value = value | Switch::LeftDifficulty.port_value_when(
            self.switch_position(Switch::LeftDifficulty),
        );
        value = value | Switch::RightDifficulty.port_value_when(
            self.switch_position(Switch::RightDifficulty),
        );
        value = value | Switch::GameSelect.port_value_when(self.switch_position(Switch::GameSelect));
        value = value | Switch::GameReset.port_value_when(self.switch_position(Switch::GameReset));
        value
    }
}

/// Applies a control to the console's controls.
pub fn apply_control(inputs: &mut ConsoleInputs, control: AtariControl)
    requires
        old(inputs).wf(),
    ensures
        final(inputs).wf(),
        final(inputs)@ == apply_control_spec(old(inputs)@, control),
{
    match control {
        AtariControl::FlipSwitch(switch) => {
            let other = match inputs.switch_position(switch) {
                SwitchPosition::Up => SwitchPosition::Down,
                SwitchPosition::Down => SwitchPosition::Up,
            };
            inputs.flip_switch(switch, other);
        },
        AtariControl::PushSwitch(switch, position) => inputs.flip_switch(switch, position),
        AtariControl::Joystick(port, input, state) => inputs.set_joystick_input_state(port, input, state),
    }
}

/// Drives the console's ports from its controls: the switches on the RIOT's
/// port B, the joystick directions on its port A (left joystick in the high
/// nibble), and the fire buttons on the TIA's input ports 4 (left) and 5
/// (right).
pub fn drive_ports(inputs: &ConsoleInputs, riot: &mut Riot, tia: &mut Tia)
    requires
        inputs.wf(),
        old(riot).wf(),
        old(tia).wf(),
    ensures
        final(riot).wf(),
        final(tia).wf(),
        final(riot)@ == riot::set_port_spec(
            riot::set_port_spec(old(riot)@, riot::Port::PB, switch_port_spec(inputs@.switches)),
            riot::Port::PA,
            (inputs@.left_direction << 4u8) | inputs@.right_direction,
        ),
        final(tia)@ == tia::set_port_spec(
            tia::set_port_spec(old(tia)@, tia::Port::Input4, inputs@.left_fire),
            tia::Port::Input5,
            inputs@.right_fire,
        ),
{
    riot.set_port(riot::Port::PB, inputs.switch_port_value());
    let (left_direction, left_fire) = inputs.left.port_values();
    let (right_direction, right_fire) = inputs.right.port_values();
    riot.set_port(riot::Port::PA, (left_direction << 4u8) | right_direction);
    tia.set_port(tia::Port::Input4, left_fire);
    tia.set_port(tia::Port::Input5, right_fire);
}

} // verus!
