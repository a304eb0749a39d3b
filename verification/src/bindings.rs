//! The mouse's programmable buttons and the preset actions they can be bound
//! to.

use vstd::prelude::*;

verus! {

/// A programmable button of the mouse.
#[derive(Clone, Copy, Debug, PartialEq, Eq, Hash, Structural)]
pub enum HardwareButton {
    Right,
    Middle,
    LeftBottom,
    LeftTop,
    ScrollLeft,
    ScrollRight,
    LeftCenter,
}

/// A preset action that a button can be bound to.
#[derive(Clone, Copy, Debug, PartialEq, Eq, Hash, Structural)]
pub enum PresetBinding {
    RightClick,
    LeftClick,
    MiddleClick,
    ScrollLeft,
    ScrollRight,
    Back,
    Forward,
    SwitchApp,
    Disabled,
    VolumeDown,
    VolumeUp,
    NextTrack,
    PreviousTrack,
    PlayPause,
    Mute,
    Copy,
    Cut,
    Paste,
    Undo,
    SelectAll,
    Redo,
    Find,
}

/// Number of programmable buttons.
pub const HARDWARE_BUTTONS: u8 = 7;

/// The button that the device numbers `num`.
pub open spec fn spec_from_u8(num: u8) -> Option<HardwareButton> {
    match num {
        0 => Some(HardwareButton::Right),
        1 => Some(HardwareButton::Middle),
        2 => Some(HardwareButton::LeftBottom),
        3 => Some(HardwareButton::LeftTop),
        4 => Some(HardwareButton::ScrollLeft),
        5 => Some(HardwareButton::ScrollRight),
        6 => Some(HardwareButton::LeftCenter),
        _ => None,
    }
}

impl HardwareButton {
    /// The number that the device gives the button.
    pub open spec fn spec_to_u8(self) -> u8 {
        match self {
            HardwareButton::Right => 0,
            HardwareButton::Middle => 1,
            HardwareButton::LeftBottom => 2,
            HardwareButton::LeftTop => 3,
            HardwareButton::ScrollLeft => 4,
            HardwareButton::ScrollRight => 5,
            HardwareButton::LeftCenter => 6,
        }
    }

    /// The preset that the button has when nothing else is configured.
    pub open spec fn spec_def_binding(self) -> PresetBinding {
        match self {
            HardwareButton::Right => PresetBinding::RightClick,
            HardwareButton::Middle => PresetBinding::MiddleClick,
            HardwareButton::LeftBottom => PresetBinding::Back,
            HardwareButton::LeftTop => PresetBinding::Forward,
            HardwareButton::ScrollLeft => PresetBinding::ScrollLeft,
            HardwareButton::ScrollRight => PresetBinding::ScrollRight,
            HardwareButton::LeftCenter => PresetBinding::SwitchApp,
        }
    }

    /// All buttons, in the order of their numbers.
    pub fn iter() -> (buttons: Vec<HardwareButton>)
        ensures
            buttons@.len() == HARDWARE_BUTTONS,
            forall|i: int|
                0 <= i < HARDWARE_BUTTONS ==> Some(#[trigger] buttons@[i]) == spec_from_u8(i as u8),
    {
        let mut buttons: Vec<HardwareButton> = Vec::with_capacity(HARDWARE_BUTTONS as usize);
        let mut num: u8 = 0;
        while num < HARDWARE_BUTTONS
            invariant
                num <= HARDWARE_BUTTONS,
                buttons@.len() == num,
                forall|i: int| 0 <= i < num ==> Some(#[trigger] buttons@[i]) == spec_from_u8(i as u8),
            decreases HARDWARE_BUTTONS - num,
        {
            match HardwareButton::from_u8(num) {
                Some(button) => {
                    buttons.push(button);
                },
                None => {},
            }
            num += 1;
        }
        buttons
    }

    /// The button with the given number; numbers from 7 on have none.
    pub fn from_u8(num: u8) -> (button: Option<HardwareButton>)
        ensures
            button == spec_from_u8(num),
            button is Some <==> num < HARDWARE_BUTTONS,
            button matches Some(b) ==> b.spec_to_u8() == num,
    {
        match num {
            0 => Some(HardwareButton::Right),
            1 => Some(HardwareButton::Middle),
            2 => Some(HardwareButton::LeftBottom),
            3 => Some(HardwareButton::LeftTop),
            4 => Some(HardwareButton::ScrollLeft),
            5 => Some(HardwareButton::ScrollRight),
            6 => Some(HardwareButton::LeftCenter),
            _ => None,
        }
    }

    /// The number that the device gives the button.
    pub fn to_u8(self) -> (num: u8)
        ensures
            num == self.spec_to_u8(),
            num < HARDWARE_BUTTONS,
            spec_from_u8(num) == Some(self),
    {
        match self {
            HardwareButton::Right => 0,
            HardwareButton::Middle => 1,
            HardwareButton::LeftBottom => 2,
            HardwareButton::LeftTop => 3,
            HardwareButton::ScrollLeft => 4,
            HardwareButton::ScrollRight => 5,
            HardwareButton::LeftCenter => 6,
        }
    }

    /// The preset that the button has when nothing else is configured.
    pub fn def_binding(self) -> (preset: PresetBinding)
        ensures
            preset == self.spec_def_binding(),
    {
        match self {
            HardwareButton::Right => PresetBinding::RightClick,
            HardwareButton::Middle => PresetBinding::MiddleClick,
            HardwareButton::LeftBottom => PresetBinding::Back,
            HardwareButton::LeftTop => PresetBinding::Forward,
            HardwareButton::ScrollLeft => PresetBinding::ScrollLeft,
            HardwareButton::ScrollRight => PresetBinding::ScrollRight,
            HardwareButton::LeftCenter => PresetBinding::SwitchApp,
        }
    }
}

} // verus!
