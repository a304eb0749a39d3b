//! State of the dialog in which a preset is picked for a button.

use crate::bindings::{HardwareButton, PresetBinding};
use vstd::prelude::*;

verus! {

/// A message to the dialog.
#[derive(Clone, Copy, Debug, PartialEq, Eq, Structural)]
pub enum BindingDialogMsg {
    /// Open the dialog for a button.
    Show(HardwareButton),
    /// Close the dialog.
    Hide,
    /// A preset was picked.
    Selected(PresetBinding),
}

/// What the dialog asks of its owner: bind `button` to `preset`.
#[derive(Clone, Copy, Debug, PartialEq, Eq, Structural)]
pub struct SetBinding {
    pub button: HardwareButton,
    pub preset: PresetBinding,
}

/// The dialog's state: the button it was opened for, and whether it is open.
#[derive(Clone, Copy, Debug, PartialEq, Eq, Structural)]
pub struct BindingDialogModel {
    button_id: HardwareButton,
    shown: bool,
}

impl BindingDialogModel {
    /// The button the dialog was last opened for.
    pub closed spec fn spec_button_id(&self) -> HardwareButton {
        self.button_id
    }

    /// Whether the dialog is open.
    pub closed spec fn spec_shown(&self) -> bool {
        self.shown
    }

    /// The dialog before it was ever opened: closed, on the right button.
    pub fn init_model() -> (model: Self)
        ensures
            model.spec_button_id() == HardwareButton::Right,
            !model.spec_shown(),
    {
        BindingDialogModel { button_id: HardwareButton::Right, shown: false }
    }

    /// The button the dialog was last opened for.
    pub fn button_id(&self) -> (button: HardwareButton)
        ensures
            button == self.spec_button_id(),
    {
        self.button_id
    }

    /// Whether the dialog is open.
    pub fn shown(&self) -> (shown: bool)
        ensures
            shown == self.spec_shown(),
    {
        self.shown
    }

    /// Takes one message. `Show` opens the dialog for a button; `Hide` closes
    /// it; `Selected` closes it and asks the owner to bind the button it was
    /// opened for to the preset picked.
    pub fn update(&mut self, msg: BindingDialogMsg) -> (request: Option<SetBinding>)
        ensures
            match msg {
                BindingDialogMsg::Show(button) => {
                    &&& final(self).spec_button_id() == button
                    &&& final(self).spec_shown()
                    &&& request is None
                },
                BindingDialogMsg::Hide => {
                    &&& final(self).spec_button_id() == old(self).spec_button_id()
                    &&& !final(self).spec_shown()
                    &&& request is None
                },
                BindingDialogMsg::Selected(preset) => {
                    &&& final(self).spec_button_id() == old(self).spec_button_id()
                    &&& !final(self).spec_shown()
                    &&& request == Some(SetBinding { button: old(self).spec_button_id(), preset })
                },
            },
    {
        match msg {
            BindingDialogMsg::Show(button_id) => {
                self.button_id = button_id;
                self.shown = true;
                None
            },
            BindingDialogMsg::Hide => {
                self.shown = false;
                None
            },
            BindingDialogMsg::Selected(preset) => {
                self.shown = false;
                Some(SetBinding { button: self.button_id, preset })
            },
        }
    }
}

} // verus!
