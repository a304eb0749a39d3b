//! The events that the device reports, and their mathematical views.

use vstd::prelude::*;

verus! {

/// One programmed button, as listed in a button report.
#[derive(Debug, PartialEq, Eq)]
pub struct Button {
    pub id: u8,
    pub host_id: u8,
    pub press_type: u8,
    /// Encoded action bound to the button; not interpreted here.
    pub action: Vec<u8>,
}

/// View of a [`Button`].
pub struct ButtonView {
    pub id: u8,
    pub host_id: u8,
    pub press_type: u8,
    pub action: Seq<u8>,
}

impl View for Button {
    type V = ButtonView;

    open spec fn view(&self) -> ButtonView {
        ButtonView {
            id: self.id,
            host_id: self.host_id,
            press_type: self.press_type,
            action: self.action@,
        }
    }
}

/// A decoded logical packet.
#[derive(Debug, PartialEq, Eq)]
pub enum Event {
    Firmware {
        /// Major, minor and patch number.
        version: (u16, u16, u16),
        device: String,
        serial: String,
    },
    Battery {
        low_level: u8,
        crit_level: u8,
        power_off_timeout: u8,
        auto_report_delay: u8,
        level: u8,
    },
    Buttons {
        total_buttons: u8,
        programmed_buttons: u8,
        host_id: u8,
        support_long_press: bool,
        support_double_press: bool,
        support_down_up_press: bool,
        support_simulate: bool,
        support_program_stop: bool,
        buttons: Vec<Button>,
    },
    Mouse {
        max_dpi: u16,
        min_dpi: u16,
        dpi: u16,
        step_dpi: u16,
        /// Number of sensitivity levels of the first wheel, from 1 to 15;
        /// `None` when the device reports no levels.
        nb_sensitivity_wheel1: Option<u8>,
        sensitivity_wheel1: u8,
        /// Number of sensitivity levels of the second wheel, as for the first.
        nb_sensitivity_wheel2: Option<u8>,
        sensitivity_wheel2: u8,
        host_id: u8,
        cut_off_max: u8,
        cut_off: u8,
        support_left_handed: bool,
        left_handed: bool,
        support_no_save_to_flash: bool,
    },
}

/// View of an [`Event`]: text as characters, lists as sequences.
pub enum EventView {
    Firmware { version: (u16, u16, u16), device: Seq<char>, serial: Seq<char> },
    Battery {
        low_level: u8,
        crit_level: u8,
        power_off_timeout: u8,
        auto_report_delay: u8,
        level: u8,
    },
    Buttons {
        total_buttons: u8,
        programmed_buttons: u8,
        host_id: u8,
        support_long_press: bool,
        support_double_press: bool,
        support_down_up_press: bool,
        support_simulate: bool,
        support_program_stop: bool,
        buttons: Seq<ButtonView>,
    },
    Mouse {
        max_dpi: u16,
        min_dpi: u16,
        dpi: u16,
        step_dpi: u16,
        nb_sensitivity_wheel1: Option<u8>,
        sensitivity_wheel1: u8,
        nb_sensitivity_wheel2: Option<u8>,
        sensitivity_wheel2: u8,
        host_id: u8,
        cut_off_max: u8,
        cut_off: u8,
        support_left_handed: bool,
        left_handed: bool,
        support_no_save_to_flash: bool,
    },
}

/// The views of a list of buttons, in order.
pub open spec fn spec_button_views(buttons: Seq<Button>) -> Seq<ButtonView> {
    Seq::new(buttons.len(), |i: int| buttons[i]@)
}

impl View for Event {
    type V = EventView;

    open spec fn view(&self) -> EventView {
        match *self {
            Event::Firmware { version, device, serial } => EventView::Firmware {
                version,
                device: device@,
                serial: serial@,
            },
            Event::Battery {
                low_level,
                crit_level,
                power_off_timeout,
                auto_report_delay,
                level,
            } => EventView::Battery {
                low_level,
                crit_level,
                power_off_timeout,
                auto_report_delay,
                level,
            },
            Event::Buttons {
                total_buttons,
                programmed_buttons,
                host_id,
                support_long_press,
                support_double_press,
                support_down_up_press,
                support_simulate,
                support_program_stop,
                buttons,
            } => EventView::Buttons {
                total_buttons,
                programmed_buttons,
                host_id,
                support_long_press,
                support_double_press,
                support_down_up_press,
                support_simulate,
                support_program_stop,
                buttons: spec_button_views(buttons@),
            },
            Event::Mouse {
                max_dpi,
                min_dpi,
                dpi,
                step_dpi,
                nb_sensitivity_wheel1,
                sensitivity_wheel1,
                nb_sensitivity_wheel2,
                sensitivity_wheel2,
                host_id,
                cut_off_max,
                cut_off,
                support_left_handed,
                left_handed,
                support_no_save_to_flash,
            } => EventView::Mouse {
                max_dpi,
                min_dpi,
                dpi,
                step_dpi,
                nb_sensitivity_wheel1,
                sensitivity_wheel1,
                nb_sensitivity_wheel2,
                sensitivity_wheel2,
                host_id,
                cut_off_max,
                cut_off,
                support_left_handed,
                left_handed,
                support_no_save_to_flash,
            },
        }
    }
}

/// View of an optional event.
pub open spec fn spec_event_view(event: Option<Event>) -> Option<EventView> {
    match event {
        Some(e) => Some(e@),
        None => None,
    }
}

} // verus!
