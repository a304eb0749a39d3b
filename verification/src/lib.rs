//! Decoder for the HID report stream of HP programmable mice.
//!
//! Raw reports carry a four-byte header and a slice of a logical packet. The
//! library parses the header, reassembles logical packets that span several
//! reports, and decodes each complete packet into a typed [`Event`].

pub mod bindings;
pub mod bits;
pub mod decoder;
pub mod dialog;
pub mod event;
pub mod header;
pub mod laws;
pub mod payload;
pub mod reassembly;
pub mod text;

pub use bindings::{HardwareButton, PresetBinding};
pub use decoder::{HpMouseEventIterator, Step};
pub use dialog::{BindingDialogModel, BindingDialogMsg, SetBinding};
pub use event::{Button, ButtonView, Event, EventView};
pub use header::{Header, PacketKind, HP_SIGNATURE};
pub use reassembly::{ProtocolError, Reassembly};
