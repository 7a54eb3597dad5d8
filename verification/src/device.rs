//! The kind of device the interface runs on, which decides between the
//! phone shell and the desktop workbench.

use vstd::prelude::*;

verus! {

/// The layout family of the device.
#[derive(Clone, Copy, Debug, PartialEq, Eq, Structural)]
pub enum DeviceClass {
    /// A touch phone: one column, bottom tab bar, soft keyboard input.
    Phone,
    /// A desktop or tablet: the multi-pane workbench.
    Desktop,
}

impl DeviceClass {
    /// Whether the device gets the phone shell.
    pub fn is_phone(self) -> (r: bool)
        ensures
            r == (self == DeviceClass::Phone),
    {
        match self {
            DeviceClass::Phone => true,
            DeviceClass::Desktop => false,
        }
    }
}

} // verus!
