//! Identifiers of the native desktop menu.

use vstd::prelude::*;
use crate::text::str_eq;

verus! {

/// The menu id of the settings entry.
pub const SETTINGS_MENU_ID: &'static str = "kitonyterms-settings";

/// Whether a clicked menu id is the settings entry.
pub fn is_settings_menu_id(id: &str) -> (r: bool)
    ensures
        r == (id@ == SETTINGS_MENU_ID@),
{
    str_eq(id, SETTINGS_MENU_ID)
}

} // verus!
