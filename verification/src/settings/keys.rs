//! The keys under which settings are stored.

use vstd::prelude::*;

verus! {

pub const USER_SETTINGS: &'static str = "user_settings";

pub const WINDOW_STATE: &'static str = "window_state";

pub const LAST_PRESET: &'static str = "last_preset";

pub const LAST_DESTINATION: &'static str = "last_destination";

pub const COOKIES_IMPORTED: &'static str = "cookies_imported";

} // verus!
