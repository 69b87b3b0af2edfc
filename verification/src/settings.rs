//! The browser client's locally kept settings. Reading and writing the
//! actual storage is I/O and lives with the embedding program; this module
//! holds the value and its two accessors.

use vstd::prelude::*;

verus! {

/// Everything the client remembers between visits.
#[derive(Debug, Clone, Copy, PartialEq, Eq, Structural)]
pub struct Settings {
    pub kiosk_mode: bool,
}

impl Default for Settings {
    fn default() -> (r: Self)
        ensures
            !r.kiosk_mode,
    {
        Settings { kiosk_mode: false }
    }
}

/// Whether the client runs in kiosk mode.
pub fn is_kiosk_mode(settings: &Settings) -> (r: bool)
    ensures
        r == settings.kiosk_mode,
{
    settings.kiosk_mode
}

/// Turns kiosk mode on or off, leaving everything else as it was.
pub fn set_kiosk_mode(settings: &mut Settings, active: bool)
    ensures
        final(settings).kiosk_mode == active,
{
    settings.kiosk_mode = active;
}

} // verus!
