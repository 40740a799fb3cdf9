use vstd::prelude::*;

verus! {

/// Backlight
///
/// ```toml
/// [backlight]
/// brightness = 108
/// timeout = "15s"
/// ```
#[derive(Debug, Clone, Copy, PartialEq, Eq, Structural)]
pub struct BacklightOptions {
    /// Screen brightness, defaults to 108 (max 120)
    pub brightness: u32,
    /// Timeout before screen turns off, in milliseconds; defaults to 15 s
    pub timeout: u64,
}

impl Default for BacklightOptions {
    fn default() -> (o: Self)
        ensures
            o == (BacklightOptions { brightness: 108, timeout: 15_000 }),
    {
        BacklightOptions { brightness: 108, timeout: 15_000 }
    }
}

} // verus!
