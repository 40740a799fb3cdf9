//! Display options.

mod backlight_options;

pub use backlight_options::BacklightOptions;
