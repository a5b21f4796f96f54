//! The desktop color scheme recorded in the configuration.

use vstd::prelude::*;

verus! {

/// The color scheme a desktop can present.
#[derive(Clone, Copy, Debug, PartialEq, Eq, Structural)]
pub enum ColorScheme {
    /// Dark mode.
    Dark,
    /// Light mode.
    Light,
    /// Unspecified: follow whatever the desktop decides.
    Default,
}

impl Default for ColorScheme {
    fn default() -> (r: Self)
        ensures
            r == ColorScheme::Default,
    {
        ColorScheme::Default
    }
}

impl ColorScheme {
    /// The color scheme currently saved in the given configuration
    /// snapshot.
    pub fn current(config: &crate::configuration::Configuration) -> (r: Self)
        ensures
            r == config.color_scheme,
    {
        config.color_scheme
    }
}

} // verus!
