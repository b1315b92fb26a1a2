//! The colour settings of the theme, with their defaults.

use vstd::prelude::*;

verus! {

/// The user's settings.
pub struct Config {
    pub theme: ThemeConfig,
}

/// Red, green and blue of each colour the theme lets the user set.
pub struct ThemeConfig {
    pub study: [u8; 3],
    pub break_color: [u8; 3],
    pub paused: [u8; 3],
    pub idle: [u8; 3],
    pub planned: [u8; 3],
    pub completed: [u8; 3],
}

pub open spec fn rgb(c: [u8; 3]) -> (u8, u8, u8) {
    (c[0], c[1], c[2])
}

fn default_study() -> (c: [u8; 3])
    ensures
        rgb(c) == (120u8, 200u8, 140u8),
{
    [120, 200, 140]
}

fn default_break() -> (c: [u8; 3])
    ensures
        rgb(c) == (100u8, 180u8, 220u8),
{
    [100, 180, 220]
}

fn default_paused() -> (c: [u8; 3])
    ensures
        rgb(c) == (200u8, 190u8, 80u8),
{
    [200, 190, 80]
}

fn default_idle() -> (c: [u8; 3])
    ensures
        rgb(c) == (140u8, 140u8, 150u8),
{
    [140, 140, 150]
}

fn default_planned() -> (c: [u8; 3])
    ensures
        rgb(c) == (50u8, 80u8, 60u8),
{
    [50, 80, 60]
}

fn default_completed() -> (c: [u8; 3])
    ensures
        rgb(c) == (40u8, 160u8, 80u8),
{
    [40, 160, 80]
}

/// The default theme.
pub open spec fn default_theme(t: ThemeConfig) -> bool {
    &&& rgb(t.study) == (120u8, 200u8, 140u8)
    &&& rgb(t.break_color) == (100u8, 180u8, 220u8)
    &&& rgb(t.paused) == (200u8, 190u8, 80u8)
    &&& rgb(t.idle) == (140u8, 140u8, 150u8)
    &&& rgb(t.planned) == (50u8, 80u8, 60u8)
    &&& rgb(t.completed) == (40u8, 160u8, 80u8)
}

impl Default for ThemeConfig {
    fn default() -> (t: ThemeConfig)
        ensures
            default_theme(t),
    {
        ThemeConfig {
            study: default_study(),
            break_color: default_break(),
            paused: default_paused(),
            idle: default_idle(),
            planned: default_planned(),
            completed: default_completed(),
        }
    }
}

impl Default for Config {
    fn default() -> (c: Config)
        ensures
            default_theme(c.theme),
    {
        Config { theme: ThemeConfig::default() }
    }
}

} // verus!
