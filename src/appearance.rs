//! The light/dark theme preference.
use vstd::prelude::*;

verus! {

#[derive(Clone, Copy, Debug, PartialEq, Eq, Structural)]
pub enum Appearance {
    Light,
    Dark,
}

impl Appearance {
    /// The stable tag of the appearance: "Light" or "Dark".
    pub fn name(&self) -> (r: String)
        ensures
            r@ == self.spec_name(),
    {
        match self {
            Appearance::Light => String::from_str("Light"),
            Appearance::Dark => String::from_str("Dark"),
        }
    }

    pub open spec fn spec_name(&self) -> Seq<char> {
        match self {
            Appearance::Light => "Light"@,
            Appearance::Dark => "Dark"@,
        }
    }
}

/// The appearance that the "apps use light theme" setting selects. `None`
/// stands for a setting that was never written (or could not be read): the
/// system default, which is light. The dark theme is chosen only by a stored
/// value other than 1.
pub fn appearance_from_setting(apps_use_light_theme: Option<u32>) -> (r: Appearance)
    ensures
        r == (match apps_use_light_theme {
            Some(v) if v != 1 => Appearance::Dark,
            _ => Appearance::Light,
        }),
{
    match apps_use_light_theme {
        Some(v) => if v == 1 {
            Appearance::Light
        } else {
            Appearance::Dark
        },
        None => Appearance::Light,
    }
}

} // verus!
