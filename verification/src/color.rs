use vstd::prelude::*;

verus! {

/// An RGBA color, eight bits per channel.
#[derive(Clone, Copy, Debug, PartialEq, Eq, Structural)]
pub struct Color32 {
    pub r: u8,
    pub g: u8,
    pub b: u8,
    pub a: u8,
}

impl Color32 {
    pub fn new(r: u8, g: u8, b: u8, a: u8) -> (c: Color32)
        ensures
            c == (Color32 { r, g, b, a }),
    {
        Color32 { r, g, b, a }
    }
}

/// The four slots of the host theme that a highlight color can be drawn
/// from.
#[derive(Clone, Copy, Debug, PartialEq, Eq, Structural)]
pub enum VisualsVariant {
    HoverBackground,
    HoverForeground,
    SelectedBackground,
    SelectedForeground,
}

/// The palette of the active theme, read once at the start of a frame.
/// Each field holds the color the theme gives for the matching
/// [`VisualsVariant`] slot.
#[derive(Clone, Copy, Debug, PartialEq, Eq, Structural)]
pub struct Visuals {
    pub hover_bg: Color32,
    pub hover_fg: Color32,
    pub selected_bg: Color32,
    pub selected_fg: Color32,
}

/// How a highlight color is chosen: not painted at all, taken from a slot
/// of the active theme, or a fixed color.
#[derive(Clone, Copy, Debug, PartialEq, Eq, Structural)]
pub enum TabColor {
    Nothing,
    VisualsDefault(VisualsVariant),
    Custom(Color32),
}

impl TabColor {
    /// What this policy yields against the given palette: `Nothing` yields
    /// no color, a theme slot yields that slot's current value, and a
    /// custom color yields itself whatever the theme holds.
    pub open spec fn resolved(self, visuals: Visuals) -> Option<Color32> {
        match self {
            TabColor::Nothing => None,
            TabColor::VisualsDefault(VisualsVariant::HoverBackground) => Some(visuals.hover_bg),
            TabColor::VisualsDefault(VisualsVariant::HoverForeground) => Some(visuals.hover_fg),
            TabColor::VisualsDefault(VisualsVariant::SelectedBackground) => {
                Some(visuals.selected_bg)
            },
            TabColor::VisualsDefault(VisualsVariant::SelectedForeground) => {
                Some(visuals.selected_fg)
            },
            TabColor::Custom(c) => Some(c),
        }
    }

    pub fn custom(color: Color32) -> (tc: Self)
        ensures
            tc == TabColor::Custom(color),
    {
        TabColor::Custom(color)
    }

    pub fn visuals(variant: VisualsVariant) -> (tc: Self)
        ensures
            tc == TabColor::VisualsDefault(variant),
    {
        TabColor::VisualsDefault(variant)
    }

    pub fn none() -> (tc: Self)
        ensures
            tc == TabColor::Nothing,
    {
        TabColor::Nothing
    }

    /// Resolve this policy against the palette of the active theme.
    pub fn color(&self, visuals: &Visuals) -> (c: Option<Color32>)
        ensures
            c == self.resolved(*visuals),
    {
        match self {
            TabColor::Nothing => None,
            TabColor::VisualsDefault(VisualsVariant::HoverBackground) => Some(visuals.hover_bg),
            TabColor::VisualsDefault(VisualsVariant::HoverForeground) => Some(visuals.hover_fg),
            TabColor::VisualsDefault(VisualsVariant::SelectedBackground) => {
                Some(visuals.selected_bg)
            },
            TabColor::VisualsDefault(VisualsVariant::SelectedForeground) => {
                Some(visuals.selected_fg)
            },
            TabColor::Custom(c) => Some(*c),
        }
    }
}

} // verus!
