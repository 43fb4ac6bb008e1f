//! Colour themes: the closed set of theme kinds and the palette of each.

use vstd::prelude::*;

verus! {

/// The themes a user can pick.
#[derive(Debug, Clone, Copy, PartialEq, Eq, Structural)]
pub enum ThemeType {
    Pink,
    Purple,
    Cyberpunk,
    Matrix,
    Retro,
}

impl Default for ThemeType {
    /// The theme used when none was chosen.
    fn default() -> (r: Self)
        ensures
            r == ThemeType::Purple,
    {
        ThemeType::Purple
    }
}

impl ThemeType {
    /// The display name of a theme, as a sequence of characters.
    pub open spec fn spec_name(self) -> Seq<char> {
        match self {
            ThemeType::Pink => "🌸 Pink Puff"@,
            ThemeType::Purple => "💜 Purple Vibes"@,
            ThemeType::Cyberpunk => "🌆 Cyberpunk"@,
            ThemeType::Matrix => "🔋 Matrix"@,
            ThemeType::Retro => "🌈 Retro Wave"@,
        }
    }

    /// Every theme, in the order in which a selector lists them.
    pub open spec fn spec_all() -> Seq<ThemeType> {
        seq![
            ThemeType::Pink,
            ThemeType::Purple,
            ThemeType::Cyberpunk,
            ThemeType::Matrix,
            ThemeType::Retro,
        ]
    }

    /// The display name of this theme.
    pub fn name(&self) -> (r: &'static str)
        ensures
            r@ == self.spec_name(),
    {
        match self {
            ThemeType::Pink => "🌸 Pink Puff",
            ThemeType::Purple => "💜 Purple Vibes",
            ThemeType::Cyberpunk => "🌆 Cyberpunk",
            ThemeType::Matrix => "🔋 Matrix",
            ThemeType::Retro => "🌈 Retro Wave",
        }
    }

    /// All themes, each exactly once.
    pub fn all() -> (r: Vec<ThemeType>)
        ensures
            r@ == Self::spec_all(),
    {
        let mut v: Vec<ThemeType> = Vec::new();
        v.push(ThemeType::Pink);
        v.push(ThemeType::Purple);
        v.push(ThemeType::Cyberpunk);
        v.push(ThemeType::Matrix);
        v.push(ThemeType::Retro);
        assert(v@ =~= Self::spec_all());
        v
    }

    /// Every theme occurs in the list of all themes, and none occurs twice.
    pub proof fn lemma_all_is_complete(t: ThemeType)
        ensures
            Self::spec_all().contains(t),
            Self::spec_all().no_duplicates(),
    {
        let all = Self::spec_all();
        assert(all[0] == ThemeType::Pink);
        assert(all[1] == ThemeType::Purple);
        assert(all[2] == ThemeType::Cyberpunk);
        assert(all[3] == ThemeType::Matrix);
        assert(all[4] == ThemeType::Retro);
    }
}

/// A colour, by its red, green and blue parts.
#[derive(Debug, Clone, Copy, PartialEq, Eq, Structural)]
pub struct Rgb {
    pub r: u8,
    pub g: u8,
    pub b: u8,
}

/// The palette and the shape of one theme. Lengths are in points.
#[derive(Debug, Clone, Copy, PartialEq, Eq, Structural)]
pub struct Theme {
    pub bg_primary: Rgb,
    pub bg_secondary: Rgb,
    pub bg_tertiary: Rgb,
    pub panel_bg: Rgb,
    pub panel_stroke: Rgb,
    pub button_bg: Rgb,
    pub button_bg_hovered: Rgb,
    pub button_bg_active: Rgb,
    pub button_text: Rgb,
    pub accent_primary: Rgb,
    pub accent_secondary: Rgb,
    pub accent_tertiary: Rgb,
    pub text_primary: Rgb,
    pub text_secondary: Rgb,
    pub text_disabled: Rgb,
    pub success: Rgb,
    pub warning: Rgb,
    pub error: Rgb,
    /// Radius of rounded corners.
    pub rounding: u8,
    /// Width of borders.
    pub border_width: u8,
}

impl Theme {
    /// The palette of each theme.
    pub open spec fn spec_from_type(theme_type: ThemeType) -> Theme {
        match theme_type {
            ThemeType::Pink => Theme {
                bg_primary: Rgb { r: 255, g: 240, b: 250 },
                bg_secondary: Rgb { r: 252, g: 228, b: 244 },
                bg_tertiary: Rgb { r: 248, g: 216, b: 238 },
                panel_bg: Rgb { r: 255, g: 235, b: 248 },
                panel_stroke: Rgb { r: 255, g: 182, b: 217 },
                button_bg: Rgb { r: 255, g: 192, b: 227 },
                button_bg_hovered: Rgb { r: 255, g: 167, b: 214 },
                button_bg_active: Rgb { r: 255, g: 142, b: 201 },
                button_text: Rgb { r: 139, g: 69, b: 116 },
                accent_primary: Rgb { r: 255, g: 105, b: 180 },
                accent_secondary: Rgb { r: 255, g: 182, b: 217 },
                accent_tertiary: Rgb { r: 255, g: 218, b: 240 },
                text_primary: Rgb { r: 139, g: 69, b: 116 },
                text_secondary: Rgb { r: 169, g: 99, b: 146 },
                text_disabled: Rgb { r: 199, g: 129, b: 176 },
                success: Rgb { r: 144, g: 238, b: 144 },
                warning: Rgb { r: 255, g: 218, b: 185 },
                error: Rgb { r: 255, g: 182, b: 193 },
                rounding: 15,
                border_width: 2,
            },
            ThemeType::Purple => Theme {
                bg_primary: Rgb { r: 240, g: 235, b: 255 },
                bg_secondary: Rgb { r: 230, g: 220, b: 255 },
                bg_tertiary: Rgb { r: 220, g: 205, b: 255 },
                panel_bg: Rgb { r: 235, g: 225, b: 255 },
                panel_stroke: Rgb { r: 186, g: 164, b: 255 },
                button_bg: Rgb { r: 186, g: 164, b: 255 },
                button_bg_hovered: Rgb { r: 161, g: 134, b: 255 },
                button_bg_active: Rgb { r: 136, g: 104, b: 255 },
                button_text: Rgb { r: 75, g: 0, b: 130 },
                accent_primary: Rgb { r: 138, g: 43, b: 226 },
                accent_secondary: Rgb { r: 186, g: 164, b: 255 },
                accent_tertiary: Rgb { r: 221, g: 210, b: 255 },
                text_primary: Rgb { r: 75, g: 0, b: 130 },
                text_secondary: Rgb { r: 105, g: 30, b: 160 },
                text_disabled: Rgb { r: 135, g: 60, b: 190 },
                success: Rgb { r: 144, g: 238, b: 144 },
                warning: Rgb { r: 255, g: 218, b: 185 },
                error: Rgb { r: 255, g: 182, b: 193 },
                rounding: 20,
                border_width: 3,
            },
            ThemeType::Cyberpunk => Theme {
                bg_primary: Rgb { r: 10, g: 10, b: 15 },
                bg_secondary: Rgb { r: 15, g: 15, b: 25 },
                bg_tertiary: Rgb { r: 20, g: 20, b: 35 },
                panel_bg: Rgb { r: 12, g: 12, b: 20 },
                panel_stroke: Rgb { r: 0, g: 255, b: 255 },
                button_bg: Rgb { r: 30, g: 30, b: 50 },
                button_bg_hovered: Rgb { r: 40, g: 40, b: 70 },
                button_bg_active: Rgb { r: 0, g: 255, b: 255 },
                button_text: Rgb { r: 0, g: 255, b: 255 },
                accent_primary: Rgb { r: 255, g: 0, b: 255 },
                accent_secondary: Rgb { r: 0, g: 255, b: 255 },
                accent_tertiary: Rgb { r: 255, g: 255, b: 0 },
                text_primary: Rgb { r: 0, g: 255, b: 255 },
                text_secondary: Rgb { r: 255, g: 0, b: 255 },
                text_disabled: Rgb { r: 100, g: 100, b: 150 },
                success: Rgb { r: 0, g: 255, b: 0 },
                warning: Rgb { r: 255, g: 255, b: 0 },
                error: Rgb { r: 255, g: 0, b: 0 },
                rounding: 5,
                border_width: 2,
            },
            ThemeType::Matrix => Theme {
                bg_primary: Rgb { r: 0, g: 0, b: 0 },
                bg_secondary: Rgb { r: 5, g: 10, b: 5 },
                bg_tertiary: Rgb { r: 10, g: 20, b: 10 },
                panel_bg: Rgb { r: 2, g: 8, b: 2 },
                panel_stroke: Rgb { r: 0, g: 255, b: 0 },
                button_bg: Rgb { r: 0, g: 50, b: 0 },
                button_bg_hovered: Rgb { r: 0, g: 80, b: 0 },
                button_bg_active: Rgb { r: 0, g: 255, b: 0 },
                button_text: Rgb { r: 0, g: 255, b: 0 },
                accent_primary: Rgb { r: 0, g: 255, b: 0 },
                accent_secondary: Rgb { r: 50, g: 255, b: 50 },
                accent_tertiary: Rgb { r: 100, g: 255, b: 100 },
                text_primary: Rgb { r: 0, g: 255, b: 0 },
                text_secondary: Rgb { r: 0, g: 200, b: 0 },
                text_disabled: Rgb { r: 0, g: 100, b: 0 },
                success: Rgb { r: 0, g: 255, b: 0 },
                warning: Rgb { r: 255, g: 255, b: 0 },
                error: Rgb { r: 255, g: 0, b: 0 },
                rounding: 0,
                border_width: 1,
            },
            ThemeType::Retro => Theme {
                bg_primary: Rgb { r: 25, g: 10, b: 50 },
                bg_secondary: Rgb { r: 35, g: 20, b: 70 },
                bg_tertiary: Rgb { r: 45, g: 30, b: 90 },
                panel_bg: Rgb { r: 30, g: 15, b: 60 },
                panel_stroke: Rgb { r: 255, g: 20, b: 147 },
                button_bg: Rgb { r: 60, g: 30, b: 120 },
                button_bg_hovered: Rgb { r: 80, g: 50, b: 140 },
                button_bg_active: Rgb { r: 255, g: 20, b: 147 },
                button_text: Rgb { r: 255, g: 255, b: 255 },
                accent_primary: Rgb { r: 255, g: 20, b: 147 },
                accent_secondary: Rgb { r: 0, g: 255, b: 255 },
                accent_tertiary: Rgb { r: 255, g: 255, b: 0 },
                text_primary: Rgb { r: 255, g: 255, b: 255 },
                text_secondary: Rgb { r: 255, g: 20, b: 147 },
                text_disabled: Rgb { r: 150, g: 150, b: 150 },
                success: Rgb { r: 0, g: 255, b: 127 },
                warning: Rgb { r: 255, g: 215, b: 0 },
                error: Rgb { r: 255, g: 69, b: 0 },
                rounding: 8,
                border_width: 2,
            },
        }
    }

    /// A window is drawn on a dark ground when the red part of the primary
    /// background is below 50.
    pub open spec fn spec_is_dark(self) -> bool {
        self.bg_primary.r < 50
    }

    /// The palette of a theme.
    pub fn from_type(theme_type: ThemeType) -> (r: Theme)
        ensures
            r == Self::spec_from_type(theme_type),
    {
        match theme_type {
            ThemeType::Pink => Self::pink_puff(),
            ThemeType::Purple => Self::purple_vibes(),
            ThemeType::Cyberpunk => Self::cyberpunk(),
            ThemeType::Matrix => Self::matrix(),
            ThemeType::Retro => Self::retro_wave(),
        }
    }

    fn pink_puff() -> (r: Theme)
        ensures
            r == Self::spec_from_type(ThemeType::Pink),
    {
        Theme {
            bg_primary: Rgb { r: 255, g: 240, b: 250 },
            bg_secondary: Rgb { r: 252, g: 228, b: 244 },
            bg_tertiary: Rgb { r: 248, g: 216, b: 238 },
            panel_bg: Rgb { r: 255, g: 235, b: 248 },
            panel_stroke: Rgb { r: 255, g: 182, b: 217 },
            button_bg: Rgb { r: 255, g: 192, b: 227 },
            button_bg_hovered: Rgb { r: 255, g: 167, b: 214 },
            button_bg_active: Rgb { r: 255, g: 142, b: 201 },
            button_text: Rgb { r: 139, g: 69, b: 116 },
            accent_primary: Rgb { r: 255, g: 105, b: 180 },
            accent_secondary: Rgb { r: 255, g: 182, b: 217 },
            accent_tertiary: Rgb { r: 255, g: 218, b: 240 },
            text_primary: Rgb { r: 139, g: 69, b: 116 },
            text_secondary: Rgb { r: 169, g: 99, b: 146 },
            text_disabled: Rgb { r: 199, g: 129, b: 176 },
            success: Rgb { r: 144, g: 238, b: 144 },
            warning: Rgb { r: 255, g: 218, b: 185 },
            error: Rgb { r: 255, g: 182, b: 193 },
            rounding: 15,
            border_width: 2,
        }
    }

    fn purple_vibes() -> (r: Theme)
        ensures
            r == Self::spec_from_type(ThemeType::Purple),
    {
        Theme {
            bg_primary: Rgb { r: 240, g: 235, b: 255 },
            bg_secondary: Rgb { r: 230, g: 220, b: 255 },
            bg_tertiary: Rgb { r: 220, g: 205, b: 255 },
            panel_bg: Rgb { r: 235, g: 225, b: 255 },
            panel_stroke: Rgb { r: 186, g: 164, b: 255 },
            button_bg: Rgb { r: 186, g: 164, b: 255 },
            button_bg_hovered: Rgb { r: 161, g: 134, b: 255 },
            button_bg_active: Rgb { r: 136, g: 104, b: 255 },
            button_text: Rgb { r: 75, g: 0, b: 130 },
            accent_primary: Rgb { r: 138, g: 43, b: 226 },
            accent_secondary: Rgb { r: 186, g: 164, b: 255 },
            accent_tertiary: Rgb { r: 221, g: 210, b: 255 },
            text_primary: Rgb { r: 75, g: 0, b: 130 },
            text_secondary: Rgb { r: 105, g: 30, b: 160 },
            text_disabled: Rgb { r: 135, g: 60, b: 190 },
            success: Rgb { r: 144, g: 238, b: 144 },
            warning: Rgb { r: 255, g: 218, b: 185 },
            error: Rgb { r: 255, g: 182, b: 193 },
            rounding: 20,
            border_width: 3,
        }
    }

    fn cyberpunk() -> (r: Theme)
        ensures
            r == Self::spec_from_type(ThemeType::Cyberpunk),
    {
        Theme {
            bg_primary: Rgb { r: 10, g: 10, b: 15 },
            bg_secondary: Rgb { r: 15, g: 15, b: 25 },
            bg_tertiary: Rgb { r: 20, g: 20, b: 35 },
            panel_bg: Rgb { r: 12, g: 12, b: 20 },
            panel_stroke: Rgb { r: 0, g: 255, b: 255 },
            button_bg: Rgb { r: 30, g: 30, b: 50 },
            button_bg_hovered: Rgb { r: 40, g: 40, b: 70 },
            button_bg_active: Rgb { r: 0, g: 255, b: 255 },
            button_text: Rgb { r: 0, g: 255, b: 255 },
            accent_primary: Rgb { r: 255, g: 0, b: 255 },
            accent_secondary: Rgb { r: 0, g: 255, b: 255 },
            accent_tertiary: Rgb { r: 255, g: 255, b: 0 },
            text_primary: Rgb { r: 0, g: 255, b: 255 },
            text_secondary: Rgb { r: 255, g: 0, b: 255 },
            text_disabled: Rgb { r: 100, g: 100, b: 150 },
            success: Rgb { r: 0, g: 255, b: 0 },
            warning: Rgb { r: 255, g: 255, b: 0 },
            error: Rgb { r: 255, g: 0, b: 0 },
            rounding: 5,
            border_width: 2,
        }
    }

    fn matrix() -> (r: Theme)
        ensures
            r == Self::spec_from_type(ThemeType::Matrix),
    {
        Theme {
            bg_primary: Rgb { r: 0, g: 0, b: 0 },
            bg_secondary: Rgb { r: 5, g: 10, b: 5 },
            bg_tertiary: Rgb { r: 10, g: 20, b: 10 },
            panel_bg: Rgb { r: 2, g: 8, b: 2 },
            panel_stroke: Rgb { r: 0, g: 255, b: 0 },
            button_bg: Rgb { r: 0, g: 50, b: 0 },
            button_bg_hovered: Rgb { r: 0, g: 80, b: 0 },
            button_bg_active: Rgb { r: 0, g: 255, b: 0 },
            button_text: Rgb { r: 0, g: 255, b: 0 },
            accent_primary: Rgb { r: 0, g: 255, b: 0 },
            accent_secondary: Rgb { r: 50, g: 255, b: 50 },
            accent_tertiary: Rgb { r: 100, g: 255, b: 100 },
            text_primary: Rgb { r: 0, g: 255, b: 0 },
            text_secondary: Rgb { r: 0, g: 200, b: 0 },
            text_disabled: Rgb { r: 0, g: 100, b: 0 },
            success: Rgb { r: 0, g: 255, b: 0 },
            warning: Rgb { r: 255, g: 255, b: 0 },
            error: Rgb { r: 255, g: 0, b: 0 },
            rounding: 0,
            border_width: 1,
        }
    }

    fn retro_wave() -> (r: Theme)
        ensures
            r == Self::spec_from_type(ThemeType::Retro),
    {
        Theme {
            bg_primary: Rgb { r: 25, g: 10, b: 50 },
            bg_secondary: Rgb { r: 35, g: 20, b: 70 },
            bg_tertiary: Rgb { r: 45, g: 30, b: 90 },
            panel_bg: Rgb { r: 30, g: 15, b: 60 },
            panel_stroke: Rgb { r: 255, g: 20, b: 147 },
            button_bg: Rgb { r: 60, g: 30, b: 120 },
            button_bg_hovered: Rgb { r: 80, g: 50, b: 140 },
            button_bg_active: Rgb { r: 255, g: 20, b: 147 },
            button_text: Rgb { r: 255, g: 255, b: 255 },
            accent_primary: Rgb { r: 255, g: 20, b: 147 },
            accent_secondary: Rgb { r: 0, g: 255, b: 255 },
            accent_tertiary: Rgb { r: 255, g: 255, b: 0 },
            text_primary: Rgb { r: 255, g: 255, b: 255 },
            text_secondary: Rgb { r: 255, g: 20, b: 147 },
            text_disabled: Rgb { r: 150, g: 150, b: 150 },
            success: Rgb { r: 0, g: 255, b: 127 },
            warning: Rgb { r: 255, g: 215, b: 0 },
            error: Rgb { r: 255, g: 69, b: 0 },
            rounding: 8,
            border_width: 2,
        }
    }

    /// Whether widgets are to start from the toolkit's dark defaults.
    pub fn is_dark(&self) -> (r: bool)
        ensures
            r == self.spec_is_dark(),
    {
        self.bg_primary.r < 50
    }

    /// Radius of a window's corners: five points more than that of a widget.
    pub fn window_rounding(&self) -> (r: u16)
        ensures
            r == self.rounding + 5,
    {
        let base: u16 = self.rounding as u16;
        base + 5
    }

    /// Fill of a list row: the primary accent when the row is selected, the
    /// secondary background when it is not.
    pub fn row_fill(&self, selected: bool) -> (r: Rgb)
        ensures
            r == if selected {
                self.accent_primary
            } else {
                self.bg_secondary
            },
    {
        if selected {
            self.accent_primary
        } else {
            self.bg_secondary
        }
    }

    /// Border of a list row: the secondary accent when the row is selected,
    /// the panel's border colour when it is not.
    pub fn row_stroke(&self, selected: bool) -> (r: Rgb)
        ensures
            r == if selected {
                self.accent_secondary
            } else {
                self.panel_stroke
            },
    {
        if selected {
            self.accent_secondary
        } else {
            self.panel_stroke
        }
    }

    /// Fill of a button that acts only while something is selected: `active`
    /// while it can be pressed, the colour of disabled text while it cannot.
    pub fn action_fill(&self, active: Rgb, enabled: bool) -> (r: Rgb)
        ensures
            r == if enabled {
                active
            } else {
                self.text_disabled
            },
    {
        if enabled {
            active
        } else {
            self.text_disabled
        }
    }

    /// The cyberpunk, matrix and retro themes are dark; pink and purple are
    /// light.
    pub proof fn lemma_dark_themes(theme_type: ThemeType)
        ensures
            Self::spec_from_type(theme_type).spec_is_dark() <==> (theme_type
                == ThemeType::Cyberpunk || theme_type == ThemeType::Matrix || theme_type
                == ThemeType::Retro),
    {
    }
}

} // verus!
