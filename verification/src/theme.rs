use vstd::prelude::*;

verus! {

/// The colour scheme the user has chosen.
#[derive(Debug, Clone, Copy, PartialEq, Eq, Structural)]
pub enum ThemeMode {
    Light,
    Dark,
    Night,
}

/// The display name of a theme mode.
pub open spec fn mode_name(mode: ThemeMode) -> Seq<char> {
    match mode {
        ThemeMode::Light => "Light"@,
        ThemeMode::Dark => "Dark"@,
        ThemeMode::Night => "Night"@,
    }
}

impl ThemeMode {
    pub fn name(&self) -> (name: &'static str)
        ensures
            name@ == mode_name(*self),
    {
        match self {
            ThemeMode::Light => "Light",
            ThemeMode::Dark => "Dark",
            ThemeMode::Night => "Night",
        }
    }
}


/// A colour as a 24-bit `0xRRGGBB` value; the UI layer turns it into its own
/// colour type when it paints.
pub type Rgb = u32;

/// The colours of a theme, as `(background, text, text_muted)`.
pub open spec fn palette(mode: ThemeMode) -> (Rgb, Rgb, Rgb) {
    match mode {
        ThemeMode::Light => (0xffffff, 0x09090b, 0x71717a),
        ThemeMode::Dark => (0x18181b, 0xf4f4f5, 0xa1a1aa),
        ThemeMode::Night => (0x000000, 0xfafafa, 0x85858e),
    }
}

/// A complete theme: its mode, its display name and its colours.
#[derive(Clone, Debug)]
pub struct Theme {
    pub mode: ThemeMode,
    pub name: String,
    pub background: Rgb,
    pub text: Rgb,
    pub text_muted: Rgb,
}

impl Theme {
    /// Whether this theme is exactly the built-in theme for `mode`.
    pub open spec fn is_builtin(&self, mode: ThemeMode) -> bool {
        &&& self.mode == mode
        &&& self.name@ == mode_name(mode)
        &&& (self.background, self.text, self.text_muted) == palette(mode)
    }

    /// The built-in theme for `mode`.
    pub fn for_mode(mode: ThemeMode) -> (theme: Self)
        ensures
            theme.is_builtin(mode),
    {
        match mode {
            ThemeMode::Light => Self::light(),
            ThemeMode::Dark => Self::dark(),
            ThemeMode::Night => Self::night(),
        }
    }

    pub fn light() -> (theme: Self)
        ensures
            theme.is_builtin(ThemeMode::Light),
    {
        Theme {
            mode: ThemeMode::Light,
            name: "Light".to_owned(),
            background: 0xffffff,
            text: 0x09090b,
            text_muted: 0x71717a,
        }
    }

    pub fn dark() -> (theme: Self)
        ensures
            theme.is_builtin(ThemeMode::Dark),
    {
        Theme {
            mode: ThemeMode::Dark,
            name: "Dark".to_owned(),
            background: 0x18181b,
            text: 0xf4f4f5,
            text_muted: 0xa1a1aa,
        }
    }

    pub fn night() -> (theme: Self)
        ensures
            theme.is_builtin(ThemeMode::Night),
    {
        Theme {
            mode: ThemeMode::Night,
            name: "Night".to_owned(),
            background: 0x000000,
            text: 0xfafafa,
            text_muted: 0x85858e,
        }
    }
}

/// Each mode has a name of its own, and a theme is the built-in theme of at
/// most one mode: the theme that `Theme::for_mode(mode)` gives carries the
/// name that `mode.name()` returns, and no other mode's.
pub proof fn lemma_builtin_themes_are_distinct(theme: Theme, m1: ThemeMode, m2: ThemeMode)
    ensures
        mode_name(m1) == mode_name(m2) ==> m1 == m2,
        theme.is_builtin(m1) && theme.is_builtin(m2) ==> m1 == m2,
        theme.is_builtin(m1) ==> theme.name@ == mode_name(m1),
{
    reveal_strlit("Light");
    reveal_strlit("Dark");
    reveal_strlit("Night");
    if mode_name(m1) == mode_name(m2) && m1 != m2 {
        assert(mode_name(m1).len() == mode_name(m2).len());
        assert(mode_name(m1)[0] == mode_name(m2)[0]);
    }
}

} // verus!
