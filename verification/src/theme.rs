//! Theme management.
//!
//! The chosen theme is kept in browser storage under [`STORAGE_KEY`] and shown
//! by one class on the document's root element.

use crate::text::same;
use vstd::prelude::*;

verus! {

/// Theme options
#[derive(Clone, Copy, Debug, PartialEq, Eq, Structural)]
pub enum Theme {
    System,
    Light,
    Dark,
    Oled,
}

impl Default for Theme {
    fn default() -> (r: Self)
        ensures
            r == Theme::System,
    {
        Theme::System
    }
}

/// Where browser storage keeps the theme.
pub const STORAGE_KEY: &'static str = "hifi-theme";

impl Theme {
    /// The name under which a theme is stored.
    pub open spec fn name(self) -> Seq<char> {
        match self {
            Theme::System => "system"@,
            Theme::Light => "light"@,
            Theme::Dark => "dark"@,
            Theme::Oled => "oled"@,
        }
    }

    /// The theme that a stored name stands for; an unknown name stands for
    /// `System`.
    pub open spec fn named(name: Seq<char>) -> Theme {
        if name == "light"@ {
            Theme::Light
        } else if name == "dark"@ {
            Theme::Dark
        } else if name == "oled"@ {
            Theme::Oled
        } else {
            Theme::System
        }
    }

    /// The class that shows a theme; `System` has none.
    pub open spec fn class(self) -> Seq<char> {
        match self {
            Theme::System => ""@,
            Theme::Light => "theme-light"@,
            Theme::Dark => "theme-dark"@,
            Theme::Oled => "theme-oled"@,
        }
    }

    pub fn as_str(&self) -> (r: &'static str)
        ensures
            r@ == self.name(),
    {
        match self {
            Theme::System => "system",
            Theme::Light => "light",
            Theme::Dark => "dark",
            Theme::Oled => "oled",
        }
    }

    pub fn parse(s: &str) -> (r: Self)
        ensures
            r == Theme::named(s@),
    {
        if same(s, "light") {
            Theme::Light
        } else if same(s, "dark") {
            Theme::Dark
        } else if same(s, "oled") {
            Theme::Oled
        } else {
            Theme::System
        }
    }

    pub fn label(&self) -> (r: &'static str)
        ensures
            r@ == (match *self {
                Theme::System => "System"@,
                Theme::Light => "Light"@,
                Theme::Dark => "Dark"@,
                Theme::Oled => "OLED Black"@,
            }),
    {
        match self {
            Theme::System => "System",
            Theme::Light => "Light",
            Theme::Dark => "Dark",
            Theme::Oled => "OLED Black",
        }
    }

    /// CSS class to apply to :root (empty for system)
    pub fn css_class(&self) -> (r: &'static str)
        ensures
            r@ == self.class(),
    {
        match self {
            Theme::System => "",
            Theme::Light => "theme-light",
            Theme::Dark => "theme-dark",
            Theme::Oled => "theme-oled",
        }
    }

    /// The sentence under the theme picker.
    pub fn description(&self) -> (r: &'static str)
        ensures
            r@ == (match *self {
                Theme::System => "Using your system's color scheme preference."@,
                Theme::Light => "Light theme for bright environments."@,
                Theme::Dark => "The HiPhi look: navy surfaces, cyan accent. Default theme."@,
                Theme::Oled => "Pure black theme for AMOLED displays."@,
            }),
    {
        match self {
            Theme::System => "Using your system's color scheme preference.",
            Theme::Light => "Light theme for bright environments.",
            Theme::Dark => "The HiPhi look: navy surfaces, cyan accent. Default theme.",
            Theme::Oled => "Pure black theme for AMOLED displays.",
        }
    }

    /// The class of a theme's button in the picker.
    pub fn button_class(&self, current: Theme) -> (r: &'static str)
        ensures
            r@ == (if current == *self {
                "btn-primary py-3"@
            } else {
                "btn-outline py-3"@
            }),
    {
        if current == *self {
            "btn-primary py-3"
        } else {
            "btn-outline py-3"
        }
    }
}

/// The class to put on the root element once the theme classes are removed.
pub fn root_class(theme: Theme) -> (r: Option<&'static str>)
    ensures
        match r {
            Some(class) => theme != Theme::System && class@ == theme.class(),
            None => theme == Theme::System,
        },
{
    match theme {
        Theme::System => None,
        Theme::Light => Some("theme-light"),
        Theme::Dark => Some("theme-dark"),
        Theme::Oled => Some("theme-oled"),
    }
}

/// The theme that every component reads.
#[derive(Clone, Copy, Debug, PartialEq, Eq, Structural)]
pub struct ThemeContext {
    pub current: Theme,
}

impl ThemeContext {
    /// The context before storage has been read.
    pub fn new() -> (r: Self)
        ensures
            r.current == Theme::System,
    {
        ThemeContext { current: Theme::System }
    }

    /// Get current theme
    pub fn get(&self) -> (r: Theme)
        ensures
            r == self.current,
    {
        self.current
    }

    /// Sets the theme and gives the name to keep in storage.
    pub fn set(&mut self, theme: Theme) -> (stored: &'static str)
        ensures
            final(self).current == theme,
            stored@ == theme.name(),
    {
        self.current = theme;
        theme.as_str()
    }

    /// Takes over what storage holds: the named theme, or `System` where there is
    /// nothing.
    pub fn restore(&mut self, stored: Option<&str>)
        ensures
            final(self).current == (match stored {
                Some(name) => Theme::named(name@),
                None => Theme::System,
            }),
    {
        self.current = match stored {
            Some(name) => Theme::parse(name),
            None => Theme::System,
        };
    }
}

/// A stored theme is read back as the theme that was stored.
pub proof fn theme_name_round_trip(theme: Theme)
    ensures
        Theme::named(theme.name()) == theme,
{
    reveal_strlit("system");
    reveal_strlit("light");
    reveal_strlit("dark");
    reveal_strlit("oled");
    assert("system"@.len() == 6 && "light"@.len() == 5 && "dark"@.len() == 4 && "oled"@.len() == 4);
    assert("dark"@[0] == 'd' && "oled"@[0] == 'o');
}

/// Only the four stored names are told apart: every other text reads as `System`.
pub proof fn unknown_theme_is_system(name: Seq<char>)
    requires
        forall|t: Theme| name != #[trigger] t.name(),
    ensures
        Theme::named(name) == Theme::System,
{
    assert(name != Theme::Light.name());
    assert(name != Theme::Dark.name());
    assert(name != Theme::Oled.name());
}

/// Three names stand for a theme of their own, every other for the system's, and the
/// class of a theme is its name behind a common word; the system's has none.
pub proof fn themes_go_by_their_names(theme: Theme, name: Seq<char>)
    ensures
        Theme::named(name) == Theme::Light <==> name == "light"@,
        Theme::named(name) == Theme::Dark <==> name == "dark"@,
        Theme::named(name) == Theme::Oled <==> name == "oled"@,
        theme == Theme::System ==> theme.class().len() == 0,
        theme != Theme::System ==> theme.class() == "theme-"@ + theme.name(),
{
    reveal_strlit("");
    reveal_strlit("light");
    reveal_strlit("dark");
    reveal_strlit("oled");
    reveal_strlit("theme-");
    reveal_strlit("theme-light");
    reveal_strlit("theme-dark");
    reveal_strlit("theme-oled");
    assert("light"@[0] == 'l' && "dark"@[0] == 'd' && "oled"@[0] == 'o');
    if theme != Theme::System {
        assert(theme.class() =~= "theme-"@ + theme.name());
    }
}

} // verus!
