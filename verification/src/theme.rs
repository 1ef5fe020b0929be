//! Colors and themes. The core treats a color as four plain channel values;
//! converting to a GUI toolkit's color type and serializing a theme to disk
//! are left to the surrounding application.

use vstd::prelude::*;
use crate::text::str_eq;

verus! {

/// An RGBA color with 8-bit channels.
#[derive(Clone, Copy, Debug, PartialEq, Eq, Structural)]
pub struct Rgba {
    pub r: u8,
    pub g: u8,
    pub b: u8,
    pub a: u8,
}

/// The opaque color with the given red, green and blue channels.
pub open spec fn opaque(r: u8, g: u8, b: u8) -> Rgba {
    Rgba { r, g, b, a: 255 }
}

impl Rgba {
    /// Builds a fully opaque color from its red, green and blue channels.
    pub fn from_rgb(r: u8, g: u8, b: u8) -> (c: Rgba)
        ensures
            c == opaque(r, g, b),
    {
        Rgba { r, g, b, a: 255 }
    }
}

/// A named color scheme: the three base colors plus per-token-class syntax
/// colors, keyed by token class name.
pub struct Theme {
    pub name: String,
    pub background: Rgba,
    pub foreground: Rgba,
    pub accent: Rgba,
    pub syntax_highlighting: Vec<(String, Rgba)>,
}

/// The fields the built-in dark theme must carry: dark gray background,
/// light gray foreground, blue accent, and syntax colors for the `keyword`
/// and `string` token classes.
pub open spec fn is_default_dark(t: Theme) -> bool {
    &&& t.name@ == "Default Dark"@
    &&& t.background == opaque(25, 25, 25)
    &&& t.foreground == opaque(220, 220, 220)
    &&& t.accent == opaque(100, 150, 255)
    &&& t.syntax_highlighting@.len() == 2
    &&& t.syntax_highlighting@[0].0@ == "keyword"@
    &&& t.syntax_highlighting@[0].1 == opaque(255, 100, 100)
    &&& t.syntax_highlighting@[1].0@ == "string"@
    &&& t.syntax_highlighting@[1].1 == opaque(100, 255, 100)
}

/// Builds one instance of the built-in dark theme.
fn default_dark() -> (t: Theme)
    ensures
        is_default_dark(t),
{
    let mut syntax: Vec<(String, Rgba)> = Vec::new();
    syntax.push((String::from_str("keyword"), Rgba::from_rgb(255, 100, 100)));
    syntax.push((String::from_str("string"), Rgba::from_rgb(100, 255, 100)));
    Theme {
        name: String::from_str("Default Dark"),
        background: Rgba::from_rgb(25, 25, 25),
        foreground: Rgba::from_rgb(220, 220, 220),
        accent: Rgba::from_rgb(100, 150, 255),
        syntax_highlighting: syntax,
    }
}

/// The color the first pair with the given key carries, or the fallback when
/// no pair matches.
pub open spec fn syntax_lookup(pairs: Seq<(String, Rgba)>, key: Seq<char>, fallback: Rgba) -> Rgba
    decreases pairs.len(),
{
    if pairs.len() == 0 {
        fallback
    } else if pairs[0].0@ == key {
        pairs[0].1
    } else {
        syntax_lookup(pairs.drop_first(), key, fallback)
    }
}

/// When the pairs before `i` all miss and pair `i` matches, the lookup
/// returns pair `i`'s color.
proof fn lemma_syntax_lookup_hit(pairs: Seq<(String, Rgba)>, key: Seq<char>, fallback: Rgba, i: int)
    requires
        0 <= i < pairs.len(),
        forall|j: int| 0 <= j < i ==> pairs[j].0@ != key,
        pairs[i].0@ == key,
    ensures
        syntax_lookup(pairs, key, fallback) == pairs[i].1,
    decreases i,
{
    if i > 0 {
        lemma_syntax_lookup_hit(pairs.drop_first(), key, fallback, i - 1);
    }
}

/// When every pair misses, the lookup returns the fallback.
proof fn lemma_syntax_lookup_miss(pairs: Seq<(String, Rgba)>, key: Seq<char>, fallback: Rgba)
    requires
        forall|j: int| 0 <= j < pairs.len() ==> pairs[j].0@ != key,
    ensures
        syntax_lookup(pairs, key, fallback) == fallback,
    decreases pairs.len(),
{
    if pairs.len() > 0 {
        lemma_syntax_lookup_miss(pairs.drop_first(), key, fallback);
    }
}

/// Owns the active theme and the list of known themes.
pub struct ThemeManager {
    pub current_theme: Theme,
    pub themes: Vec<Theme>,
}

impl ThemeManager {
    /// Builds the manager with the built-in dark theme active and listed as
    /// the only known theme.
    pub fn load_default() -> (m: ThemeManager)
        ensures
            is_default_dark(m.current_theme),
            m.themes@.len() == 1,
            is_default_dark(m.themes@[0]),
    {
        let current_theme = default_dark();
        let mut themes: Vec<Theme> = Vec::new();
        themes.push(default_dark());
        ThemeManager { current_theme, themes }
    }

    /// Returns the active theme's color for the given token class, falling
    /// back to the foreground color for classes the theme does not name.
    pub fn get_syntax_color(&self, token_type: &str) -> (c: Rgba)
        ensures
            c == syntax_lookup(
                self.current_theme.syntax_highlighting@,
                token_type@,
                self.current_theme.foreground,
            ),
    {
        let pairs = &self.current_theme.syntax_highlighting;
        let n = pairs.len();
        let mut i: usize = 0;
        while i < n
            invariant
                i <= n,
                n == pairs@.len(),
                pairs == &self.current_theme.syntax_highlighting,
                forall|j: int| 0 <= j < i ==> pairs@[j].0@ != token_type@,
        decreases n - i,
        {
            if str_eq(pairs[i].0.as_str(), token_type) {
                proof {
                    lemma_syntax_lookup_hit(
                        pairs@,
                        token_type@,
                        self.current_theme.foreground,
                        i as int,
                    );
                }
                return pairs[i].1;
            }
            i = i + 1;
        }
        proof {
            lemma_syntax_lookup_miss(pairs@, token_type@, self.current_theme.foreground);
        }
        self.current_theme.foreground
    }
}

} // verus!
