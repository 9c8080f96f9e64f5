//! Editor colors and the built-in color themes.
use vstd::prelude::*;

use crate::text::{lower_of, lowercase, str_is};

verus! {

/// An RGBA color.
#[derive(Debug, Clone, Copy, PartialEq, Eq, Structural)]
pub struct Color {
    pub r: u8,
    pub g: u8,
    pub b: u8,
    pub a: u8,
}

impl Color {
    /// An opaque color.
    pub fn rgb(r: u8, g: u8, b: u8) -> (c: Self)
        ensures
            c == (Color { r, g, b, a: 255 }),
    {
        Color { r, g, b, a: 255 }
    }

    pub fn rgba(r: u8, g: u8, b: u8, a: u8) -> (c: Self)
        ensures
            c == (Color { r, g, b, a }),
    {
        Color { r, g, b, a }
    }
}

/// An editor color theme.
#[derive(Debug, Clone)]
pub struct Theme {
    pub name: String,
    pub is_dark: bool,
    // Background
    pub bg_primary: Color,
    pub bg_secondary: Color,
    pub bg_selection: Color,
    pub bg_line_highlight: Color,
    // Text
    pub fg_primary: Color,
    pub fg_secondary: Color,
    pub fg_muted: Color,
    // Syntax
    pub syntax_keyword: Color,
    pub syntax_string: Color,
    pub syntax_number: Color,
    pub syntax_comment: Color,
    pub syntax_function: Color,
    pub syntax_type: Color,
    pub syntax_operator: Color,
    // Markdown
    pub md_heading: Color,
    pub md_bold: Color,
    pub md_italic: Color,
    pub md_link: Color,
    pub md_code: Color,
    pub md_blockquote: Color,
    // Interface
    pub ui_border: Color,
    pub ui_cursor: Color,
    pub ui_line_number: Color,
    pub ui_status_bar: Color,
}

/// The colors of a theme, in field order.
pub open spec fn theme_colors(t: Theme) -> Seq<Color> {
    seq![
        t.bg_primary,
        t.bg_secondary,
        t.bg_selection,
        t.bg_line_highlight,
        t.fg_primary,
        t.fg_secondary,
        t.fg_muted,
        t.syntax_keyword,
        t.syntax_string,
        t.syntax_number,
        t.syntax_comment,
        t.syntax_function,
        t.syntax_type,
        t.syntax_operator,
        t.md_heading,
        t.md_bold,
        t.md_italic,
        t.md_link,
        t.md_code,
        t.md_blockquote,
        t.ui_border,
        t.ui_cursor,
        t.ui_line_number,
        t.ui_status_bar,
    ]
}

/// The colors of the Dracula theme, in field order.
pub open spec fn dracula_colors() -> Seq<Color> {
    seq![
        Color { r: 40, g: 42, b: 54, a: 255 },
        Color { r: 68, g: 71, b: 90, a: 255 },
        Color { r: 68, g: 71, b: 90, a: 180 },
        Color { r: 49, g: 51, b: 65, a: 255 },
        Color { r: 248, g: 248, b: 242, a: 255 },
        Color { r: 189, g: 147, b: 249, a: 255 },
        Color { r: 98, g: 114, b: 164, a: 255 },
        Color { r: 255, g: 121, b: 198, a: 255 },
        Color { r: 241, g: 250, b: 140, a: 255 },
        Color { r: 189, g: 147, b: 249, a: 255 },
        Color { r: 98, g: 114, b: 164, a: 255 },
        Color { r: 80, g: 250, b: 123, a: 255 },
        Color { r: 139, g: 233, b: 253, a: 255 },
        Color { r: 255, g: 121, b: 198, a: 255 },
        Color { r: 189, g: 147, b: 249, a: 255 },
        Color { r: 255, g: 184, b: 108, a: 255 },
        Color { r: 241, g: 250, b: 140, a: 255 },
        Color { r: 139, g: 233, b: 253, a: 255 },
        Color { r: 80, g: 250, b: 123, a: 255 },
        Color { r: 98, g: 114, b: 164, a: 255 },
        Color { r: 68, g: 71, b: 90, a: 255 },
        Color { r: 248, g: 248, b: 242, a: 255 },
        Color { r: 98, g: 114, b: 164, a: 255 },
        Color { r: 68, g: 71, b: 90, a: 255 },
    ]
}

/// The colors of the One Dark theme, in field order.
pub open spec fn one_dark_colors() -> Seq<Color> {
    seq![
        Color { r: 40, g: 44, b: 52, a: 255 },
        Color { r: 33, g: 37, b: 43, a: 255 },
        Color { r: 62, g: 68, b: 81, a: 180 },
        Color { r: 44, g: 49, b: 58, a: 255 },
        Color { r: 171, g: 178, b: 191, a: 255 },
        Color { r: 97, g: 175, b: 239, a: 255 },
        Color { r: 92, g: 99, b: 112, a: 255 },
        Color { r: 198, g: 120, b: 221, a: 255 },
        Color { r: 152, g: 195, b: 121, a: 255 },
        Color { r: 209, g: 154, b: 102, a: 255 },
        Color { r: 92, g: 99, b: 112, a: 255 },
        Color { r: 97, g: 175, b: 239, a: 255 },
        Color { r: 229, g: 192, b: 123, a: 255 },
        Color { r: 86, g: 182, b: 194, a: 255 },
        Color { r: 224, g: 108, b: 117, a: 255 },
        Color { r: 209, g: 154, b: 102, a: 255 },
        Color { r: 152, g: 195, b: 121, a: 255 },
        Color { r: 97, g: 175, b: 239, a: 255 },
        Color { r: 152, g: 195, b: 121, a: 255 },
        Color { r: 92, g: 99, b: 112, a: 255 },
        Color { r: 62, g: 68, b: 81, a: 255 },
        Color { r: 171, g: 178, b: 191, a: 255 },
        Color { r: 76, g: 82, b: 99, a: 255 },
        Color { r: 33, g: 37, b: 43, a: 255 },
    ]
}

/// The colors of the Solarized Light theme, in field order.
pub open spec fn solarized_light_colors() -> Seq<Color> {
    seq![
        Color { r: 253, g: 246, b: 227, a: 255 },
        Color { r: 238, g: 232, b: 213, a: 255 },
        Color { r: 7, g: 54, b: 66, a: 40 },
        Color { r: 238, g: 232, b: 213, a: 255 },
        Color { r: 101, g: 123, b: 131, a: 255 },
        Color { r: 38, g: 139, b: 210, a: 255 },
        Color { r: 147, g: 161, b: 161, a: 255 },
        Color { r: 133, g: 153, b: 0, a: 255 },
        Color { r: 42, g: 161, b: 152, a: 255 },
        Color { r: 211, g: 54, b: 130, a: 255 },
        Color { r: 147, g: 161, b: 161, a: 255 },
        Color { r: 38, g: 139, b: 210, a: 255 },
        Color { r: 181, g: 137, b: 0, a: 255 },
        Color { r: 133, g: 153, b: 0, a: 255 },
        Color { r: 203, g: 75, b: 22, a: 255 },
        Color { r: 181, g: 137, b: 0, a: 255 },
        Color { r: 42, g: 161, b: 152, a: 255 },
        Color { r: 38, g: 139, b: 210, a: 255 },
        Color { r: 133, g: 153, b: 0, a: 255 },
        Color { r: 147, g: 161, b: 161, a: 255 },
        Color { r: 147, g: 161, b: 161, a: 255 },
        Color { r: 101, g: 123, b: 131, a: 255 },
        Color { r: 147, g: 161, b: 161, a: 255 },
        Color { r: 238, g: 232, b: 213, a: 255 },
    ]
}

/// `t` is the Dracula theme.
pub open spec fn is_dracula(t: Theme) -> bool {
    t.name@ == "Dracula"@ && t.is_dark && theme_colors(t) == dracula_colors()
}

/// `t` is the One Dark theme.
pub open spec fn is_one_dark(t: Theme) -> bool {
    t.name@ == "One Dark"@ && t.is_dark && theme_colors(t) == one_dark_colors()
}

/// `t` is the Solarized Light theme.
pub open spec fn is_solarized_light(t: Theme) -> bool {
    t.name@ == "Solarized Light"@ && !t.is_dark && theme_colors(t) == solarized_light_colors()
}

/// A lower-case name that selects One Dark.
pub open spec fn names_one_dark(lower: Seq<char>) -> bool {
    lower == "one dark"@ || lower == "one_dark"@ || lower == "onedark"@
}

/// A lower-case name that selects Solarized Light.
pub open spec fn names_solarized_light(lower: Seq<char>) -> bool {
    lower == "solarized light"@ || lower == "solarized_light"@
}

impl Theme {
    /// The Dracula theme (dark).
    pub fn dracula() -> (r: Self)
        ensures
            is_dracula(r),
    {
        let r = Theme {
            name: String::from_str("Dracula"),
            is_dark: true,
            bg_primary: Color::rgb(40, 42, 54),
            bg_secondary: Color::rgb(68, 71, 90),
            bg_selection: Color::rgba(68, 71, 90, 180),
            bg_line_highlight: Color::rgb(49, 51, 65),
            fg_primary: Color::rgb(248, 248, 242),
            fg_secondary: Color::rgb(189, 147, 249),
            fg_muted: Color::rgb(98, 114, 164),
            syntax_keyword: Color::rgb(255, 121, 198),
            syntax_string: Color::rgb(241, 250, 140),
            syntax_number: Color::rgb(189, 147, 249),
            syntax_comment: Color::rgb(98, 114, 164),
            syntax_function: Color::rgb(80, 250, 123),
            syntax_type: Color::rgb(139, 233, 253),
            syntax_operator: Color::rgb(255, 121, 198),
            md_heading: Color::rgb(189, 147, 249),
            md_bold: Color::rgb(255, 184, 108),
            md_italic: Color::rgb(241, 250, 140),
            md_link: Color::rgb(139, 233, 253),
            md_code: Color::rgb(80, 250, 123),
            md_blockquote: Color::rgb(98, 114, 164),
            ui_border: Color::rgb(68, 71, 90),
            ui_cursor: Color::rgb(248, 248, 242),
            ui_line_number: Color::rgb(98, 114, 164),
            ui_status_bar: Color::rgb(68, 71, 90),
        };
        assert(theme_colors(r) =~= dracula_colors());
        r
    }

    /// The One Dark theme (dark).
    pub fn one_dark() -> (r: Self)
        ensures
            is_one_dark(r),
    {
        let r = Theme {
            name: String::from_str("One Dark"),
            is_dark: true,
            bg_primary: Color::rgb(40, 44, 52),
            bg_secondary: Color::rgb(33, 37, 43),
            bg_selection: Color::rgba(62, 68, 81, 180),
            bg_line_highlight: Color::rgb(44, 49, 58),
            fg_primary: Color::rgb(171, 178, 191),
            fg_secondary: Color::rgb(97, 175, 239),
            fg_muted: Color::rgb(92, 99, 112),
            syntax_keyword: Color::rgb(198, 120, 221),
            syntax_string: Color::rgb(152, 195, 121),
            syntax_number: Color::rgb(209, 154, 102),
            syntax_comment: Color::rgb(92, 99, 112),
            syntax_function: Color::rgb(97, 175, 239),
            syntax_type: Color::rgb(229, 192, 123),
            syntax_operator: Color::rgb(86, 182, 194),
            md_heading: Color::rgb(224, 108, 117),
            md_bold: Color::rgb(209, 154, 102),
            md_italic: Color::rgb(152, 195, 121),
            md_link: Color::rgb(97, 175, 239),
            md_code: Color::rgb(152, 195, 121),
            md_blockquote: Color::rgb(92, 99, 112),
            ui_border: Color::rgb(62, 68, 81),
            ui_cursor: Color::rgb(171, 178, 191),
            ui_line_number: Color::rgb(76, 82, 99),
            ui_status_bar: Color::rgb(33, 37, 43),
        };
        assert(theme_colors(r) =~= one_dark_colors());
        r
    }

    /// The Solarized Light theme (light).
    pub fn solarized_light() -> (r: Self)
        ensures
            is_solarized_light(r),
    {
        let r = Theme {
            name: String::from_str("Solarized Light"),
            is_dark: false,
            bg_primary: Color::rgb(253, 246, 227),
            bg_secondary: Color::rgb(238, 232, 213),
            bg_selection: Color::rgba(7, 54, 66, 40),
            bg_line_highlight: Color::rgb(238, 232, 213),
            fg_primary: Color::rgb(101, 123, 131),
            fg_secondary: Color::rgb(38, 139, 210),
            fg_muted: Color::rgb(147, 161, 161),
            syntax_keyword: Color::rgb(133, 153, 0),
            syntax_string: Color::rgb(42, 161, 152),
            syntax_number: Color::rgb(211, 54, 130),
            syntax_comment: Color::rgb(147, 161, 161),
            syntax_function: Color::rgb(38, 139, 210),
            syntax_type: Color::rgb(181, 137, 0),
            syntax_operator: Color::rgb(133, 153, 0),
            md_heading: Color::rgb(203, 75, 22),
            md_bold: Color::rgb(181, 137, 0),
            md_italic: Color::rgb(42, 161, 152),
            md_link: Color::rgb(38, 139, 210),
            md_code: Color::rgb(133, 153, 0),
            md_blockquote: Color::rgb(147, 161, 161),
            ui_border: Color::rgb(147, 161, 161),
            ui_cursor: Color::rgb(101, 123, 131),
            ui_line_number: Color::rgb(147, 161, 161),
            ui_status_bar: Color::rgb(238, 232, 213),
        };
        assert(theme_colors(r) =~= solarized_light_colors());
        r
    }

    /// The theme a lower-case name selects; Dracula for any name it does not know.
    pub fn by_lowercase_name(lower: &str) -> (r: Self)
        ensures
            names_one_dark(lower@) ==> is_one_dark(r),
            names_solarized_light(lower@) ==> is_solarized_light(r),
            !names_one_dark(lower@) && !names_solarized_light(lower@) ==> is_dracula(r),
    {
        proof {
            reveal_strlit("dracula");
            reveal_strlit("one dark");
            reveal_strlit("one_dark");
            reveal_strlit("onedark");
            reveal_strlit("solarized light");
            reveal_strlit("solarized_light");
            assert("dracula"@[0] != "onedark"@[0]);
            assert("dracula"@.len() != "one dark"@.len() && "dracula"@.len() != "one_dark"@.len());
            assert("dracula"@.len() != "solarized light"@.len() && "dracula"@.len() != "solarized_light"@.len());
            assert("onedark"@.len() != "solarized light"@.len() && "one dark"@.len() != "solarized light"@.len());
        }
        if str_is(lower, "dracula") {
            Self::dracula()
        } else if str_is(lower, "one dark") || str_is(lower, "one_dark") || str_is(lower, "onedark") {
            Self::one_dark()
        } else if str_is(lower, "solarized light") || str_is(lower, "solarized_light") {
            Self::solarized_light()
        } else {
            Self::dracula()
        }
    }

    /// The theme a name selects, ignoring case; Dracula for any name it does not know.
    pub fn by_name(name: &str) -> (r: Self)
        ensures
            names_one_dark(lower_of(name@)) ==> is_one_dark(r),
            names_solarized_light(lower_of(name@)) ==> is_solarized_light(r),
            !names_one_dark(lower_of(name@)) && !names_solarized_light(lower_of(name@)) ==> is_dracula(r),
    {
        let lower = lowercase(name);
        Self::by_lowercase_name(lower.as_str())
    }

    /// The names of the built-in themes.
    pub fn available() -> (r: Vec<&'static str>)
        ensures
            r@.len() == 3,
            r@[0]@ == "Dracula"@,
            r@[1]@ == "One Dark"@,
            r@[2]@ == "Solarized Light"@,
    {
        let mut v: Vec<&'static str> = Vec::new();
        v.push("Dracula");
        v.push("One Dark");
        v.push("Solarized Light");
        v
    }
}

impl Default for Theme {
    fn default() -> (r: Self)
        ensures
            is_dracula(r),
    {
        Theme::dracula()
    }
}

} // verus!
