//! Application settings and their defaults. Reading and writing them is
//! the application's business.
use vstd::prelude::*;

verus! {

/// Key binding style.
#[derive(Debug, Clone, Copy, PartialEq, Eq, Structural)]
pub enum KeybindingMode {
    Vim,
    Emacs,
    Standard,
}

impl Default for KeybindingMode {
    fn default() -> (r: Self)
        ensures
            r == KeybindingMode::Vim,
    {
        KeybindingMode::Vim
    }
}

/// Editing settings.
#[derive(Debug, Clone)]
pub struct EditorConfig {
    /// Tab width in spaces.
    pub tab_size: usize,
    /// Indent with spaces rather than tabs.
    pub use_spaces: bool,
    pub soft_wrap: bool,
    /// Auto-save interval in seconds; 0 turns it off.
    pub auto_save: u64,
    pub auto_close_brackets: bool,
}

impl Default for EditorConfig {
    fn default() -> (r: Self)
        ensures
            r.tab_size == 4 && r.use_spaces && r.soft_wrap && r.auto_save == 0 && r.auto_close_brackets,
    {
        EditorConfig { tab_size: 4, use_spaces: true, soft_wrap: true, auto_save: 0, auto_close_brackets: true }
    }
}

/// Display settings.
#[derive(Debug, Clone)]
pub struct UiConfig {
    pub line_numbers: bool,
    pub minimap: bool,
    pub highlight_line: bool,
    pub indent_guides: bool,
    /// View mode at start: raw, rendered or split.
    pub default_view: String,
}

impl Default for UiConfig {
    fn default() -> (r: Self)
        ensures
            r.line_numbers && !r.minimap && r.highlight_line && r.indent_guides,
            r.default_view@ == "split"@,
    {
        UiConfig {
            line_numbers: true,
            minimap: false,
            highlight_line: true,
            indent_guides: true,
            default_view: String::from_str("split"),
        }
    }
}

/// Markdown settings.
#[derive(Debug, Clone)]
pub struct MarkdownConfig {
    /// Parser flavour: commonmark or gfm.
    pub flavor: String,
    pub render_emoji: bool,
    pub enable_math: bool,
    pub enable_mermaid: bool,
}

impl Default for MarkdownConfig {
    fn default() -> (r: Self)
        ensures
            r.flavor@ == "gfm"@,
            r.render_emoji && r.enable_math && r.enable_mermaid,
    {
        MarkdownConfig {
            flavor: String::from_str("gfm"),
            render_emoji: true,
            enable_math: true,
            enable_mermaid: true,
        }
    }
}

/// All application settings.
#[derive(Debug, Clone)]
pub struct Config {
    /// Color theme name.
    pub theme: String,
    pub editor: EditorConfig,
    pub ui: UiConfig,
    pub keybindings: KeybindingMode,
    pub markdown: MarkdownConfig,
}

impl Default for Config {
    fn default() -> (r: Self)
        ensures
            r.theme@ == "Dracula"@,
            r.editor.tab_size == 4 && r.editor.use_spaces && r.editor.soft_wrap && r.editor.auto_save == 0
                && r.editor.auto_close_brackets,
            r.ui.line_numbers && !r.ui.minimap && r.ui.highlight_line && r.ui.indent_guides,
            r.ui.default_view@ == "split"@,
            r.keybindings == KeybindingMode::Vim,
            r.markdown.flavor@ == "gfm"@,
            r.markdown.render_emoji && r.markdown.enable_math && r.markdown.enable_mermaid,
    {
        Config {
            theme: String::from_str("Dracula"),
            editor: EditorConfig::default(),
            ui: UiConfig::default(),
            keybindings: KeybindingMode::default(),
            markdown: MarkdownConfig::default(),
        }
    }
}

} // verus!
