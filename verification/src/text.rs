//! Text element configuration.

use vstd::prelude::*;

use crate::color::Color;

verus! {

/// How a text element wraps.
#[derive(Debug, Clone, Copy, PartialEq, Eq)]
pub enum TextElementConfigWrapMode {
    /// Wraps on whitespace, keeping words whole.
    Words,
    /// Wraps only on newline characters.
    Newline,
    /// Never wraps; text may overflow its parent.
    NoWrap,
}

/// How a text element aligns its lines.
#[derive(Debug, Clone, Copy, PartialEq, Eq)]
pub enum TextAlignment {
    Left,
    Center,
    Right,
}

/// The styling of a text element, assembled through chained setter calls
/// and sealed by [`TextConfig::end`].
#[derive(Debug, Clone, Copy, PartialEq, Eq)]
pub struct TextConfig {
    pub color: Color,
    /// The engine does not manage fonts: the host assigns each font a
    /// unique id and interprets it again when rendering.
    pub font_id: u16,
    pub font_size: u16,
    /// Spacing between letters, in layout units.
    pub letter_spacing: u16,
    /// Height of each line, in layout units.
    pub line_height: u16,
    pub wrap_mode: TextElementConfigWrapMode,
    /// Whether the engine may cache measurements by hashing the text's
    /// contents.
    pub hash_string_contents: bool,
    pub alignment: TextAlignment,
}

impl TextConfig {
    pub open spec fn spec_default() -> TextConfig {
        TextConfig {
            color: Color::spec_default(),
            font_id: 0,
            font_size: 0,
            letter_spacing: 0,
            line_height: 0,
            wrap_mode: TextElementConfigWrapMode::Words,
            hash_string_contents: true,
            alignment: TextAlignment::Left,
        }
    }

    /// Creates a configuration with default values.
    pub fn new() -> (t: TextConfig)
        ensures
            t == TextConfig::spec_default(),
    {
        TextConfig::default()
    }

    /// Sets the text color; every other setting is kept.
    pub fn color(self, color: Color) -> (t: TextConfig)
        ensures
            t == (TextConfig { color, ..self }),
    {
        TextConfig { color, ..self }
    }

    /// Sets the font id; every other setting is kept.
    pub fn font_id(self, id: u16) -> (t: TextConfig)
        ensures
            t == (TextConfig { font_id: id, ..self }),
    {
        TextConfig { font_id: id, ..self }
    }

    /// Sets the font size; every other setting is kept.
    pub fn font_size(self, size: u16) -> (t: TextConfig)
        ensures
            t == (TextConfig { font_size: size, ..self }),
    {
        TextConfig { font_size: size, ..self }
    }

    /// Sets the letter spacing; every other setting is kept.
    pub fn letter_spacing(self, spacing: u16) -> (t: TextConfig)
        ensures
            t == (TextConfig { letter_spacing: spacing, ..self }),
    {
        TextConfig { letter_spacing: spacing, ..self }
    }

    /// Sets the line height; every other setting is kept.
    pub fn line_height(self, height: u16) -> (t: TextConfig)
        ensures
            t == (TextConfig { line_height: height, ..self }),
    {
        TextConfig { line_height: height, ..self }
    }

    /// Sets whether measurements may be cached by content hash; every
    /// other setting is kept.
    pub fn hash_string_contents(self, do_hash: bool) -> (t: TextConfig)
        ensures
            t == (TextConfig { hash_string_contents: do_hash, ..self }),
    {
        TextConfig { hash_string_contents: do_hash, ..self }
    }

    /// Sets the wrap mode; every other setting is kept.
    pub fn wrap_mode(self, mode: TextElementConfigWrapMode) -> (t: TextConfig)
        ensures
            t == (TextConfig { wrap_mode: mode, ..self }),
    {
        TextConfig { wrap_mode: mode, ..self }
    }

    /// Sets the alignment; every other setting is kept.
    pub fn alignment(self, alignment: TextAlignment) -> (t: TextConfig)
        ensures
            t == (TextConfig { alignment, ..self }),
    {
        TextConfig { alignment, ..self }
    }

    /// Seals the configuration for use in a text declaration.
    pub fn end(&self) -> (c: TextElementConfig)
        ensures
            c.config == *self,
    {
        TextElementConfig { config: *self }
    }
}

impl Default for TextConfig {
    /// Transparent color, zero sizes, wrapping on words, caching by
    /// content hash, aligned left.
    fn default() -> (t: TextConfig)
        ensures
            t == TextConfig::spec_default(),
    {
        TextConfig {
            color: Color { r: 0, g: 0, b: 0, a: 0 },
            font_id: 0,
            font_size: 0,
            letter_spacing: 0,
            line_height: 0,
            wrap_mode: TextElementConfigWrapMode::Words,
            hash_string_contents: true,
            alignment: TextAlignment::Left,
        }
    }
}

/// A sealed text configuration, ready to be attached to a text element.
#[derive(Debug, Clone, Copy, PartialEq, Eq)]
pub struct TextElementConfig {
    pub config: TextConfig,
}

} // verus!
