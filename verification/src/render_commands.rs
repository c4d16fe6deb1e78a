//! The typed render commands a layout pass emits, one per drawing
//! instruction, consumed in order by a renderer.

use vstd::prelude::*;

use crate::color::Color;
use crate::math::{BoundingBox, Dimensions};

verus! {

/// The tag of a render command.
#[derive(Debug, Clone, Copy, PartialEq, Eq)]
pub enum RenderCommandType {
    /// An empty command; nothing is drawn.
    NoCommand,
    Rectangle,
    Border,
    Text,
    Image,
    ScissorStart,
    ScissorEnd,
    Custom,
}

/// Corner radii of an element, in layout units.
#[derive(Debug, Clone, Copy, PartialEq, Eq)]
pub struct CornerRadii {
    pub top_left: u16,
    pub top_right: u16,
    pub bottom_left: u16,
    pub bottom_right: u16,
}

impl CornerRadii {
    pub open spec fn spec_default() -> CornerRadii {
        CornerRadii { top_left: 0, top_right: 0, bottom_left: 0, bottom_right: 0 }
    }
}

impl Default for CornerRadii {
    /// Square corners.
    fn default() -> (c: CornerRadii)
        ensures
            c == CornerRadii::spec_default(),
    {
        CornerRadii { top_left: 0, top_right: 0, bottom_left: 0, bottom_right: 0 }
    }
}

/// Border widths for each side of an element, in layout units.
#[derive(Debug, Clone, Copy, PartialEq, Eq)]
pub struct BorderWidth {
    pub left: u16,
    pub right: u16,
    pub top: u16,
    pub bottom: u16,
    /// Width of the lines drawn between adjacent children.
    pub between_children: u16,
}

impl BorderWidth {
    pub open spec fn spec_default() -> BorderWidth {
        BorderWidth { left: 0, right: 0, top: 0, bottom: 0, between_children: 0 }
    }
}

impl Default for BorderWidth {
    /// No border on any side.
    fn default() -> (w: BorderWidth)
        ensures
            w == BorderWidth::spec_default(),
    {
        BorderWidth { left: 0, right: 0, top: 0, bottom: 0, between_children: 0 }
    }
}

/// A filled rectangle with rounded corners.
#[derive(Debug, Clone, Copy, PartialEq, Eq)]
pub struct Rectangle {
    pub color: Color,
    pub corner_radii: CornerRadii,
}

/// A run of text with its styling.
#[derive(Debug, Clone, Copy, PartialEq, Eq)]
pub struct Text<'render> {
    pub text: &'render str,
    pub color: Color,
    pub font_id: u16,
    pub font_size: u16,
    pub letter_spacing: u16,
    pub line_height: u16,
}

/// A border drawn along the edges of an element.
#[derive(Debug, Clone, Copy, PartialEq, Eq)]
pub struct Border {
    pub color: Color,
    pub corner_radii: CornerRadii,
    pub width: BorderWidth,
}

/// An image placed by the layout, carrying the host's image data.
#[derive(Debug)]
pub struct Image<'render, ImageElementData> {
    pub dimensions: Dimensions,
    pub data: Option<&'render ImageElementData>,
}

/// A host-drawn element, carrying the host's custom data.
#[derive(Debug)]
pub struct Custom<'render, CustomElementData> {
    pub background_color: Color,
    pub corner_radii: CornerRadii,
    pub data: Option<&'render CustomElementData>,
}

/// The payload of one render command.
#[derive(Debug)]
pub enum RenderCommandConfig<'render, ImageElementData, CustomElementData> {
    /// An empty command; nothing is drawn.
    NoCommand,
    Rectangle(Rectangle),
    Border(Border),
    Text(Text<'render>),
    Image(Image<'render, ImageElementData>),
    /// Starts clipping to the command's bounding box.
    ScissorStart,
    /// Ends the innermost clip.
    ScissorEnd,
    Custom(Custom<'render, CustomElementData>),
}

impl<'render, ImageElementData, CustomElementData> RenderCommandConfig<
    'render,
    ImageElementData,
    CustomElementData,
> {
    /// The tag that classifies this payload.
    pub open spec fn spec_command_type(&self) -> RenderCommandType {
        match self {
            RenderCommandConfig::NoCommand => RenderCommandType::NoCommand,
            RenderCommandConfig::Rectangle(_) => RenderCommandType::Rectangle,
            RenderCommandConfig::Border(_) => RenderCommandType::Border,
            RenderCommandConfig::Text(_) => RenderCommandType::Text,
            RenderCommandConfig::Image(_) => RenderCommandType::Image,
            RenderCommandConfig::ScissorStart => RenderCommandType::ScissorStart,
            RenderCommandConfig::ScissorEnd => RenderCommandType::ScissorEnd,
            RenderCommandConfig::Custom(_) => RenderCommandType::Custom,
        }
    }

    /// Returns the tag that classifies this payload.
    pub fn command_type(&self) -> (t: RenderCommandType)
        ensures
            t == self.spec_command_type(),
    {
        match self {
            RenderCommandConfig::NoCommand => RenderCommandType::NoCommand,
            RenderCommandConfig::Rectangle(_) => RenderCommandType::Rectangle,
            RenderCommandConfig::Border(_) => RenderCommandType::Border,
            RenderCommandConfig::Text(_) => RenderCommandType::Text,
            RenderCommandConfig::Image(_) => RenderCommandType::Image,
            RenderCommandConfig::ScissorStart => RenderCommandType::ScissorStart,
            RenderCommandConfig::ScissorEnd => RenderCommandType::ScissorEnd,
            RenderCommandConfig::Custom(_) => RenderCommandType::Custom,
        }
    }
}

/// One drawing instruction from a layout pass.
#[derive(Debug)]
pub struct RenderCommand<'render, ImageElementData, CustomElementData> {
    /// The rectangle the instruction applies to.
    pub bounding_box: BoundingBox,
    /// What to draw there.
    pub config: RenderCommandConfig<'render, ImageElementData, CustomElementData>,
    /// The id of the element the instruction came from.
    pub id: u32,
    /// Stacking order: higher values are drawn above lower ones.
    pub z_index: i16,
}

} // verus!
