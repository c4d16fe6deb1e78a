//! Element configurations and the builders that write them into a
//! declaration: borders, images, floating elements and corner radii.

use vstd::prelude::*;

use crate::color::Color;
use crate::math::{Dimensions, Vector2};
use crate::render_commands::{BorderWidth, CornerRadii};
use crate::Declaration;

verus! {

/// The kinds of configuration an element can carry.
#[derive(Debug, Clone, Copy, PartialEq, Eq)]
pub enum ElementConfigType {
    Rectangle,
    BorderContainer,
    FloatingContainer,
    ScrollContainer,
    Image,
    Text,
    Custom,
    Id,
    Layout,
}

/// The point of an element or of its parent that a floating element is
/// anchored by.
#[derive(Debug, Clone, Copy, PartialEq, Eq)]
pub enum FloatingAttachPointType {
    LeftTop,
    LeftCenter,
    LeftBottom,
    CenterTop,
    CenterCenter,
    CenterBottom,
    RightTop,
    RightCenter,
    RightBottom,
}

/// How a floating element treats pointer input.
#[derive(Debug, Clone, Copy, PartialEq, Eq)]
pub enum PointerCaptureMode {
    /// The element captures pointer input over its area.
    Capture,
    /// Pointer input passes through to what lies beneath.
    Passthrough,
}

/// What a floating element is attached to.
#[derive(Debug, Clone, Copy, PartialEq, Eq)]
pub enum FloatingAttachToElement {
    /// Not attached: the element does not float.
    Unattached,
    /// Attached to its parent element.
    Parent,
    /// Attached to the element named by `parent_id`.
    ElementWithId,
    /// Attached to the root of the layout.
    Root,
}

/// Corner radii given either as one value for all four corners or corner
/// by corner.
#[derive(Debug, Clone, Copy, PartialEq, Eq)]
pub enum CornerRadius {
    /// The same radius on every corner.
    All(u16),
    Individual { top_left: u16, top_right: u16, bottom_left: u16, bottom_right: u16 },
}

impl CornerRadius {
    /// The four per-corner radii this value stands for.
    pub open spec fn spec_radii(self) -> CornerRadii {
        match self {
            CornerRadius::All(radius) => CornerRadii {
                top_left: radius,
                top_right: radius,
                bottom_left: radius,
                bottom_right: radius,
            },
            CornerRadius::Individual { top_left, top_right, bottom_left, bottom_right } => CornerRadii {
                top_left,
                top_right,
                bottom_left,
                bottom_right,
            },
        }
    }

    /// Spells this value out corner by corner.
    pub fn radii(&self) -> (r: CornerRadii)
        ensures
            r == self.spec_radii(),
    {
        match *self {
            CornerRadius::All(radius) => CornerRadii {
                top_left: radius,
                top_right: radius,
                bottom_left: radius,
                bottom_right: radius,
            },
            CornerRadius::Individual { top_left, top_right, bottom_left, bottom_right } => CornerRadii {
                top_left,
                top_right,
                bottom_left,
                bottom_right,
            },
        }
    }

    /// Reads four per-corner radii back, folding four equal corners into
    /// [`CornerRadius::All`].
    pub fn from_radii(radii: CornerRadii) -> (c: CornerRadius)
        ensures
            c.spec_radii() == radii,
            c is All <==> radii.top_left == radii.top_right
                && radii.top_right == radii.bottom_left
                && radii.bottom_left == radii.bottom_right,
    {
        if radii.top_left == radii.top_right && radii.top_right == radii.bottom_left
            && radii.bottom_left == radii.bottom_right {
            CornerRadius::All(radii.top_left)
        } else {
            CornerRadius::Individual {
                top_left: radii.top_left,
                top_right: radii.top_right,
                bottom_left: radii.bottom_left,
                bottom_right: radii.bottom_right,
            }
        }
    }
}

/// The floating portion of an element declaration.
#[derive(Debug, Clone, Copy, PartialEq, Eq)]
pub struct FloatingConfig {
    /// Offset from the attachment point.
    pub offset: Vector2,
    /// Minimum dimensions the floating element expands to.
    pub expand: Dimensions,
    pub z_index: i16,
    /// Id of the element floated over when attached by id.
    pub parent_id: u32,
    /// The attachment point on the floating element itself.
    pub attach_element: FloatingAttachPointType,
    /// The attachment point on what it floats over.
    pub attach_parent: FloatingAttachPointType,
    pub attach_to: FloatingAttachToElement,
    pub pointer_capture_mode: PointerCaptureMode,
}

impl FloatingConfig {
    pub open spec fn spec_default() -> FloatingConfig {
        FloatingConfig {
            offset: Vector2::spec_default(),
            expand: Dimensions::spec_default(),
            z_index: 0,
            parent_id: 0,
            attach_element: FloatingAttachPointType::LeftTop,
            attach_parent: FloatingAttachPointType::LeftTop,
            attach_to: FloatingAttachToElement::Unattached,
            pointer_capture_mode: PointerCaptureMode::Capture,
        }
    }
}

impl Default for FloatingConfig {
    /// Not floating: anchored top left, attached to nothing.
    fn default() -> (f: FloatingConfig)
        ensures
            f == FloatingConfig::spec_default(),
    {
        FloatingConfig {
            offset: Vector2 { x: 0, y: 0 },
            expand: Dimensions { width: 0, height: 0 },
            z_index: 0,
            parent_id: 0,
            attach_element: FloatingAttachPointType::LeftTop,
            attach_parent: FloatingAttachPointType::LeftTop,
            attach_to: FloatingAttachToElement::Unattached,
            pointer_capture_mode: PointerCaptureMode::Capture,
        }
    }
}

/// The image portion of an element declaration.
#[derive(Debug)]
pub struct ImageConfig<'render, ImageElementData> {
    pub data: Option<&'render ImageElementData>,
    pub source_dimensions: Dimensions,
}

impl<'render, ImageElementData> ImageConfig<'render, ImageElementData> {
    pub open spec fn spec_default() -> ImageConfig<'render, ImageElementData> {
        ImageConfig { data: None, source_dimensions: Dimensions::spec_default() }
    }
}

/// The clipping portion of an element declaration: which axes scroll and
/// how far the content is shifted.
#[derive(Debug, Clone, Copy, PartialEq, Eq)]
pub struct ClipConfig {
    pub horizontal: bool,
    pub vertical: bool,
    /// How far the clipped content is shifted, per axis.
    pub child_offset: Vector2,
}

impl ClipConfig {
    pub open spec fn spec_default() -> ClipConfig {
        ClipConfig { horizontal: false, vertical: false, child_offset: Vector2::spec_default() }
    }
}

impl Default for ClipConfig {
    /// No clipping on either axis.
    fn default() -> (c: ClipConfig)
        ensures
            c == ClipConfig::spec_default(),
    {
        ClipConfig { horizontal: false, vertical: false, child_offset: Vector2 { x: 0, y: 0 } }
    }
}

/// The border portion of an element declaration.
#[derive(Debug, Clone, Copy, PartialEq, Eq)]
pub struct BorderConfig {
    pub color: Color,
    pub width: BorderWidth,
}

impl BorderConfig {
    pub open spec fn spec_default() -> BorderConfig {
        BorderConfig { color: Color::spec_default(), width: BorderWidth::spec_default() }
    }
}

impl Default for BorderConfig {
    /// No border: zero widths, transparent color.
    fn default() -> (b: BorderConfig)
        ensures
            b == BorderConfig::spec_default(),
    {
        BorderConfig {
            color: Color { r: 0, g: 0, b: 0, a: 0 },
            width: BorderWidth { left: 0, right: 0, top: 0, bottom: 0, between_children: 0 },
        }
    }
}

/// Builder that writes border settings into a declaration. Obtained from
/// [`Declaration::border`]; [`BorderBuilder::end`] hands the declaration
/// back.
pub struct BorderBuilder<'render, ImageElementData, CustomElementData> {
    pub parent: Declaration<'render, ImageElementData, CustomElementData>,
}

impl<'render, ImageElementData, CustomElementData> BorderBuilder<
    'render,
    ImageElementData,
    CustomElementData,
> {
    /// Starts a border chain on `parent`.
    pub fn new(parent: Declaration<'render, ImageElementData, CustomElementData>) -> (b: Self)
        ensures
            b.parent == parent,
    {
        BorderBuilder { parent }
    }

    /// Sets the same border width on all four sides; the width between
    /// children and every other setting are kept.
    pub fn all_directions(self, width: u16) -> (b: Self)
        ensures
            b.parent == (Declaration {
                border: (BorderConfig {
                    width: (BorderWidth {
                        left: width,
                        right: width,
                        top: width,
                        bottom: width,
                        ..self.parent.border.width
                    }),
                    ..self.parent.border
                }),
                ..self.parent
            }),
    {
        BorderBuilder {
            parent: Declaration {
                border: BorderConfig {
                    width: BorderWidth {
                        left: width,
                        right: width,
                        top: width,
                        bottom: width,
                        ..self.parent.border.width
                    },
                    ..self.parent.border
                },
                ..self.parent
            },
        }
    }

    /// Sets the left border width; every other setting is kept.
    pub fn left(self, width: u16) -> (b: Self)
        ensures
            b.parent == (Declaration {
                border: (BorderConfig {
                    width: (BorderWidth { left: width, ..self.parent.border.width }),
                    ..self.parent.border
                }),
                ..self.parent
            }),
    {
        BorderBuilder {
            parent: Declaration {
                border: BorderConfig {
                    width: BorderWidth { left: width, ..self.parent.border.width },
                    ..self.parent.border
                },
                ..self.parent
            },
        }
    }

    /// Sets the right border width; every other setting is kept.
    pub fn right(self, width: u16) -> (b: Self)
        ensures
            b.parent == (Declaration {
                border: (BorderConfig {
                    width: (BorderWidth { right: width, ..self.parent.border.width }),
                    ..self.parent.border
                }),
                ..self.parent
            }),
    {
        BorderBuilder {
            parent: Declaration {
                border: BorderConfig {
                    width: BorderWidth { right: width, ..self.parent.border.width },
                    ..self.parent.border
                },
                ..self.parent
            },
        }
    }

    /// Sets the top border width; every other setting is kept.
    pub fn top(self, width: u16) -> (b: Self)
        ensures
            b.parent == (Declaration {
                border: (BorderConfig {
                    width: (BorderWidth { top: width, ..self.parent.border.width }),
                    ..self.parent.border
                }),
                ..self.parent
            }),
    {
        BorderBuilder {
            parent: Declaration {
                border: BorderConfig {
                    width: BorderWidth { top: width, ..self.parent.border.width },
                    ..self.parent.border
                },
                ..self.parent
            },
        }
    }

    /// Sets the bottom border width; every other setting is kept.
    pub fn bottom(self, width: u16) -> (b: Self)
        ensures
            b.parent == (Declaration {
                border: (BorderConfig {
                    width: (BorderWidth { bottom: width, ..self.parent.border.width }),
                    ..self.parent.border
                }),
                ..self.parent
            }),
    {
        BorderBuilder {
            parent: Declaration {
                border: BorderConfig {
                    width: BorderWidth { bottom: width, ..self.parent.border.width },
                    ..self.parent.border
                },
                ..self.parent
            },
        }
    }

    /// Sets the width of the lines drawn between adjacent children; every
    /// other setting is kept.
    pub fn between_children(self, width: u16) -> (b: Self)
        ensures
            b.parent == (Declaration {
                border: (BorderConfig {
                    width: (BorderWidth { between_children: width, ..self.parent.border.width }),
                    ..self.parent.border
                }),
                ..self.parent
            }),
    {
        BorderBuilder {
            parent: Declaration {
                border: BorderConfig {
                    width: BorderWidth { between_children: width, ..self.parent.border.width },
                    ..self.parent.border
                },
                ..self.parent
            },
        }
    }

    /// Sets the border color; every other setting is kept.
    pub fn color(self, color: Color) -> (b: Self)
        ensures
            b.parent == (Declaration {
                border: (BorderConfig { color, ..self.parent.border }),
                ..self.parent
            }),
    {
        BorderBuilder {
            parent: Declaration {
                border: BorderConfig { color, ..self.parent.border },
                ..self.parent
            },
        }
    }

    /// Hands the declaration back.
    pub fn end(self) -> (d: Declaration<'render, ImageElementData, CustomElementData>)
        ensures
            d == self.parent,
    {
        self.parent
    }
}

/// Builder that writes image settings into a declaration. Obtained from
/// [`Declaration::image`]; [`ImageBuilder::end`] hands the declaration
/// back.
pub struct ImageBuilder<'render, ImageElementData, CustomElementData> {
    pub parent: Declaration<'render, ImageElementData, CustomElementData>,
}

impl<'render, ImageElementData, CustomElementData> ImageBuilder<
    'render,
    ImageElementData,
    CustomElementData,
> {
    /// Starts an image chain on `parent`.
    pub fn new(parent: Declaration<'render, ImageElementData, CustomElementData>) -> (b: Self)
        ensures
            b.parent == parent,
    {
        ImageBuilder { parent }
    }

    /// Sets the source dimensions of the image; every other setting is kept.
    pub fn source_dimensions(self, dimensions: Dimensions) -> (b: Self)
        ensures
            b.parent == (Declaration {
                image: (ImageConfig { source_dimensions: dimensions, ..self.parent.image }),
                ..self.parent
            }),
    {
        ImageBuilder {
            parent: Declaration {
                image: ImageConfig { source_dimensions: dimensions, ..self.parent.image },
                ..self.parent
            },
        }
    }

    /// Sets the image data; every other setting is kept.
    pub fn data(self, data: &'render ImageElementData) -> (b: Self)
        ensures
            b.parent == (Declaration {
                image: (ImageConfig { data: Some(data), ..self.parent.image }),
                ..self.parent
            }),
    {
        ImageBuilder {
            parent: Declaration {
                image: ImageConfig { data: Some(data), ..self.parent.image },
                ..self.parent
            },
        }
    }

    /// Hands the declaration back.
    pub fn end(self) -> (d: Declaration<'render, ImageElementData, CustomElementData>)
        ensures
            d == self.parent,
    {
        self.parent
    }
}

/// Builder that writes floating settings into a declaration. Obtained from
/// [`Declaration::floating`]; [`FloatingBuilder::end`] hands the
/// declaration back.
pub struct FloatingBuilder<'render, ImageElementData, CustomElementData> {
    pub parent: Declaration<'render, ImageElementData, CustomElementData>,
}

impl<'render, ImageElementData, CustomElementData> FloatingBuilder<
    'render,
    ImageElementData,
    CustomElementData,
> {
    /// Starts a floating chain on `parent`.
    pub fn new(parent: Declaration<'render, ImageElementData, CustomElementData>) -> (b: Self)
        ensures
            b.parent == parent,
    {
        FloatingBuilder { parent }
    }

    /// Sets the offset from the attachment point; every other setting is
    /// kept.
    pub fn offset(self, offset: Vector2) -> (b: Self)
        ensures
            b.parent == (Declaration {
                floating: (FloatingConfig { offset, ..self.parent.floating }),
                ..self.parent
            }),
    {
        FloatingBuilder {
            parent: Declaration {
                floating: FloatingConfig { offset, ..self.parent.floating },
                ..self.parent
            },
        }
    }

    /// Sets the minimum dimensions the element expands to; every other
    /// setting is kept.
    pub fn dimensions(self, dimensions: Dimensions) -> (b: Self)
        ensures
            b.parent == (Declaration {
                floating: (FloatingConfig { expand: dimensions, ..self.parent.floating }),
                ..self.parent
            }),
    {
        FloatingBuilder {
            parent: Declaration {
                floating: FloatingConfig { expand: dimensions, ..self.parent.floating },
                ..self.parent
            },
        }
    }

    /// Sets the stacking order; every other setting is kept.
    pub fn z_index(self, z_index: i16) -> (b: Self)
        ensures
            b.parent == (Declaration {
                floating: (FloatingConfig { z_index, ..self.parent.floating }),
                ..self.parent
            }),
    {
        FloatingBuilder {
            parent: Declaration {
                floating: FloatingConfig { z_index, ..self.parent.floating },
                ..self.parent
            },
        }
    }

    /// Sets the id of the element floated over; every other setting is kept.
    pub fn parent_id(self, id: u32) -> (b: Self)
        ensures
            b.parent == (Declaration {
                floating: (FloatingConfig { parent_id: id, ..self.parent.floating }),
                ..self.parent
            }),
    {
        FloatingBuilder {
            parent: Declaration {
                floating: FloatingConfig { parent_id: id, ..self.parent.floating },
                ..self.parent
            },
        }
    }

    /// Sets the attachment points on the element and on what it floats
    /// over; every other setting is kept.
    pub fn attach_points(
        self,
        element: FloatingAttachPointType,
        parent: FloatingAttachPointType,
    ) -> (b: Self)
        ensures
            b.parent == (Declaration {
                floating: (FloatingConfig {
                    attach_element: element,
                    attach_parent: parent,
                    ..self.parent.floating
                }),
                ..self.parent
            }),
    {
        FloatingBuilder {
            parent: Declaration {
                floating: FloatingConfig {
                    attach_element: element,
                    attach_parent: parent,
                    ..self.parent.floating
                },
                ..self.parent
            },
        }
    }

    /// Sets what the element is attached to; every other setting is kept.
    pub fn attach_to(self, attach: FloatingAttachToElement) -> (b: Self)
        ensures
            b.parent == (Declaration {
                floating: (FloatingConfig { attach_to: attach, ..self.parent.floating }),
                ..self.parent
            }),
    {
        FloatingBuilder {
            parent: Declaration {
                floating: FloatingConfig { attach_to: attach, ..self.parent.floating },
                ..self.parent
            },
        }
    }

    /// Sets the pointer capture mode; every other setting is kept.
    pub fn pointer_capture_mode(self, mode: PointerCaptureMode) -> (b: Self)
        ensures
            b.parent == (Declaration {
                floating: (FloatingConfig { pointer_capture_mode: mode, ..self.parent.floating }),
                ..self.parent
            }),
    {
        FloatingBuilder {
            parent: Declaration {
                floating: FloatingConfig { pointer_capture_mode: mode, ..self.parent.floating },
                ..self.parent
            },
        }
    }

    /// Hands the declaration back.
    pub fn end(self) -> (d: Declaration<'render, ImageElementData, CustomElementData>)
        ensures
            d == self.parent,
    {
        self.parent
    }
}

/// Builder that writes corner radii into a declaration. Obtained from
/// [`Declaration::corner_radius`]; [`CornerRadiusBuilder::end`] hands the
/// declaration back.
pub struct CornerRadiusBuilder<'render, ImageElementData, CustomElementData> {
    pub parent: Declaration<'render, ImageElementData, CustomElementData>,
}

impl<'render, ImageElementData, CustomElementData> CornerRadiusBuilder<
    'render,
    ImageElementData,
    CustomElementData,
> {
    /// Starts a corner-radius chain on `parent`.
    pub fn new(parent: Declaration<'render, ImageElementData, CustomElementData>) -> (b: Self)
        ensures
            b.parent == parent,
    {
        CornerRadiusBuilder { parent }
    }

    /// Sets the top-left radius; every other setting is kept.
    pub fn top_left(self, radius: u16) -> (b: Self)
        ensures
            b.parent == (Declaration {
                corner_radius: (CornerRadii { top_left: radius, ..self.parent.corner_radius }),
                ..self.parent
            }),
    {
        CornerRadiusBuilder {
            parent: Declaration {
                corner_radius: CornerRadii { top_left: radius, ..self.parent.corner_radius },
                ..self.parent
            },
        }
    }

    /// Sets the top-right radius; every other setting is kept.
    pub fn top_right(self, radius: u16) -> (b: Self)
        ensures
            b.parent == (Declaration {
                corner_radius: (CornerRadii { top_right: radius, ..self.parent.corner_radius }),
                ..self.parent
            }),
    {
        CornerRadiusBuilder {
            parent: Declaration {
                corner_radius: CornerRadii { top_right: radius, ..self.parent.corner_radius },
                ..self.parent
            },
        }
    }

    /// Sets the bottom-left radius; every other setting is kept.
    pub fn bottom_left(self, radius: u16) -> (b: Self)
        ensures
            b.parent == (Declaration {
                corner_radius: (CornerRadii { bottom_left: radius, ..self.parent.corner_radius }),
                ..self.parent
            }),
    {
        CornerRadiusBuilder {
            parent: Declaration {
                corner_radius: CornerRadii { bottom_left: radius, ..self.parent.corner_radius },
                ..self.parent
            },
        }
    }

    /// Sets the bottom-right radius; every other setting is kept.
    pub fn bottom_right(self, radius: u16) -> (b: Self)
        ensures
            b.parent == (Declaration {
                corner_radius: (CornerRadii { bottom_right: radius, ..self.parent.corner_radius }),
                ..self.parent
            }),
    {
        CornerRadiusBuilder {
            parent: Declaration {
                corner_radius: CornerRadii { bottom_right: radius, ..self.parent.corner_radius },
                ..self.parent
            },
        }
    }

    /// Sets all four radii to the same value; every other setting is kept.
    pub fn all(self, radius: u16) -> (b: Self)
        ensures
            b.parent == (Declaration {
                corner_radius: (CornerRadii {
                    top_left: radius,
                    top_right: radius,
                    bottom_left: radius,
                    bottom_right: radius,
                }),
                ..self.parent
            }),
    {
        CornerRadiusBuilder {
            parent: Declaration {
                corner_radius: CornerRadii {
                    top_left: radius,
                    top_right: radius,
                    bottom_left: radius,
                    bottom_right: radius,
                },
                ..self.parent
            },
        }
    }

    /// Hands the declaration back.
    pub fn end(self) -> (d: Declaration<'render, ImageElementData, CustomElementData>)
        ensures
            d == self.parent,
    {
        self.parent
    }
}

/// A standalone scroll configuration: which axes of a container scroll.
#[derive(Debug, Clone, Copy, PartialEq, Eq)]
pub struct ScrollContainer {
    pub horizontal: bool,
    pub vertical: bool,
}

impl ScrollContainer {
    /// A container that scrolls on neither axis.
    pub fn new() -> (s: ScrollContainer)
        ensures
            s == (ScrollContainer { horizontal: false, vertical: false }),
    {
        ScrollContainer { horizontal: false, vertical: false }
    }

    /// Enables horizontal scrolling; the vertical setting is kept.
    pub fn horizontal(self) -> (s: ScrollContainer)
        ensures
            s == (ScrollContainer { horizontal: true, ..self }),
    {
        ScrollContainer { horizontal: true, ..self }
    }

    /// Enables vertical scrolling; the horizontal setting is kept.
    pub fn vertical(self) -> (s: ScrollContainer)
        ensures
            s == (ScrollContainer { vertical: true, ..self }),
    {
        ScrollContainer { vertical: true, ..self }
    }
}

impl Default for ScrollContainer {
    /// Scrolls on neither axis.
    fn default() -> (s: ScrollContainer)
        ensures
            s == (ScrollContainer { horizontal: false, vertical: false }),
    {
        ScrollContainer { horizontal: false, vertical: false }
    }
}

} // verus!
