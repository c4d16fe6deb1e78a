//! Layout configuration: sizing behaviour, padding, child alignment and
//! direction, and the builder that writes them into a declaration.

use vstd::prelude::*;

use crate::Declaration;

verus! {

/// The sizing strategies an element can use along one axis.
#[derive(Debug, Clone, Copy, PartialEq, Eq)]
pub enum SizingType {
    /// The element's size is determined by its content, within min/max bounds.
    Fit,
    /// The element expands to fill available space, within min/max bounds.
    Grow,
    /// The element's size is a fraction of its parent's.
    Percent,
    /// The element's size is a fixed value.
    Fixed,
    /// The element's height is computed from its width.
    Constrained,
}

/// The sizing of an element along one axis, in whole layout units.
#[derive(Debug, Clone, Copy, PartialEq, Eq)]
pub enum Sizing {
    /// Fits the content between a minimum and a maximum.
    Fit(u32, u32),
    /// Expands to fill available space between a minimum and a maximum.
    Grow(u32, u32),
    /// A fixed size.
    Fixed(u32),
    /// A percentage of the parent's size, in whole percent.
    Percent(u8),
    /// The size along this axis is computed from the other axis by a
    /// host-supplied rule; the rule itself stays with the caller.
    Constrained,
}

impl Sizing {
    /// The strategy tag of this sizing value.
    pub open spec fn spec_sizing_type(self) -> SizingType {
        match self {
            Sizing::Fit(_, _) => SizingType::Fit,
            Sizing::Grow(_, _) => SizingType::Grow,
            Sizing::Fixed(_) => SizingType::Fixed,
            Sizing::Percent(_) => SizingType::Percent,
            Sizing::Constrained => SizingType::Constrained,
        }
    }

    /// Returns the strategy tag of this sizing value.
    pub fn sizing_type(&self) -> (t: SizingType)
        ensures
            t == self.spec_sizing_type(),
    {
        match self {
            Sizing::Fit(_, _) => SizingType::Fit,
            Sizing::Grow(_, _) => SizingType::Grow,
            Sizing::Fixed(_) => SizingType::Fixed,
            Sizing::Percent(_) => SizingType::Percent,
            Sizing::Constrained => SizingType::Constrained,
        }
    }

    /// The sizing a zeroed layout starts from: fit anything.
    pub open spec fn spec_default() -> Sizing {
        Sizing::Fit(0, u32::MAX)
    }
}

impl Default for Sizing {
    /// Fit between zero and the largest representable size.
    fn default() -> (s: Sizing)
        ensures
            s == Sizing::spec_default(),
    {
        Sizing::Fit(0, u32::MAX)
    }
}

/// Padding, in layout units, for each side of an element.
#[derive(Debug, Clone, Copy, PartialEq, Eq)]
pub struct Padding {
    pub left: u16,
    pub right: u16,
    pub top: u16,
    pub bottom: u16,
}

impl Padding {
    /// Creates a padding with individual values for each side.
    pub fn new(left: u16, right: u16, top: u16, bottom: u16) -> (p: Padding)
        ensures
            p == (Padding { left, right, top, bottom }),
    {
        Padding { left, right, top, bottom }
    }

    /// Creates a padding with individual values for each side.
    pub fn new_rect(left: u16, right: u16, top: u16, bottom: u16) -> (p: Padding)
        ensures
            p == (Padding { left, right, top, bottom }),
    {
        Padding { left, right, top, bottom }
    }

    /// The same padding on all four sides.
    pub fn all(value: u16) -> (p: Padding)
        ensures
            p == (Padding { left: value, right: value, top: value, bottom: value }),
    {
        Padding { left: value, right: value, top: value, bottom: value }
    }

    /// The same padding left and right; top and bottom are zero.
    pub fn horizontal(value: u16) -> (p: Padding)
        ensures
            p == (Padding { left: value, right: value, top: 0, bottom: 0 }),
    {
        Padding { left: value, right: value, top: 0, bottom: 0 }
    }

    /// The same padding top and bottom; left and right are zero.
    pub fn vertical(value: u16) -> (p: Padding)
        ensures
            p == (Padding { left: 0, right: 0, top: value, bottom: value }),
    {
        Padding { left: 0, right: 0, top: value, bottom: value }
    }

    /// Replaces the left padding.
    pub fn left(self, value: u16) -> (p: Padding)
        ensures
            p == (Padding { left: value, ..self }),
    {
        Padding { left: value, ..self }
    }

    /// Replaces the right padding.
    pub fn right(self, value: u16) -> (p: Padding)
        ensures
            p == (Padding { right: value, ..self }),
    {
        Padding { right: value, ..self }
    }

    /// Replaces the top padding.
    pub fn top(self, value: u16) -> (p: Padding)
        ensures
            p == (Padding { top: value, ..self }),
    {
        Padding { top: value, ..self }
    }

    /// Replaces the bottom padding.
    pub fn bottom(self, value: u16) -> (p: Padding)
        ensures
            p == (Padding { bottom: value, ..self }),
    {
        Padding { bottom: value, ..self }
    }

    /// Finishes a chain of side updates, handing the padding back.
    pub fn end(self) -> (p: Padding)
        ensures
            p == self,
    {
        self
    }

    pub open spec fn spec_default() -> Padding {
        Padding { left: 0, right: 0, top: 0, bottom: 0 }
    }
}

impl Default for Padding {
    /// No padding on any side.
    fn default() -> (p: Padding)
        ensures
            p == Padding::spec_default(),
    {
        Padding { left: 0, right: 0, top: 0, bottom: 0 }
    }
}

/// Horizontal alignment of children inside an element.
#[derive(Debug, Clone, Copy, PartialEq, Eq)]
pub enum LayoutAlignmentX {
    Left,
    Center,
    Right,
}

/// Vertical alignment of children inside an element.
#[derive(Debug, Clone, Copy, PartialEq, Eq)]
pub enum LayoutAlignmentY {
    Top,
    Center,
    Bottom,
}

/// Alignment of children along both axes.
#[derive(Debug, Clone, Copy, PartialEq, Eq)]
pub struct Alignment {
    pub x: LayoutAlignmentX,
    pub y: LayoutAlignmentY,
}

impl Alignment {
    /// Creates an alignment from its two axes.
    pub fn new(x: LayoutAlignmentX, y: LayoutAlignmentY) -> (a: Alignment)
        ensures
            a == (Alignment { x, y }),
    {
        Alignment { x, y }
    }

    pub open spec fn spec_default() -> Alignment {
        Alignment { x: LayoutAlignmentX::Left, y: LayoutAlignmentY::Top }
    }
}

impl Default for Alignment {
    /// Children align to the top left.
    fn default() -> (a: Alignment)
        ensures
            a == Alignment::spec_default(),
    {
        Alignment { x: LayoutAlignmentX::Left, y: LayoutAlignmentY::Top }
    }
}

/// The direction children are arranged in.
#[derive(Debug, Clone, Copy, PartialEq, Eq)]
pub enum LayoutDirection {
    LeftToRight,
    TopToBottom,
}

/// The layout portion of an element declaration.
#[derive(Debug, Clone, Copy, PartialEq, Eq)]
pub struct Layout {
    pub width: Sizing,
    pub height: Sizing,
    pub padding: Padding,
    pub child_gap: u16,
    pub child_alignment: Alignment,
    pub direction: LayoutDirection,
}

impl Layout {
    pub open spec fn spec_default() -> Layout {
        Layout {
            width: Sizing::spec_default(),
            height: Sizing::spec_default(),
            padding: Padding::spec_default(),
            child_gap: 0,
            child_alignment: Alignment::spec_default(),
            direction: LayoutDirection::LeftToRight,
        }
    }
}

impl Default for Layout {
    /// Both axes fit their content, no padding, no gap, children at the
    /// top left, arranged left to right.
    fn default() -> (l: Layout)
        ensures
            l == Layout::spec_default(),
    {
        Layout {
            width: Sizing::Fit(0, u32::MAX),
            height: Sizing::Fit(0, u32::MAX),
            padding: Padding { left: 0, right: 0, top: 0, bottom: 0 },
            child_gap: 0,
            child_alignment: Alignment { x: LayoutAlignmentX::Left, y: LayoutAlignmentY::Top },
            direction: LayoutDirection::LeftToRight,
        }
    }
}

/// Builder that writes layout settings into a declaration. Obtained from
/// [`Declaration::layout`]; [`LayoutBuilder::end`] hands the declaration
/// back.
pub struct LayoutBuilder<'render, ImageElementData, CustomElementData> {
    pub parent: Declaration<'render, ImageElementData, CustomElementData>,
}

impl<'render, ImageElementData, CustomElementData> LayoutBuilder<
    'render,
    ImageElementData,
    CustomElementData,
> {
    /// Starts a layout chain on `parent`.
    pub fn new(parent: Declaration<'render, ImageElementData, CustomElementData>) -> (b: Self)
        ensures
            b.parent == parent,
    {
        LayoutBuilder { parent }
    }

    /// Sets the width sizing; every other setting is kept.
    pub fn width(self, width: Sizing) -> (b: Self)
        ensures
            b.parent == (Declaration {
                layout: (Layout { width, ..self.parent.layout }),
                ..self.parent
            }),
    {
        LayoutBuilder {
            parent: Declaration { layout: Layout { width, ..self.parent.layout }, ..self.parent },
        }
    }

    /// Sets the height sizing; every other setting is kept.
    pub fn height(self, height: Sizing) -> (b: Self)
        ensures
            b.parent == (Declaration {
                layout: (Layout { height, ..self.parent.layout }),
                ..self.parent
            }),
    {
        LayoutBuilder {
            parent: Declaration { layout: Layout { height, ..self.parent.layout }, ..self.parent },
        }
    }

    /// Sets the padding; every other setting is kept.
    pub fn padding(self, padding: Padding) -> (b: Self)
        ensures
            b.parent == (Declaration {
                layout: (Layout { padding, ..self.parent.layout }),
                ..self.parent
            }),
    {
        LayoutBuilder {
            parent: Declaration { layout: Layout { padding, ..self.parent.layout }, ..self.parent },
        }
    }

    /// Sets the gap between children; every other setting is kept.
    pub fn child_gap(self, child_gap: u16) -> (b: Self)
        ensures
            b.parent == (Declaration {
                layout: (Layout { child_gap, ..self.parent.layout }),
                ..self.parent
            }),
    {
        LayoutBuilder {
            parent: Declaration {
                layout: Layout { child_gap, ..self.parent.layout },
                ..self.parent
            },
        }
    }

    /// Sets the child alignment; every other setting is kept.
    pub fn child_alignment(self, child_alignment: Alignment) -> (b: Self)
        ensures
            b.parent == (Declaration {
                layout: (Layout { child_alignment, ..self.parent.layout }),
                ..self.parent
            }),
    {
        LayoutBuilder {
            parent: Declaration {
                layout: Layout { child_alignment, ..self.parent.layout },
                ..self.parent
            },
        }
    }

    /// Sets the layout direction; every other setting is kept.
    pub fn direction(self, direction: LayoutDirection) -> (b: Self)
        ensures
            b.parent == (Declaration {
                layout: (Layout { direction, ..self.parent.layout }),
                ..self.parent
            }),
    {
        LayoutBuilder {
            parent: Declaration {
                layout: Layout { direction, ..self.parent.layout },
                ..self.parent
            },
        }
    }

    /// Hands the declaration back. The width must not be constrained, and a
    /// constrained height needs a fit width: the engine cannot resolve any
    /// other combination.
    pub fn end(self) -> (d: Declaration<'render, ImageElementData, CustomElementData>)
        requires
            !(self.parent.layout.width is Constrained),
            self.parent.layout.height is Constrained ==> self.parent.layout.width is Fit,
        ensures
            d == self.parent,
    {
        self.parent
    }
}

} // verus!
