//! A typed builder layer for an immediate-mode UI layout engine.
//!
//! The crate models the host side of the engine's interface: element
//! declarations assembled through chained builder calls, the scoped
//! open/close element protocol with its stack discipline, and the typed
//! render-command vocabulary that a renderer consumes.
//!
//! Every quantity is a whole layout unit; the engine's own layout
//! computation happens outside this crate.

pub mod color;
pub mod elements;
pub mod errors;
pub mod id;
pub mod layout;
pub mod math;
pub mod render_commands;
pub mod text;

use vstd::prelude::*;

use crate::color::Color;
use crate::elements::{
    BorderBuilder, BorderConfig, ClipConfig, CornerRadiusBuilder, FloatingBuilder, FloatingConfig,
    ImageBuilder, ImageConfig,
};
use crate::id::Id;
use crate::layout::{Layout, LayoutBuilder};
use crate::math::{Dimensions, Vector2};
use crate::render_commands::CornerRadii;
use crate::text::TextElementConfig;

verus! {

/// Everything declared about one element: its identity and each of its
/// configurations. A declaration starts cleared and is filled in through
/// chained builder calls, then handed to a layout scope.
pub struct Declaration<'render, ImageElementData, CustomElementData> {
    pub id: Option<Id<'render>>,
    pub layout: Layout,
    pub background_color: Color,
    pub corner_radius: CornerRadii,
    pub image: ImageConfig<'render, ImageElementData>,
    pub floating: FloatingConfig,
    pub custom: Option<&'render CustomElementData>,
    pub clip: ClipConfig,
    pub border: BorderConfig,
}

impl<'render, ImageElementData, CustomElementData> Declaration<
    'render,
    ImageElementData,
    CustomElementData,
> {
    /// The cleared declaration every chain starts from.
    pub open spec fn spec_new() -> Declaration<'render, ImageElementData, CustomElementData> {
        Declaration {
            id: None,
            layout: Layout::spec_default(),
            background_color: Color::spec_default(),
            corner_radius: CornerRadii::spec_default(),
            image: ImageConfig::spec_default(),
            floating: FloatingConfig::spec_default(),
            custom: None,
            clip: ClipConfig::spec_default(),
            border: BorderConfig::spec_default(),
        }
    }

    /// Creates a cleared declaration: no id, default layout, transparent
    /// colors, no image, not floating, no custom data, no clipping, no
    /// border.
    pub fn new() -> (d: Declaration<'render, ImageElementData, CustomElementData>)
        ensures
            d == Self::spec_new(),
    {
        Declaration {
            id: None,
            layout: Layout::default(),
            background_color: Color::default(),
            corner_radius: CornerRadii::default(),
            image: ImageConfig { data: None, source_dimensions: Dimensions::default() },
            floating: FloatingConfig::default(),
            custom: None,
            clip: ClipConfig::default(),
            border: BorderConfig::default(),
        }
    }

    /// Sets the background color; every other setting is kept.
    pub fn background_color(self, color: Color) -> (d: Self)
        ensures
            d == (Declaration { background_color: color, ..self }),
    {
        Declaration { background_color: color, ..self }
    }

    /// Sets clipping per axis and the content offset; every other setting
    /// is kept.
    pub fn clip(self, horizontal: bool, vertical: bool, child_offset: Vector2) -> (d: Self)
        ensures
            d == (Declaration { clip: (ClipConfig { horizontal, vertical, child_offset }), ..self }),
    {
        Declaration { clip: ClipConfig { horizontal, vertical, child_offset }, ..self }
    }

    /// Sets the element's id; every other setting is kept.
    pub fn id(self, id: Id<'render>) -> (d: Self)
        ensures
            d == (Declaration { id: Some(id), ..self }),
    {
        Declaration { id: Some(id), ..self }
    }

    /// Attaches custom data for a host-drawn element; every other setting
    /// is kept.
    pub fn custom_element(self, data: &'render CustomElementData) -> (d: Self)
        ensures
            d == (Declaration { custom: Some(data), ..self }),
    {
        Declaration { custom: Some(data), ..self }
    }

    /// Starts a layout chain on this declaration.
    pub fn layout(self) -> (b: LayoutBuilder<'render, ImageElementData, CustomElementData>)
        ensures
            b.parent == self,
    {
        LayoutBuilder::new(self)
    }

    /// Starts an image chain on this declaration.
    pub fn image(self) -> (b: ImageBuilder<'render, ImageElementData, CustomElementData>)
        ensures
            b.parent == self,
    {
        ImageBuilder::new(self)
    }

    /// Starts a floating chain on this declaration.
    pub fn floating(self) -> (b: FloatingBuilder<'render, ImageElementData, CustomElementData>)
        ensures
            b.parent == self,
    {
        FloatingBuilder::new(self)
    }

    /// Starts a border chain on this declaration.
    pub fn border(self) -> (b: BorderBuilder<'render, ImageElementData, CustomElementData>)
        ensures
            b.parent == self,
    {
        BorderBuilder::new(self)
    }

    /// Starts a corner-radius chain on this declaration.
    pub fn corner_radius(self) -> (b: CornerRadiusBuilder<
        'render,
        ImageElementData,
        CustomElementData,
    >)
        ensures
            b.parent == self,
    {
        CornerRadiusBuilder::new(self)
    }
}

impl<'render, ImageElementData, CustomElementData> Default for Declaration<
    'render,
    ImageElementData,
    CustomElementData,
> {
    /// Same as [`Declaration::new`].
    fn default() -> (d: Self)
        ensures
            d == Self::spec_new(),
    {
        Declaration::new()
    }
}

/// One step of the scoped element protocol, in the order the host
/// declared it.
pub enum ScopeEvent<'render, ImageElementData, CustomElementData> {
    /// An element was opened and configured with this declaration.
    Open(Declaration<'render, ImageElementData, CustomElementData>),
    /// The innermost open element was closed.
    Close,
    /// A text element was added inside the innermost open element.
    Text(&'render str, TextElementConfig),
}

/// How one protocol step changes the nesting depth: an open deepens it,
/// a close undoes one open, text leaves it unchanged.
pub open spec fn event_delta<'render, ImageElementData, CustomElementData>(
    e: ScopeEvent<'render, ImageElementData, CustomElementData>,
) -> int {
    match e {
        ScopeEvent::Open(_) => 1,
        ScopeEvent::Close => -1,
        ScopeEvent::Text(_, _) => 0,
    }
}

/// The nesting depth after the steps in `s`: opens minus closes.
pub open spec fn nesting_depth<'render, ImageElementData, CustomElementData>(
    s: Seq<ScopeEvent<'render, ImageElementData, CustomElementData>>,
) -> int
    decreases s.len(),
{
    if s.len() == 0 {
        0
    } else {
        nesting_depth(s.drop_last()) + event_delta(s.last())
    }
}

/// Every prefix of `s` closes no more elements than it has opened.
pub open spec fn prefix_depths_nonneg<'render, ImageElementData, CustomElementData>(
    s: Seq<ScopeEvent<'render, ImageElementData, CustomElementData>>,
) -> bool {
    forall|i: int| 0 <= i <= s.len() ==> nesting_depth(#[trigger] s.take(i)) >= 0
}

/// A well-nested protocol run: no close without a matching open, and
/// every open closed by the end.
pub open spec fn well_nested<'render, ImageElementData, CustomElementData>(
    s: Seq<ScopeEvent<'render, ImageElementData, CustomElementData>>,
) -> bool {
    prefix_depths_nonneg(s) && nesting_depth(s) == 0
}

proof fn lemma_nesting_depth_push<'render, ImageElementData, CustomElementData>(
    s: Seq<ScopeEvent<'render, ImageElementData, CustomElementData>>,
    e: ScopeEvent<'render, ImageElementData, CustomElementData>,
)
    ensures
        nesting_depth(s.push(e)) == nesting_depth(s) + event_delta(e),
{
    assert(s.push(e).drop_last() =~= s);
    assert(s.push(e).last() == e);
}

proof fn lemma_nesting_depth_le_len<'render, ImageElementData, CustomElementData>(
    s: Seq<ScopeEvent<'render, ImageElementData, CustomElementData>>,
)
    ensures
        -(s.len() as int) <= nesting_depth(s) <= s.len() as int,
    decreases s.len(),
{
    if s.len() > 0 {
        lemma_nesting_depth_le_len(s.drop_last());
    }
}

proof fn lemma_prefix_depths_nonneg_push<'render, ImageElementData, CustomElementData>(
    s: Seq<ScopeEvent<'render, ImageElementData, CustomElementData>>,
    e: ScopeEvent<'render, ImageElementData, CustomElementData>,
)
    requires
        prefix_depths_nonneg(s),
        nesting_depth(s) + event_delta(e) >= 0,
    ensures
        prefix_depths_nonneg(s.push(e)),
{
    assert forall|i: int|
        0 <= i <= s.push(e).len() implies nesting_depth(#[trigger] s.push(e).take(i)) >= 0 by {
        if i <= s.len() {
            assert(s.push(e).take(i) =~= s.take(i));
        } else {
            assert(s.push(e).take(i) =~= s.push(e));
            lemma_nesting_depth_push(s, e);
        }
    }
}

/// Decides whether `events` is a well-nested protocol run: no close
/// without a matching open, and every open closed by the end. A host that
/// assembled a record outside a [`ClayLayoutScope`] can check it here
/// before handing it to the engine.
pub fn is_well_nested<'render, ImageElementData, CustomElementData>(
    events: &Vec<ScopeEvent<'render, ImageElementData, CustomElementData>>,
) -> (r: bool)
    ensures
        r == well_nested(events@),
{
    let n = events.len();
    let mut depth: usize = 0;
    let mut i: usize = 0;
    while i < n
        invariant
            i <= n,
            n == events@.len(),
            depth as int == nesting_depth(events@.take(i as int)),
            prefix_depths_nonneg(events@.take(i as int)),
        decreases n - i,
    {
        proof {
            assert(events@.take(i + 1) =~= events@.take(i as int).push(events@[i as int]));
            lemma_nesting_depth_push(events@.take(i as int), events@[i as int]);
            lemma_nesting_depth_le_len(events@.take(i as int));
        }
        match &events[i] {
            ScopeEvent::Open(_) => {
                depth = depth + 1;
            },
            ScopeEvent::Close => {
                if depth == 0 {
                    proof {
                        assert(nesting_depth(events@.take(i + 1)) < 0);
                        assert(!prefix_depths_nonneg(events@));
                    }
                    return false;
                }
                depth = depth - 1;
            },
            ScopeEvent::Text(_, _) => {},
        }
        proof {
            lemma_prefix_depths_nonneg_push(events@.take(i as int), events@[i as int]);
        }
        i = i + 1;
    }
    proof {
        assert(events@.take(n as int) =~= events@);
    }
    depth == 0
}

/// A layout pass in progress: it records the element protocol the host
/// declares. Opens and closes are kept in step so that only well-nested
/// runs can be handed to the engine.
pub struct ClayLayoutScope<'render, ImageElementData, CustomElementData> {
    events: Vec<ScopeEvent<'render, ImageElementData, CustomElementData>>,
    depth: usize,
}

impl<'render, ImageElementData, CustomElementData> View for ClayLayoutScope<
    'render,
    ImageElementData,
    CustomElementData,
> {
    type V = Seq<ScopeEvent<'render, ImageElementData, CustomElementData>>;

    closed spec fn view(&self) -> Self::V {
        self.events@
    }
}

impl<'render, ImageElementData, CustomElementData> ClayLayoutScope<
    'render,
    ImageElementData,
    CustomElementData,
> {
    /// The scope's internal invariant: the stored depth counts the opens
    /// not yet closed, and no prefix of the record closes more than it
    /// opened. [`Clay::begin`] establishes it and every method keeps it.
    pub closed spec fn well_formed(&self) -> bool {
        self.depth as int == nesting_depth(self.events@) && prefix_depths_nonneg(self.events@)
    }

    /// Opens an element and configures it with `declaration`. Steps that
    /// follow, until the matching [`close`](Self::close), declare its
    /// children.
    pub fn open(&mut self, declaration: Declaration<'render, ImageElementData, CustomElementData>)
        requires
            old(self).well_formed(),
        ensures
            final(self)@ == old(self)@.push(ScopeEvent::Open(declaration)),
            nesting_depth(final(self)@) == nesting_depth(old(self)@) + 1,
            final(self).well_formed(),
    {
        proof {
            lemma_nesting_depth_le_len(self.events@);
            lemma_nesting_depth_push(self.events@, ScopeEvent::Open(declaration));
            lemma_prefix_depths_nonneg_push(self.events@, ScopeEvent::Open(declaration));
        }
        self.events.push(ScopeEvent::Open(declaration));
        // The record is longer than the depth it counts, so the increment
        // cannot overflow.
        let n = self.events.len();
        proof {
            assert(self.depth < n);
        }
        self.depth = self.depth + 1;
    }

    /// Closes the innermost open element. There must be one.
    pub fn close(&mut self)
        requires
            old(self).well_formed(),
            nesting_depth(old(self)@) > 0,
        ensures
            final(self)@ == old(self)@.push(ScopeEvent::Close),
            nesting_depth(final(self)@) == nesting_depth(old(self)@) - 1,
            final(self).well_formed(),
    {
        proof {
            lemma_nesting_depth_push(self.events@, ScopeEvent::Close);
            lemma_prefix_depths_nonneg_push(self.events@, ScopeEvent::Close);
        }
        self.events.push(ScopeEvent::Close);
        self.depth = self.depth - 1;
    }

    /// Adds a text element, with its sealed styling, inside the innermost
    /// open element (or at the root).
    pub fn text(&mut self, text: &'render str, config: TextElementConfig)
        requires
            old(self).well_formed(),
        ensures
            final(self)@ == old(self)@.push(ScopeEvent::Text(text, config)),
            nesting_depth(final(self)@) == nesting_depth(old(self)@),
            final(self).well_formed(),
    {
        proof {
            lemma_nesting_depth_push(self.events@, ScopeEvent::Text(text, config));
            lemma_prefix_depths_nonneg_push(self.events@, ScopeEvent::Text(text, config));
        }
        self.events.push(ScopeEvent::Text(text, config));
    }

    /// The number of elements currently open.
    pub fn depth(&self) -> (d: usize)
        requires
            self.well_formed(),
        ensures
            d as int == nesting_depth(self@),
    {
        self.depth
    }

    /// Ends the pass and hands back the recorded protocol run, which is
    /// well nested. Every opened element must have been closed.
    pub fn end(self) -> (events: Vec<
        ScopeEvent<'render, ImageElementData, CustomElementData>,
    >)
        requires
            self.well_formed(),
            nesting_depth(self@) == 0,
        ensures
            events@ == self@,
            well_nested(events@),
    {
        self.events
    }

    /// Creates a global id from `label`.
    pub fn id(&self, label: &'render str) -> (id: Id<'render>)
        ensures
            id.label@ == label@,
            id.index == 0,
    {
        Id::new(label)
    }

    /// Creates a global id from `label` and `index`, for elements that
    /// share one label.
    pub fn id_index(&self, label: &'render str, index: u32) -> (id: Id<'render>)
        ensures
            id.label@ == label@,
            id.index == index,
    {
        Id::new_index(label, index)
    }

    /// Creates a locally scoped id from `label`.
    pub fn id_local(&self, label: &'render str) -> (id: Id<'render>)
        ensures
            id.label@ == label@,
            id.index == 0,
    {
        Id::new_index_local(label, 0)
    }

    /// Creates a locally scoped id from `label` and `index`.
    pub fn id_index_local(&self, label: &'render str, index: u32) -> (id: Id<'render>)
        ensures
            id.label@ == label@,
            id.index == index,
    {
        Id::new_index_local(label, index)
    }
}

/// The number of elements a fresh context accepts before reporting
/// [`errors::ErrorType::ElementsCapacityExceeded`].
pub const DEFAULT_MAX_ELEMENT_COUNT: u32 = 8192;

/// The host-side state of one layout engine context.
pub struct Clay {
    pub layout_dimensions: Dimensions,
    pub debug_mode_enabled: bool,
    pub max_element_count: u32,
    pub pointer_position: Vector2,
    pub pointer_down: bool,
}

impl Clay {
    /// The state a fresh context starts from, before the pointer has been
    /// reported: debug mode off, the default element capacity, the
    /// pointer at the origin and up.
    pub open spec fn spec_new(dimensions: Dimensions) -> Clay {
        Clay {
            layout_dimensions: dimensions,
            debug_mode_enabled: false,
            max_element_count: DEFAULT_MAX_ELEMENT_COUNT,
            pointer_position: Vector2::spec_default(),
            pointer_down: false,
        }
    }

    /// Creates a context laying out into the given dimensions.
    pub fn new(dimensions: Dimensions) -> (clay: Clay)
        ensures
            clay == Clay::spec_new(dimensions),
    {
        Clay {
            layout_dimensions: dimensions,
            debug_mode_enabled: false,
            max_element_count: DEFAULT_MAX_ELEMENT_COUNT,
            pointer_position: Vector2 { x: 0, y: 0 },
            pointer_down: false,
        }
    }

    /// Begins a layout pass: a fresh scope with no step recorded yet.
    pub fn begin<'render, ImageElementData, CustomElementData>(&self) -> (scope: ClayLayoutScope<
        'render,
        ImageElementData,
        CustomElementData,
    >)
        ensures
            scope@ == Seq::<ScopeEvent<'render, ImageElementData, CustomElementData>>::empty(),
            nesting_depth(scope@) == 0,
            scope.well_formed(),
    {
        let events: Vec<ScopeEvent<'render, ImageElementData, CustomElementData>> = Vec::new();
        proof {
            assert(events@.take(0) =~= events@);
        }
        ClayLayoutScope { events, depth: 0 }
    }

    /// Sets the number of elements the engine lays out at most; every
    /// other setting is kept.
    pub fn max_element_count(&mut self, max_element_count: u32)
        ensures
            *final(self) == (Clay { max_element_count, ..*old(self) }),
    {
        self.max_element_count = max_element_count;
    }

    /// Enables or disables the engine's debug view; every other setting
    /// is kept.
    pub fn set_debug_mode(&mut self, enable: bool)
        ensures
            *final(self) == (Clay { debug_mode_enabled: enable, ..*old(self) }),
    {
        self.debug_mode_enabled = enable;
    }

    /// Replaces the dimensions laid out into, for when the host's surface
    /// changes size; every other setting is kept.
    pub fn set_layout_dimensions(&mut self, dimensions: Dimensions)
        ensures
            *final(self) == (Clay { layout_dimensions: dimensions, ..*old(self) }),
    {
        self.layout_dimensions = dimensions;
    }

    /// Reports the pointer's position and button state, which drive
    /// hovering and scrolling; every other setting is kept.
    pub fn pointer_state(&mut self, position: Vector2, is_down: bool)
        ensures
            *final(self) == (Clay {
                pointer_position: position,
                pointer_down: is_down,
                ..*old(self)
            }),
    {
        self.pointer_position = position;
        self.pointer_down = is_down;
    }
}

} // verus!
