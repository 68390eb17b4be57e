use vstd::prelude::*;
use vstd::wrapping::i64_specs;

use crate::color::InteractionState;
use crate::color::Rgb;
use crate::color::color_for;
use crate::color::interaction_color;

verus! {

/// A coordinate pair in logical pixels. Drag deltas, logical positions and
/// published positions all use this type; a logical position may freely go
/// negative or past the viewport while a drag is in flight.
#[derive(Clone, Copy, Debug, PartialEq, Eq, Structural)]
pub struct Point {
    pub x: i64,
    pub y: i64,
}

/// The drawing surface bounds in pixels, queried fresh on every frame whose
/// sync actually runs.
#[derive(Clone, Copy, Debug, PartialEq, Eq, Structural)]
pub struct Viewport {
    pub width: u32,
    pub height: u32,
}

/// A width or height specification for the panel, resolved to pixels against
/// one viewport axis each frame. `Auto` stands for every unit that cannot be
/// resolved from an axis basis alone; it is rejected when the panel is built.
#[derive(Clone, Copy, Debug, PartialEq, Eq, Structural)]
pub enum SizeSpec {
    Auto,
    Px(u32),
    Percent(u32),
}

/// A rejected panel configuration, reported when the panel is built, before
/// the per-frame loop ever runs.
#[derive(Clone, Copy, Debug, PartialEq, Eq, Structural)]
pub enum PanelError {
    /// A side of the requested size cannot be resolved to pixels.
    UnresolvedSize,
}

/// Upper bound on a resolved pixel extent. Every resolvable `SizeSpec`
/// resolves strictly below this against any `u32` basis, and it keeps
/// viewport-minus-extent within `i64` range.
pub const MAX_EXTENT: u64 = 0x0400_0000_0000_0000;

impl SizeSpec {
    /// Whether this specification resolves to a pixel extent at all.
    pub open spec fn is_resolvable(self) -> bool {
        !(self is Auto)
    }

    /// The pixel extent this specification resolves to against `basis`:
    /// fixed pixels as they stand, a percentage as its (rounded-down) share
    /// of the basis. Meaningful only for a resolvable specification.
    pub open spec fn resolved_spec(self, basis: u32) -> int
        recommends
            self.is_resolvable(),
    {
        match self {
            SizeSpec::Auto => 0,
            SizeSpec::Px(n) => n as int,
            SizeSpec::Percent(p) => (p * basis) / 100,
        }
    }
}

/// A resolved extent is never negative, whatever the basis.
pub proof fn lemma_resolved_nonneg(s: SizeSpec, basis: u32)
    ensures
        0 <= s.resolved_spec(basis),
{
    match s {
        SizeSpec::Auto => {}
        SizeSpec::Px(n) => {}
        SizeSpec::Percent(p) => {
            assert(0 <= p * basis) by (nonlinear_arith)
                requires
                    0 <= p,
                    0 <= basis,
            ;
        }
    }
}

/// A resolved extent stays below `MAX_EXTENT`, whatever the basis.
pub proof fn lemma_resolved_below_max(s: SizeSpec, basis: u32)
    ensures
        s.resolved_spec(basis) < MAX_EXTENT,
{
    match s {
        SizeSpec::Auto => {}
        SizeSpec::Px(n) => {}
        SizeSpec::Percent(p) => {
            assert(p * basis <= 0xffff_ffff * 0xffff_ffff) by (nonlinear_arith)
                requires
                    0 <= p <= 0xffff_ffff,
                    0 <= basis <= 0xffff_ffff,
            ;
            assert((p * basis) / 100 < MAX_EXTENT) by (nonlinear_arith)
                requires
                    0 <= p * basis <= 0xffff_ffff * 0xffff_ffff,
            ;
        }
    }
}

impl SizeSpec {
    /// Resolves the specification against `basis`; `None` exactly when no
    /// pixel extent exists for it.
    pub fn resolve(self, basis: u32) -> (r: Option<u64>)
        ensures
            r is Some <==> self.is_resolvable(),
            r matches Some(v) ==> v == self.resolved_spec(basis) && v < MAX_EXTENT,
    {
        proof {
            lemma_resolved_nonneg(self, basis);
            lemma_resolved_below_max(self, basis);
        }
        match self {
            SizeSpec::Auto => None,
            SizeSpec::Px(n) => Some(n as u64),
            SizeSpec::Percent(p) => {
                proof {
                    assert((p as u64) * (basis as u64) <= 0xffff_ffff * 0xffff_ffff) by (nonlinear_arith)
                        requires
                            0 <= p <= 0xffff_ffff,
                            0 <= basis <= 0xffff_ffff,
                    ;
                }
                let product: u64 = (p as u64) * (basis as u64);
                Some(product / 100)
            }
        }
    }
}

/// One axis of the published-position clamp, in the fixed order the sync
/// step uses: a min-clamp to 0 first, then a max-clamp to
/// `viewport - extent`. When the panel does not fit (`extent > viewport`)
/// the upper clamp is applied last and wins, so the result is the negative
/// `viewport - extent` rather than 0; the two one-sided clamps never panic.
pub open spec fn clamp_axis_spec(pos: int, viewport: int, extent: int) -> int {
    let low = if pos < 0 { 0 } else { pos };
    if low > viewport - extent {
        viewport - extent
    } else {
        low
    }
}

/// Clamps one coordinate of the logical position exactly as
/// `clamp_axis_spec` states.
pub fn clamp_axis(pos: i64, viewport: u32, extent: u64) -> (r: i64)
    requires
        extent < MAX_EXTENT,
    ensures
        r == clamp_axis_spec(pos as int, viewport as int, extent as int),
{
    let low: i64 = if pos < 0 { 0 } else { pos };
    let bound: i64 = (viewport as i64) - (extent as i64);
    if low > bound {
        bound
    } else {
        low
    }
}

/// The draggable handle spanning the panel's top edge. The scene graph owns
/// both panel and bar; here the bar carries only the interaction-reactive
/// background color.
#[derive(Clone, Copy, Debug, PartialEq, Eq, Structural)]
pub struct TitleBar {
    pub color: Rgb,
}

impl TitleBar {
    /// Recolors the bar from this frame's interaction report; runs every
    /// frame, unconditionally, with no memory of earlier frames.
    pub fn update_color(&mut self, state: Option<InteractionState>)
        ensures
            final(self).color == color_for(state),
    {
        self.color = interaction_color(state);
    }
}

/// A draggable rectangle. `logical` accumulates drag deltas freely and may
/// sit outside the viewport; `published` is the clamped offset last written
/// to the layout; `dirty` records whether `logical` changed since the last
/// sync, so a sync of an unchanged panel skips everything, the viewport
/// query included.
#[derive(Clone, Copy, Debug, PartialEq, Eq, Structural)]
pub struct Panel {
    pub logical: Point,
    pub width: SizeSpec,
    pub height: SizeSpec,
    pub title_bar: TitleBar,
    pub published: Point,
    pub dirty: bool,
}

/// The panel state after accumulating a drag delta: plain two's-complement
/// addition on each axis, unconditional — the position may leave the
/// viewport, and clamping is deferred to the sync step. The size, the title
/// bar and the published position are untouched; the panel becomes dirty.
pub open spec fn drag_spec(p: Panel, delta: Point) -> Panel {
    Panel {
        logical: Point {
            x: i64_specs::wrapping_add(p.logical.x, delta.x),
            y: i64_specs::wrapping_add(p.logical.y, delta.y),
        },
        width: p.width,
        height: p.height,
        title_bar: p.title_bar,
        published: p.published,
        dirty: true,
    }
}

/// The panel state after one sync step: a clean panel is left exactly as it
/// is, while a dirty panel has each logical coordinate clamped against the
/// viewport and the resolved size, the result published, and the dirty bit
/// cleared. The logical position itself is never written back.
pub open spec fn sync_spec(p: Panel, vp: Viewport) -> Panel {
    if !p.dirty {
        p
    } else {
        Panel {
            logical: p.logical,
            width: p.width,
            height: p.height,
            title_bar: p.title_bar,
            published: Point {
                x: clamp_axis_spec(
                    p.logical.x as int,
                    vp.width as int,
                    p.width.resolved_spec(vp.width),
                ) as i64,
                y: clamp_axis_spec(
                    p.logical.y as int,
                    vp.height as int,
                    p.height.resolved_spec(vp.height),
                ) as i64,
            },
            dirty: false,
        }
    }
}

impl Panel {
    /// Both sides of the size resolve to pixels. Established when the panel
    /// is built and never changed afterwards: the size is fixed at creation.
    pub open spec fn wf(self) -> bool {
        self.width.is_resolvable() && self.height.is_resolvable()
    }

    /// Builds the panel at `position` with the given size specification.
    ///
    /// An unresolvable size is a configuration error rejected here, before
    /// the per-frame loop ever runs. A fresh panel is dirty, so the first
    /// sync publishes a clamped position; until then `published` holds the
    /// initial position as given. The title bar starts in the idle color,
    /// the one owed before any interaction is reported.
    pub fn create(position: Point, width: SizeSpec, height: SizeSpec) -> (r: Result<Panel, PanelError>)
        ensures
            r is Ok <==> width.is_resolvable() && height.is_resolvable(),
            r matches Ok(p) ==> p == (Panel {
                logical: position,
                width,
                height,
                title_bar: TitleBar { color: color_for(None) },
                published: position,
                dirty: true,
            }),
            r matches Err(e) ==> e == PanelError::UnresolvedSize,
    {
        let width_ok: bool = match width {
            SizeSpec::Auto => false,
            SizeSpec::Px(_) => true,
            SizeSpec::Percent(_) => true,
        };
        let height_ok: bool = match height {
            SizeSpec::Auto => false,
            SizeSpec::Px(_) => true,
            SizeSpec::Percent(_) => true,
        };
        if width_ok && height_ok {
            Ok(Panel {
                logical: position,
                width,
                height,
                title_bar: TitleBar { color: interaction_color(None) },
                published: position,
                dirty: true,
            })
        } else {
            Err(PanelError::UnresolvedSize)
        }
    }

    /// Adds a drag delta to the logical position, wrapping on overflow, and
    /// marks the panel dirty. Never touches the published position: a drag
    /// past the viewport keeps accumulating off-screen.
    pub fn accumulate_drag(&mut self, delta: Point)
        ensures
            *final(self) == drag_spec(*old(self), delta),
    {
        self.logical.x = self.logical.x.wrapping_add(delta.x);
        self.logical.y = self.logical.y.wrapping_add(delta.y);
        self.dirty = true;
    }

    /// One run of the drag-to-position sync, exactly as `sync_spec` states.
    ///
    /// Change detection comes first: a clean panel returns untouched, and
    /// the viewport is not consulted. Otherwise the logical position is
    /// clamped — min-clamp to 0 first, max-clamp to viewport minus resolved
    /// size second — and published, and the panel becomes clean. Because the
    /// logical position is never written back, a panel dragged off-screen
    /// follows the logical position when the drag reverses instead of
    /// snapping back instantly.
    pub fn sync_to_viewport(&mut self, vp: Viewport)
        requires
            old(self).wf(),
        ensures
            *final(self) == sync_spec(*old(self), vp),
    {
        if !self.dirty {
            return;
        }
        let w: u64 = match self.width.resolve(vp.width) {
            Some(v) => v,
            None => unreached(),
        };
        let h: u64 = match self.height.resolve(vp.height) {
            Some(v) => v,
            None => unreached(),
        };
        let x: i64 = clamp_axis(self.logical.x, vp.width, w);
        let y: i64 = clamp_axis(self.logical.y, vp.height, h);
        self.published = Point { x, y };
        self.dirty = false;
    }
}

/// Two drag deltas combined into one, with the same wrapping addition that
/// drag accumulation uses on each axis.
pub open spec fn delta_sum(a: Point, b: Point) -> Point {
    Point {
        x: i64_specs::wrapping_add(a.x, b.x),
        y: i64_specs::wrapping_add(a.y, b.y),
    }
}

/// Wrapping addition on `i64` is associative: the three summands differ from
/// the mathematical sum by multiples of 2^64 on either grouping, and both
/// groupings land in `i64` range.
pub proof fn lemma_wrapping_assoc(a: i64, b: i64, c: i64)
    ensures
        i64_specs::wrapping_add(i64_specs::wrapping_add(a, b), c)
            == i64_specs::wrapping_add(a, i64_specs::wrapping_add(b, c)),
{
}

/// Drag accumulation is additive: accumulating `d1` and then `d2` leaves the
/// panel exactly as accumulating the one combined delta `delta_sum(d1, d2)`.
pub proof fn lemma_drag_additive(p: Panel, d1: Point, d2: Point)
    ensures
        drag_spec(drag_spec(p, d1), d2) == drag_spec(p, delta_sum(d1, d2)),
{
    lemma_wrapping_assoc(p.logical.x, d1.x, d2.x);
    lemma_wrapping_assoc(p.logical.y, d1.y, d2.y);
}

/// Whenever the panel fits in the viewport — the resolved width and height
/// are at most the viewport's — the position that a sync of a dirty panel
/// publishes lies inside it: `0 <= x <= W - width` and `0 <= y <= H - height`.
pub proof fn lemma_sync_published_in_bounds(p: Panel, vp: Viewport)
    requires
        p.dirty,
        p.width.resolved_spec(vp.width) <= vp.width as int,
        p.height.resolved_spec(vp.height) <= vp.height as int,
    ensures
        0 <= sync_spec(p, vp).published.x as int <= vp.width as int - p.width.resolved_spec(vp.width),
        0 <= sync_spec(p, vp).published.y as int <= vp.height as int - p.height.resolved_spec(vp.height),
{
    lemma_resolved_nonneg(p.width, vp.width);
    lemma_resolved_nonneg(p.height, vp.height);
}

/// Sync is idempotent: running it twice with no intervening drag and an
/// unchanged viewport publishes the same position both times — the second
/// run finds a clean panel and changes nothing at all.
pub proof fn lemma_sync_idempotent(p: Panel, vp: Viewport)
    ensures
        sync_spec(sync_spec(p, vp), vp) == sync_spec(p, vp),
{
}

} // verus!
