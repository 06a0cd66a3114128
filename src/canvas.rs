use vstd::prelude::*;
use crate::cache::{Cache, next_count};
use crate::error::Error;
use crate::geometry::{Rect, Size, fit_spec, fit_to_bounds};
use crate::layer::Layer;

verus! {

/// The colour of the background fill, as 0xRRGGBBAA: opaque black.
pub const BACKGROUND_RGBA: u32 = 0x0000_00ff;

/// A fill of the whole output with one colour.
#[derive(Clone, Copy, Debug, PartialEq, Eq, Structural)]
pub struct Fill {
    pub size: Size,
    pub rgba: u32,
}

/// Where the image of the layer at index `layer` is drawn.
#[derive(Clone, Copy, Debug, PartialEq, Eq, Structural)]
pub struct Placement {
    pub layer: usize,
    pub rect: Rect,
}

/// What one frame of the canvas shows: the background, then the layers
/// drawn over it in order.
#[derive(Debug)]
pub struct Drawing {
    pub background: Fill,
    pub layers: Vec<Placement>,
}

/// The background drawn into an output of size `bounds`.
pub open spec fn background_of(bounds: Size) -> Fill {
    Fill { size: bounds, rgba: BACKGROUND_RGBA }
}

/// Where the layer `l` at index `i` is drawn into an output of size `bounds`:
/// at its own position, fitted to the output's width.
pub open spec fn placement_of(i: int, l: Layer, bounds: Size) -> Placement {
    Placement {
        layer: i as usize,
        rect: Rect {
            x: l.x,
            y: l.y,
            width: fit_spec(l.size(), bounds.width).width,
            height: fit_spec(l.size(), bounds.width).height,
        },
    }
}

/// The layers drawn into an output of size `bounds`, in paint order: the
/// first layer at the bottom, each later one over those before it.
pub open spec fn composite(layers: Seq<Layer>, bounds: Size) -> Seq<Placement> {
    Seq::new(layers.len(), |i: int| placement_of(i, layers[i], bounds))
}

/// Every layer of `layers` well formed.
pub open spec fn all_wf(layers: Seq<Layer>) -> bool {
    forall|i: int| 0 <= i < layers.len() ==> (#[trigger] layers[i]).wf()
}

/// Draws the layers into an output of size `bounds`.
pub fn compose(layers: &Vec<Layer>, bounds: Size) -> (r: Vec<Placement>)
    requires
        all_wf(layers@),
    ensures
        r@ == composite(layers@, bounds),
{
    let mut out: Vec<Placement> = Vec::new();
    let mut i: usize = 0;
    while i < layers.len()
        invariant
            i <= layers@.len(),
            all_wf(layers@),
            out@ =~= composite(layers@, bounds).take(i as int),
        decreases layers@.len() - i,
    {
        let l = &layers[i];
        let s = fit_to_bounds(Size { width: l.width, height: l.height }, bounds.width);
        out.push(Placement { layer: i, rect: Rect { x: l.x, y: l.y, width: s.width, height: s.height } });
        i = i + 1;
        assert(out@ =~= composite(layers@, bounds).take(i as int));
    }
    out
}

fn copy_placements(v: &Vec<Placement>) -> (r: Vec<Placement>)
    ensures
        r@ == v@,
{
    let mut out: Vec<Placement> = Vec::new();
    let mut i: usize = 0;
    while i < v.len()
        invariant
            i <= v@.len(),
            out@ =~= v@.take(i as int),
        decreases v@.len() - i,
    {
        out.push(v[i]);
        i = i + 1;
        assert(out@ =~= v@.take(i as int));
    }
    assert(v@.take(v@.len() as int) =~= v@);
    out
}

/// What a canvas holds, as seen by its contracts.
pub struct CanvasView {
    /// The layers in paint order.
    pub layers: Seq<Layer>,
    /// The kept background, with the output size it was drawn for.
    pub background: Option<(Size, Fill)>,
    /// How many times the background was drawn anew.
    pub background_redraws: u64,
    /// The kept layer composite, with the output size it was drawn for.
    pub surface: Option<(Size, Seq<Placement>)>,
    /// How many times the layer composite was drawn anew.
    pub layer_redraws: u64,
}

/// The ordered layers of a canvas and the two kept drawings of it: one of the
/// background, one of the layers.
#[derive(Debug)]
pub struct CanvasState {
    layers: Vec<Layer>,
    background_cache: Cache<Fill>,
    layers_cache: Cache<Vec<Placement>>,
}

/// Whether the kept composite, if any, shows `layers` at the size it was
/// drawn for.
pub open spec fn coherent(v: CanvasView) -> bool {
    &&& v.surface matches Some((s, c)) ==> c == composite(v.layers, s)
    &&& v.background matches Some((s, f)) ==> f == background_of(s)
}

/// `post` is `pre` after a query of the layer composite at size `bounds` that
/// returned `out`: the composite of the layers at that size, drawn anew only
/// where the kept one was drawn for another size or dropped.
pub open spec fn layers_query(pre: CanvasView, bounds: Size, post: CanvasView, out: Seq<Placement>) -> bool {
    &&& out == composite(pre.layers, bounds)
    &&& post.layers == pre.layers
    &&& post.background == pre.background
    &&& post.background_redraws == pre.background_redraws
    &&& post.surface == Some((bounds, out))
    &&& post.layer_redraws == if pre.surface matches Some((s, _)) && s == bounds {
        pre.layer_redraws
    } else {
        next_count(pre.layer_redraws)
    }
}

/// `post` is `pre` after a query of the background at size `bounds` that
/// returned `out`.
pub open spec fn background_query(pre: CanvasView, bounds: Size, post: CanvasView, out: Fill) -> bool {
    &&& out == background_of(bounds)
    &&& post.layers == pre.layers
    &&& post.surface == pre.surface
    &&& post.layer_redraws == pre.layer_redraws
    &&& post.background == Some((bounds, out))
    &&& post.background_redraws == if pre.background matches Some((s, _)) && s == bounds {
        pre.background_redraws
    } else {
        next_count(pre.background_redraws)
    }
}

/// `pre` once its background has been queried at size `bounds`.
pub open spec fn with_background(pre: CanvasView, bounds: Size) -> CanvasView {
    CanvasView {
        background: Some((bounds, background_of(bounds))),
        background_redraws: if pre.background matches Some((s, _)) && s == bounds {
            pre.background_redraws
        } else {
            next_count(pre.background_redraws)
        },
        ..pre
    }
}

/// `post` is `pre` with its layers replaced by `layers` and the kept
/// composite dropped; the background stays.
pub open spec fn reshaped(pre: CanvasView, layers: Seq<Layer>, post: CanvasView) -> bool {
    &&& post.layers == layers
    &&& post.surface is None
    &&& post.layer_redraws == pre.layer_redraws
    &&& post.background == pre.background
    &&& post.background_redraws == pre.background_redraws
}

impl View for CanvasState {
    type V = CanvasView;

    closed spec fn view(&self) -> CanvasView {
        CanvasView {
            layers: self.layers@,
            background: self.background_cache.entry,
            background_redraws: self.background_cache.redraws,
            surface: match self.layers_cache.entry {
                Some((s, c)) => Some((s, c@)),
                None => None,
            },
            layer_redraws: self.layers_cache.redraws,
        }
    }
}

impl CanvasState {
    /// Every layer well formed, and the kept drawings true to the layers.
    pub open spec fn wf(&self) -> bool {
        &&& all_wf(self@.layers)
        &&& coherent(self@)
    }

    /// An empty canvas with nothing drawn yet.
    pub fn new() -> (r: CanvasState)
        ensures
            r.wf(),
            r@.layers.len() == 0,
            r@.background is None,
            r@.surface is None,
            r@.background_redraws == 0,
            r@.layer_redraws == 0,
    {
        CanvasState { layers: Vec::new(), background_cache: Cache::new(), layers_cache: Cache::new() }
    }

    /// A tick: drops the kept layer composite, so that the next query draws
    /// the layers anew.
    pub fn update(&mut self)
        requires
            old(self).wf(),
        ensures
            final(self).wf(),
            reshaped(old(self)@, old(self)@.layers, final(self)@),
    {
        self.layers_cache.clear();
    }

    /// How many times the layer composite was drawn anew.
    pub fn layer_redraws(&self) -> (r: u64)
        ensures
            r == self@.layer_redraws,
    {
        self.layers_cache.redraws
    }

    /// How many times the background was drawn anew.
    pub fn background_redraws(&self) -> (r: u64)
        ensures
            r == self@.background_redraws,
    {
        self.background_cache.redraws
    }

    pub fn len(&self) -> (r: usize)
        ensures
            r == self@.layers.len(),
    {
        self.layers.len()
    }

    /// The layer at `index`, if there is one.
    pub fn get(&self, index: usize) -> (r: Option<&Layer>)
        ensures
            index < self@.layers.len() ==> r == Some(&self@.layers[index as int]),
            index >= self@.layers.len() ==> r is None,
    {
        if index < self.layers.len() {
            Some(&self.layers[index])
        } else {
            None
        }
    }

    /// Puts `layer` on top of the others.
    pub fn append(&mut self, layer: Layer)
        requires
            old(self).wf(),
            layer.wf(),
        ensures
            final(self).wf(),
            reshaped(old(self)@, old(self)@.layers.push(layer), final(self)@),
    {
        self.layers.push(layer);
        self.layers_cache.clear();
        assert(all_wf(self@.layers));
    }

    /// Takes out the layer at `index`; those above it move down by one.
    /// Fails where `index` names no layer, and then changes nothing.
    pub fn remove_at(&mut self, index: usize) -> (r: Result<Layer, Error>)
        requires
            old(self).wf(),
        ensures
            final(self).wf(),
            index < old(self)@.layers.len() ==> {
                &&& r == Ok::<Layer, Error>(old(self)@.layers[index as int])
                &&& reshaped(old(self)@, old(self)@.layers.remove(index as int), final(self)@)
            },
            index >= old(self)@.layers.len() ==> {
                &&& r == Err::<Layer, Error>(Error::IndexOutOfRange)
                &&& final(self)@ == old(self)@
            },
    {
        if index < self.layers.len() {
            let l = self.layers.remove(index);
            self.layers_cache.clear();
            assert(all_wf(self@.layers)) by {
                assert forall|i: int| 0 <= i < self@.layers.len() implies (#[trigger] self@.layers[i]).wf() by {
                    if i < index {
                        assert(self@.layers[i] == old(self)@.layers[i]);
                    } else {
                        assert(self@.layers[i] == old(self)@.layers[i + 1]);
                    }
                }
            }
            Ok(l)
        } else {
            Err(Error::IndexOutOfRange)
        }
    }

    /// The names of the layers, in paint order.
    pub fn names(&self) -> (r: Vec<String>)
        ensures
            r@.len() == self@.layers.len(),
            forall|i: int| 0 <= i < r@.len() ==> (#[trigger] r@[i])@ == self@.layers[i].name@,
    {
        let mut out: Vec<String> = Vec::new();
        let mut i: usize = 0;
        while i < self.layers.len()
            invariant
                i <= self@.layers.len(),
                self@.layers == self.layers@,
                out@.len() == i,
                forall|k: int| 0 <= k < i ==> (#[trigger] out@[k])@ == self@.layers[k].name@,
            decreases self@.layers.len() - i,
        {
            out.push(self.layers[i].label());
            i = i + 1;
        }
        out
    }

    /// The background at output size `bounds`, drawn anew only where the kept
    /// one was drawn for another size.
    pub fn draw_background(&mut self, bounds: Size) -> (r: Fill)
        requires
            old(self).wf(),
        ensures
            final(self).wf(),
            background_query(old(self)@, bounds, final(self)@, r),
    {
        if self.background_cache.is_valid_for(bounds) {
            match &self.background_cache.entry {
                Some((_, f)) => *f,
                None => Fill { size: bounds, rgba: BACKGROUND_RGBA },
            }
        } else {
            let f = Fill { size: bounds, rgba: BACKGROUND_RGBA };
            self.background_cache.store(bounds, f);
            f
        }
    }

    /// The layers drawn at output size `bounds`, drawn anew only where the
    /// kept composite was drawn for another size or dropped.
    pub fn draw_layers(&mut self, bounds: Size) -> (r: Vec<Placement>)
        requires
            old(self).wf(),
        ensures
            final(self).wf(),
            layers_query(old(self)@, bounds, final(self)@, r@),
    {
        if self.layers_cache.is_valid_for(bounds) {
            match &self.layers_cache.entry {
                Some((_, c)) => copy_placements(c),
                None => compose(&self.layers, bounds),
            }
        } else {
            let c = compose(&self.layers, bounds);
            let out = copy_placements(&c);
            self.layers_cache.store(bounds, c);
            out
        }
    }

    /// One frame at output size `bounds`: the background, then the layers.
    pub fn draw(&mut self, bounds: Size) -> (r: Drawing)
        requires
            old(self).wf(),
        ensures
            final(self).wf(),
            background_query(old(self)@, bounds, with_background(old(self)@, bounds), r.background),
            layers_query(with_background(old(self)@, bounds), bounds, final(self)@, r.layers@),
    {
        let background = self.draw_background(bounds);
        let layers = self.draw_layers(bounds);
        Drawing { background, layers }
    }
}

impl Default for CanvasState {
    fn default() -> (r: CanvasState)
        ensures
            r.wf(),
            r@.layers.len() == 0,
            r@.background is None,
            r@.surface is None,
            r@.background_redraws == 0,
            r@.layer_redraws == 0,
    {
        CanvasState::new()
    }
}

} // verus!

verus! {

/// Two queries of the layer composite at one size, with nothing changed in
/// between, return the same composite, and the second one draws nothing anew.
pub proof fn lemma_layers_query_idempotent(
    s0: CanvasView,
    bounds: Size,
    s1: CanvasView,
    out1: Seq<Placement>,
    s2: CanvasView,
    out2: Seq<Placement>,
)
    requires
        layers_query(s0, bounds, s1, out1),
        layers_query(s1, bounds, s2, out2),
    ensures
        out2 == out1,
        s2 == s1,
        s2.layer_redraws == s1.layer_redraws,
{
}

/// After the layers change (an append, a removal) or a tick, the next query
/// of the layer composite draws it anew: the count of redraws moves on.
pub proof fn lemma_reshape_forces_redraw(
    s0: CanvasView,
    layers: Seq<Layer>,
    s1: CanvasView,
    bounds: Size,
    s2: CanvasView,
    out: Seq<Placement>,
)
    requires
        reshaped(s0, layers, s1),
        layers_query(s1, bounds, s2, out),
    ensures
        s2.layer_redraws == next_count(s0.layer_redraws),
        s2.layer_redraws != s1.layer_redraws,
        out == composite(layers, bounds),
{
}

} // verus!
