//! Layers and the layer stack, which fixes the order of per-frame updates:
//! layers first, in insertion order, then overlays.

use crate::events::event::Event;
use crate::object::Object;
use vstd::prelude::*;

verus! {

/// An object as a layer holds it.
pub type BoxedObject = Box<dyn Object>;

/// `value`, found.
fn found<T>(value: T) -> (wrapped: Option<T>)
    ensures
        wrapped == Some(value),
{
    Some(value)
}

/// An ordered group of objects that is updated once per frame.
pub struct Layer {
    enabled: bool,
    objects: Vec<Box<dyn Object>>,
    debug_name: String,
}

impl Layer {
    /// Whether the layer takes part.
    pub closed spec fn is_enabled(&self) -> bool {
        self.enabled
    }

    /// The objects of the layer, in order.
    pub closed spec fn objects(&self) -> Seq<Box<dyn Object>> {
        self.objects@
    }

    /// The name shown when debugging.
    pub closed spec fn name(&self) -> Seq<char> {
        self.debug_name@
    }

    /// A layer with the given objects, or without objects where none are
    /// given.
    pub fn new(
        enabled: bool,
        objects: Option<Vec<Box<dyn Object>>>,
        debug_name: String,
    ) -> (layer: Layer)
        ensures
            layer.is_enabled() == enabled,
            layer.name() == debug_name@,
            layer.objects() == match objects {
                Some(given) => given@,
                None => Seq::<Box<dyn Object>>::empty(),
            },
    {
        Layer {
            enabled,
            objects: match objects {
                Some(given) => given,
                None => Vec::new(),
            },
            debug_name,
        }
    }

    #[inline]
    pub fn enabled(&self) -> (enabled: bool)
        ensures
            enabled == self.is_enabled(),
    {
        self.enabled
    }

    #[inline]
    pub fn set_enabled(&mut self, enable: bool)
        ensures
            final(self).is_enabled() == enable,
            final(self).objects() == old(self).objects(),
            final(self).name() == old(self).name(),
    {
        self.enabled = enable;
    }

    #[inline]
    pub fn debug_name(&self) -> (name: &String)
        ensures
            name@ == self.name(),
    {
        &self.debug_name
    }

    #[inline]
    pub fn set_debug_name(&mut self, name: String)
        ensures
            final(self).name() == name@,
            final(self).objects() == old(self).objects(),
            final(self).is_enabled() == old(self).is_enabled(),
    {
        self.debug_name = name;
    }

    /// The number of objects.
    pub fn object_count(&self) -> (n: usize)
        ensures
            n == self.objects().len(),
    {
        self.objects.len()
    }

    /// Adds `obj` after the objects of the layer.
    pub fn push_object(&mut self, obj: Box<dyn Object>)
        ensures
            final(self).objects() == old(self).objects().push(obj),
            final(self).is_enabled() == old(self).is_enabled(),
            final(self).name() == old(self).name(),
    {
        self.objects.push(obj);
    }

    /// Puts `obj` at `index`, before the object that stood there.
    pub fn insert_object(&mut self, obj: Box<dyn Object>, index: usize)
        requires
            index <= old(self).objects().len(),
        ensures
            final(self).objects() == old(self).objects().insert(index as int, obj),
            final(self).is_enabled() == old(self).is_enabled(),
            final(self).name() == old(self).name(),
    {
        self.objects.insert(index, obj);
    }

    /// Takes the object at `index` out of the layer, if there is one.
    pub fn remove_object(&mut self, index: usize) -> (obj: Option<BoxedObject>)
        ensures
            obj is Some <==> index < old(self).objects().len(),
            obj is Some ==> obj->0 == old(self).objects()[index as int] && final(self).objects()
                == old(self).objects().remove(index as int),
            obj is None ==> final(self).objects() == old(self).objects(),
            final(self).is_enabled() == old(self).is_enabled(),
            final(self).name() == old(self).name(),
    {
        if index < self.objects.len() {
            let taken = self.objects.remove(index);
            let wrapped = found(taken);
            wrapped
        } else {
            None
        }
    }

    /// The object at `index`.
    pub fn get_obj(&self, index: usize) -> (obj: &Box<dyn Object>)
        requires
            index < self.objects().len(),
        ensures
            *obj == self.objects()[index as int],
    {
        &self.objects[index]
    }

    /// The layer's reaction to an event: none. Neither the layer nor the
    /// event changes.
    pub fn on_event<E: Event>(&mut self, e: &mut E)
        ensures
            *final(self) == *old(self),
            *final(e) == *old(e),
    {
    }

    /// The layer's per-frame update: none. The layer does not change.
    pub fn on_update(&mut self)
        ensures
            *final(self) == *old(self),
    {
    }
}

/// Layers in update order. The first `boundary` entries are the layers
/// proper, oldest first; the entries after them are the overlays, oldest
/// first. Overlays are therefore always updated after every layer.
pub struct LayerStack {
    layers: Vec<Layer>,
    insert_index: usize,
}

impl View for LayerStack {
    type V = Seq<Layer>;

    /// All entries in update order.
    closed spec fn view(&self) -> Seq<Layer> {
        self.layers@
    }
}

impl LayerStack {
    /// The number of layers proper: the index at which overlays begin. It
    /// never lies beyond the end of the stack.
    pub closed spec fn boundary(&self) -> nat {
        if self.insert_index <= self.layers@.len() {
            self.insert_index as nat
        } else {
            self.layers@.len()
        }
    }

    /// The layers proper, in update order.
    pub open spec fn layers(&self) -> Seq<Layer> {
        self@.subrange(0, self.boundary() as int)
    }

    /// The overlays, in update order.
    pub open spec fn overlays(&self) -> Seq<Layer> {
        self@.subrange(self.boundary() as int, self@.len() as int)
    }

    /// The boundary lies within the stack, so the stack is its layers
    /// followed by its overlays.
    pub proof fn lemma_layers_then_overlays(&self)
        ensures
            self.boundary() <= self@.len(),
            self@ == self.layers() + self.overlays(),
    {
        assert(self@ =~= self.layers() + self.overlays());
    }

    /// An empty stack, or one over `layers` whose first `index` entries
    /// are the layers proper; all of them where `index` is beyond the end.
    pub fn new(layers: Option<Vec<Layer>>, index: Option<usize>) -> (stack: LayerStack)
        requires
            layers is Some ==> index is Some,
        ensures
            match layers {
                Some(given) => stack@ == given@ && stack.boundary() == if index->0 <= given@.len() {
                    index->0 as nat
                } else {
                    given@.len()
                },
                None => stack@ == Seq::<Layer>::empty() && stack.boundary() == 0,
            },
    {
        match layers {
            Some(given) => match index {
                Some(boundary) => LayerStack { layers: given, insert_index: boundary },
                None => LayerStack { layers: given, insert_index: 0 },
            },
            None => LayerStack { layers: Vec::new(), insert_index: 0 },
        }
    }

    /// The number of entries, layers and overlays together.
    pub fn len(&self) -> (n: usize)
        ensures
            n == self@.len(),
    {
        self.layers.len()
    }

    /// The number of layers proper.
    pub fn layer_count(&self) -> (n: usize)
        ensures
            n == self.boundary(),
            n <= self@.len(),
    {
        if self.insert_index <= self.layers.len() {
            self.insert_index
        } else {
            self.layers.len()
        }
    }

    /// The number of overlays.
    pub fn overlay_count(&self) -> (n: usize)
        ensures
            n == self@.len() - self.boundary(),
    {
        self.layers.len() - self.layer_count()
    }

    /// Adds `layer` after the layers proper and before every overlay, and
    /// moves the boundary forward by exactly one.
    pub fn push_layer(&mut self, layer: Layer)
        ensures
            final(self)@ == old(self)@.insert(old(self).boundary() as int, layer),
            final(self).boundary() == old(self).boundary() + 1,
    {
        let at: usize = self.layer_count();
        self.layers.insert(at, layer);
        let grown: usize = self.layers.len();
        self.insert_index = if at < grown {
            at + 1
        } else {
            grown
        };
    }

    /// Adds `layer` at the very end, after every layer and every overlay.
    pub fn push_overlay(&mut self, layer: Layer)
        ensures
            final(self)@ == old(self)@.push(layer),
            final(self).boundary() == old(self).boundary(),
    {
        let at: usize = self.layer_count();
        self.layers.push(layer);
        self.insert_index = at;
    }

    /// Takes out the layer that was pushed last and moves the boundary
    /// back by exactly one.
    pub fn remove_layer(&mut self) -> (layer: Layer)
        requires
            old(self).boundary() > 0,
        ensures
            layer == old(self)@[old(self).boundary() - 1],
            final(self)@ == old(self)@.remove(old(self).boundary() - 1),
            final(self).boundary() == old(self).boundary() - 1,
    {
        let at: usize = self.layer_count() - 1;
        self.insert_index = at;
        self.layers.remove(at)
    }

    /// Takes out the overlay that was pushed last.
    pub fn remove_overlay(&mut self) -> (layer: Layer)
        requires
            old(self).boundary() < old(self)@.len(),
        ensures
            layer == old(self)@.last(),
            final(self)@ == old(self)@.drop_last(),
            final(self).boundary() == old(self).boundary(),
    {
        let at: usize = self.layer_count();
        let last: usize = self.layers.len() - 1;
        let layer = self.layers.remove(last);
        self.insert_index = at;
        proof {
            assert(old(self)@.remove(last as int) =~= old(self)@.drop_last());
        }
        layer
    }

    /// The entry at `index` in update order.
    pub fn layer(&self, index: usize) -> (layer: Option<&Layer>)
        ensures
            match layer {
                Some(entry) => index < self@.len() && *entry == self@[index as int],
                None => index >= self@.len(),
            },
    {
        if index < self.layers.len() {
            Some(&self.layers[index])
        } else {
            None
        }
    }

    /// All entries in update order, layers first and then overlays, each
    /// open to change. Entries can be changed but not added, removed or
    /// reordered.
    pub fn iter_mut(&mut self) -> (entries: &mut [Layer])
        ensures
            entries@ == old(self)@,
            final(self)@ == final(entries)@,
            final(entries)@.len() == old(self)@.len() ==> final(self).boundary()
                == old(self).boundary(),
    {
        self.layers.as_mut_slice()
    }

    /// Runs the per-frame update of every entry in update order: first
    /// the layers, then the overlays.
    pub fn update_all(&mut self)
        ensures
            final(self)@ == old(self)@,
            final(self).boundary() == old(self).boundary(),
    {
        let n: usize = self.layers.len();
        let mut i: usize = 0;
        while i < n
            invariant
                i <= n,
                n == self.layers@.len(),
                self.layers@ == old(self).layers@,
                self.insert_index == old(self).insert_index,
            decreases n - i,
        {
            self.layers[i].on_update();
            i += 1;
        }
    }
}

/// Pushing layer `a`, then layer `b`, then overlay `c` onto a stack
/// leaves them in the order `a`, `b`, `c` behind the layers that were
/// there and before the overlays that were there, with `c` at the very
/// end. On an empty stack the update order is exactly `a`, `b`, `c`.
pub proof fn lemma_push_order(
    s0: LayerStack,
    s1: LayerStack,
    s2: LayerStack,
    s3: LayerStack,
    a: Layer,
    b: Layer,
    c: Layer,
)
    requires
        s1@ == s0@.insert(s0.boundary() as int, a),
        s1.boundary() == s0.boundary() + 1,
        s2@ == s1@.insert(s1.boundary() as int, b),
        s2.boundary() == s1.boundary() + 1,
        s3@ == s2@.push(c),
        s3.boundary() == s2.boundary(),
    ensures
        s3@ == s0.layers() + seq![a, b] + s0.overlays() + seq![c],
        s3.layers() == s0.layers() + seq![a, b],
        s3.overlays() == s0.overlays() + seq![c],
        s0@.len() == 0 ==> s3@ == seq![a, b, c],
{
    s0.lemma_layers_then_overlays();
    assert(s3@ =~= s0.layers() + seq![a, b] + s0.overlays() + seq![c]);
    assert(s3.layers() =~= s0.layers() + seq![a, b]);
    assert(s3.overlays() =~= s0.overlays() + seq![c]);
    if s0@.len() == 0 {
        assert(s3@ =~= seq![a, b, c]);
    }
}

/// Every overlay comes after every layer in update order: an entry
/// before the boundary is a layer, an entry at or behind it an overlay.
pub proof fn lemma_overlays_update_last(stack: LayerStack, i: int, j: int)
    requires
        0 <= i < stack.layers().len(),
        0 <= j < stack.overlays().len(),
    ensures
        stack.layers()[i] == stack@[i],
        stack.overlays()[j] == stack@[stack.boundary() + j],
        i < stack.boundary() + j,
{
    stack.lemma_layers_then_overlays();
}

} // verus!
