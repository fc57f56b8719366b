use vstd::prelude::*;
use crate::context::Vertex;
use crate::geom::{affine_bounded, Affine, Rect};

verus! {

/// A vector image tessellated once: geometry whose primitive ids are relative
/// (0 up to the number of transform variants), and the transforms of its
/// repeated instances.
#[derive(Clone, Debug)]
pub struct CachedImage {
    pub view_box: Rect,
    pub vertices: Vec<Vertex>,
    pub indices: Vec<u32>,
    pub transforms: Vec<Affine>,
}

impl CachedImage {
    /// A positive view box in range, bounded variant transforms, relative ids
    /// within the variants plus one, and indices that name vertices.
    pub open spec fn wf(&self) -> bool {
        &&& self.view_box.bounded()
        &&& self.view_box.x0 < self.view_box.x1
        &&& self.view_box.y0 < self.view_box.y1
        &&& forall|i: int| 0 <= i < self.transforms@.len() ==> affine_bounded(#[trigger] self.transforms@[i]@)
        &&& forall|i: int|
            0 <= i < self.vertices@.len() ==> (#[trigger] self.vertices@[i]).primitive_id
                <= self.transforms@.len()
        &&& forall|i: int| 0 <= i < self.indices@.len() ==> #[trigger] self.indices@[i] < self.vertices@.len()
    }

    pub fn is_wf(&self) -> (b: bool)
        ensures
            b == self.wf(),
    {
        if !self.view_box.is_bounded() || self.view_box.x0 >= self.view_box.x1 || self.view_box.y0
            >= self.view_box.y1 {
            return false;
        }
        let mut i: usize = 0;
        while i < self.transforms.len()
            invariant
                i <= self.transforms@.len(),
                forall|j: int| 0 <= j < i ==> affine_bounded(#[trigger] self.transforms@[j]@),
            decreases self.transforms@.len() - i,
        {
            if !self.transforms[i].is_bounded() {
                return false;
            }
            i = i + 1;
        }
        let mut k: usize = 0;
        while k < self.vertices.len()
            invariant
                k <= self.vertices@.len(),
                forall|j: int|
                    0 <= j < k ==> (#[trigger] self.vertices@[j]).primitive_id
                        <= self.transforms@.len(),
            decreases self.vertices@.len() - k,
        {
            if self.vertices[k].primitive_id as usize > self.transforms.len() {
                return false;
            }
            k = k + 1;
        }
        let mut m: usize = 0;
        while m < self.indices.len()
            invariant
                m <= self.indices@.len(),
                forall|j: int| 0 <= j < m ==> #[trigger] self.indices@[j] < self.vertices@.len(),
            decreases self.indices@.len() - m,
        {
            if self.indices[m] as usize >= self.vertices.len() {
                return false;
            }
            m = m + 1;
        }
        true
    }
}

/// Tessellated vector images keyed by image identity. An entry never changes
/// once it is there.
pub struct ImageCache {
    entries: Vec<(u64, CachedImage)>,
}

impl ImageCache {
    pub closed spec fn entries(&self) -> Seq<(u64, CachedImage)> {
        self.entries@
    }

    pub open spec fn has(&self, id: u64) -> bool {
        exists|i: int| 0 <= i < self.entries().len() && (#[trigger] self.entries()[i]).0 == id
    }

    /// The image cached under `id`.
    pub open spec fn entry(&self, id: u64) -> CachedImage {
        self.entries()[choose|i: int| 0 <= i < self.entries().len() && (#[trigger] self.entries()[i]).0 == id].1
    }

    /// Keys are unique and every image is well formed.
    pub open spec fn wf(&self) -> bool {
        &&& forall|i: int, j: int|
            0 <= i < j < self.entries().len() ==> (#[trigger] self.entries()[i]).0
                != (#[trigger] self.entries()[j]).0
        &&& forall|i: int| 0 <= i < self.entries().len() ==> (#[trigger] self.entries()[i]).1.wf()
    }

    pub fn new() -> (c: ImageCache)
        ensures
            c.wf(),
            c.entries().len() == 0,
    {
        ImageCache { entries: Vec::new() }
    }

    /// The image cached under `id`, if any.
    pub fn get(&self, id: u64) -> (r: Option<&CachedImage>)
        requires
            self.wf(),
        ensures
            r is None <==> !self.has(id),
            r is Some ==> *r.unwrap() == self.entry(id),
    {
        let mut i: usize = 0;
        while i < self.entries.len()
            invariant
                i <= self.entries@.len(),
                self.wf(),
                forall|j: int| 0 <= j < i ==> (#[trigger] self.entries@[j]).0 != id,
            decreases self.entries@.len() - i,
        {
            if self.entries[i].0 == id {
                assert(self.entries()[i as int].0 == id);
                let ghost c = choose|q: int| 0 <= q < self.entries().len() && (#[trigger] self.entries()[q]).0 == id;
                assert(c == i as int) by {
                    if c < i {
                    } else if c > i {
                        assert(self.entries()[i as int].0 != self.entries()[c].0);
                    }
                }
                return Some(&self.entries[i].1);
            }
            i = i + 1;
        }
        None
    }

    /// Caches a well-formed image under a new key; an existing entry is kept
    /// as it is and a malformed image is refused, both with `false`.
    pub fn insert(&mut self, id: u64, image: CachedImage) -> (added: bool)
        requires
            old(self).wf(),
        ensures
            final(self).wf(),
            added == (!old(self).has(id) && image.wf()),
            added ==> final(self).entries() == old(self).entries().push((id, image)),
            !added ==> final(self).entries() == old(self).entries(),
    {
        if !image.is_wf() {
            return false;
        }
        match self.get(id) {
            Some(_) => false,
            None => {
                self.entries.push((id, image));
                assert(self.entries()[old(self).entries().len() as int] == (id, image));
                true
            },
        }
    }
}

} // verus!
