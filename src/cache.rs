use vstd::prelude::*;

use crate::image::Image;

verus! {

/// `a` is an independent copy of `b`: same sizes, same elements.
pub open spec fn is_copy_of<T>(a: Image<T>, b: Image<T>) -> bool {
    &&& a.wf()
    &&& a.dims() == b.dims()
    &&& a.values() == b.values()
}

/// Images read during one evaluation, by path, together with the header of
/// the first image read.
pub struct ImageCache<T, H> {
    paths: Vec<String>,
    images: Vec<Image<T>>,
    header: Option<H>,
}

impl<T, H> ImageCache<T, H> {
    /// Number of cached images.
    pub closed spec fn len(&self) -> nat {
        self.paths@.len()
    }

    /// The path of the `i`-th entry.
    pub closed spec fn path_at(&self, i: int) -> Seq<char> {
        self.paths@[i]@
    }

    /// The image cached for a path, if any.
    pub closed spec fn lookup(&self, p: Seq<char>) -> Option<Image<T>> {
        if exists|i: int| 0 <= i < self.paths@.len() && self.paths@[i]@ == p {
            let i = choose|i: int| 0 <= i < self.paths@.len() && self.paths@[i]@ == p;
            Some(self.images@[i])
        } else {
            None
        }
    }

    /// The header of the first image that was cached.
    pub closed spec fn first_header(&self) -> Option<H> {
        self.header
    }

    /// One entry per path, every image well formed, and a header exactly
    /// when something was cached.
    pub closed spec fn wf(&self) -> bool {
        &&& self.paths@.len() == self.images@.len()
        &&& forall|i: int, j: int|
            0 <= i < j < self.paths@.len() ==> self.paths@[i]@ != self.paths@[j]@
        &&& forall|i: int| 0 <= i < self.images@.len() ==> (#[trigger] self.images@[i]).wf()
        &&& (self.header is Some <==> self.paths@.len() > 0)
    }

    proof fn lemma_lookup_at(&self, i: int)
        requires
            self.wf(),
            0 <= i < self.paths@.len(),
        ensures
            self.lookup(self.paths@[i]@) == Some(self.images@[i]),
    {
        let p = self.paths@[i]@;
        let k = choose|k: int| 0 <= k < self.paths@.len() && self.paths@[k]@ == p;
        assert(k == i);
    }

    /// A cached image is well formed, and the cache holds a header.
    pub proof fn lemma_lookup_wf(&self, p: Seq<char>)
        requires
            self.wf(),
            self.lookup(p) is Some,
        ensures
            self.lookup(p)->0.wf(),
            self.first_header() is Some,
    {
        let i = choose|i: int| 0 <= i < self.paths@.len() && self.paths@[i]@ == p;
        assert(self.images@[i].wf());
    }

    /// An empty cache.
    pub fn new() -> (r: Self)
        ensures
            r.wf(),
            r.len() == 0,
            forall|p: Seq<char>| r.lookup(p) is None,
            r.first_header() is None,
    {
        ImageCache { paths: Vec::new(), images: Vec::new(), header: None }
    }

    /// Whether an image is cached for `path`.
    pub fn contains(&self, path: &String) -> (r: bool)
        requires
            self.wf(),
        ensures
            r == self.lookup(path@) is Some,
    {
        match self.position(path) {
            Some(_) => true,
            None => false,
        }
    }

    fn position(&self, path: &String) -> (r: Option<usize>)
        requires
            self.wf(),
        ensures
            r is None ==> self.lookup(path@) is None,
            r matches Some(i) ==> i < self.paths@.len() && self.paths@[i as int]@ == path@
                && self.lookup(path@) == Some(self.images@[i as int]),
    {
        let mut i: usize = 0;
        while i < self.paths.len()
            invariant
                self.wf(),
                0 <= i <= self.paths@.len(),
                forall|j: int| 0 <= j < i ==> self.paths@[j]@ != path@,
            decreases self.paths@.len() - i,
        {
            if self.paths[i].eq(path) {
                proof {
                    self.lemma_lookup_at(i as int);
                }
                return Some(i);
            }
            i = i + 1;
        }
        None
    }

    /// Adds the image read from `path`; its header is kept if it is the
    /// first image cached.
    pub fn insert(&mut self, path: String, image: Image<T>, header: H)
        requires
            old(self).wf(),
            image.wf(),
            old(self).lookup(path@) is None,
        ensures
            final(self).wf(),
            final(self).len() == old(self).len() + 1,
            final(self).lookup(path@) == Some(image),
            forall|q: Seq<char>| q != path@ ==> final(self).lookup(q) == old(self).lookup(q),
            final(self).first_header() == (if old(self).first_header() is None {
                Some(header)
            } else {
                old(self).first_header()
            }),
    {
        let ghost p = path@;
        let ghost before = *self;
        self.paths.push(path);
        self.images.push(image);
        if self.header.is_none() {
            self.header = Some(header);
        }
        proof {
            let n = before.paths@.len() as int;
            assert forall|i: int| 0 <= i < n implies self.paths@[i]@ != p by {
                if self.paths@[i]@ == p {
                    assert(before.paths@[i]@ == p);
                }
            }
            self.lemma_lookup_at(n);
            assert forall|q: Seq<char>| q != p implies self.lookup(q) == before.lookup(q) by {
                if exists|i: int| 0 <= i < before.paths@.len() && before.paths@[i]@ == q {
                    let i = choose|i: int| 0 <= i < before.paths@.len() && before.paths@[i]@ == q;
                    before.lemma_lookup_at(i);
                    self.lemma_lookup_at(i);
                } else {
                    assert(!exists|i: int| 0 <= i < self.paths@.len() && self.paths@[i]@ == q) by {
                        if exists|i: int| 0 <= i < self.paths@.len() && self.paths@[i]@ == q {
                            let i = choose|i: int| 0 <= i < self.paths@.len() && self.paths@[i]@ == q;
                            assert(i < n);
                        }
                    }
                }
            }
        }
    }

    /// The image cached for `path`, as a copy that the caller owns and may
    /// change without touching the cache; `None` when `path` is not cached.
    pub fn resolve(&self, path: &String) -> (r: Option<Image<T>>)
        where
            T: Copy,
        requires
            self.wf(),
        ensures
            r is Some <==> self.lookup(path@) is Some,
            r matches Some(img) ==> is_copy_of(img, self.lookup(path@)->0),
    {
        match self.position(path) {
            Some(i) => {
                proof {
                    assert(self.images@[i as int].wf());
                }
                Some(self.images[i].duplicate())
            },
            None => None,
        }
    }

    /// The header of the first image that was cached.
    pub fn header(&self) -> (r: Option<&H>)
        ensures
            r matches Some(h) ==> self.first_header() == Some(*h),
            r is None <==> self.first_header() is None,
    {
        match &self.header {
            Some(h) => Some(h),
            None => None,
        }
    }

    /// Gives up the cache, keeping the header of the first image.
    pub fn into_header(self) -> (r: Option<H>)
        ensures
            r == self.first_header(),
    {
        self.header
    }
}

} // verus!
