//! Detected image points and the set of samples that a session collects.

use vstd::prelude::*;
use crate::target::ReferencePoint;

verus! {

/// Where a feature of the pattern was seen in a frame, in pixels. Each
/// coordinate is kept as the 32 bits of a single-precision number, so that a
/// point comes back from the set exactly as it went in.
#[derive(Clone, Copy, Debug, PartialEq, Eq, Structural)]
pub struct ImagePoint {
    pub x_bits: u32,
    pub y_bits: u32,
}

/// What the pattern detector says of one frame.
#[derive(Debug, PartialEq, Eq)]
pub enum Detection {
    /// The pattern was not seen.
    NotFound,
    /// The pattern was seen; its points are given in the target's scan order.
    Found(Vec<ImagePoint>),
}

/// One sample: the pattern's reference points and where they were seen.
pub ghost struct SampleModel {
    pub object_points: Seq<ReferencePoint>,
    pub image_points: Seq<ImagePoint>,
}

/// What a sample set is: its samples in the order of acceptance, and the
/// number of samples it may hold.
pub ghost struct SampleSetModel {
    pub samples: Seq<SampleModel>,
    pub capacity: nat,
}

impl SampleSetModel {
    /// The set holds no more samples than it was made for.
    pub open spec fn valid(self) -> bool {
        self.samples.len() <= self.capacity
    }

    /// The set with no samples.
    pub open spec fn empty(capacity: nat) -> SampleSetModel {
        SampleSetModel { samples: Seq::empty(), capacity }
    }

    /// The set after one more sample was accepted.
    pub open spec fn with_sample(
        self,
        object_points: Seq<ReferencePoint>,
        image_points: Seq<ImagePoint>,
    ) -> SampleSetModel {
        SampleSetModel {
            samples: self.samples.push(SampleModel { object_points, image_points }),
            capacity: self.capacity,
        }
    }
}

/// The accepted samples of one session, in the order of acceptance. The
/// reference points and the image points are kept in two lists of the same
/// length, sample by sample, and the set never outgrows its capacity.
#[derive(Debug)]
pub struct SampleSet {
    object_points: Vec<Vec<ReferencePoint>>,
    image_points: Vec<Vec<ImagePoint>>,
    capacity: usize,
}

impl View for SampleSet {
    type V = SampleSetModel;

    closed spec fn view(&self) -> SampleSetModel {
        SampleSetModel {
            samples: Seq::new(
                self.object_points@.len(),
                |i: int|
                    SampleModel {
                        object_points: self.object_points@[i]@,
                        image_points: self.image_points@[i]@,
                    },
            ),
            capacity: self.capacity as nat,
        }
    }
}

impl SampleSet {
    #[verifier::type_invariant]
    spec fn well_formed(self) -> bool {
        &&& self.object_points@.len() == self.image_points@.len()
        &&& self.object_points@.len() <= self.capacity
    }

    /// An empty set that may hold up to `capacity` samples.
    pub fn new(capacity: usize) -> (set: SampleSet)
        ensures
            set@ == SampleSetModel::empty(capacity as nat),
    {
        let set = SampleSet { object_points: Vec::new(), image_points: Vec::new(), capacity };
        proof {
            assert(set@.samples =~= Seq::empty());
        }
        set
    }

    /// Number of samples in the set.
    pub fn len(&self) -> (n: usize)
        ensures
            n == self@.samples.len(),
            self@.valid(),
    {
        proof {
            use_type_invariant(self);
        }
        self.object_points.len()
    }

    /// Number of samples that the set may hold.
    pub fn capacity(&self) -> (n: usize)
        ensures
            n == self@.capacity,
            self@.valid(),
    {
        proof {
            use_type_invariant(self);
        }
        self.capacity
    }

    /// Whether the set holds as many samples as it may.
    pub fn is_full(&self) -> (full: bool)
        ensures
            full <==> self@.samples.len() == self@.capacity,
            self@.valid(),
    {
        proof {
            use_type_invariant(self);
        }
        self.object_points.len() == self.capacity
    }

    /// The reference points of every sample, in the order of acceptance.
    pub fn object_points(&self) -> (lists: &Vec<Vec<ReferencePoint>>)
        ensures
            lists@.len() == self@.samples.len(),
            forall|i: int|
                0 <= i < lists@.len() ==> (#[trigger] lists@[i])@ == self@.samples[i].object_points,
    {
        proof {
            use_type_invariant(self);
        }
        &self.object_points
    }

    /// The image points of every sample, in the order of acceptance.
    pub fn image_points(&self) -> (lists: &Vec<Vec<ImagePoint>>)
        ensures
            lists@.len() == self@.samples.len(),
            forall|i: int|
                0 <= i < lists@.len() ==> (#[trigger] lists@[i])@ == self@.samples[i].image_points,
    {
        proof {
            use_type_invariant(self);
        }
        &self.image_points
    }

    /// Appends one sample, unless the set is full. Tells whether the sample
    /// was taken; a full set stays as it is.
    pub fn push(
        &mut self,
        object_points: Vec<ReferencePoint>,
        image_points: Vec<ImagePoint>,
    ) -> (accepted: bool)
        ensures
            accepted <==> old(self)@.samples.len() < old(self)@.capacity,
            accepted ==> final(self)@ == old(self)@.with_sample(object_points@, image_points@),
            !accepted ==> final(self)@ == old(self)@,
            final(self)@.valid(),
    {
        proof {
            use_type_invariant(&*self);
        }
        if self.object_points.len() >= self.capacity {
            return false;
        }
        let ghost before = self@;
        let mut taken = SampleSet::new(self.capacity);
        core::mem::swap(self, &mut taken);
        let SampleSet { object_points: mut objects, image_points: mut images, capacity } = taken;
        objects.push(object_points);
        images.push(image_points);
        *self = SampleSet { object_points: objects, image_points: images, capacity };
        proof {
            assert(self@.samples =~= before.with_sample(object_points@, image_points@).samples);
        }
        true
    }

    /// Throws every sample away. The capacity stays.
    pub fn clear(&mut self)
        ensures
            final(self)@ == SampleSetModel::empty(old(self)@.capacity),
    {
        *self = SampleSet::new(self.capacity);
    }
}

} // verus!
