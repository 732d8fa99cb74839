use vstd::prelude::*;

verus! {

/// Collects the transforms that the objects of one frame register, in the order in
/// which they register them.  The index that a registration returns is the position of
/// that transform in the frame's list, which the shaders use to find its matrices.
pub struct FrameDataManager<T> {
    transforms: Vec<T>,
}

impl<T> View for FrameDataManager<T> {
    type V = Seq<T>;

    /// The transforms registered since the frame started, oldest first.
    closed spec fn view(&self) -> Seq<T> {
        self.transforms@
    }
}

impl<T> FrameDataManager<T> {
    /// A manager with no transforms registered.
    pub fn new() -> (manager: FrameDataManager<T>)
        ensures
            manager@ == Seq::<T>::empty(),
    {
        FrameDataManager { transforms: Vec::new() }
    }

    /// Forgets the transforms of the previous frame.
    pub fn start_new_frame(&mut self)
        ensures
            final(self)@ == Seq::<T>::empty(),
    {
        self.transforms.clear();
    }

    /// Registers a transform for this frame and returns its index in the frame's list.
    /// The index must fit in a `u32`.
    #[must_use]
    pub fn append_transform(&mut self, transform: T) -> (output_index: u32)
        requires
            old(self)@.len() <= u32::MAX,
        ensures
            output_index == old(self)@.len(),
            final(self)@ == old(self)@.push(transform),
    {
        let output_index: u32 = self.transforms.len() as u32;
        self.transforms.push(transform);
        output_index
    }

    /// The transforms registered in this frame, in the order of their indices.
    pub fn end_frame(&self) -> (transforms: &[T])
        ensures
            transforms@ == self@,
    {
        self.transforms.as_slice()
    }
}

/// Registering a transform leaves the earlier entries of the frame where they were and
/// puts the new transform at the index that the registration returned.
pub proof fn appended_transform_is_found_at_its_index<T>(frame: Seq<T>, transform: T)
    ensures
        frame.push(transform)[frame.len() as int] == transform,
        frame.push(transform).len() == frame.len() + 1,
        forall|i: int| 0 <= i < frame.len() ==> #[trigger] frame.push(transform)[i] == frame[i],
{
}

} // verus!
