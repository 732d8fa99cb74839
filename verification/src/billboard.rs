use vstd::prelude::*;

use crate::frame_data::FrameDataManager;

verus! {

/// How many billboards the GPU storage buffer holds.
pub const MAX_BILLBOARDS: u64 = 65536;

/// Each billboard is drawn as two triangles.
pub const VERTICES_PER_BILLBOARD: u32 = 6;

/// Draws a fresh seed for the billboard shader from the thread-local generator
/// `rand::rng()` by `RngCore::next_u32`.  Nothing is claimed of the value.
#[verifier::external_body]
fn next_random_u32() -> (value: u32) {
    rand::RngCore::next_u32(&mut rand::rng())
}

/// The per-draw values that the billboard shader receives besides the camera vectors.
#[derive(Clone, Copy, Debug, PartialEq, Eq, Structural)]
pub struct BillBoardDrawCall {
    /// Number of vertices to draw: six per billboard.
    pub vertex_count: u32,
    /// Index of the billboards' transform in this frame's transform list.
    pub matrix_index: u32,
    /// Seed for the shader's noise.
    pub random_seed: u32,
}

/// What the renderer has to do for the billboards in one frame.
pub struct BillBoardFrame<T> {
    /// Billboards to copy into the storage buffer before drawing, if they changed.
    pub upload: Option<Vec<T>>,
    /// The draw call, if there is anything to draw.
    pub draw: Option<BillBoardDrawCall>,
}

/// The view of an optional list.
pub open spec fn option_view<T>(o: Option<Vec<T>>) -> Option<Seq<T>> {
    match o {
        Some(v) => Some(v@),
        None => None,
    }
}

/// How many billboards the buffer holds after a draw, given the list that was waiting
/// (if any) and how many it held before.
pub open spec fn count_after_draw<T>(pending: Option<Seq<T>>, count: nat) -> nat {
    match pending {
        Some(list) => list.len(),
        None => count,
    }
}

/// Keeps the billboards that the storage buffer should show: a list waiting to be
/// uploaded, if one was handed in since the last draw, and how many billboards the
/// buffer holds now.
pub struct BillBoardManager<T> {
    billboard_update: Option<Vec<T>>,
    number_of_billboards_to_draw: u32,
}

impl<T> BillBoardManager<T> {
    #[verifier::type_invariant]
    spec fn fits_buffer(self) -> bool {
        self.number_of_billboards_to_draw <= MAX_BILLBOARDS
    }

    /// The list waiting to be uploaded at the next draw, if any.
    pub closed spec fn pending(self) -> Option<Seq<T>> {
        option_view(self.billboard_update)
    }

    /// How many billboards the storage buffer holds, as of the last upload.
    pub closed spec fn count(self) -> nat {
        self.number_of_billboards_to_draw as nat
    }

    /// A manager with an empty buffer and nothing waiting.
    pub fn new() -> (manager: BillBoardManager<T>)
        ensures
            manager.pending() is None,
            manager.count() == 0,
            manager.count() <= MAX_BILLBOARDS,
    {
        BillBoardManager { billboard_update: None, number_of_billboards_to_draw: 0 }
    }

    /// Whether the next `prepare_draw` plans a draw call: the buffer holds, or is about
    /// to receive, at least one billboard.
    pub fn draws_next_frame(&self) -> (draws: bool)
        ensures
            draws == (count_after_draw(self.pending(), self.count()) > 0),
            self.count() <= MAX_BILLBOARDS,
    {
        proof {
            use_type_invariant(self);
        }
        match &self.billboard_update {
            Some(list) => list.len() > 0,
            None => self.number_of_billboards_to_draw > 0,
        }
    }

    /// How many billboards are waiting to be uploaded, if a list is waiting.
    pub fn pending_len(&self) -> (len: Option<usize>)
        ensures
            len == match self.pending() {
                Some(list) => Some(list.len() as usize),
                None => None::<usize>,
            },
            self.count() <= MAX_BILLBOARDS,
    {
        proof {
            use_type_invariant(self);
        }
        match &self.billboard_update {
            Some(list) => Some(list.len()),
            None => None,
        }
    }

    /// Hands in the billboards to show from the next draw on; a list handed in earlier
    /// and not drawn yet is dropped.
    pub fn set_billboards(&mut self, new_billboards: Vec<T>)
        ensures
            final(self).pending() == Some(new_billboards@),
            final(self).count() == old(self).count(),
            final(self).count() <= MAX_BILLBOARDS,
    {
        proof {
            use_type_invariant(&*self);
        }
        self.billboard_update = Some(new_billboards);
    }

    /// Plans this frame's billboard work with the given seed for the shader's noise.
    /// A waiting list is handed out for upload and becomes the buffer's contents; then, if the buffer holds any billboard, the
    /// billboards' transform is registered with the frame and a draw call of six
    /// vertices per billboard is planned.  A waiting list must fit in the buffer, and
    /// when a draw is planned the frame's next transform index must fit in a `u32`.
    /// A planned draw call carries `random_seed`.
    pub fn prepare_draw_with_seed<U>(
        &mut self,
        frame_data_manager: &mut FrameDataManager<U>,
        transform: U,
        random_seed: u32,
    ) -> (frame: BillBoardFrame<T>)
        requires
            old(self).pending() matches Some(list) ==> list.len() <= MAX_BILLBOARDS,
            count_after_draw(old(self).pending(), old(self).count()) > 0
                ==> old(frame_data_manager)@.len() <= u32::MAX,
        ensures
            option_view(frame.upload) == old(self).pending(),
            final(self).pending() is None,
            final(self).count() == count_after_draw(old(self).pending(), old(self).count()),
            final(self).count() <= MAX_BILLBOARDS,
            frame.draw is Some <==> final(self).count() > 0,
            frame.draw matches Some(call) ==> {
                &&& call.vertex_count == final(self).count() * 6
                &&& call.matrix_index == old(frame_data_manager)@.len()
                &&& final(frame_data_manager)@ == old(frame_data_manager)@.push(transform)
                &&& call.random_seed == random_seed
            },
            frame.draw is None ==> final(frame_data_manager)@ == old(frame_data_manager)@,
    {
        proof {
            use_type_invariant(&*self);
        }
        let mut upload: Option<Vec<T>> = None;
        std::mem::swap(&mut upload, &mut self.billboard_update);
        if let Some(new_billboards) = &upload {
            self.number_of_billboards_to_draw = new_billboards.len() as u32;
        }
        if self.number_of_billboards_to_draw > 0 {
            let vertex_count: u32 = self.number_of_billboards_to_draw * VERTICES_PER_BILLBOARD;
            let matrix_index: u32 = frame_data_manager.append_transform(transform);
            BillBoardFrame {
                upload,
                draw: Some(BillBoardDrawCall { vertex_count, matrix_index, random_seed }),
            }
        } else {
            BillBoardFrame { upload, draw: None }
        }
    }

    /// Plans this frame's billboard work.  A waiting list is handed out for upload and
    /// becomes the buffer's contents; then, if the buffer holds any billboard, the
    /// billboards' transform is registered with the frame and a draw call of six
    /// vertices per billboard is planned.  A waiting list must fit in the buffer, and
    /// when a draw is planned the frame's next transform index must fit in a `u32`.
    /// The seed of a planned draw call is drawn from the thread's random generator,
    /// only when a draw is planned.
    pub fn prepare_draw<U>(
        &mut self,
        frame_data_manager: &mut FrameDataManager<U>,
        transform: U,
    ) -> (frame: BillBoardFrame<T>)
        requires
            old(self).pending() matches Some(list) ==> list.len() <= MAX_BILLBOARDS,
            count_after_draw(old(self).pending(), old(self).count()) > 0
                ==> old(frame_data_manager)@.len() <= u32::MAX,
        ensures
            option_view(frame.upload) == old(self).pending(),
            final(self).pending() is None,
            final(self).count() == count_after_draw(old(self).pending(), old(self).count()),
            final(self).count() <= MAX_BILLBOARDS,
            frame.draw is Some <==> final(self).count() > 0,
            frame.draw matches Some(call) ==> {
                &&& call.vertex_count == final(self).count() * 6
                &&& call.matrix_index == old(frame_data_manager)@.len()
                &&& final(frame_data_manager)@ == old(frame_data_manager)@.push(transform)
            },
            frame.draw is None ==> final(frame_data_manager)@ == old(frame_data_manager)@,
    {
        let random_seed: u32 = if self.draws_next_frame() {
            next_random_u32()
        } else {
            0
        };
        self.prepare_draw_with_seed(frame_data_manager, transform, random_seed)
    }
}

/// The upload handed out is exactly the list that was waiting, element for element, and
/// nothing when no list was waiting.
pub proof fn upload_is_the_waiting_list<T>(list: Vec<T>)
    ensures
        option_view(Some(list)) == Some(list@),
        option_view(None::<Vec<T>>) is None,
{
}

/// After a draw the buffer holds exactly the billboards of the list that was waiting,
/// whatever it held before.
pub proof fn draw_shows_waiting_list<T>(count: nat, list: Seq<T>)
    ensures
        count_after_draw(Some(list), count) == list.len(),
{
}

/// A draw with no new list keeps what the buffer holds: drawing again repeats the
/// previous frame's billboards.
pub proof fn redraw_keeps_billboards<T>(pending: Option<Seq<T>>, count: nat)
    ensures
        count_after_draw(None::<Seq<T>>, count_after_draw(pending, count)) == count_after_draw(
            pending,
            count,
        ),
{
}

} // verus!
