//! The bridge between the frame channel and the display: on every tick of
//! the user interface it shows the newest frame, or the last one again.

use vstd::prelude::*;
use crate::channel::{law_latest_wins, slot_run, LatestSlot, SlotOp};
use crate::frame::{frame_len, Frame, FrameModel};

verus! {

/// By how much the display's tick rate exceeds the camera's frame rate, in
/// thousandths of a frame per second.
pub const TICK_MARGIN_MILLIHERTZ: u64 = 10_000;

/// Nanoseconds between two ticks of the display, for a camera with the given
/// frame rate in thousandths of a frame per second: the display ticks ten
/// times per second more often than the camera delivers.
pub open spec fn tick_interval(fps_millihertz: nat) -> nat {
    (1_000_000_000_000int / (fps_millihertz as int + 10_000)) as nat
}

/// Nanoseconds between two ticks of the display, for a camera with the given
/// frame rate in thousandths of a frame per second.
pub fn tick_interval_nanos(fps_millihertz: u32) -> (nanos: u64)
    ensures
        nanos == tick_interval(fps_millihertz as nat),
        0 < nanos <= 100_000_000,
{
    let rate: u64 = fps_millihertz as u64 + TICK_MARGIN_MILLIHERTZ;
    assert(0 < 1_000_000_000_000int / (rate as int) <= 100_000_000) by (nonlinear_arith)
        requires
            10_000 <= rate <= 4_294_977_295,
    ;
    1_000_000_000_000u64 / rate
}

/// What a tick did to the display.
#[derive(Clone, Copy, Debug, PartialEq, Eq, Structural)]
pub enum RenderOutcome {
    /// A new frame was waiting and is now shown.
    Fresh,
    /// No frame was waiting: the display shows what it showed before.
    Stale,
    /// The frame that was waiting has another size than the display. It was
    /// dropped, and the display shows what it showed before.
    Rejected,
}

/// What a bridge is: the size of the display and the image it shows. Before
/// the first frame the image is empty.
pub ghost struct BridgeModel {
    pub width: nat,
    pub height: nat,
    pub image: Seq<u8>,
}

impl BridgeModel {
    /// The image is the empty placeholder or fills the display.
    pub open spec fn valid(self) -> bool {
        self.image.len() == 0 || self.image.len() == frame_len(self.width, self.height)
    }

    /// A bridge that has shown nothing yet.
    pub open spec fn blank(width: nat, height: nat) -> BridgeModel {
        BridgeModel { width, height, image: Seq::empty() }
    }

    /// Whether a frame has the size of the display.
    pub open spec fn fits(self, frame: FrameModel) -> bool {
        frame.width == self.width && frame.height == self.height
    }

    /// The bridge after a tick that found `pending` in the channel.
    pub open spec fn tick(self, pending: Option<FrameModel>) -> BridgeModel {
        match pending {
            Some(frame) => if self.fits(frame) {
                BridgeModel { image: frame.data, ..self }
            } else {
                self
            },
            None => self,
        }
    }

    /// What a tick that found `pending` in the channel reports.
    pub open spec fn outcome(self, pending: Option<FrameModel>) -> RenderOutcome {
        match pending {
            Some(frame) => if self.fits(frame) {
                RenderOutcome::Fresh
            } else {
                RenderOutcome::Rejected
            },
            None => RenderOutcome::Stale,
        }
    }
}

/// What a pending frame is, if there is one.
pub open spec fn pending_model(pending: Option<Frame>) -> Option<FrameModel> {
    match pending {
        Some(frame) => Some(frame@),
        None => None,
    }
}

/// Shows frames on a display of a fixed size. It keeps one buffer and fills
/// it again for every frame.
#[derive(Debug)]
pub struct RenderBridge {
    width: u32,
    height: u32,
    image: Vec<u8>,
}

impl View for RenderBridge {
    type V = BridgeModel;

    closed spec fn view(&self) -> BridgeModel {
        BridgeModel { width: self.width as nat, height: self.height as nat, image: self.image@ }
    }
}

/// Fills `buffer` with a copy of `bytes`, whatever it held before.
fn overwrite(buffer: &mut Vec<u8>, bytes: &Vec<u8>)
    ensures
        final(buffer)@ == bytes@,
{
    buffer.clear();
    let mut i: usize = 0;
    while i < bytes.len()
        invariant
            i <= bytes.len(),
            buffer@ == bytes@.subrange(0, i as int),
        decreases bytes.len() - i,
    {
        buffer.push(bytes[i]);
        proof {
            assert(buffer@ =~= bytes@.subrange(0, i + 1));
        }
        i = i + 1;
    }
    proof {
        assert(bytes@.subrange(0, bytes@.len() as int) =~= bytes@);
    }
}

impl RenderBridge {
    #[verifier::type_invariant]
    spec fn well_formed(self) -> bool {
        self@.valid()
    }

    /// A bridge for a display of the given size, with nothing shown yet.
    pub fn new(width: u32, height: u32) -> (bridge: RenderBridge)
        ensures
            bridge@ == BridgeModel::blank(width as nat, height as nat),
    {
        RenderBridge { width, height, image: Vec::new() }
    }

    /// One tick of the display. Takes the pending frame out of the channel,
    /// if there is one, and shows it; otherwise the image stays. Never
    /// waits.
    pub fn tick(&mut self, channel: &mut LatestSlot<Frame>) -> (outcome: RenderOutcome)
        ensures
            final(channel)@ is None,
            final(self)@ == old(self)@.tick(pending_model(old(channel)@)),
            outcome == old(self)@.outcome(pending_model(old(channel)@)),
            final(self)@.valid(),
    {
        proof {
            use_type_invariant(&*self);
        }
        match channel.try_recv() {
            None => RenderOutcome::Stale,
            Some(frame) => {
                if frame.width() == self.width && frame.height() == self.height {
                    let mut image: Vec<u8> = Vec::new();
                    core::mem::swap(&mut self.image, &mut image);
                    overwrite(&mut image, frame.data());
                    self.image = image;
                    RenderOutcome::Fresh
                } else {
                    RenderOutcome::Rejected
                }
            },
        }
    }

    /// Width of the display in pixels.
    pub fn width(&self) -> (width: u32)
        ensures
            width == self@.width,
    {
        self.width
    }

    /// Height of the display in pixels.
    pub fn height(&self) -> (height: u32)
        ensures
            height == self@.height,
    {
        self.height
    }

    /// The image that the display shows: empty before the first frame, the
    /// bytes of the frame shown last after it.
    pub fn image(&self) -> (image: &Vec<u8>)
        ensures
            image@ == self@.image,
            self@.valid(),
    {
        proof {
            use_type_invariant(self);
        }
        &self.image
    }
}

/// The display never lags behind the channel: however many frames were sent
/// and not shown, the tick after the send of `frame` shows `frame`, if it has
/// the display's size, and not an older one.
pub proof fn law_tick_shows_newest(bridge: BridgeModel, ops: Seq<SlotOp<Frame>>, frame: Frame)
    requires
        bridge.fits(frame@),
    ensures
        bridge.tick(pending_model(slot_run(ops.push(SlotOp::Send(frame))))).image == frame@.data,
        bridge.outcome(pending_model(slot_run(ops.push(SlotOp::Send(frame)))))
            == RenderOutcome::Fresh,
{
    law_latest_wins(ops, frame);
}

/// A tick that finds the channel empty changes nothing: the display shows
/// what it showed before, and before the first frame the empty placeholder.
pub proof fn law_tick_without_frame(bridge: BridgeModel)
    ensures
        bridge.tick(None) == bridge,
        bridge.outcome(None) == RenderOutcome::Stale,
        BridgeModel::blank(bridge.width, bridge.height).tick(None).image.len() == 0,
{
}

} // verus!
