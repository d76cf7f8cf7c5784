//! The consumer's frame buffer: the frame decoded last, written by ingestion
//! and read by rendering.

use vstd::prelude::*;
use crate::error::CoreError;
use crate::error::ReadExactFault;
use crate::network::is_sized_frame;
use crate::network::Response;
use crate::network::ResponseView;

verus! {

/// The value of every pixel of a placeholder.
pub const PLACEHOLDER_PIXEL: u32 = 128;

/// The width of the placeholder that `PlayerState::new` makes.
pub const DEFAULT_WIDTH: usize = 640;

/// The height of the placeholder that `PlayerState::new` makes.
pub const DEFAULT_HEIGHT: usize = 480;

/// The frame that a consumer shows, with its dimensions. The buffer always
/// holds one pixel for each point of those dimensions.
pub struct PlayerState {
    frame_buffer: Vec<u32>,
    width: usize,
    height: usize,
    new_frame: bool,
}

/// The mathematical content of a `PlayerState`.
pub ghost struct PlayerView {
    pub pixels: Seq<u32>,
    pub width: nat,
    pub height: nat,
    /// Whether a frame was stored since the buffer was made.
    pub dirty: bool,
}

impl View for PlayerState {
    type V = PlayerView;

    closed spec fn view(&self) -> PlayerView {
        PlayerView {
            pixels: self.frame_buffer@,
            width: self.width as nat,
            height: self.height as nat,
            dirty: self.new_frame,
        }
    }
}

/// A buffer of `width` by `height` pixels that holds no frame yet.
pub open spec fn placeholder_view(width: nat, height: nat) -> PlayerView {
    PlayerView {
        pixels: Seq::new(width * height, |i: int| PLACEHOLDER_PIXEL),
        width,
        height,
        dirty: false,
    }
}

/// What became of a frame that ingestion received.
#[derive(Clone, Copy, Debug, PartialEq, Eq, Structural)]
pub enum IngestOutcome {
    /// The frame took the place of the one before.
    Stored,
    /// The frame does not hold one pixel for each of its points and was
    /// left out.
    Rejected,
}

/// Why ingestion ended in an error.
#[derive(Clone, Copy, Debug, PartialEq, Eq, Structural)]
pub enum IngestError {
    /// A message could not be received.
    Receive(CoreError),
    /// A message arrived that is no frame, where only frames may follow.
    UnexpectedResponse,
}

/// What the buffer holds after `response` was ingested, and what became of
/// the response. Every frame that holds one pixel for each of its points
/// changes the buffer, a frame with no points too: pixels and dimensions are
/// replaced together. A frame whose pixels do not fit its dimensions is left
/// out. A response that is no frame is a protocol error and changes nothing.
pub open spec fn ingested(state: PlayerView, response: ResponseView) -> (
    PlayerView,
    Result<IngestOutcome, IngestError>,
) {
    match response {
        ResponseView::Pong(_) => (state, Err(IngestError::UnexpectedResponse)),
        ResponseView::Frame { data, width, height } => if is_sized_frame(response) {
            (
                PlayerView { pixels: data, width: width as nat, height: height as nat, dirty: true },
                Ok(IngestOutcome::Stored),
            )
        } else {
            (state, Ok(IngestOutcome::Rejected))
        },
    }
}

/// How ingestion goes on after a receive.
#[derive(Clone, Copy, Debug, PartialEq, Eq, Structural)]
pub enum IngestStep {
    /// A frame was taken in; receive the next message.
    Continue(IngestOutcome),
    /// The stream ended between two messages; ingestion is over.
    Ended,
    /// Ingestion is over and reports this error.
    Failed(IngestError),
}

/// The buffer after a receive gave `received`, and how ingestion goes on.
/// A frame is ingested and the next message awaited. A message that is no
/// frame ends ingestion with a protocol error. A stream that ended between
/// two messages ends ingestion; any other receive error ends it with that
/// error. Whatever ends ingestion leaves the buffer as it is.
pub open spec fn ingest_step(state: PlayerView, received: Result<ResponseView, CoreError>) -> (
    PlayerView,
    IngestStep,
) {
    match received {
        Ok(response) => match ingested(state, response).1 {
            Ok(outcome) => (ingested(state, response).0, IngestStep::Continue(outcome)),
            Err(error) => (state, IngestStep::Failed(error)),
        },
        Err(error) => if error == CoreError::ReadExactError(ReadExactFault::EndOfStream) {
            (state, IngestStep::Ended)
        } else {
            (state, IngestStep::Failed(IngestError::Receive(error)))
        },
    }
}

/// The buffer after the responses `responses` were ingested in their order,
/// as long as ingestion goes on.
pub open spec fn ingested_all(state: PlayerView, responses: Seq<ResponseView>) -> PlayerView
    decreases responses.len(),
{
    if responses.len() == 0 {
        state
    } else {
        ingested(ingested_all(state, responses.drop_last()), responses.last()).0
    }
}

/// After frames were ingested, each with one pixel for each of its points,
/// the buffer holds the last of them and is marked.
pub proof fn lemma_last_frame_is_shown(state: PlayerView, frames: Seq<ResponseView>)
    requires
        frames.len() > 0,
        forall|i: int| 0 <= i < frames.len() ==> is_sized_frame(#[trigger] frames[i]),
    ensures
        frames.last() matches ResponseView::Frame { data, width, height } && ingested_all(
            state,
            frames,
        ) == (PlayerView {
            pixels: data,
            width: width as nat,
            height: height as nat,
            dirty: true,
        }),
{
    assert(is_sized_frame(frames[frames.len() - 1]));
}

/// The size of a presentation surface, in pixels.
#[derive(Clone, Copy, Debug, PartialEq, Eq, Structural)]
pub struct SurfaceSize {
    pub width: usize,
    pub height: usize,
}

/// What rendering does in one pass.
#[derive(Clone, Copy, Debug, PartialEq, Eq, Structural)]
pub struct RenderPlan {
    /// The size to make the surface anew with, where it has to be made.
    pub resize: Option<SurfaceSize>,
    /// Whether to paint the buffer onto the surface.
    pub blit: bool,
}

/// What rendering does in one pass over a buffer of `width` by `height`
/// pixels, given the size of the surface there is. With both dimensions
/// positive the surface is made anew unless it has that size, and the buffer
/// is painted, whether it is new or not. Otherwise nothing is done.
pub open spec fn render_plan(width: nat, height: nat, surface: Option<SurfaceSize>) -> RenderPlan {
    if width > 0 && height > 0 {
        let wanted = SurfaceSize { width: width as usize, height: height as usize };
        RenderPlan {
            resize: if surface == Some(wanted) {
                None
            } else {
                Some(wanted)
            },
            blit: true,
        }
    } else {
        RenderPlan { resize: None, blit: false }
    }
}

impl PlayerState {
    #[verifier::type_invariant]
    spec fn well_formed(self) -> bool {
        self.frame_buffer@.len() == self.width * self.height
    }

    /// A placeholder of the default size.
    pub fn new() -> (state: Self)
        ensures
            state@ == placeholder_view(DEFAULT_WIDTH as nat, DEFAULT_HEIGHT as nat),
    {
        let frame_buffer = Self::fill(640 * 480);
        assert(frame_buffer@ =~= placeholder_view(640, 480).pixels);
        PlayerState { frame_buffer, width: 640, height: 480, new_frame: false }
    }

    /// A placeholder of `width` by `height` pixels, or `None` where the
    /// machine cannot count that many pixels.
    pub fn placeholder(width: u32, height: u32) -> (state: Option<Self>)
        ensures
            match state {
                Some(state) => width * height <= usize::MAX && state@ == placeholder_view(
                    width as nat,
                    height as nat,
                ),
                None => width * height > usize::MAX,
            },
    {
        assert((width as u64) * (height as u64) <= 0xffff_ffff * 0xffff_ffff) by (nonlinear_arith)
            requires
                width <= 0xffff_ffff,
                height <= 0xffff_ffff,
        ;
        let points: u64 = (width as u64) * (height as u64);
        if points > usize::MAX as u64 {
            return None;
        }
        let frame_buffer = Self::fill(points as usize);
        assert(frame_buffer@ =~= placeholder_view(width as nat, height as nat).pixels);
        Some(
            PlayerState {
                frame_buffer,
                width: width as usize,
                height: height as usize,
                new_frame: false,
            },
        )
    }

    /// `count` placeholder pixels.
    fn fill(count: usize) -> (pixels: Vec<u32>)
        ensures
            pixels@ == Seq::new(count as nat, |i: int| PLACEHOLDER_PIXEL),
    {
        let mut pixels: Vec<u32> = Vec::new();
        let mut i: usize = 0;
        while i < count
            invariant
                i <= count,
                pixels@.len() == i,
                forall|j: int| 0 <= j < i ==> pixels@[j] == PLACEHOLDER_PIXEL,
            decreases count - i,
        {
            pixels.push(PLACEHOLDER_PIXEL);
            i += 1;
        }
        assert(pixels@ =~= Seq::new(count as nat, |i: int| PLACEHOLDER_PIXEL));
        pixels
    }

    /// The pixels, row after row: one for each point of the dimensions.
    pub fn frame_buffer(&self) -> (pixels: &[u32])
        ensures
            pixels@ == self@.pixels,
            pixels@.len() == self@.width * self@.height,
    {
        proof {
            use_type_invariant(self);
        }
        self.frame_buffer.as_slice()
    }

    pub fn width(&self) -> (width: usize)
        ensures
            width == self@.width,
    {
        self.width
    }

    pub fn height(&self) -> (height: usize)
        ensures
            height == self@.height,
    {
        self.height
    }

    /// Whether a frame was stored since the buffer was made.
    pub fn new_frame(&self) -> (dirty: bool)
        ensures
            dirty == self@.dirty,
    {
        self.new_frame
    }

    /// Takes in a response that ingestion received.
    pub fn ingest(&mut self, response: Response) -> (outcome: Result<IngestOutcome, IngestError>)
        ensures
            (final(self)@, outcome) == ingested(old(self)@, response@),
    {
        let sized = response.is_sized_frame();
        match response {
            Response::Pong(_) => Err(IngestError::UnexpectedResponse),
            Response::Frame { data, width, height } => {
                if !sized {
                    return Ok(IngestOutcome::Rejected);
                }
                *self = PlayerState {
                    frame_buffer: data,
                    width: width as usize,
                    height: height as usize,
                    new_frame: true,
                };
                Ok(IngestOutcome::Stored)
            },
        }
    }

    /// Takes in what a receive gave, a response or an error, and says how
    /// ingestion goes on.
    pub fn on_received(&mut self, received: Result<Response, CoreError>) -> (step: IngestStep)
        ensures
            (final(self)@, step) == ingest_step(
                old(self)@,
                match received {
                    Ok(response) => Ok(response@),
                    Err(error) => Err(error),
                },
            ),
    {
        match received {
            Ok(response) => match self.ingest(response) {
                Ok(outcome) => IngestStep::Continue(outcome),
                Err(error) => IngestStep::Failed(error),
            },
            Err(CoreError::ReadExactError(ReadExactFault::EndOfStream)) => IngestStep::Ended,
            Err(error) => IngestStep::Failed(IngestError::Receive(error)),
        }
    }

    /// What rendering does in this pass, given the size of the surface
    /// there is.
    pub fn render(&self, surface: Option<SurfaceSize>) -> (plan: RenderPlan)
        ensures
            plan == render_plan(self@.width, self@.height, surface),
    {
        if self.width > 0 && self.height > 0 {
            let fits = match surface {
                Some(size) => size.width == self.width && size.height == self.height,
                None => false,
            };
            RenderPlan {
                resize: if fits {
                    None
                } else {
                    Some(SurfaceSize { width: self.width, height: self.height })
                },
                blit: true,
            }
        } else {
            RenderPlan { resize: None, blit: false }
        }
    }
}

/// Whether the render loop ends: the window is open and the quit key is
/// held down.
pub fn exit_requested(window_open: bool, quit_key_down: bool) -> (exit: bool)
    ensures
        exit == (window_open && quit_key_down),
{
    window_open && quit_key_down
}

} // verus!
