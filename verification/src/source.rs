//! A frame source that needs no media: a fixed run of flat frames.

use vstd::prelude::*;
use crate::network::is_well_formed_frame;
use crate::network::Response;
use crate::network::ResponseView;

verus! {

/// The width of a test frame, in pixels.
pub const TEST_WIDTH: u32 = 640;

/// The height of a test frame, in pixels.
pub const TEST_HEIGHT: u32 = 480;

/// How many frames a test pattern yields.
pub const TEST_FRAMES: u32 = 10000;

/// The frame with the number `index` of a test pattern: every pixel holds
/// the number.
pub open spec fn test_frame(index: u32) -> ResponseView {
    ResponseView::Frame {
        data: Seq::new((TEST_WIDTH * TEST_HEIGHT) as nat, |i: int| index),
        width: TEST_WIDTH,
        height: TEST_HEIGHT,
    }
}

/// A source of `TEST_FRAMES` frames, numbered from zero. Its view is the
/// number of the frame that comes next.
#[derive(Debug)]
pub struct TestPattern {
    next: u32,
}

impl View for TestPattern {
    type V = u32;

    closed spec fn view(&self) -> u32 {
        self.next
    }
}

impl TestPattern {
    /// A source at its first frame.
    pub fn new() -> (source: Self)
        ensures
            source@ == 0,
    {
        TestPattern { next: 0 }
    }

    /// The next frame, or `None` when all frames were handed out.
    pub fn next_frame(&mut self) -> (frame: Option<Response>)
        ensures
            match frame {
                Some(response) => {
                    &&& old(self)@ < TEST_FRAMES
                    &&& response@ == test_frame(old(self)@)
                    &&& final(self)@ == old(self)@ + 1
                },
                None => old(self)@ >= TEST_FRAMES && final(self)@ == old(self)@,
            },
    {
        if self.next >= TEST_FRAMES {
            return None;
        }
        let index = self.next;
        let count: usize = 640 * 480;
        let mut data: Vec<u32> = Vec::new();
        let mut i: usize = 0;
        while i < count
            invariant
                i <= count,
                data@.len() == i,
                forall|j: int| 0 <= j < i ==> data@[j] == index,
            decreases count - i,
        {
            data.push(index);
            i += 1;
        }
        self.next = index + 1;
        let response = Response::Frame { data, width: TEST_WIDTH, height: TEST_HEIGHT };
        assert(response@->data =~= test_frame(index)->data);
        Some(response)
    }
}

/// Every frame of a test pattern has positive width and height and one pixel
/// for each of its points.
pub proof fn lemma_test_frame_well_formed(index: u32)
    ensures
        is_well_formed_frame(test_frame(index)),
{
}

} // verus!
