//! Encoded frames and the adaptive frame filter, which decides for each frame
//! of a stream whether it is forwarded or dropped.

use vstd::prelude::*;
use crate::text::decimal;
use crate::text::push_decimal;

verus! {

/// One encoded frame of the source: its presentation time and its bytes.
pub struct VideoFrame {
    timestamp: u64,
    data: Vec<u8>,
}

/// The mathematical content of a `VideoFrame`.
pub ghost struct VideoFrameView {
    pub timestamp: u64,
    pub data: Seq<u8>,
}

impl View for VideoFrame {
    type V = VideoFrameView;

    closed spec fn view(&self) -> VideoFrameView {
        VideoFrameView { timestamp: self.timestamp, data: self.data@ }
    }
}

/// What a frame is shown as in diagnostics: its presentation time and the
/// number of its bytes, not the bytes.
pub open spec fn frame_text(frame: VideoFrameView) -> Seq<char> {
    "VideoFrame { timestamp: "@ + decimal(frame.timestamp as nat) + ", data_length: "@ + decimal(
        frame.data.len(),
    ) + " }"@
}

impl VideoFrame {
    /// The frame as diagnostics show it.
    pub fn describe(&self) -> (text: String)
        ensures
            text@ == frame_text(self@),
    {
        let mut text = String::new();
        text.push_str("VideoFrame { timestamp: ");
        push_decimal(&mut text, self.timestamp);
        text.push_str(", data_length: ");
        push_decimal(&mut text, self.data.len() as u64);
        text.push_str(" }");
        text
    }

    pub fn new(timestamp: u64, data: Vec<u8>) -> (frame: Self)
        ensures
            frame@ == (VideoFrameView { timestamp, data: data@ }),
    {
        Self { timestamp, data }
    }

    pub fn timestamp(&self) -> (timestamp: u64)
        ensures
            timestamp == self@.timestamp,
    {
        self.timestamp
    }

    pub fn data(&self) -> (data: &[u8])
        ensures
            data@ == self@.data,
    {
        self.data.as_slice()
    }
}

/// What the filter sees of a frame: its presentation time and whether it can
/// be decoded without any other frame.
#[derive(Clone, Copy, Debug, PartialEq, Eq, Structural)]
pub struct FrameMeta {
    pub timestamp: u64,
    pub keyframe: bool,
}

impl FrameMeta {
    /// The metadata of a frame from the flag that a pipeline attaches to its
    /// buffers: a delta unit is a frame that depends on others.
    pub fn from_delta_flag(timestamp: u64, delta_unit: bool) -> (meta: FrameMeta)
        ensures
            meta == (FrameMeta { timestamp, keyframe: !delta_unit }),
    {
        FrameMeta { timestamp, keyframe: !delta_unit }
    }
}

/// The filter's decision on one frame. It is made once.
#[derive(Clone, Copy, Debug, PartialEq, Eq, Structural)]
pub enum Verdict {
    Keep,
    Drop,
}

/// Whether the periodic policy keeps the frame with the 1-based number
/// `frame_number`: every frame when the interval is zero, else the frames
/// whose number the interval divides.
pub open spec fn periodic_keeps(frame_number: nat, keep_interval: nat) -> bool {
    keep_interval == 0 || frame_number % keep_interval == 0
}

/// How many of the `count` frames that follow frame number `from` the
/// periodic policy keeps.
pub open spec fn kept_after(from: nat, count: nat, keep_interval: nat) -> nat
    decreases count,
{
    if count == 0 {
        0
    } else {
        kept_after(from, (count - 1) as nat, keep_interval) + if periodic_keeps(
            from + count,
            keep_interval,
        ) {
            1nat
        } else {
            0nat
        }
    }
}

/// The periodic policy: it counts the frames it is asked about and keeps one
/// in every `drop_interval`, whatever the frames hold.
pub struct FrameDropperLogic {
    /// The frame count modulo the interval; zero when the interval is zero.
    phase: usize,
    drop_interval: usize,
    frame_count: Ghost<nat>,
}

/// The mathematical content of a `FrameDropperLogic`.
pub ghost struct FrameDropperView {
    /// How many frames were evaluated.
    pub frame_count: nat,
    /// One frame in this many is kept; zero keeps them all.
    pub drop_interval: nat,
}

impl View for FrameDropperLogic {
    type V = FrameDropperView;

    closed spec fn view(&self) -> FrameDropperView {
        FrameDropperView {
            frame_count: self.frame_count@,
            drop_interval: self.drop_interval as nat,
        }
    }
}

impl FrameDropperLogic {
    #[verifier::type_invariant]
    spec fn well_formed(self) -> bool {
        if self.drop_interval == 0 {
            self.phase == 0
        } else {
            self.phase == self.frame_count@ % (self.drop_interval as nat)
        }
    }

    pub fn new(drop_interval: usize) -> (logic: Self)
        ensures
            logic@ == (FrameDropperView { frame_count: 0, drop_interval: drop_interval as nat }),
    {
        proof {
            if drop_interval > 0 {
                vstd::arithmetic::div_mod::lemma_small_mod(0, drop_interval as nat);
            }
        }
        Self { phase: 0, drop_interval, frame_count: Ghost(0) }
    }

    /// Counts one more frame and says whether it is dropped.
    pub fn should_drop(&mut self) -> (dropped: bool)
        ensures
            final(self)@ == (FrameDropperView {
                frame_count: old(self)@.frame_count + 1,
                drop_interval: old(self)@.drop_interval,
            }),
            dropped == !periodic_keeps(final(self)@.frame_count, final(self)@.drop_interval),
    {
        proof {
            use_type_invariant(&*self);
        }
        let interval = self.drop_interval;
        let ghost count = self.frame_count@ + 1;
        if interval == 0 {
            *self = FrameDropperLogic { phase: 0, drop_interval: interval, frame_count: Ghost(count) };
            return false;
        }
        let phase: usize = if self.phase + 1 == interval {
            0
        } else {
            self.phase + 1
        };
        proof {
            lemma_next_phase((count - 1) as nat, interval as nat);
        }
        *self = FrameDropperLogic { phase, drop_interval: interval, frame_count: Ghost(count) };
        phase != 0
    }
}

/// Counting one more frame moves the phase one step round the interval, and
/// the quotient one up when the phase comes round.
proof fn lemma_next_phase(count: nat, interval: nat)
    requires
        interval > 0,
    ensures
        (count + 1) % interval == if count % interval + 1 == interval {
            0
        } else {
            count % interval + 1
        },
        (count + 1) / interval == if count % interval + 1 == interval {
            count / interval + 1
        } else {
            count / interval
        },
{
    vstd::arithmetic::div_mod::lemma_fundamental_div_mod(count as int, interval as int);
    let q = count as int / interval as int;
    let r = count as int % interval as int;
    if r + 1 == interval {
        assert(count + 1 == (q + 1) * interval + 0) by (nonlinear_arith)
            requires
                count == interval * q + r,
                r + 1 == interval,
        ;
        vstd::arithmetic::div_mod::lemma_fundamental_div_mod_converse(
            (count + 1) as int,
            interval as int,
            q + 1,
            0,
        );
    } else {
        assert(count + 1 == q * interval + (r + 1)) by (nonlinear_arith)
            requires
                count == interval * q + r,
        ;
        vstd::arithmetic::div_mod::lemma_fundamental_div_mod_converse(
            (count + 1) as int,
            interval as int,
            q,
            r + 1,
        );
    }
}

/// The frames kept among those that follow frame number `from` are the
/// multiples of the interval passed on the way.
proof fn lemma_kept_after_counts_multiples(from: nat, count: nat, keep_interval: nat)
    requires
        keep_interval > 0,
    ensures
        kept_after(from, count, keep_interval) == (from + count) / keep_interval - from
            / keep_interval,
    decreases count,
{
    if count > 0 {
        lemma_kept_after_counts_multiples(from, (count - 1) as nat, keep_interval);
        lemma_next_phase((from + count - 1) as nat, keep_interval);
    }
}

/// With the interval zero the periodic policy keeps every frame.
pub proof fn lemma_interval_zero_keeps_all(frame_number: nat)
    ensures
        periodic_keeps(frame_number, 0),
{
}

/// With the interval one the periodic policy keeps every frame.
pub proof fn lemma_interval_one_keeps_all(frame_number: nat)
    ensures
        periodic_keeps(frame_number, 1),
{
}

/// The periodic policy keeps exactly one frame of any `keep_interval`
/// consecutive frames.
pub proof fn lemma_periodic_cadence(from: nat, keep_interval: nat)
    requires
        keep_interval > 0,
    ensures
        kept_after(from, keep_interval, keep_interval) == 1,
{
    lemma_kept_after_counts_multiples(from, keep_interval, keep_interval);
    vstd::arithmetic::div_mod::lemma_fundamental_div_mod(from as int, keep_interval as int);
    let q = from as int / keep_interval as int;
    let r = from as int % keep_interval as int;
    assert(from + keep_interval == (q + 1) * keep_interval + r) by (nonlinear_arith)
        requires
            from == keep_interval * q + r,
    ;
    vstd::arithmetic::div_mod::lemma_fundamental_div_mod_converse(
        (from + keep_interval) as int,
        keep_interval as int,
        q + 1,
        r,
    );
}

/// The keyframe policy's decision on a frame: a keyframe is kept, any other
/// frame is dropped.
pub open spec fn keyframe_verdict(frame: FrameMeta) -> Verdict {
    if frame.keyframe {
        Verdict::Keep
    } else {
        Verdict::Drop
    }
}

/// The keyframe policy: it keeps every keyframe and drops every other frame.
/// It remembers the frame it saw last and the last frame it kept before
/// that one.
pub struct KeyframeFilter {
    previous: Option<FrameMeta>,
    current: Option<FrameMeta>,
}

/// The mathematical content of a `KeyframeFilter`.
pub ghost struct KeyframeFilterView {
    /// The last frame kept among those evaluated before `current`.
    pub previous: Option<FrameMeta>,
    /// The frame evaluated last.
    pub current: Option<FrameMeta>,
}

impl View for KeyframeFilter {
    type V = KeyframeFilterView;

    closed spec fn view(&self) -> KeyframeFilterView {
        KeyframeFilterView { previous: self.previous, current: self.current }
    }
}

/// The history after `frame` was evaluated: the frame is the current one,
/// and the frame that was current takes the previous slot if it was kept.
pub open spec fn history_after(history: KeyframeFilterView, frame: FrameMeta) -> KeyframeFilterView {
    KeyframeFilterView {
        previous: match history.current {
            Some(last) => if last.keyframe {
                Some(last)
            } else {
                history.previous
            },
            None => history.previous,
        },
        current: Some(frame),
    }
}

impl KeyframeFilter {
    /// A filter that has seen no frame.
    pub fn new() -> (filter: Self)
        ensures
            filter@ == (KeyframeFilterView { previous: None, current: None }),
    {
        Self { previous: None, current: None }
    }

    /// Decides on `frame` and records it.
    pub fn evaluate(&mut self, frame: FrameMeta) -> (verdict: Verdict)
        ensures
            verdict == keyframe_verdict(frame),
            final(self)@ == history_after(old(self)@, frame),
    {
        if let Some(last) = self.current {
            if last.keyframe {
                self.previous = Some(last);
            }
        }
        self.current = Some(frame);
        if frame.keyframe {
            Verdict::Keep
        } else {
            Verdict::Drop
        }
    }

    /// Decides on `frame` and records it; says whether the frame is
    /// dropped.
    pub fn should_drop(&mut self, frame: FrameMeta) -> (dropped: bool)
        ensures
            dropped == !frame.keyframe,
            dropped == (keyframe_verdict(frame) == Verdict::Drop),
            final(self)@ == history_after(old(self)@, frame),
    {
        match self.evaluate(frame) {
            Verdict::Keep => false,
            Verdict::Drop => true,
        }
    }

    /// The last frame kept among those evaluated before the current one.
    pub fn previous(&self) -> (frame: Option<FrameMeta>)
        ensures
            frame == self@.previous,
    {
        self.previous
    }

    /// The frame evaluated last.
    pub fn current(&self) -> (frame: Option<FrameMeta>)
        ensures
            frame == self@.current,
    {
        self.current
    }
}

/// The policy by which a filter decides. It is chosen when a session starts.
#[derive(Clone, Copy, Debug, PartialEq, Eq, Structural)]
pub enum DropPolicy {
    /// Keep one frame in every `keep_interval`, whatever its kind.
    PeriodicKeep { keep_interval: usize },
    /// Keep the keyframes and nothing else.
    KeyframePriority,
}

impl Default for DropPolicy {
    /// The keyframe policy, which never sheds a frame that others depend on.
    fn default() -> (policy: DropPolicy)
        ensures
            policy == DropPolicy::KeyframePriority,
    {
        DropPolicy::KeyframePriority
    }
}

/// A frame filter under either policy.
pub enum FrameFilter {
    Periodic(FrameDropperLogic),
    Keyframe(KeyframeFilter),
}

/// The mathematical content of a `FrameFilter`.
pub ghost enum FrameFilterView {
    Periodic(FrameDropperView),
    Keyframe(KeyframeFilterView),
}

impl View for FrameFilter {
    type V = FrameFilterView;

    open spec fn view(&self) -> FrameFilterView {
        match *self {
            FrameFilter::Periodic(logic) => FrameFilterView::Periodic(logic@),
            FrameFilter::Keyframe(filter) => FrameFilterView::Keyframe(filter@),
        }
    }
}

/// The filter's state after one more frame.
pub open spec fn filter_after(filter: FrameFilterView, frame: FrameMeta) -> FrameFilterView {
    match filter {
        FrameFilterView::Periodic(logic) => FrameFilterView::Periodic(
            FrameDropperView {
                frame_count: logic.frame_count + 1,
                drop_interval: logic.drop_interval,
            },
        ),
        FrameFilterView::Keyframe(history) => FrameFilterView::Keyframe(
            history_after(history, frame),
        ),
    }
}

/// The filter's decision on the next frame.
pub open spec fn filter_verdict(filter: FrameFilterView, frame: FrameMeta) -> Verdict {
    match filter {
        FrameFilterView::Periodic(logic) => if periodic_keeps(
            logic.frame_count + 1,
            logic.drop_interval,
        ) {
            Verdict::Keep
        } else {
            Verdict::Drop
        },
        FrameFilterView::Keyframe(_) => keyframe_verdict(frame),
    }
}

impl FrameFilter {
    /// A filter under `policy` that has seen no frame.
    pub fn new(policy: DropPolicy) -> (filter: Self)
        ensures
            filter@ == match policy {
                DropPolicy::PeriodicKeep { keep_interval } => FrameFilterView::Periodic(
                    FrameDropperView { frame_count: 0, drop_interval: keep_interval as nat },
                ),
                DropPolicy::KeyframePriority => FrameFilterView::Keyframe(
                    KeyframeFilterView { previous: None, current: None },
                ),
            },
    {
        match policy {
            DropPolicy::PeriodicKeep { keep_interval } => FrameFilter::Periodic(
                FrameDropperLogic::new(keep_interval),
            ),
            DropPolicy::KeyframePriority => FrameFilter::Keyframe(KeyframeFilter::new()),
        }
    }

    /// Decides on the next frame of the stream; says whether it is
    /// dropped.
    pub fn should_drop(&mut self, frame: FrameMeta) -> (dropped: bool)
        ensures
            dropped == (filter_verdict(old(self)@, frame) == Verdict::Drop),
            old(self)@ is Keyframe ==> dropped == !frame.keyframe,
            final(self)@ == filter_after(old(self)@, frame),
    {
        match self.on_buffer(frame) {
            Verdict::Keep => false,
            Verdict::Drop => true,
        }
    }

    /// Decides on the next frame of the stream.
    pub fn on_buffer(&mut self, frame: FrameMeta) -> (verdict: Verdict)
        ensures
            verdict == filter_verdict(old(self)@, frame),
            final(self)@ == filter_after(old(self)@, frame),
    {
        match self {
            FrameFilter::Periodic(logic) => {
                if logic.should_drop() {
                    Verdict::Drop
                } else {
                    Verdict::Keep
                }
            },
            FrameFilter::Keyframe(filter) => filter.evaluate(frame),
        }
    }
}

/// Under the keyframe policy the decision on a frame depends on its
/// keyframe flag alone: whatever frames were seen before, and however many,
/// a keyframe is kept and any other frame is dropped.
pub proof fn lemma_keyframe_verdict_ignores_history(history: KeyframeFilterView, frame: FrameMeta)
    ensures
        filter_verdict(FrameFilterView::Keyframe(history), frame) == if frame.keyframe {
            Verdict::Keep
        } else {
            Verdict::Drop
        },
        filter_after(FrameFilterView::Keyframe(history), frame) is Keyframe,
{
}

/// The decisions of a filter on the frames `frames`, in their order.
pub open spec fn verdicts(filter: FrameFilterView, frames: Seq<FrameMeta>) -> Seq<Verdict>
    decreases frames.len(),
{
    if frames.len() == 0 {
        Seq::empty()
    } else {
        seq![filter_verdict(filter, frames[0])] + verdicts(
            filter_after(filter, frames[0]),
            frames.skip(1),
        )
    }
}

/// Under the keyframe policy, from any history, the decisions on a run of
/// frames are those of their keyframe flags, one by one.
pub proof fn lemma_keyframe_verdicts(history: KeyframeFilterView, frames: Seq<FrameMeta>)
    ensures
        verdicts(FrameFilterView::Keyframe(history), frames) == frames.map_values(
            |frame: FrameMeta| keyframe_verdict(frame),
        ),
    decreases frames.len(),
{
    let filter = FrameFilterView::Keyframe(history);
    let expected = frames.map_values(|frame: FrameMeta| keyframe_verdict(frame));
    if frames.len() == 0 {
        assert(verdicts(filter, frames) =~= expected);
    } else {
        lemma_keyframe_verdicts(history_after(history, frames[0]), frames.skip(1));
        assert(verdicts(filter, frames) =~= expected);
    }
}

} // verus!
