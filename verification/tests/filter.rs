use pv_core::video::{
    DropPolicy, FrameDropperLogic, FrameFilter, FrameMeta, KeyframeFilter, Verdict, VideoFrame,
};

fn key(timestamp: u64) -> FrameMeta {
    FrameMeta { timestamp, keyframe: true }
}

fn delta(timestamp: u64) -> FrameMeta {
    FrameMeta { timestamp, keyframe: false }
}

#[test]
fn video_frame_keeps_what_it_was_given() {
    let frame = VideoFrame::new(42, vec![1, 2, 3]);
    assert_eq!(frame.timestamp(), 42);
    assert_eq!(frame.data(), &[1, 2, 3]);
    let empty = VideoFrame::new(0, vec![]);
    assert_eq!(empty.timestamp(), 0);
    assert!(empty.data().is_empty());
}

#[test]
fn interval_four_keeps_every_fourth_frame() {
    let mut logic = FrameDropperLogic::new(4);
    let dropped: Vec<bool> = (0..8).map(|_| logic.should_drop()).collect();
    assert_eq!(dropped, vec![true, true, true, false, true, true, true, false]);
}

#[test]
fn interval_zero_keeps_every_frame() {
    let mut logic = FrameDropperLogic::new(0);
    for _ in 0..100 {
        assert!(!logic.should_drop());
    }
}

#[test]
fn interval_one_keeps_every_frame() {
    let mut logic = FrameDropperLogic::new(1);
    for _ in 0..100 {
        assert!(!logic.should_drop());
    }
}

#[test]
fn any_window_of_an_interval_holds_one_kept_frame() {
    for interval in 1usize..12 {
        let mut logic = FrameDropperLogic::new(interval);
        let kept: Vec<bool> = (0..10 * interval).map(|_| !logic.should_drop()).collect();
        for start in 0..9 * interval {
            let count = kept[start..start + interval].iter().filter(|k| **k).count();
            assert_eq!(count, 1);
        }
        for (index, kept) in kept.iter().enumerate() {
            assert_eq!(*kept, (index + 1) % interval == 0);
        }
    }
}

#[test]
fn keyframe_policy_keeps_keyframes_only() {
    let mut filter = KeyframeFilter::new();
    let verdicts: Vec<Verdict> = [key(0), delta(1), delta(2), key(3), delta(4)]
        .into_iter()
        .map(|frame| filter.evaluate(frame))
        .collect();
    assert_eq!(
        verdicts,
        vec![Verdict::Keep, Verdict::Drop, Verdict::Drop, Verdict::Keep, Verdict::Drop]
    );
}

#[test]
fn keyframe_policy_remembers_the_last_kept_frame() {
    let mut filter = KeyframeFilter::new();
    assert_eq!(filter.previous(), None);
    assert_eq!(filter.current(), None);
    filter.evaluate(delta(1));
    assert_eq!((filter.previous(), filter.current()), (None, Some(delta(1))));
    filter.evaluate(key(2));
    assert_eq!((filter.previous(), filter.current()), (None, Some(key(2))));
    filter.evaluate(delta(3));
    assert_eq!((filter.previous(), filter.current()), (Some(key(2)), Some(delta(3))));
    filter.evaluate(delta(4));
    assert_eq!((filter.previous(), filter.current()), (Some(key(2)), Some(delta(4))));
    filter.evaluate(key(5));
    assert_eq!((filter.previous(), filter.current()), (Some(key(2)), Some(key(5))));
    filter.evaluate(key(6));
    assert_eq!((filter.previous(), filter.current()), (Some(key(5)), Some(key(6))));
}

#[test]
fn frame_meta_reads_the_delta_flag() {
    assert_eq!(FrameMeta::from_delta_flag(7, true), delta(7));
    assert_eq!(FrameMeta::from_delta_flag(7, false), key(7));
}

#[test]
fn a_filter_decides_by_the_policy_it_was_made_with() {
    let frames = [key(0), delta(1), delta(2), key(3), delta(4), delta(5), delta(6), delta(7)];
    let mut periodic = FrameFilter::new(DropPolicy::PeriodicKeep { keep_interval: 4 });
    let verdicts: Vec<Verdict> = frames.iter().map(|f| periodic.on_buffer(*f)).collect();
    assert_eq!(
        verdicts,
        vec![
            Verdict::Drop,
            Verdict::Drop,
            Verdict::Drop,
            Verdict::Keep,
            Verdict::Drop,
            Verdict::Drop,
            Verdict::Drop,
            Verdict::Keep
        ]
    );
    let mut keyframes = FrameFilter::new(DropPolicy::KeyframePriority);
    let verdicts: Vec<Verdict> = frames.iter().map(|f| keyframes.on_buffer(*f)).collect();
    assert_eq!(
        verdicts,
        vec![
            Verdict::Keep,
            Verdict::Drop,
            Verdict::Drop,
            Verdict::Keep,
            Verdict::Drop,
            Verdict::Drop,
            Verdict::Drop,
            Verdict::Drop
        ]
    );
    let mut disabled = FrameFilter::new(DropPolicy::PeriodicKeep { keep_interval: 0 });
    assert!(frames.iter().all(|f| disabled.on_buffer(*f) == Verdict::Keep));
}

#[test]
fn the_default_policy_keeps_keyframes() {
    assert_eq!(DropPolicy::default(), DropPolicy::KeyframePriority);
    let mut filter = FrameFilter::new(DropPolicy::default());
    assert_eq!(filter.on_buffer(delta(0)), Verdict::Drop);
    assert_eq!(filter.on_buffer(key(1)), Verdict::Keep);
}

#[test]
fn a_video_frame_is_described_by_time_and_length() {
    assert_eq!(
        VideoFrame::new(5, vec![1, 2, 3]).describe(),
        "VideoFrame { timestamp: 5, data_length: 3 }"
    );
    assert_eq!(
        VideoFrame::new(0, vec![]).describe(),
        "VideoFrame { timestamp: 0, data_length: 0 }"
    );
    assert_eq!(
        VideoFrame::new(u64::MAX, vec![0; 1234]).describe(),
        "VideoFrame { timestamp: 18446744073709551615, data_length: 1234 }"
    );
    assert_eq!(
        VideoFrame::new(1000, vec![0; 10]).describe(),
        format!("VideoFrame {{ timestamp: {}, data_length: {} }}", 1000, 10)
    );
}

#[test]
fn the_keyframe_policy_drops_by_the_flag_alone_from_any_history() {
    let flags = [true, false, false, true, false];
    let histories: Vec<Vec<FrameMeta>> = vec![
        vec![],
        vec![key(0)],
        vec![delta(0)],
        vec![delta(0), delta(1), key(2), delta(3)],
        (0..100).map(|i| if i % 7 == 0 { key(i) } else { delta(i) }).collect(),
    ];
    for history in histories {
        let mut filter = KeyframeFilter::new();
        let mut either = FrameFilter::new(DropPolicy::KeyframePriority);
        for frame in history {
            filter.should_drop(frame);
            either.should_drop(frame);
        }
        for (index, keyframe) in flags.iter().enumerate() {
            let frame = FrameMeta { timestamp: 1000 + index as u64, keyframe: *keyframe };
            assert_eq!(filter.should_drop(frame), !*keyframe);
            assert_eq!(either.should_drop(frame), !*keyframe);
        }
    }
}

#[test]
fn a_filter_says_drop_where_its_verdict_is_drop() {
    let mut periodic = FrameFilter::new(DropPolicy::PeriodicKeep { keep_interval: 4 });
    let dropped: Vec<bool> = (0..8).map(|i| periodic.should_drop(key(i))).collect();
    assert_eq!(dropped, vec![true, true, true, false, true, true, true, false]);
    let mut filter = KeyframeFilter::new();
    assert!(filter.should_drop(delta(1)));
    assert!(!filter.should_drop(key(2)));
    assert_eq!((filter.previous(), filter.current()), (None, Some(key(2))));
}
