use golf::graphmgr::{FramePacer, MILLIS_PER_SECOND};

#[test]
fn the_interval_is_the_second_divided_by_the_rate() {
    assert_eq!(MILLIS_PER_SECOND, 1000);
    assert_eq!(FramePacer::new(60).interval(), 16);
    assert_eq!(FramePacer::new(1).interval(), 1000);
    assert_eq!(FramePacer::new(30).interval(), 33);
    assert_eq!(FramePacer::new(1000).interval(), 1);
    assert_eq!(FramePacer::new(1001).interval(), 0);
    assert_eq!(FramePacer::new(u64::MAX).interval(), 0);
}

#[test]
fn a_short_frame_is_padded_to_the_interval() {
    let pacer = FramePacer::new(60);
    assert_eq!(pacer.sleep_time(0), Some(16));
    assert_eq!(pacer.sleep_time(5), Some(11));
    assert_eq!(pacer.sleep_time(15), Some(1));
    for elapsed in 0..16u64 {
        let sleep = pacer.sleep_time(elapsed).unwrap();
        assert_eq!(elapsed + sleep as u64, 16);
    }
}

#[test]
fn a_long_frame_is_not_slept_after() {
    let pacer = FramePacer::new(60);
    assert_eq!(pacer.sleep_time(16), None);
    assert_eq!(pacer.sleep_time(17), None);
    assert_eq!(pacer.sleep_time(u64::MAX), None);
    assert_eq!(FramePacer::new(2000).sleep_time(0), None);
}
