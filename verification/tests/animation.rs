use moon::timeline::Timeline;

#[test]
fn new_timeline_stands_at_its_state() {
    let timeline: Timeline<u32> = Timeline::new(10);
    assert_eq!(timeline.arrived_signal(), 10);
    assert!(timeline.queue.is_empty());
    let current = timeline.current.expect("a zero-length step is current");
    assert_eq!(current.duration, 0);
    assert_eq!(current.state, 10);
    assert!(timeline.previous.is_none());
}

#[test]
fn jump_advances_elapsed_within_a_step() {
    let mut timeline: Timeline<u32> = Timeline::new(0);
    timeline.push(100, 1);
    timeline.jump(30);
    // the zero-length start step completed and the queued step started
    let current = timeline.current.expect("the queued step is running");
    assert_eq!(current.duration, 100);
    assert_eq!(current.state, 1);
    assert_eq!(current.elapsed, 30);
    assert_eq!(timeline.arrived_signal(), 0);
}

#[test]
fn completing_a_step_records_arrived_and_previous() {
    let mut timeline: Timeline<u32> = Timeline::new(0);
    timeline.push(100, 1);
    timeline.push(50, 2);
    timeline.jump(30);
    // 80 more ms: step one completes, 10 ms spill into step two
    timeline.jump(80);
    assert_eq!(timeline.arrived_signal(), 1);
    let previous = timeline.previous.expect("the start step was completed before");
    assert_eq!(previous.state, 0);
    let current = timeline.current.expect("step two is running");
    assert_eq!(current.state, 2);
    assert_eq!(current.elapsed, 10);
}

#[test]
fn exact_landing_keeps_current_at_its_end() {
    let mut timeline: Timeline<u32> = Timeline::new(0);
    timeline.push(100, 1);
    timeline.push(50, 2);
    timeline.jump(30);
    timeline.jump(80);
    // exactly to the end of step two: it completes, nothing spills
    timeline.jump(40);
    assert_eq!(timeline.arrived_signal(), 2);
    let current = timeline.current.expect("the completed step stays current");
    assert_eq!(current.state, 2);
    assert_eq!(current.elapsed, 50);
}

#[test]
fn spilling_past_an_empty_queue_clears_current() {
    let mut timeline: Timeline<u32> = Timeline::new(0);
    timeline.push(20, 1);
    timeline.jump(50);
    assert_eq!(timeline.arrived_signal(), 1);
    assert!(timeline.current.is_none());
    // further jumps with nothing queued change nothing
    timeline.jump(10);
    assert!(timeline.current.is_none());
    assert_eq!(timeline.arrived_signal(), 1);
}

#[test]
fn a_jump_crossing_several_steps_lands_in_the_right_one() {
    let mut timeline: Timeline<u32> = Timeline::new(0);
    timeline.push(10, 1);
    timeline.push(10, 2);
    timeline.push(100, 3);
    timeline.jump(25);
    assert_eq!(timeline.arrived_signal(), 2);
    let current = timeline.current.expect("the long step is running");
    assert_eq!(current.state, 3);
    assert_eq!(current.elapsed, 5);
}
