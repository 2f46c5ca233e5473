use espresso_scale::average::{compute_average, update_array, MovingAverageBuffer, PositionTracker};

#[test]
fn buffer_of_eight_averages_to_twelve() {
    let mut buffer: MovingAverageBuffer<8> = MovingAverageBuffer::new();
    for v in [10, 12, 11, 13, 12, 14, 13, 15] {
        buffer.write(v);
    }
    assert_eq!(buffer.average(), 12);
}

#[test]
fn fresh_buffer_averages_to_zero() {
    let buffer: MovingAverageBuffer<4> = MovingAverageBuffer::new();
    assert_eq!(buffer.capacity(), 4);
    assert_eq!(buffer.average(), 0);
}

#[test]
fn partly_filled_buffer_is_biased_by_zero_slots() {
    let mut buffer: MovingAverageBuffer<4> = MovingAverageBuffer::new();
    buffer.write(100);
    buffer.write(100);
    assert_eq!(buffer.average(), 50);
}

#[test]
fn average_after_many_writes_uses_only_the_last_capacity_values() {
    let mut buffer: MovingAverageBuffer<3> = MovingAverageBuffer::new();
    for v in [1000, -1000, 7, 1, 2, 3, 4] {
        buffer.write(v);
    }
    // Only 2, 3 and 4 remain.
    assert_eq!(buffer.average(), 3);
}

#[test]
fn window_keeps_exactly_the_most_recent_values() {
    let mut a: MovingAverageBuffer<2> = MovingAverageBuffer::new();
    let mut b: MovingAverageBuffer<2> = MovingAverageBuffer::new();
    for v in [500, -500, 9, 10, 11] {
        a.write(v);
    }
    b.write(10);
    b.write(11);
    assert_eq!(a.average(), b.average());
    assert_eq!(a.average(), 10);
}

#[test]
fn buffer_average_truncates_toward_zero() {
    let mut buffer: MovingAverageBuffer<2> = MovingAverageBuffer::new();
    buffer.write(-3);
    buffer.write(-4);
    assert_eq!(buffer.average(), -3);
}

#[test]
fn buffer_of_one_tracks_last_write() {
    let mut buffer: MovingAverageBuffer<1> = MovingAverageBuffer::new();
    buffer.write(41);
    buffer.write(-17);
    assert_eq!(buffer.average(), -17);
}

#[test]
fn compute_average_truncates_positive() {
    assert_eq!(compute_average(&[1, 2, 2]), 1);
    assert_eq!(compute_average(&[10, 12, 11, 13, 12, 14, 13, 15]), 12);
}

#[test]
fn compute_average_truncates_negative_toward_zero() {
    assert_eq!(compute_average(&[-1, -2, -2]), -1);
    assert_eq!(compute_average(&[-7]), -7);
}

#[test]
fn compute_average_of_extremes_does_not_overflow() {
    assert_eq!(compute_average(&[i32::MAX, i32::MAX, i32::MAX]), i32::MAX);
    assert_eq!(compute_average(&[i32::MIN, i32::MIN]), i32::MIN);
    assert_eq!(compute_average(&[i32::MAX, i32::MIN]), 0);
}

#[test]
fn position_tracker_wraps_after_max_index() {
    let mut position: PositionTracker<2> = PositionTracker::default();
    assert_eq!(position.current_index(), 0);
    position.next();
    assert_eq!(position.current_index(), 1);
    position.next();
    assert_eq!(position.current_index(), 2);
    position.next();
    assert_eq!(position.current_index(), 0);
}

#[test]
fn position_tracker_of_single_slot_stays_at_zero() {
    let mut position: PositionTracker<0> = PositionTracker::default();
    position.next();
    assert_eq!(position.current_index(), 0);
}

#[test]
fn update_array_writes_at_tracked_position() {
    let mut array = [0i32; 4];
    let mut position: PositionTracker<3> = PositionTracker::default();
    for v in [5, 6, 7, 8, 9] {
        update_array(&mut array, v, &position);
        position.next();
    }
    assert_eq!(array, [9, 6, 7, 8]);
    assert_eq!(position.current_index(), 1);
    assert_eq!(compute_average(&array), 7);
}
