use border_security_plugin::circular_buffer::{channel_lines, CircleBuffer};

fn line_of(rate: u32, seconds: usize) -> CircleBuffer {
    let mut line = CircleBuffer::new();
    line.resize(rate, seconds);
    line
}

#[test]
fn new_line_is_empty() {
    let line = CircleBuffer::new();
    assert_eq!(line.samples(), 0);
}

#[test]
fn capacity_is_rate_times_seconds() {
    let line = line_of(44100, 2);
    assert_eq!(line.samples(), 88200);
}

#[test]
fn read_right_after_write_gives_the_sample() {
    let mut line = line_of(10, 1);
    for s in [5, -7, 123456, i32::MIN, i32::MAX] {
        assert_eq!(line.write_and_read(s, 0), s);
        assert_eq!(line.read(0), s);
    }
}

#[test]
fn round_trip_reads_newest_first() {
    let mut line = line_of(5, 1);
    for s in 1..=5 {
        line.write(s * 100);
    }
    for k in 0..5usize {
        assert_eq!(line.read(k), (5 - k as i32) * 100);
    }
}

#[test]
fn cursor_wraps_around() {
    let mut line = line_of(3, 1);
    for s in 1..=7 {
        line.write(s);
    }
    assert_eq!(line.read(0), 7);
    assert_eq!(line.read(1), 6);
    assert_eq!(line.read(2), 5);
}

#[test]
fn resize_twice_gives_the_same_silent_line() {
    let mut line = line_of(8, 2);
    for s in 1..=20 {
        line.write(s);
    }
    line.resize(8, 2);
    assert_eq!(line.samples(), 16);
    for k in 0..16usize {
        assert_eq!(line.read(k), 0);
    }
    line.resize(8, 2);
    assert_eq!(line.samples(), 16);
    for k in 0..16usize {
        assert_eq!(line.read(k), 0);
    }
}

#[test]
fn read_past_the_end_reads_the_newest() {
    let mut line = line_of(4, 1);
    for s in [11, 22, 33] {
        line.write(s);
    }
    assert_eq!(line.read(4), 33);
    assert_eq!(line.read(11), 33);
    assert_eq!(line.read(usize::MAX), 33);
    assert_eq!(line.read(3), 0);
}

#[test]
fn clear_silences_and_keeps_capacity() {
    let mut line = line_of(6, 1);
    for s in 1..=9 {
        line.write(s);
    }
    line.clear();
    assert_eq!(line.samples(), 6);
    for k in 0..6usize {
        assert_eq!(line.read(k), 0);
    }
    line.write(42);
    assert_eq!(line.read(0), 42);
    assert_eq!(line.read(1), 0);
}

#[test]
fn one_line_per_channel() {
    let lines = channel_lines(48000, 2, 2);
    assert_eq!(lines.len(), 2);
    for line in &lines {
        assert_eq!(line.samples(), 96000);
        assert_eq!(line.read(95999), 0);
    }
    assert_eq!(channel_lines(48000, 2, 0).len(), 0);
}
