use simple_delay::delaybuffer::{DelayBuffer, Taps, MAX_DELAY_SECONDS};

fn bits(x: f32) -> u32 {
    x.to_bits()
}

fn line(num_channels: usize, sample_rate: usize) -> DelayBuffer {
    let mut line = DelayBuffer::default();
    line.resize(num_channels, sample_rate);
    line
}

#[test]
fn fresh_line_is_unconfigured() {
    let line = DelayBuffer::default();
    assert!(!line.is_configured());
    assert_eq!(line.num_channels(), 0);
    assert_eq!(line.sample_rate(), 0);
    assert_eq!(line.capacity(), 0);
    assert_eq!(line.read_position(), 0);
    assert_eq!(line.write_position(), 0);
}

#[test]
fn resize_allocates_two_seconds_per_channel() {
    let line = line(2, 48000);
    assert!(line.is_configured());
    assert_eq!(MAX_DELAY_SECONDS, 2);
    assert_eq!(line.num_channels(), 2);
    assert_eq!(line.sample_rate(), 48000);
    assert_eq!(line.capacity(), 96000);
    assert_eq!(line.read_position(), 0);
    assert_eq!(line.write_position(), 0);
}

#[test]
fn resize_leaves_every_sample_silent() {
    let mut line = line(3, 50);
    assert_eq!(line.capacity(), 100);
    for pos in 0..100 {
        assert_eq!(line.read_position(), pos);
        for ch in 0..3 {
            assert_eq!(line.read_wrong(ch), bits(0.0));
        }
        line.advance_digit(1);
    }
    assert_eq!(line.read_position(), 0);
}

#[test]
fn resize_again_silences_and_rewinds() {
    let mut line = line(2, 10);
    line.advance_digit(7);
    line.write(0, bits(0.5));
    line.write(1, bits(-0.5));
    line.resize(1, 20);
    assert_eq!(line.num_channels(), 1);
    assert_eq!(line.capacity(), 40);
    assert_eq!(line.read_position(), 0);
    assert_eq!(line.write_position(), 0);
    for _ in 0..40 {
        assert_eq!(line.read_wrong(0), 0);
        line.advance_digit(1);
    }
}

#[test]
fn configure_accepts_valid_input() {
    let mut line = DelayBuffer::default();
    assert!(line.configure(2, 44100));
    assert!(line.is_configured());
    assert_eq!(line.num_channels(), 2);
    assert_eq!(line.capacity(), 88200);
}

#[test]
fn configure_rejects_no_channels() {
    let mut line = line(2, 10);
    assert!(!line.configure(0, 48000));
    assert!(!line.is_configured());
    assert_eq!(line.num_channels(), 0);
    assert_eq!(line.capacity(), 0);
}

#[test]
fn configure_rejects_zero_rate() {
    let mut line = DelayBuffer::default();
    assert!(!line.configure(2, 0));
    assert!(!line.is_configured());
}

#[test]
fn configure_rejects_unaddressable_stores() {
    let mut line = DelayBuffer::default();
    assert!(!line.configure(1, usize::MAX / 2 + 1));
    assert!(!line.is_configured());
}

#[test]
fn write_then_plain_read_returns_the_sample() {
    let mut line = line(2, 48000);
    assert_eq!(line.write_position(), 0);
    line.write(0, bits(1.0));
    assert_eq!(line.read_position(), 0);
    assert_eq!(f32::from_bits(line.read_wrong(0)), 1.0);
    assert_eq!(line.read_wrong(1), bits(0.0));
    assert_eq!(line.read_position(), 0);
    assert_eq!(line.write_position(), 0);
}

#[test]
fn write_then_plain_read_round_trips_anywhere() {
    let mut line = line(2, 8);
    for step in 0..40u32 {
        line.advance_digit(3);
        assert_eq!(line.read_position(), line.write_position());
        let left = bits(step as f32 + 0.25);
        let right = bits(-(step as f32) - 0.75);
        line.write(0, left);
        line.write(1, right);
        assert_eq!(line.read_wrong(0), left);
        assert_eq!(line.read_wrong(1), right);
    }
}

#[test]
fn write_keeps_bit_patterns() {
    let mut line = line(1, 4);
    for pattern in [0u32, 1, 0x7fc0_0001, 0xffff_ffff, 0x8000_0000] {
        line.write(0, pattern);
        assert_eq!(line.read_wrong(0), pattern);
    }
}

#[test]
fn write_touches_one_sample_only() {
    let mut line = line(2, 4);
    line.advance_digit(5);
    line.write(1, 9);
    for pos in 0..8 {
        line.advance_digit(1);
        let at = line.read_position();
        assert_eq!(at, (5 + 1 + pos) % 8);
        assert_eq!(line.read_wrong(0), 0);
        assert_eq!(line.read_wrong(1), if at == 5 { 9 } else { 0 });
    }
}

#[test]
fn read_steps_then_reads() {
    let mut line = line(2, 4);
    line.advance_digit(1);
    line.write(0, 11);
    line.write(1, 12);
    line.advance_digit(7);
    assert_eq!(line.read_position(), 0);
    assert_eq!(line.read(0), 11);
    assert_eq!(line.read_position(), 1);
    assert_eq!(line.write_position(), 0);
    assert_eq!(line.read_wrong(1), 12);
}

#[test]
fn read_wraps_at_the_sample_rate() {
    let mut line = line(1, 4);
    line.write(0, 21);
    line.advance_digit(3);
    assert_eq!(line.read_position(), 3);
    assert_eq!(line.read(0), 21);
    assert_eq!(line.read_position(), 0);
    line.advance_digit(3);
    assert_eq!(line.read_position(), 6);
    line.read(0);
    assert_eq!(line.read_position(), 3);
}

#[test]
fn read_inter_returns_the_sample_before() {
    let mut line = line(1, 4);
    line.advance_digit(1);
    line.write(0, 31);
    line.advance_digit(1);
    line.write(0, 32);
    line.advance_digit(7);
    assert_eq!(line.read_position(), 1);
    assert_eq!(line.read_inter(0), Taps { here: 32, beside: 31 });
    assert_eq!(line.read_position(), 2);
}

#[test]
fn read_inter_wraps_backwards_at_the_capacity() {
    let mut line = line(1, 4);
    line.write(0, 41);
    line.advance_digit(7);
    line.write(0, 42);
    line.advance_digit(4);
    assert_eq!(line.read_position(), 3);
    assert_eq!(line.read_inter(0), Taps { here: 41, beside: 42 });
    assert_eq!(line.read_position(), 0);
}

#[test]
fn read_lin_returns_the_sample_after() {
    let mut line = line(1, 4);
    line.advance_digit(2);
    line.write(0, 51);
    line.advance_digit(1);
    line.write(0, 52);
    line.advance_digit(6);
    assert_eq!(line.read_position(), 1);
    assert_eq!(line.read_lin(0), Taps { here: 51, beside: 52 });
    assert_eq!(line.read_position(), 2);
}

#[test]
fn peeks_leave_the_line_alone() {
    let mut line = line(1, 4);
    line.advance_digit(7);
    line.write(0, 61);
    line.advance_digit(1);
    line.write(0, 62);
    line.advance_digit(1);
    line.write(0, 63);
    line.advance_digit(7);
    assert_eq!(line.read_position(), 0);
    assert_eq!(line.peek(0), 62);
    assert_eq!(line.peek_inter(0), Taps { here: 62, beside: 61 });
    assert_eq!(line.peek_lin(0), Taps { here: 62, beside: 63 });
    assert_eq!(line.read_position(), 0);
    assert_eq!(line.write_position(), 0);
    line.advance_digit(7);
    assert_eq!(line.peek_lin(0), Taps { here: 61, beside: 62 });
}

#[test]
fn step_read_moves_the_read_position_only() {
    let mut line = line(1, 4);
    line.advance_digit(2);
    line.step_read();
    assert_eq!(line.read_position(), 3);
    assert_eq!(line.write_position(), 2);
    line.step_read();
    assert_eq!(line.read_position(), 0);
}

#[test]
fn advance_to_slaves_the_read_position_to_the_write_position() {
    let mut line = line(2, 48000);
    line.advance_to(24000);
    assert_eq!(line.write_position(), 1);
    assert_eq!(line.read_position(), 72001);
    line.advance_to(1);
    assert_eq!(line.write_position(), 2);
    assert_eq!(line.read_position(), 1);
    line.advance_to(0);
    assert_eq!(line.write_position(), 3);
    assert_eq!(line.read_position(), 3);
    line.advance_to(96000);
    assert_eq!(line.write_position(), 4);
    assert_eq!(line.read_position(), 4);
    line.advance_to(96000 + 5);
    assert_eq!(line.write_position(), 5);
    assert_eq!(line.read_position(), 0);
}

#[test]
fn advance_to_wraps_the_write_position_at_the_sample_rate() {
    let mut line = line(1, 4);
    let mut seen = Vec::new();
    for _ in 0..9 {
        line.advance_to(3);
        seen.push((line.write_position(), line.read_position()));
    }
    assert_eq!(
        seen,
        vec![(1, 6), (2, 7), (3, 0), (0, 5), (1, 6), (2, 7), (3, 0), (0, 5), (1, 6)]
    );
}

#[test]
fn advance_to_takes_any_delay() {
    let mut line = line(1, 4);
    line.advance_to(usize::MAX);
    assert_eq!(line.write_position(), 1);
    assert_eq!(line.read_position(), (1 + 8 - (usize::MAX % 8)) % 8);
}

#[test]
fn advance_digit_moves_by_the_whole_delay() {
    let mut line = line(2, 48000);
    line.advance_digit(24000);
    assert_eq!(line.write_position(), 24000);
    assert_eq!(line.read_position(), 24000);
    line.advance_digit(24000);
    assert_eq!(line.write_position(), 48000);
    assert_eq!(line.read_position(), 48000);
    line.advance_digit(24000);
    line.advance_digit(24000);
    assert_eq!(line.write_position(), 0);
    assert_eq!(line.read_position(), 0);
}

#[test]
fn advance_digit_without_a_whole_sample_stays_put() {
    let mut line = line(1, 4);
    line.advance_digit(5);
    line.advance_digit(0);
    assert_eq!(line.write_position(), 5);
    assert_eq!(line.read_position(), 5);
}

#[test]
fn advance_digit_takes_any_delay() {
    let mut line = line(1, 4);
    line.advance_digit(6);
    line.advance_digit(usize::MAX);
    let expected = (6 + usize::MAX % 8) % 8;
    assert_eq!(line.write_position(), expected);
    assert_eq!(line.read_position(), expected);
}
