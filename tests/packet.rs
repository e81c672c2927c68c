use rsav::error::AVERROR_EOF;
use rsav::packet::{rescale, AV_NOPTS_VALUE};
use rsav::{Error, Flags, Packet, Rational};

#[test]
fn empty_packet_defaults() {
    let p = Packet::empty();
    assert_eq!(p.size(), 0);
    assert!(p.data().is_none());
    assert!(p.is_empty());
    assert_eq!(p.pts(), None);
    assert_eq!(p.dts(), None);
    assert_eq!(p.duration(), 0);
    assert_eq!(p.pos(), -1);
    assert_eq!(p.stream_index(), 0);
    assert_eq!((p.time_base().num(), p.time_base().den()), (0, 1));
    assert_eq!(p.flags().bits(), 0);
}

#[test]
fn sized_and_copied_packets() {
    let p = Packet::new(4);
    assert_eq!(p.size(), 4);
    assert_eq!(p.data().unwrap(), &[0u8, 0, 0, 0][..]);
    let q = Packet::from_slice(&[1, 2, 3]);
    assert_eq!(q.data().unwrap(), &[1u8, 2, 3][..]);
    assert!(!q.is_empty());
}

#[test]
fn shrink_and_grow() {
    let mut p = Packet::from_slice(&[1, 2, 3]);
    p.shrink(10);
    assert_eq!(p.data().unwrap(), &[1u8, 2, 3][..]);
    p.grow(2);
    assert_eq!(p.data().unwrap(), &[1u8, 2, 3, 0, 0][..]);
    p.shrink(2);
    assert_eq!(p.data().unwrap(), &[1u8, 2][..]);
    let mut e = Packet::empty();
    e.shrink(0);
    assert!(e.data().is_none());
    e.grow(2);
    assert_eq!(e.data().unwrap(), &[0u8, 0][..]);
}

#[test]
fn timestamps_and_fields() {
    let mut p = Packet::empty();
    p.set_pts(Some(5));
    p.set_dts(Some(4));
    p.set_duration(2);
    p.set_pos(100);
    p.set_stream_index(3);
    p.set_time_base(Rational::new(1, 25));
    assert_eq!(p.pts(), Some(5));
    assert_eq!(p.dts(), Some(4));
    assert_eq!(p.duration(), 2);
    assert_eq!(p.pos(), 100);
    assert_eq!(p.stream_index(), 3);
    assert!(p.time_base() == Rational::new(2, 50));
    p.set_pts(None);
    assert_eq!(p.pts(), None);
    p.set_dts(Some(AV_NOPTS_VALUE));
    assert_eq!(p.dts(), None);
}

#[test]
fn flags() {
    let mut p = Packet::empty();
    p.set_flags(Flags::key().union(Flags::discard()));
    assert!(p.is_key());
    assert!(p.is_discard());
    assert!(!p.is_corrupted());
    assert!(!p.is_trusted());
    assert!(!p.is_disposable());
    p.set_flags(Flags::corrupt().union(Flags::trusted()).union(Flags::disposable()));
    assert!(p.is_corrupted() && p.is_trusted() && p.is_disposable() && !p.is_key());
    assert_eq!(Flags::from_bits_truncate(0xff).bits(), 0x1f);
    assert!(Flags::from_bits_truncate(0x3).contains(Flags::key()));
    assert!(!Flags::empty().contains(Flags::key()));
}

#[test]
fn rescale_exact_and_rounded() {
    let tenths = Rational::new(1, 10);
    let millis = Rational::new(1, 1000);
    assert_eq!(rescale(3, tenths, millis), 300);
    assert_eq!(rescale(1, Rational::new(1, 3), Rational::new(1, 2)), 1);
    assert_eq!(rescale(-1, Rational::new(1, 3), Rational::new(1, 2)), -1);
    assert_eq!(rescale(1, Rational::new(1, 2), Rational::new(1, 1)), 1);
    assert_eq!(rescale(-1, Rational::new(1, 2), Rational::new(1, 1)), -1);
    assert_eq!(rescale(1, Rational::new(1, 4), Rational::new(1, 1)), 0);
    assert_eq!(rescale(5, tenths, Rational::new(0, 1)), i64::MIN);
    assert_eq!(rescale(i64::MAX, Rational::new(2, 1), Rational::new(1, 1)), i64::MIN);
}

#[test]
fn rescale_packet_timestamps() {
    let mut p = Packet::from_slice(&[9]);
    p.set_time_base(Rational::new(1, 10));
    p.set_pts(Some(3));
    p.set_duration(5);
    p.rescale_ts(None, Rational::new(1, 1000));
    assert_eq!(p.pts(), Some(300));
    assert_eq!(p.dts(), None);
    assert_eq!(p.duration(), 500);
    assert_eq!((p.time_base().num(), p.time_base().den()), (1, 1000));
    p.set_duration(-1);
    p.rescale_ts(Some(Rational::new(1, 1000)), Rational::new(1, 100));
    assert_eq!(p.pts(), Some(30));
    assert_eq!(p.duration(), -1);
}

#[test]
fn rescale_round_trip() {
    let a = Rational::new(1, 10);
    let b = Rational::new(1, 1000);
    for ts in [0i64, 3, -7, 123456789] {
        let there = rescale(ts, a, b);
        assert_eq!(there, ts * 100);
        assert_eq!(rescale(there, b, a), ts);
    }
    let c = Rational::new(1001, 30000);
    let d = Rational::new(1, 90000);
    assert_eq!(rescale(rescale(10, c, d), d, c), 10);
}

#[test]
fn clone_is_a_deep_copy() {
    let original = Packet::from_slice(&[1, 2, 3]);
    let mut copy = original.clone();
    copy.set_data_byte(0, 42);
    assert_eq!(copy.data().unwrap(), &[42u8, 2, 3][..]);
    assert_eq!(original.data().unwrap(), &[1u8, 2, 3][..]);
}

#[test]
fn empty_packets_are_not_written() {
    assert_eq!(Packet::empty().check_writable(), Err(Error::InvalidData));
    assert_eq!(Packet::new(0).check_writable(), Err(Error::InvalidData));
    assert_eq!(Packet::new(1).check_writable(), Ok(()));
}

#[test]
fn direct_write_outcomes() {
    assert_eq!(Packet::write_outcome(1), Ok(true));
    assert_eq!(Packet::write_outcome(0), Ok(false));
    assert_eq!(Packet::write_outcome(AVERROR_EOF), Err(Error::Eof));
    assert_eq!(Packet::write_outcome(-22), Err(Error::Unmapped(-22)));
}
