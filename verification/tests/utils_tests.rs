use midi::constants::{NOTE_OFF, NOTE_ON};
use midi::Channel;
use midi::utils::{from_status_byte, mask14, mask7, msb_lsb_to_u14, status_byte, u14_to_msb_lsb};

#[test]
fn test_mask7() {
    assert_eq!(127, mask7(255));
    assert_eq!(126, mask7(254));
    assert_eq!(127, mask7(127));
    assert_eq!(126, mask7(126));
}

#[test]
fn test_all_mask7() {
    for i in 0..255u8 {
        if i > 127 {
            assert_eq!(mask7(i), i - 128);
        } else {
            assert_eq!(mask7(i), i);
        }
    }
}

#[test]
fn test_mask14() {
    assert_eq!(16383, mask14(65535));
    assert_eq!(16382, mask14(65534));
    assert_eq!(16383, mask14(16383));
    assert_eq!(16382, mask14(16382));
}

#[test]
fn test_all_mask14() {
    for i in 0..65535u16 {
        if i > 16383 {
            assert!(mask14(i) != i);
        } else {
            assert_eq!(mask14(i), i);
        }
    }
}

#[test]
fn test_msb_lsb() {
    assert_eq!(0, msb_lsb_to_u14(0, 0));
    assert_eq!((0, 0), u14_to_msb_lsb(0));

    assert_eq!(16383, msb_lsb_to_u14(127, 127));
    assert_eq!((127, 127), u14_to_msb_lsb(16383));

    assert_eq!(14442, msb_lsb_to_u14(112, 106));
    assert_eq!((112, 106), u14_to_msb_lsb(14442));

    assert_eq!(24, msb_lsb_to_u14(0, 24));
    assert_eq!((0, 24), u14_to_msb_lsb(24));
}

#[test]
fn test_all_msb_lsb() {
    for i in 0..65535u16 {
        let (msb, lsb) = u14_to_msb_lsb(i);
        assert_eq!(msb_lsb_to_u14(msb, lsb), mask14(i))
    }
}

#[test]
fn test_status_byte() {
    assert_eq!(128, status_byte(NOTE_OFF, Channel::Ch1));
    assert_eq!((NOTE_OFF, Channel::Ch1), from_status_byte(128));

    assert_eq!(155, status_byte(NOTE_ON, Channel::Ch12));
    assert_eq!((NOTE_ON, Channel::Ch12), from_status_byte(155));
}

#[test]
fn test_all_status_byte() {
    for status in 0..16u8 {
        for ch in 0..16u64 {
            let channel = Channel::from_u64(ch).unwrap();
            let converted = from_status_byte(status_byte(status, channel));
            assert_eq!((status, channel), converted);
        }
    }
}
