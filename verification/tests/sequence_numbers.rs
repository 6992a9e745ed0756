use tcpst::seq_number::SeqNumber;

#[test]
fn sequence_number_wraps_across_the_boundary() {
    assert_eq!(SeqNumber(4294967295).advance(1), SeqNumber(0));
    assert_eq!(SeqNumber(4294967290).advance(10), SeqNumber(4));
    assert_eq!(SeqNumber(5).advance(0), SeqNumber(5));
    assert_eq!(SeqNumber(1000).advance(1), SeqNumber(1001));
}

#[test]
fn distance_is_taken_modulo_the_number_space() {
    assert_eq!(SeqNumber(4294967295).distance(SeqNumber(0)), 1);
    assert_eq!(SeqNumber(0).distance(SeqNumber(4294967295)), 4294967295);
    assert_eq!(SeqNumber(7).distance(SeqNumber(7)), 0);
}

#[test]
fn comparison_is_serial_not_numeric() {
    assert!(SeqNumber(4294967295).is_before(SeqNumber(0)));
    assert!(!SeqNumber(0).is_before(SeqNumber(4294967295)));
    assert!(SeqNumber(1).is_before(SeqNumber(2)));
    assert!(!SeqNumber(2).is_before(SeqNumber(1)));
    assert!(!SeqNumber(2).is_before(SeqNumber(2)));
    assert!(!SeqNumber(0).is_before(SeqNumber(0x8000_0000)));
    assert!(SeqNumber(0).is_before(SeqNumber(0x7fff_ffff)));
}

#[test]
fn window_check_wraps() {
    assert!(SeqNumber(2).in_window(SeqNumber(4294967290), 10));
    assert!(!SeqNumber(4).in_window(SeqNumber(4294967290), 10));
    assert!(SeqNumber(4294967290).in_window(SeqNumber(4294967290), 1));
    assert!(!SeqNumber(4294967290).in_window(SeqNumber(4294967290), 0));
}
