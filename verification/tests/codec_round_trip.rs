use tcpst::message::{Close, Connected, Message, Open, TcbCreated};

#[test]
fn numbers_round_trip() {
    for n in [0u16, 1, 255, 256, 0x1234, u16::MAX] {
        assert_eq!(u16::from_net_representation(n.to_net_representation()), Some(n));
    }
    for n in [0u32, 1, 255, 256, 65536, 0x1234_5678, u32::MAX] {
        assert_eq!(u32::from_net_representation(n.to_net_representation()), Some(n));
    }
}

#[test]
fn numbers_travel_most_significant_byte_first() {
    assert_eq!(0x1234u16.to_net_representation(), vec![0x12, 0x34]);
    assert_eq!(0x1234_5678u32.to_net_representation(), vec![0x12, 0x34, 0x56, 0x78]);
    assert_eq!(u16::from_net_representation(vec![0x01, 0x02]), Some(0x0102));
    assert_eq!(u32::from_net_representation(vec![0, 0, 1, 0]), Some(256));
}

#[test]
fn numbers_reject_buffers_of_another_length() {
    assert_eq!(u16::from_net_representation(vec![]), None);
    assert_eq!(u16::from_net_representation(vec![1]), None);
    assert_eq!(u16::from_net_representation(vec![1, 2, 3]), None);
    assert_eq!(u32::from_net_representation(vec![1, 2]), None);
    assert_eq!(u32::from_net_representation(vec![1, 2, 3, 4, 5]), None);
}

#[test]
fn calls_round_trip_as_empty_buffers() {
    assert_eq!(Open {}.to_net_representation(), Vec::<u8>::new());
    assert_eq!(Open::from_net_representation(Open {}.to_net_representation()), Some(Open {}));
    assert_eq!(
        TcbCreated::from_net_representation(TcbCreated {}.to_net_representation()),
        Some(TcbCreated {})
    );
    assert_eq!(Close::from_net_representation(Close {}.to_net_representation()), Some(Close {}));
    assert_eq!(
        Connected::from_net_representation(Connected {}.to_net_representation()),
        Some(Connected {})
    );
    assert_eq!(Close::from_net_representation(vec![1, 2, 3]), Some(Close {}));
}
