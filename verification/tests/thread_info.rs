use audio_thread_priority::byte_order::{
    byte_order_of, get_word, native_byte_order, put_word, to_signed32, to_signed64,
    to_unsigned32, to_unsigned64, ByteOrder,
};
use audio_thread_priority::rt_linux::RtPriorityThreadInfoInternal;

fn sample() -> RtPriorityThreadInfoInternal {
    RtPriorityThreadInfoInternal {
        thread_id: 0x0102_0304_0506_0708,
        pthread_id: 0x1112_1314_1516_1718,
        policy: 0x2122_2324,
        priority: -2,
    }
}

fn same_fields(a: &RtPriorityThreadInfoInternal, b: &RtPriorityThreadInfoInternal) -> bool {
    a.thread_id == b.thread_id
        && a.pthread_id == b.pthread_id
        && a.policy == b.policy
        && a.priority == b.priority
}

#[test]
fn layout_little_endian() {
    let bytes = sample().serialize_in(ByteOrder::LittleEndian);
    let expected: [u8; 24] = [
        0x08, 0x07, 0x06, 0x05, 0x04, 0x03, 0x02, 0x01, 0x18, 0x17, 0x16, 0x15, 0x14, 0x13, 0x12,
        0x11, 0x24, 0x23, 0x22, 0x21, 0xfe, 0xff, 0xff, 0xff,
    ];
    assert_eq!(bytes, expected);
}

#[test]
fn layout_big_endian() {
    let bytes = sample().serialize_in(ByteOrder::BigEndian);
    let expected: [u8; 24] = [
        0x01, 0x02, 0x03, 0x04, 0x05, 0x06, 0x07, 0x08, 0x11, 0x12, 0x13, 0x14, 0x15, 0x16, 0x17,
        0x18, 0x21, 0x22, 0x23, 0x24, 0xff, 0xff, 0xff, 0xfe,
    ];
    assert_eq!(bytes, expected);
}

#[test]
fn serialize_uses_the_byte_order_of_the_machine() {
    let info = sample();
    let bytes = info.serialize();
    assert_eq!(bytes[..8], info.thread_id.to_ne_bytes());
    assert_eq!(bytes[8..16], info.pthread_id.to_ne_bytes());
    assert_eq!(bytes[16..20], info.policy.to_ne_bytes());
    assert_eq!(bytes[20..], info.priority.to_ne_bytes());
    assert_eq!(bytes, info.serialize_in(native_byte_order()));
}

#[test]
fn native_byte_order_is_that_of_the_machine() {
    let expected = if 1u16.to_ne_bytes() == 1u16.to_le_bytes() {
        ByteOrder::LittleEndian
    } else {
        ByteOrder::BigEndian
    };
    assert_eq!(native_byte_order(), expected);
}

#[test]
fn deserialize_reads_native_integers() {
    let mut bytes = [0u8; 24];
    bytes[..8].copy_from_slice(&(-77i64).to_ne_bytes());
    bytes[8..16].copy_from_slice(&u64::MAX.to_ne_bytes());
    bytes[16..20].copy_from_slice(&2i32.to_ne_bytes());
    bytes[20..].copy_from_slice(&i32::MIN.to_ne_bytes());
    let info = RtPriorityThreadInfoInternal::deserialize(bytes);
    assert_eq!(info.thread_id, -77);
    assert_eq!(info.pthread_id, u64::MAX);
    assert_eq!(info.policy, 2);
    assert_eq!(info.priority, i32::MIN);
}

#[test]
fn serialize_then_deserialize_gives_the_value_back() {
    let values = [
        sample(),
        RtPriorityThreadInfoInternal { thread_id: 0, pthread_id: 0, policy: 0, priority: 0 },
        RtPriorityThreadInfoInternal {
            thread_id: i64::MIN,
            pthread_id: u64::MAX,
            policy: i32::MIN,
            priority: i32::MAX,
        },
        RtPriorityThreadInfoInternal {
            thread_id: i64::MAX,
            pthread_id: 1,
            policy: -1,
            priority: 99,
        },
        RtPriorityThreadInfoInternal {
            thread_id: 4242,
            pthread_id: 0x7f00_dead_beef_0700,
            policy: 0,
            priority: 0,
        },
    ];
    for info in values {
        let back = RtPriorityThreadInfoInternal::deserialize(info.serialize());
        assert!(same_fields(&back, &info));
        for order in [ByteOrder::LittleEndian, ByteOrder::BigEndian] {
            let back =
                RtPriorityThreadInfoInternal::deserialize_in(info.serialize_in(order), order);
            assert!(same_fields(&back, &info));
        }
    }
}

#[test]
fn deserialize_then_serialize_gives_the_bytes_back() {
    let mut bytes = [0u8; 24];
    for (i, b) in bytes.iter_mut().enumerate() {
        *b = (i as u8).wrapping_mul(37).wrapping_add(200);
    }
    for order in [ByteOrder::LittleEndian, ByteOrder::BigEndian] {
        let info = RtPriorityThreadInfoInternal::deserialize_in(bytes, order);
        assert_eq!(info.serialize_in(order), bytes);
    }
    assert_eq!(RtPriorityThreadInfoInternal::deserialize(bytes).serialize(), bytes);
}

#[test]
fn the_two_byte_orders_mirror_each_word() {
    let little = sample().serialize_in(ByteOrder::LittleEndian);
    let big = sample().serialize_in(ByteOrder::BigEndian);
    for (start, width) in [(0usize, 8usize), (8, 8), (16, 4), (20, 4)] {
        for i in 0..width {
            assert_eq!(little[start + i], big[start + width - 1 - i]);
        }
    }
}

#[test]
fn threads_are_equal_by_their_identifiers() {
    let a = sample();
    let mut b = sample();
    b.policy = 1;
    b.priority = 50;
    assert!(a == b);
    let mut c = sample();
    c.thread_id += 1;
    assert!(a != c);
    let mut d = sample();
    d.pthread_id += 1;
    assert!(a != d);
}

#[test]
fn put_word_leaves_the_other_bytes() {
    let mut buffer = [0xaau8; 12];
    put_word(&mut buffer, 3, 4, 0x0102_0304, ByteOrder::LittleEndian);
    assert_eq!(buffer, [0xaa, 0xaa, 0xaa, 4, 3, 2, 1, 0xaa, 0xaa, 0xaa, 0xaa, 0xaa]);
    put_word(&mut buffer, 8, 2, 0x0102_0304, ByteOrder::BigEndian);
    assert_eq!(buffer, [0xaa, 0xaa, 0xaa, 4, 3, 2, 1, 0xaa, 3, 4, 0xaa, 0xaa]);
    put_word(&mut buffer, 0, 0, 0xffff, ByteOrder::BigEndian);
    assert_eq!(buffer, [0xaa, 0xaa, 0xaa, 4, 3, 2, 1, 0xaa, 3, 4, 0xaa, 0xaa]);
}

#[test]
fn get_word_reads_what_put_word_wrote() {
    let mut buffer = [0u8; 16];
    put_word(&mut buffer, 4, 8, 0xfedc_ba98_7654_3210, ByteOrder::BigEndian);
    assert_eq!(get_word(&buffer, 4, 8, ByteOrder::BigEndian), 0xfedc_ba98_7654_3210);
    assert_eq!(get_word(&buffer, 4, 8, ByteOrder::LittleEndian), 0x1032_5476_98ba_dcfe);
    assert_eq!(get_word(&buffer, 4, 2, ByteOrder::BigEndian), 0xfedc);
    assert_eq!(get_word(&buffer, 0, 0, ByteOrder::BigEndian), 0);
}

#[test]
fn twos_complement_of_the_extremes() {
    assert_eq!(to_unsigned64(-1), u64::MAX);
    assert_eq!(to_unsigned64(i64::MIN), 0x8000_0000_0000_0000);
    assert_eq!(to_unsigned64(i64::MAX), 0x7fff_ffff_ffff_ffff);
    assert_eq!(to_signed64(u64::MAX), -1);
    assert_eq!(to_signed64(0x8000_0000_0000_0000), i64::MIN);
    assert_eq!(to_unsigned32(-1), u32::MAX);
    assert_eq!(to_unsigned32(i32::MIN), 0x8000_0000);
    assert_eq!(to_signed32(u32::MAX), -1);
    assert_eq!(to_signed32(0x8000_0000), i32::MIN);
    assert_eq!(to_signed32(7), 7);
}

#[test]
fn byte_order_from_the_bytes_of_one() {
    assert_eq!(byte_order_of([1, 0]), ByteOrder::LittleEndian);
    assert_eq!(byte_order_of([0, 1]), ByteOrder::BigEndian);
    assert_eq!(byte_order_of(1u16.to_le_bytes()), ByteOrder::LittleEndian);
    assert_eq!(byte_order_of(1u16.to_be_bytes()), ByteOrder::BigEndian);
    assert_eq!(byte_order_of(1u16.to_ne_bytes()), native_byte_order());
    assert_eq!(byte_order_of([1, 1]), ByteOrder::LittleEndian);
    assert_eq!(byte_order_of([0, 0]), ByteOrder::BigEndian);
    let mut buffer = [0u8; 2];
    for order in [ByteOrder::LittleEndian, ByteOrder::BigEndian] {
        put_word(&mut buffer, 0, 2, 1, order);
        assert_eq!(byte_order_of(buffer), order);
    }
}
