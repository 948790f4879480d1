use crate::byte_order::{
    get_word, in_order, lemma_bytes_round_trip, lemma_le_bytes_len, lemma_le_value_bound,
    lemma_pow256_values, lemma_signed_round_trip, lemma_word_round_trip, native_byte_order,
    put_word, signed32, signed64, to_signed32, to_signed64, to_unsigned32, to_unsigned64,
    unsigned32, unsigned64, word_bytes, word_value, ByteOrder,
};
use vstd::prelude::*;
use vstd::std_specs::cmp::PartialEqSpecImpl;

verus! {

/// The number of bytes that a thread's identity and scheduling state take
/// when they are handed to another process.
pub const THREAD_INFO_SIZE: usize = 24;

/// What is known of a thread before it is promoted: who it is, and how it was
/// scheduled.
#[derive(Clone, Copy, Debug)]
pub struct RtPriorityThreadInfoInternal {
    /// The thread's identifier in the whole system, by which the elevation
    /// service is told of it.
    pub thread_id: i64,
    /// The thread's handle within its process, through which its scheduling
    /// is put back. It has a meaning only together with `thread_id`, in the
    /// process that the thread belongs to.
    pub pthread_id: u64,
    /// The scheduling class the thread had.
    pub policy: i32,
    /// The priority the thread had within that class.
    pub priority: i32,
}

impl PartialEq for RtPriorityThreadInfoInternal {
    /// Two values are of one thread when both identifiers agree.
    fn eq(&self, other: &Self) -> (same: bool) {
        self.thread_id == other.thread_id && self.pthread_id == other.pthread_id
    }
}

impl PartialEqSpecImpl for RtPriorityThreadInfoInternal {
    open spec fn obeys_eq_spec() -> bool {
        true
    }

    open spec fn eq_spec(&self, other: &Self) -> bool {
        self.thread_id == other.thread_id && self.pthread_id == other.pthread_id
    }
}

/// The bytes of `info` on a machine of byte order `order`: the system-wide
/// identifier in eight bytes, the in-process handle in eight, the policy in
/// four and the priority in four.
pub open spec fn layout(info: RtPriorityThreadInfoInternal, order: ByteOrder) -> Seq<u8> {
    word_bytes(unsigned64(info.thread_id) as nat, 8, order) + word_bytes(
        info.pthread_id as nat,
        8,
        order,
    ) + word_bytes(unsigned32(info.policy) as nat, 4, order) + word_bytes(
        unsigned32(info.priority) as nat,
        4,
        order,
    )
}

/// The value that `bytes` hold on a machine of byte order `order`.
pub open spec fn parsed(bytes: Seq<u8>, order: ByteOrder) -> RtPriorityThreadInfoInternal {
    RtPriorityThreadInfoInternal {
        thread_id: signed64(word_value(bytes.subrange(0, 8), order) as u64),
        pthread_id: word_value(bytes.subrange(8, 16), order) as u64,
        policy: signed32(word_value(bytes.subrange(16, 20), order) as u32),
        priority: signed32(word_value(bytes.subrange(20, 24), order) as u32),
    }
}

impl RtPriorityThreadInfoInternal {
    /// The bytes of this value in the given byte order.
    pub fn serialize_in(&self, order: ByteOrder) -> (bytes: [u8; 24])
        ensures
            bytes@ == layout(*self, order),
    {
        let mut bytes: [u8; 24] = [0u8; 24];
        let ghost first = word_bytes(unsigned64(self.thread_id) as nat, 8, order);
        let ghost second = word_bytes(self.pthread_id as nat, 8, order);
        let ghost third = word_bytes(unsigned32(self.policy) as nat, 4, order);
        let ghost fourth = word_bytes(unsigned32(self.priority) as nat, 4, order);
        proof {
            lemma_le_bytes_len(unsigned64(self.thread_id) as nat, 8);
            lemma_le_bytes_len(self.pthread_id as nat, 8);
            lemma_le_bytes_len(unsigned32(self.policy) as nat, 4);
            lemma_le_bytes_len(unsigned32(self.priority) as nat, 4);
        }
        put_word(&mut bytes, 0, 8, to_unsigned64(self.thread_id), order);
        put_word(&mut bytes, 8, 8, self.pthread_id, order);
        put_word(&mut bytes, 16, 4, to_unsigned32(self.policy) as u64, order);
        put_word(&mut bytes, 20, 4, to_unsigned32(self.priority) as u64, order);
        proof {
            assert(bytes@ =~= first + second + third + fourth);
        }
        bytes
    }

    /// The value that `bytes` hold in the given byte order.
    pub fn deserialize_in(bytes: [u8; 24], order: ByteOrder) -> (info: Self)
        ensures
            info == parsed(bytes@, order),
    {
        proof {
            lemma_pow256_values();
            lemma_le_value_bound(in_order(bytes@.subrange(0, 8), order));
            lemma_le_value_bound(in_order(bytes@.subrange(8, 16), order));
            lemma_le_value_bound(in_order(bytes@.subrange(16, 20), order));
            lemma_le_value_bound(in_order(bytes@.subrange(20, 24), order));
        }
        let thread_id = get_word(&bytes, 0, 8, order);
        let pthread_id = get_word(&bytes, 8, 8, order);
        let policy = get_word(&bytes, 16, 4, order);
        let priority = get_word(&bytes, 20, 4, order);
        RtPriorityThreadInfoInternal {
            thread_id: to_signed64(thread_id),
            pthread_id,
            policy: to_signed32(policy as u32),
            priority: to_signed32(priority as u32),
        }
    }

    /// The bytes of this value in the byte order of this machine.
    pub fn serialize(&self) -> (bytes: [u8; 24])
        ensures
            bytes@ == layout(*self, ByteOrder::LittleEndian) || bytes@ == layout(
                *self,
                ByteOrder::BigEndian,
            ),
    {
        self.serialize_in(native_byte_order())
    }

    /// The value that `bytes` hold in the byte order of this machine.
    pub fn deserialize(bytes: [u8; 24]) -> (info: Self)
        ensures
            info == parsed(bytes@, ByteOrder::LittleEndian) || info == parsed(
                bytes@,
                ByteOrder::BigEndian,
            ),
    {
        Self::deserialize_in(bytes, native_byte_order())
    }
}

/// A value takes twenty-four bytes, and reading them in the order in which
/// they were written gives the value back, field by field.
pub proof fn lemma_layout_round_trip(info: RtPriorityThreadInfoInternal, order: ByteOrder)
    ensures
        layout(info, order).len() == THREAD_INFO_SIZE,
        parsed(layout(info, order), order) == info,
{
    lemma_pow256_values();
    lemma_signed_round_trip(info.thread_id, info.policy);
    lemma_signed_round_trip(info.thread_id, info.priority);
    let first = word_bytes(unsigned64(info.thread_id) as nat, 8, order);
    let second = word_bytes(info.pthread_id as nat, 8, order);
    let third = word_bytes(unsigned32(info.policy) as nat, 4, order);
    let fourth = word_bytes(unsigned32(info.priority) as nat, 4, order);
    lemma_word_round_trip(unsigned64(info.thread_id) as nat, 8, order);
    lemma_word_round_trip(info.pthread_id as nat, 8, order);
    lemma_word_round_trip(unsigned32(info.policy) as nat, 4, order);
    lemma_word_round_trip(unsigned32(info.priority) as nat, 4, order);
    let bytes = layout(info, order);
    assert(bytes.subrange(0, 8) =~= first);
    assert(bytes.subrange(8, 16) =~= second);
    assert(bytes.subrange(16, 20) =~= third);
    assert(bytes.subrange(20, 24) =~= fourth);
}

/// Twenty-four bytes are written back from the value that they hold.
pub proof fn lemma_parsed_round_trip(bytes: Seq<u8>, order: ByteOrder)
    requires
        bytes.len() == THREAD_INFO_SIZE,
    ensures
        layout(parsed(bytes, order), order) == bytes,
{
    lemma_pow256_values();
    let first = bytes.subrange(0, 8);
    let second = bytes.subrange(8, 16);
    let third = bytes.subrange(16, 20);
    let fourth = bytes.subrange(20, 24);
    lemma_le_value_bound(in_order(first, order));
    lemma_le_value_bound(in_order(second, order));
    lemma_le_value_bound(in_order(third, order));
    lemma_le_value_bound(in_order(fourth, order));
    lemma_bytes_round_trip(first, order);
    lemma_bytes_round_trip(second, order);
    lemma_bytes_round_trip(third, order);
    lemma_bytes_round_trip(fourth, order);
    assert(layout(parsed(bytes, order), order) =~= first + second + third + fourth);
    assert(first + second + third + fourth =~= bytes);
}

} // verus!
