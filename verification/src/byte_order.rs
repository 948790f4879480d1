use vstd::prelude::*;

verus! {

/// The order in which the bytes of an integer lie in memory.
#[derive(Clone, Copy, Debug, PartialEq, Eq, Structural)]
pub enum ByteOrder {
    /// Least significant byte first.
    LittleEndian,
    /// Most significant byte first.
    BigEndian,
}

/// 256 to the power of `exponent`.
pub open spec fn pow256(exponent: nat) -> nat
    decreases exponent,
{
    if exponent == 0 {
        1
    } else {
        256 * pow256((exponent - 1) as nat)
    }
}

/// The `width` least significant bytes of `value`, least significant first.
pub open spec fn le_bytes(value: nat, width: nat) -> Seq<u8>
    decreases width,
{
    if width == 0 {
        Seq::empty()
    } else {
        seq![(value % 256) as u8] + le_bytes(value / 256, (width - 1) as nat)
    }
}

/// The number whose bytes, least significant first, are `bytes`.
pub open spec fn le_value(bytes: Seq<u8>) -> nat
    decreases bytes.len(),
{
    if bytes.len() == 0 {
        0
    } else {
        bytes[0] as nat + 256 * le_value(bytes.drop_first())
    }
}

/// `bytes` read in little-endian order as they lie in `order`.
pub open spec fn in_order(bytes: Seq<u8>, order: ByteOrder) -> Seq<u8> {
    match order {
        ByteOrder::LittleEndian => bytes,
        ByteOrder::BigEndian => bytes.reverse(),
    }
}

/// The `width` bytes that hold `value` in memory under `order`.
pub open spec fn word_bytes(value: nat, width: nat, order: ByteOrder) -> Seq<u8> {
    in_order(le_bytes(value, width), order)
}

/// The number that `bytes` hold under `order`.
pub open spec fn word_value(bytes: Seq<u8>, order: ByteOrder) -> nat {
    le_value(in_order(bytes, order))
}

/// `target` with the bytes from `offset` on replaced by `word`.
pub open spec fn overwrite(target: Seq<u8>, offset: int, word: Seq<u8>) -> Seq<u8> {
    Seq::new(
        target.len(),
        |i: int|
            if offset <= i < offset + word.len() {
                word[i - offset]
            } else {
                target[i]
            },
    )
}

/// The two's complement of a 64-bit integer, as an unsigned number.
pub open spec fn unsigned64(value: i64) -> u64 {
    if value < 0 {
        (value + 0x1_0000_0000_0000_0000) as u64
    } else {
        value as u64
    }
}

/// The 64-bit integer of which `value` is the two's complement.
pub open spec fn signed64(value: u64) -> i64 {
    if value >= 0x8000_0000_0000_0000 {
        (value - 0x1_0000_0000_0000_0000) as i64
    } else {
        value as i64
    }
}

/// The two's complement of a 32-bit integer, as an unsigned number.
pub open spec fn unsigned32(value: i32) -> u32 {
    if value < 0 {
        (value + 0x1_0000_0000) as u32
    } else {
        value as u32
    }
}

/// The 32-bit integer of which `value` is the two's complement.
pub open spec fn signed32(value: u32) -> i32 {
    if value >= 0x8000_0000 {
        (value - 0x1_0000_0000) as i32
    } else {
        value as i32
    }
}

/// The powers of 256 up to the eighth.
pub proof fn lemma_pow256_values()
    ensures
        pow256(0) == 1,
        pow256(1) == 0x100,
        pow256(2) == 0x1_0000,
        pow256(3) == 0x100_0000,
        pow256(4) == 0x1_0000_0000,
        pow256(5) == 0x100_0000_0000,
        pow256(6) == 0x1_0000_0000_0000,
        pow256(7) == 0x100_0000_0000_0000,
        pow256(8) == 0x1_0000_0000_0000_0000,
{
    reveal_with_fuel(pow256, 9);
}

/// `le_bytes` gives as many bytes as it is asked for.
pub proof fn lemma_le_bytes_len(value: nat, width: nat)
    ensures
        le_bytes(value, width).len() == width,
    decreases width,
{
    if width > 0 {
        lemma_le_bytes_len(value / 256, (width - 1) as nat);
    }
}

/// The number that `bytes` hold is below 256 to the power of their count.
pub proof fn lemma_le_value_bound(bytes: Seq<u8>)
    ensures
        le_value(bytes) < pow256(bytes.len()),
    decreases bytes.len(),
{
    if bytes.len() > 0 {
        lemma_le_value_bound(bytes.drop_first());
    }
}

/// Reading back the bytes of a number that fits in them gives the number.
pub proof fn lemma_le_value_of_bytes(value: nat, width: nat)
    requires
        value < pow256(width),
    ensures
        le_value(le_bytes(value, width)) == value,
    decreases width,
{
    if width > 0 {
        let rest = le_bytes(value / 256, (width - 1) as nat);
        lemma_le_value_of_bytes(value / 256, (width - 1) as nat);
        assert(le_bytes(value, width).drop_first() =~= rest);
    }
}

/// Writing out the number that some bytes hold gives the bytes.
pub proof fn lemma_le_bytes_of_value(bytes: Seq<u8>)
    ensures
        le_bytes(le_value(bytes), bytes.len()) == bytes,
    decreases bytes.len(),
{
    if bytes.len() > 0 {
        let tail = bytes.drop_first();
        lemma_le_bytes_of_value(tail);
        let value = le_value(bytes);
        assert(value % 256 == bytes[0] as nat);
        assert(value / 256 == le_value(tail));
        assert(le_bytes(value, bytes.len()) =~= bytes);
    } else {
        assert(le_bytes(le_value(bytes), bytes.len()) =~= bytes);
    }
}

/// Under either order, a number that fits in `width` bytes is read back from them.
pub proof fn lemma_word_round_trip(value: nat, width: nat, order: ByteOrder)
    requires
        value < pow256(width),
    ensures
        word_bytes(value, width, order).len() == width,
        word_value(word_bytes(value, width, order), order) == value,
{
    lemma_le_bytes_len(value, width);
    lemma_le_value_of_bytes(value, width);
    let bytes = le_bytes(value, width);
    assert(bytes.reverse().reverse() =~= bytes);
}

/// Under either order, bytes are written back from the number they hold.
pub proof fn lemma_bytes_round_trip(bytes: Seq<u8>, order: ByteOrder)
    ensures
        word_bytes(word_value(bytes, order), bytes.len(), order) == bytes,
{
    lemma_le_bytes_of_value(in_order(bytes, order));
    assert(bytes.reverse().reverse() =~= bytes);
    assert(bytes.reverse().len() == bytes.len());
}

/// Two's complement and back is the identity on 64-bit and 32-bit integers.
pub proof fn lemma_signed_round_trip(wide: i64, narrow: i32)
    ensures
        signed64(unsigned64(wide)) == wide,
        signed32(unsigned32(narrow)) == narrow,
{
}

/// The two bytes in which this machine keeps the 16-bit number one. `u16::to_ne_bytes`
/// gives them in the machine's own order, which is one of two: the low byte
/// first, or the high byte first. Which of the two is not stated.
#[verifier::external_body]
fn native_bytes_of_one() -> (bytes: [u8; 2])
    ensures
        bytes@ == seq![1u8, 0u8] || bytes@ == seq![0u8, 1u8],
{
    1u16.to_ne_bytes()
}

/// The byte order of the machine that runs this code.
pub fn native_byte_order() -> ByteOrder {
    let probe = native_bytes_of_one();
    byte_order_of(probe)
}

/// The byte order under which `probe` holds the 16-bit number one: least
/// significant byte first where the first byte is the one, most significant
/// byte first otherwise.
pub open spec fn order_of_probe(probe: Seq<u8>) -> ByteOrder {
    if probe[0] == 1 {
        ByteOrder::LittleEndian
    } else {
        ByteOrder::BigEndian
    }
}

/// Tells the byte order of a machine from the two bytes in which it keeps
/// the 16-bit number one.
pub fn byte_order_of(probe: [u8; 2]) -> (order: ByteOrder)
    ensures
        order == order_of_probe(probe@),
        probe@ == word_bytes(1, 2, ByteOrder::LittleEndian) ==> order == ByteOrder::LittleEndian,
        probe@ == word_bytes(1, 2, ByteOrder::BigEndian) ==> order == ByteOrder::BigEndian,
{
    proof {
        reveal_with_fuel(le_bytes, 3);
        lemma_le_bytes_len(1, 2);
    }
    if probe[0] == 1 {
        ByteOrder::LittleEndian
    } else {
        ByteOrder::BigEndian
    }
}

/// The two's complement of `value`.
pub fn to_unsigned64(value: i64) -> (bits: u64)
    ensures
        bits == unsigned64(value),
{
    if value < 0 {
        (value - i64::MIN) as u64 + 0x8000_0000_0000_0000
    } else {
        value as u64
    }
}

/// The integer whose two's complement is `bits`.
pub fn to_signed64(bits: u64) -> (value: i64)
    ensures
        value == signed64(bits),
{
    if bits >= 0x8000_0000_0000_0000 {
        (bits - 0x8000_0000_0000_0000) as i64 + i64::MIN
    } else {
        bits as i64
    }
}

/// The two's complement of `value`.
pub fn to_unsigned32(value: i32) -> (bits: u32)
    ensures
        bits == unsigned32(value),
{
    if value < 0 {
        (value - i32::MIN) as u32 + 0x8000_0000
    } else {
        value as u32
    }
}

/// The integer whose two's complement is `bits`.
pub fn to_signed32(bits: u32) -> (value: i32)
    ensures
        value == signed32(bits),
{
    if bits >= 0x8000_0000 {
        (bits - 0x8000_0000) as i32 + i32::MIN
    } else {
        bits as i32
    }
}

/// Stores the `width` low bytes of `value` in `buffer` from `offset` on, in
/// `order`, and leaves the other bytes as they are.
pub fn put_word<const N: usize>(
    buffer: &mut [u8; N],
    offset: usize,
    width: usize,
    value: u64,
    order: ByteOrder,
)
    requires
        offset + width <= N,
    ensures
        final(buffer)@ == overwrite(
            old(buffer)@,
            offset as int,
            word_bytes(value as nat, width as nat, order),
        ),
{
    let ghost word = le_bytes(value as nat, width as nat);
    let ghost before = buffer@;
    proof {
        lemma_le_bytes_len(value as nat, width as nat);
        assert(word =~= word.subrange(0, 0) + word);
    }
    let mut rest: u64 = value;
    let mut i: usize = 0;
    while i < width
        invariant
            i <= width,
            offset + width <= N,
            word.len() == width,
            word == word.subrange(0, i as int) + le_bytes(rest as nat, (width - i) as nat),
            buffer@.len() == N,
            before.len() == N,
            forall|j: int|
                0 <= j < i ==> #[trigger] buffer@[position(offset as int, width as int, j, order)]
                    == word[j],
            forall|k: int|
                0 <= k < N && !(offset <= k < offset + width) ==> buffer@[k] == before[k],
            forall|k: int|
                #![trigger buffer@[k]]
                offset <= k < offset + width && !written(offset as int, width as int, i as int, k, order)
                    ==> buffer@[k] == before[k],
        decreases width - i,
    {
        let place: usize = match order {
            ByteOrder::LittleEndian => offset + i,
            ByteOrder::BigEndian => offset + (width - 1 - i),
        };
        let ghost tail = le_bytes(rest as nat, (width - i) as nat);
        proof {
            lemma_le_bytes_len(rest as nat, (width - i) as nat);
            lemma_le_bytes_len((rest / 256) as nat, (width - i - 1) as nat);
            assert(word[i as int] == tail[0]);
            assert(word =~= word.subrange(0, i + 1) + le_bytes(
                (rest / 256) as nat,
                (width - i - 1) as nat,
            )) by {
                assert(tail =~= seq![(rest % 256) as u8] + le_bytes(
                    (rest as nat) / 256,
                    (width - i - 1) as nat,
                ));
                assert forall|j: int| i < j < width implies word[j] == le_bytes(
                    (rest / 256) as nat,
                    (width - i - 1) as nat,
                )[j - i - 1] by {
                    assert(word[j] == tail[j - i]);
                }
            }
        }
        buffer[place] = (rest % 256) as u8;
        rest = rest / 256;
        i += 1;
    }
    proof {
        let expected = overwrite(before, offset as int, word_bytes(value as nat, width as nat, order));
        assert forall|k: int| 0 <= k < N implies buffer@[k] == expected[k] by {
            if offset <= k < offset + width {
                let j = match order {
                    ByteOrder::LittleEndian => k - offset,
                    ByteOrder::BigEndian => offset + width - 1 - k,
                };
                assert(position(offset as int, width as int, j, order) == k);
            }
        }
        assert(buffer@ =~= expected);
    }
}

/// Where in a buffer the byte of significance `index` of a word lies.
pub open spec fn position(offset: int, width: int, index: int, order: ByteOrder) -> int {
    match order {
        ByteOrder::LittleEndian => offset + index,
        ByteOrder::BigEndian => offset + width - 1 - index,
    }
}

/// Whether the place `k` holds one of the `count` least significant bytes of a word.
pub open spec fn written(offset: int, width: int, count: int, k: int, order: ByteOrder) -> bool {
    match order {
        ByteOrder::LittleEndian => offset <= k < offset + count,
        ByteOrder::BigEndian => offset + width - count <= k < offset + width,
    }
}

/// Reads the number that the `width` bytes of `buffer` from `offset` on hold in `order`.
pub fn get_word<const N: usize>(buffer: &[u8; N], offset: usize, width: usize, order: ByteOrder) -> (value: u64)
    requires
        offset + width <= N,
        width <= 8,
    ensures
        value == word_value(buffer@.subrange(offset as int, offset + width), order),
{
    let ghost word = in_order(buffer@.subrange(offset as int, offset + width), order);
    let mut value: u64 = 0;
    let mut i: usize = width;
    proof {
        assert(word.subrange(width as int, width as int) =~= Seq::<u8>::empty());
    }
    while i > 0
        invariant
            i <= width <= 8,
            offset + width <= N,
            buffer@.len() == N,
            word.len() == width,
            word == in_order(buffer@.subrange(offset as int, offset + width), order),
            value == le_value(word.subrange(i as int, width as int)),
        decreases i,
    {
        let place: usize = match order {
            ByteOrder::LittleEndian => offset + (i - 1),
            ByteOrder::BigEndian => offset + (width - i),
        };
        let byte: u8 = buffer[place];
        proof {
            let upper = word.subrange(i as int, width as int);
            let next = word.subrange(i - 1, width as int);
            assert(byte == word[i - 1]);
            assert(next.drop_first() =~= upper);
            assert(next[0] == byte);
            lemma_le_value_bound(upper);
            lemma_pow256_values();
            lemma_pow256_increases((width - i) as nat, 7);
        }
        value = value * 256 + byte as u64;
        i -= 1;
    }
    proof {
        assert(word.subrange(0, width as int) =~= word);
    }
    value
}

/// A larger exponent gives no smaller power.
pub proof fn lemma_pow256_increases(low: nat, high: nat)
    requires
        low <= high,
    ensures
        pow256(low) <= pow256(high),
    decreases high,
{
    if low < high {
        lemma_pow256_increases(low, (high - 1) as nat);
    }
}

} // verus!
