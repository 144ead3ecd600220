//! SMPTE 291 ancillary packets: packing 8-bit payloads into 10-bit words, and
//! checking packets that come back.

use vstd::prelude::*;

verus! {

/// One SMPTE 291 ancillary packet, as its stored 10-bit words.
#[derive(Debug)]
pub struct AncillaryPacket {
    pub c_not_y_channel: bool,
    pub line: u16,
    pub offset: u16,
    pub did: u16,
    pub sdid_block_number: u16,
    pub data_count: u16,
    pub data: Vec<u16>,
    pub checksum: u16,
}

/// How many of the low `n` bits of `w` are ones.
pub open spec fn ones(w: u16, n: nat) -> nat
    decreases n,
{
    if n == 0 {
        0
    } else {
        ones(w, (n - 1) as nat) + ((w >> ((n - 1) as u16)) & 1) as nat
    }
}

/// The 10-bit word for an 8-bit value: b8 makes the number of ones in b0 to b8
/// even, b9 is the inverse of b8.
pub open spec fn parity_word(v: u8) -> u16 {
    if ones(v as u16, 8) % 2 == 1 {
        0x100u16 | (v as u16)
    } else {
        0x200u16 | (v as u16)
    }
}

/// Sum of the nine low bits of every word.
pub open spec fn nine_bit_sum(words: Seq<u16>) -> nat
    decreases words.len(),
{
    if words.len() == 0 {
        0
    } else {
        nine_bit_sum(words.drop_last()) + (words.last() as nat) % 512
    }
}

/// The checksum word: the nine low bits of the sum over DID, SDID, DC and the user
/// data words, with b9 the inverse of b8.
pub open spec fn checksum_word(did: u16, sdid: u16, dc: u16, data: Seq<u16>) -> nat {
    let sum = nine_bit_sum(seq![did, sdid, dc] + data) % 512;
    if sum < 256 {
        sum + 512
    } else {
        sum
    }
}

/// TRS and sync codes `0x000`-`0x003` and `0x3FC`-`0x3FF` are prohibited, and
/// nothing above `0x3FF` is a 10-bit word.
pub open spec fn permitted(w: u16) -> bool {
    0x003 < w && w < 0x3fc
}

/// A word that is the parity extension of its own low byte.
pub open spec fn has_parity(w: u16) -> bool {
    w == parity_word((w & 0xff) as u8)
}

impl AncillaryPacket {
    /// DID, SDID and DC carry parity, every user data word is permitted, and the
    /// stored checksum is the sum over the stored words.
    pub open spec fn consistent(&self) -> bool {
        &&& has_parity(self.did)
        &&& has_parity(self.sdid_block_number)
        &&& has_parity(self.data_count)
        &&& forall|i: int| 0 <= i < self.data@.len() ==> permitted(#[trigger] self.data@[i])
        &&& self.checksum == checksum_word(
            self.did,
            self.sdid_block_number,
            self.data_count,
            self.data@,
        )
    }

    /// The low bytes of the user data words.
    pub open spec fn payload(&self) -> Seq<u8> {
        self.data@.map_values(|w: u16| (w & 0xff) as u8)
    }
}

/// Extending a value keeps its low byte, makes the ones in b0 to b8 even in number,
/// sets b9 to the inverse of b8, and never gives a prohibited code.
pub proof fn parity_word_is_well_formed(v: u8)
    ensures
        parity_word(v) & 0xff == v as u16,
        (parity_word(v) & 0xff) as u8 == v,
        ones(parity_word(v), 9) % 2 == 0,
        (parity_word(v) >> 9) & 1 == 1 - ((parity_word(v) >> 8) & 1),
        parity_word(v) < 0x400,
        permitted(parity_word(v)),
        has_parity(parity_word(v)),
{
    let w = parity_word(v);
    let x = v as u16;
    assert((x | 0x100u16) & 0xff == x && (x | 0x200u16) & 0xff == x && ((x | 0x100u16) >> 8) & 1 == 1
        && ((x | 0x200u16) >> 8) & 1 == 0 && ((x | 0x100u16) >> 9) & 1 == 0 && ((x | 0x200u16) >> 9)
        & 1 == 1 && 0x100 <= (x | 0x100u16) < 0x300 && 0x100 <= (x | 0x200u16) < 0x300 && (0x100u16
        | x) == (x | 0x100u16) && (0x200u16 | x) == (x | 0x200u16)) by (bit_vector)
        requires
            x < 256,
    ;
    assert(x & 0xff == x) by (bit_vector)
        requires
            x < 256,
    ;
    assert forall|n: nat| n <= 8 implies #[trigger] ones(w, n) == ones(x, n) by {
        same_low_bits(w, x, n);
    }
    assert(ones(w, 9) == ones(w, 8) + ((w >> 8u16) & 1) as nat);
}

proof fn same_low_bits(w: u16, x: u16, n: nat)
    requires
        n <= 8,
        w & 0xff == x & 0xff,
    ensures
        ones(w, n) == ones(x, n),
    decreases n,
{
    if n > 0 {
        same_low_bits(w, x, (n - 1) as nat);
        let k = (n - 1) as u16;
        assert((w >> k) & 1 == (x >> k) & 1) by (bit_vector)
            requires
                k < 8,
                w & 0xff == x & 0xff,
        ;
    }
}

/// Extend an 8-bit value to a 10-bit ST 291 word with even/odd parity: an odd
/// number of ones gives `0x100 | v`, an even number `0x200 | v`.
pub fn extend_with_even_odd_parity(v: u8) -> (word: u16)
    ensures
        word == parity_word(v),
        permitted(word),
        (word & 0xff) as u8 == v,
{
    let w: u16 = v as u16;
    let mut count: u32 = 0;
    let mut i: u16 = 0;
    while i < 8
        invariant
            i <= 8,
            count <= i,
            count == ones(w, i as nat),
        decreases 8 - i,
    {
        assert((w >> i) & 1 == 0 || (w >> i) & 1 == 1) by (bit_vector);
        if (w >> i) & 1 == 1 {
            count = count + 1;
        }
        i = i + 1;
    }
    proof {
        parity_word_is_well_formed(v);
    }
    if count % 2 == 1 {
        // odd number of ones in v: b8 = 1, b9 = 0
        0x100 | w
    } else {
        // even number of ones in v: b8 = 0, b9 = 1
        0x200 | w
    }
}

pub fn has_even_odd_parity(w: u16) -> (r: bool)
    ensures
        r == has_parity(w),
{
    w == extend_with_even_odd_parity((w & 0xff) as u8)
}

proof fn nine_bit_sum_prefix(words: Seq<u16>, head: Seq<u16>, k: int)
    requires
        0 <= k < words.len(),
    ensures
        nine_bit_sum(head + words.take(k + 1)) == nine_bit_sum(head + words.take(k)) + (
        words[k] as nat) % 512,
{
    let longer = head + words.take(k + 1);
    assert(longer.drop_last() =~= head + words.take(k));
    assert(longer.last() == words[k]);
}

/// SMPTE 291 checksum over the 10-bit DID, SDID, DC and user data words.
pub fn ancillary_checksum(did: u16, sdid: u16, dc: u16, data: &[u16]) -> (checksum: u16)
    ensures
        checksum == checksum_word(did, sdid, dc, data@),
{
    let ghost head = seq![did, sdid, dc];
    let mut checksum: u16 = 0;
    checksum = checksum.wrapping_add(did & 0x1ff);
    checksum = checksum.wrapping_add(sdid & 0x1ff);
    checksum = checksum.wrapping_add(dc & 0x1ff);
    proof {
        assert(did & 0x1ff == did % 512 && sdid & 0x1ff == sdid % 512 && dc & 0x1ff == dc % 512)
            by (bit_vector);
        assert(head + data@.take(0) =~= head);
        assert(head.drop_last() =~= seq![did, sdid]);
        assert(seq![did, sdid].drop_last() =~= seq![did]);
        assert(seq![did].drop_last() =~= Seq::<u16>::empty());
        reveal_with_fuel(nine_bit_sum, 4);
        assert(nine_bit_sum(head) == did % 512 + sdid % 512 + dc % 512);
    }
    let mut i: usize = 0;
    while i < data.len()
        invariant
            i <= data@.len(),
            checksum as nat % 512 == nine_bit_sum(head + data@.take(i as int)) % 512,
        decreases data@.len() - i,
    {
        let w: u16 = data[i];
        let ghost before = checksum;
        checksum = checksum.wrapping_add(w & 0x1ff);
        proof {
            assert(w & 0x1ff == w % 512) by (bit_vector);
            nine_bit_sum_prefix(data@, head, i as int);
            assert(checksum as nat % 512 == (before as nat + (w % 512) as nat) % 512);
        }
        i = i + 1;
    }
    assert(data@.take(data@.len() as int) =~= data@);
    assert(checksum & 0x1ff == checksum % 512) by (bit_vector);
    checksum = checksum & 0x1ff;
    assert(checksum < 512 ==> (checksum & 0x100 == 0 <==> checksum < 256) && (checksum < 256
        ==> checksum | 0x200 == checksum + 512)) by (bit_vector);
    // b9 = NOT b8 (ST 291 checksum word)
    if checksum & 0x100 == 0 {
        checksum = checksum | 0x200;
    }
    checksum
}

/// Whether `w` is a permitted 10-bit word under ST 291-1 Section 9.1.
///
/// DID, SDID and DC with even/odd parity already avoid the prohibited codes.
pub fn is_permitted_word(w: u16) -> (r: bool)
    ensures
        r == permitted(w),
{
    0x003 < w && w < 0x3fc
}

/// The packet carrying 8-bit `payload` under `did`/`sdid` on `line`/`offset`.
pub open spec fn carries(
    packet: AncillaryPacket,
    line: u16,
    offset: u16,
    did: u8,
    sdid: u8,
    payload: Seq<u8>,
) -> bool {
    &&& !packet.c_not_y_channel
    &&& packet.line == line
    &&& packet.offset == offset
    &&& packet.did == parity_word(did)
    &&& packet.sdid_block_number == parity_word(sdid)
    &&& packet.data_count == parity_word(payload.len() as u8)
    &&& packet.data@ == payload.map_values(|v: u8| parity_word(v))
    &&& packet.checksum == checksum_word(
        packet.did,
        packet.sdid_block_number,
        packet.data_count,
        packet.data@,
    )
}

/// Attach one ancillary packet carrying 8-bit `payload` under `did`/`sdid` on
/// `line`/`offset`, as 10-bit even/odd-parity words plus checksum. A packet holds
/// at most 255 user data words.
pub fn add_ancillary_meta(
    packets: &mut Vec<AncillaryPacket>,
    line: u16,
    offset: u16,
    did: u8,
    sdid: u8,
    payload: &[u8],
)
    requires
        payload@.len() < 256,
    ensures
        final(packets)@.len() == old(packets)@.len() + 1,
        final(packets)@.drop_last() == old(packets)@,
        carries(final(packets)@.last(), line, offset, did, sdid, payload@),
{
    let did_word: u16 = extend_with_even_odd_parity(did);
    let sdid_word: u16 = extend_with_even_odd_parity(sdid);
    let dc_word: u16 = extend_with_even_odd_parity(payload.len() as u8);
    let mut data: Vec<u16> = Vec::new();
    let mut i: usize = 0;
    while i < payload.len()
        invariant
            i <= payload@.len(),
            data@ == payload@.take(i as int).map_values(|v: u8| parity_word(v)),
        decreases payload@.len() - i,
    {
        data.push(extend_with_even_odd_parity(payload[i]));
        i = i + 1;
    }
    assert(payload@.take(payload@.len() as int) =~= payload@);
    let checksum: u16 = ancillary_checksum(did_word, sdid_word, dc_word, data.as_slice());
    packets.push(
        AncillaryPacket {
            c_not_y_channel: false,
            line,
            offset,
            did: did_word,
            sdid_block_number: sdid_word,
            data_count: dc_word,
            data,
            checksum,
        },
    );
    assert(packets@.drop_last() =~= old(packets)@);
}

/// Whether one packet is a consistent SMPTE 291 packet: DID, SDID and DC carry
/// even/odd parity, each user data word is a permitted 10-bit word (ST 291-1
/// Section 9.1), and the stored checksum matches the sum over the stored 10-bit
/// words. User data words are not required to use 8-bit + parity packing (ST 291
/// allows full 10-bit user data).
pub fn is_valid_ancillary_meta(packet: &AncillaryPacket) -> (r: bool)
    ensures
        r == packet.consistent(),
{
    if !has_even_odd_parity(packet.did) || !has_even_odd_parity(packet.sdid_block_number)
        || !has_even_odd_parity(packet.data_count) {
        return false;
    }
    let mut i: usize = 0;
    while i < packet.data.len()
        invariant
            i <= packet.data@.len(),
            forall|j: int| 0 <= j < i ==> permitted(#[trigger] packet.data@[j]),
        decreases packet.data@.len() - i,
    {
        if !is_permitted_word(packet.data[i]) {
            return false;
        }
        i = i + 1;
    }
    packet.checksum == ancillary_checksum(
        packet.did,
        packet.sdid_block_number,
        packet.data_count,
        packet.data.as_slice(),
    )
}

/// Whether every packet passes [`is_valid_ancillary_meta`].
pub fn has_valid_ancillary_metas(packets: &[AncillaryPacket]) -> (r: bool)
    ensures
        r == forall|i: int| 0 <= i < packets@.len() ==> (#[trigger] packets@[i]).consistent(),
{
    let mut i: usize = 0;
    while i < packets.len()
        invariant
            i <= packets@.len(),
            forall|j: int| 0 <= j < i ==> (#[trigger] packets@[j]).consistent(),
        decreases packets@.len() - i,
    {
        if !is_valid_ancillary_meta(&packets[i]) {
            return false;
        }
        i = i + 1;
    }
    true
}

/// A packet that was built here is always valid, and its payload is read back
/// unchanged from the low bytes of its words.
pub proof fn built_packet_is_valid(
    packet: AncillaryPacket,
    line: u16,
    offset: u16,
    did: u8,
    sdid: u8,
    payload: Seq<u8>,
)
    requires
        payload.len() < 256,
        carries(packet, line, offset, did, sdid, payload),
    ensures
        packet.consistent(),
        packet.payload() == payload,
        (packet.did & 0xff) as u8 == did,
        (packet.sdid_block_number & 0xff) as u8 == sdid,
        packet.data_count & 0xff == payload.len(),
        packet.line == line,
        packet.offset == offset,
        !packet.c_not_y_channel,
{
    parity_word_is_well_formed(did);
    parity_word_is_well_formed(sdid);
    parity_word_is_well_formed(payload.len() as u8);
    assert forall|i: int| 0 <= i < payload.len() implies permitted(#[trigger] packet.data@[i]) && (
    packet.data@[i] & 0xff) as u8 == payload[i] by {
        parity_word_is_well_formed(payload[i]);
    }
    assert(packet.payload() =~= payload);
}

/// A word has parity where b0 to b8 hold an even number of ones and b9 is the inverse of b8.
pub proof fn parity_is_even(w: u16)
    requires
        has_parity(w),
    ensures
        w < 1024,
        ((w & 1) + ((w >> 1) & 1) + ((w >> 2) & 1) + ((w >> 3) & 1) + ((w >> 4) & 1) + ((w >> 5)
            & 1) + ((w >> 6) & 1) + ((w >> 7) & 1) + ((w >> 8) & 1)) % 2 == 0,
        (w >> 9) & 1 != (w >> 8) & 1,
{
    let v = (w & 0xff) as u8;
    parity_word_is_well_formed(v);
    reveal_with_fuel(ones, 10);
    assert(w >> 0 == w) by (bit_vector);
    assert((w >> 8) & 1 == 0 || (w >> 8) & 1 == 1) by (bit_vector);
}

/// A permitted word is one of ten bits whose eight high bits are neither all zeros nor all ones.
pub proof fn permitted_words_keep_clear_of_sync(w: u16)
    ensures
        permitted(w) <==> w < 1024 && w / 4 != 0 && w / 4 != 255,
{
}

/// The checksum adds up: without user data its nine low bits are those of the sum of DID, SDID
/// and DC, every user data word adds its own, and b9 is the inverse of b8.
pub proof fn checksum_adds_up(did: u16, sdid: u16, dc: u16, data: Seq<u16>, w: u16)
    ensures
        checksum_word(did, sdid, dc, Seq::empty()) % 512 == (did + sdid + dc) % 512,
        checksum_word(did, sdid, dc, data.push(w)) % 512 == (checksum_word(did, sdid, dc, data) + w)
            % 512,
        checksum_word(did, sdid, dc, data) < 1024,
        (checksum_word(did, sdid, dc, data) / 256) % 2 != (checksum_word(did, sdid, dc, data)
            / 512) % 2,
{
    let head = seq![did, sdid, dc];
    assert(nine_bit_sum(head) == did % 512 + sdid % 512 + dc % 512) by {
        assert(head.drop_last() =~= seq![did, sdid]);
        assert(seq![did, sdid].drop_last() =~= seq![did]);
        assert(seq![did].drop_last() =~= Seq::<u16>::empty());
        reveal_with_fuel(nine_bit_sum, 4);
    }
    assert(head + Seq::<u16>::empty() =~= head);
    assert(nine_bit_sum(head + data.push(w)) == nine_bit_sum(head + data) + w % 512) by {
        assert((head + data.push(w)).drop_last() =~= head + data);
        assert((head + data.push(w)).last() == w);
    }
    checksum_is_of_the_sum(did, sdid, dc, Seq::empty());
    checksum_is_of_the_sum(did, sdid, dc, data);
    checksum_is_of_the_sum(did, sdid, dc, data.push(w));
    low_bits_add_up(
        nine_bit_sum(head + data) as int,
        checksum_word(did, sdid, dc, data) as int,
        w as int,
    );
    low_bits_of_three(did as int, sdid as int, dc as int);
}

proof fn checksum_is_of_the_sum(did: u16, sdid: u16, dc: u16, data: Seq<u16>)
    ensures
        checksum_word(did, sdid, dc, data) % 512 == nine_bit_sum(seq![did, sdid, dc] + data) % 512,
        checksum_word(did, sdid, dc, data) < 1024,
        (checksum_word(did, sdid, dc, data) / 256) % 2 != (checksum_word(did, sdid, dc, data)
            / 512) % 2,
{
}

proof fn low_bits_add_up(sum: int, checksum: int, w: int)
    requires
        0 <= sum,
        0 <= checksum,
        0 <= w,
        checksum % 512 == sum % 512,
    ensures
        (sum + w % 512) % 512 == (checksum + w) % 512,
{
}

proof fn low_bits_of_three(a: int, b: int, c: int)
    requires
        0 <= a,
        0 <= b,
        0 <= c,
    ensures
        (a % 512 + b % 512 + c % 512) % 512 == (a + b + c) % 512,
{
}

} // verus!
