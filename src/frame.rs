//! Fixed-layout decoding of the flex and IMU characteristic payloads.
use vstd::prelude::*;

verus! {

/// Number of bend sensors on the glove, one per finger.
pub const FINGER_COUNT: usize = 5;

/// Number of signed IMU channels: accelerometer X/Y/Z, then gyroscope X/Y/Z.
pub const IMU_CHANNELS: usize = 6;

/// Payload length of the five-finger flex characteristic.
pub const FLEX_PAYLOAD_LEN: usize = 10;

/// Payload length of the IMU characteristic.
pub const IMU_PAYLOAD_LEN: usize = 12;

/// The unsigned big-endian 16-bit word made of `hi` followed by `lo`.
pub open spec fn be_word(hi: u8, lo: u8) -> int {
    hi as int * 256 + lo as int
}

/// The same word read as two's complement.
pub open spec fn be_signed(hi: u8, lo: u8) -> int {
    if be_word(hi, lo) >= 0x8000 {
        be_word(hi, lo) - 0x10000
    } else {
        be_word(hi, lo)
    }
}

/// The `i`-th unsigned word of a payload.
pub open spec fn word_at(data: Seq<u8>, i: int) -> int {
    be_word(data[2 * i], data[2 * i + 1])
}

/// The `i`-th signed word of a payload.
pub open spec fn signed_at(data: Seq<u8>, i: int) -> int {
    be_signed(data[2 * i], data[2 * i + 1])
}

/// The two big-endian bytes that carry a signed value.
pub open spec fn signed_bytes(v: i16) -> Seq<u8> {
    let w: int = if v < 0 { v + 0x10000 } else { v as int };
    seq![(w / 256) as u8, (w % 256) as u8]
}

proof fn lemma_word_bits(hi: u8, lo: u8)
    ensures
        ((hi as u16) << 8u16) | (lo as u16) == hi as int * 256 + lo as int,
{
    assert(((hi as u16) << 8u16) | (lo as u16) == (hi as u16) * 256 + (lo as u16)) by (bit_vector);
}

proof fn lemma_signed_bits(w: u16)
    ensures
        w as i16 == (if w >= 0x8000 { w - 0x10000 } else { w as int }),
{
    assert(w >= 0x8000 ==> w as i16 == w - 0x10000) by (bit_vector);
    assert(w < 0x8000 ==> w as i16 == w) by (bit_vector);
}

fn read_word(data: &[u8], i: usize) -> (r: u16)
    requires
        i < IMU_CHANNELS,
        2 * i + 1 < data@.len(),
    ensures
        r == word_at(data@, i as int),
{
    let hi = data[2 * i];
    let lo = data[2 * i + 1];
    proof {
        lemma_word_bits(hi, lo);
    }
    ((hi as u16) << 8u16) | (lo as u16)
}

/// Decodes a five-finger flex payload: finger `i` is the big-endian word at
/// bytes `2i` and `2i + 1`. Any other length yields `None`, so that the
/// caller keeps its previous readings.
pub fn decode_flex(data: &[u8]) -> (r: Option<[u16; 5]>)
    ensures
        data@.len() != FLEX_PAYLOAD_LEN ==> r is None,
        data@.len() == FLEX_PAYLOAD_LEN ==> (r matches Some(f) && forall|i: int|
            0 <= i < 5 ==> f[i] == word_at(data@, i)),
{
    if data.len() != FLEX_PAYLOAD_LEN {
        return None;
    }
    let mut fingers: [u16; 5] = [0u16; 5];
    let mut i: usize = 0;
    while i < FINGER_COUNT
        invariant
            data@.len() == FLEX_PAYLOAD_LEN,
            i <= FINGER_COUNT,
            forall|j: int| 0 <= j < i ==> fingers[j] == word_at(data@, j),
        decreases FINGER_COUNT - i,
    {
        fingers[i] = read_word(data, i);
        i = i + 1;
    }
    Some(fingers)
}

/// Decodes an IMU payload into six signed fixed-point values in hundredths
/// (accelerometer X/Y/Z, then gyroscope X/Y/Z): value `i` is the
/// two's-complement big-endian word at bytes `2i` and `2i + 1`. Any other
/// length yields `None`.
pub fn decode_imu(data: &[u8]) -> (r: Option<[i16; 6]>)
    ensures
        data@.len() != IMU_PAYLOAD_LEN ==> r is None,
        data@.len() == IMU_PAYLOAD_LEN ==> (r matches Some(v) && forall|i: int|
            0 <= i < 6 ==> v[i] == signed_at(data@, i)),
{
    if data.len() != IMU_PAYLOAD_LEN {
        return None;
    }
    let mut values: [i16; 6] = [0i16; 6];
    let mut i: usize = 0;
    while i < IMU_CHANNELS
        invariant
            data@.len() == IMU_PAYLOAD_LEN,
            i <= IMU_CHANNELS,
            forall|j: int| 0 <= j < i ==> values[j] == signed_at(data@, j),
        decreases IMU_CHANNELS - i,
    {
        let w = read_word(data, i);
        proof {
            lemma_signed_bits(w);
        }
        values[i] = w as i16;
        i = i + 1;
    }
    Some(values)
}

/// The finger values after a flex payload is staged over `fingers`.
pub open spec fn flex_staged(fingers: Seq<u16>, data: Seq<u8>) -> Seq<u16> {
    if data.len() == FLEX_PAYLOAD_LEN {
        Seq::new(5, |i: int| word_at(data, i) as u16)
    } else {
        fingers
    }
}

/// The IMU values after an IMU payload is staged over `imu`.
pub open spec fn imu_staged(imu: Seq<i16>, data: Seq<u8>) -> Seq<i16> {
    if data.len() == IMU_PAYLOAD_LEN {
        Seq::new(6, |i: int| signed_at(data, i) as i16)
    } else {
        imu
    }
}

/// One read cycle's worth of sensor values: five raw finger readings and six
/// IMU values in hundredths (accelerometer X/Y/Z, then gyroscope X/Y/Z).
#[derive(Clone, Copy, Debug)]
pub struct SensorFrame {
    pub fingers: [u16; 5],
    pub imu: [i16; 6],
}

impl SensorFrame {
    /// A frame of zeros.
    pub fn new() -> (r: SensorFrame)
        ensures
            forall|i: int| 0 <= i < 5 ==> r.fingers[i] == 0,
            forall|i: int| 0 <= i < 6 ==> r.imu[i] == 0,
    {
        SensorFrame { fingers: [0u16; 5], imu: [0i16; 6] }
    }

    /// Takes the finger values from a flex payload; a payload of the wrong
    /// length leaves the frame as it was.
    pub fn stage_flex(&mut self, data: &[u8])
        ensures
            data@.len() != FLEX_PAYLOAD_LEN ==> *final(self) == *old(self),
            data@.len() == FLEX_PAYLOAD_LEN ==> final(self).imu == old(self).imu && forall|i: int|
                0 <= i < 5 ==> #[trigger] final(self).fingers[i] == word_at(data@, i),
            final(self).fingers@ == flex_staged(old(self).fingers@, data@),
            final(self).imu == old(self).imu,
    {
        match decode_flex(data) {
            Some(f) => {
                self.fingers = f;
                assert(self.fingers@ =~= flex_staged(old(self).fingers@, data@));
            },
            None => {},
        }
    }

    /// Takes the IMU values from an IMU payload; a payload of the wrong length
    /// leaves the frame as it was.
    pub fn stage_imu(&mut self, data: &[u8])
        ensures
            data@.len() != IMU_PAYLOAD_LEN ==> *final(self) == *old(self),
            data@.len() == IMU_PAYLOAD_LEN ==> final(self).fingers == old(self).fingers
                && forall|i: int| 0 <= i < 6 ==> #[trigger] final(self).imu[i] == signed_at(data@, i),
            final(self).imu@ == imu_staged(old(self).imu@, data@),
            final(self).fingers == old(self).fingers,
    {
        match decode_imu(data) {
            Some(v) => {
                self.imu = v;
                assert(self.imu@ =~= imu_staged(old(self).imu@, data@));
            },
            None => {},
        }
    }
}

/// Decoding the big-endian bytes of any signed value gives the value back.
pub proof fn lemma_signed_round_trip(v: i16)
    ensures
        signed_bytes(v).len() == 2,
        be_signed(signed_bytes(v)[0], signed_bytes(v)[1]) == v,
{
    let w: int = if v < 0 { v + 0x10000 } else { v as int };
    assert(0 <= w < 0x10000);
    assert(w == (w / 256) * 256 + w % 256);
}

} // verus!
