use vstd::prelude::*;

verus! {

/// Weight of byte `k` (0 to 3) of a little-endian word.
pub open spec fn place(k: int) -> int {
    if k == 0 {
        1
    } else if k == 1 {
        256
    } else if k == 2 {
        65536
    } else {
        16777216
    }
}

/// Byte `k` of the unsigned value `v` in little-endian order.
pub open spec fn le_byte(v: int, k: int) -> u8 {
    ((v / place(k)) % 256) as u8
}

/// The values `vals`, each written as `width` little-endian bytes, concatenated in order.
pub open spec fn le_concat(vals: Seq<int>, width: int) -> Seq<u8> {
    Seq::new((width * vals.len()) as nat, |j: int| le_byte(vals[j / width], j % width))
}

/// The unsigned 16-bit pattern of a signed sample (two's complement).
pub open spec fn i16_bits(x: i16) -> int {
    if x < 0 {
        x + 65536
    } else {
        x as int
    }
}

pub open spec fn encoded_u16(s: Seq<u16>) -> Seq<u8> {
    le_concat(s.map_values(|v: u16| v as int), 2)
}

pub open spec fn encoded_i16(s: Seq<i16>) -> Seq<u8> {
    le_concat(s.map_values(|v: i16| i16_bits(v)), 2)
}

/// Float32 samples travel as their IEEE-754 bit patterns.
pub open spec fn encoded_f32_bits(s: Seq<u32>) -> Seq<u8> {
    le_concat(s.map_values(|v: u32| v as int), 4)
}

/// Serialises unsigned 16-bit samples, two little-endian bytes each, in sample order.
pub fn encode_u16_le(samples: &[u16]) -> (r: Vec<u8>)
    ensures
        r@ == encoded_u16(samples@),
{
    let mut out: Vec<u8> = Vec::new();
    let n = samples.len();
    let mut i: usize = 0;
    while i < n
        invariant
            n == samples@.len(),
            i <= n,
            out@ == encoded_u16(samples@.take(i as int)),
        decreases n - i,
    {
        let v = samples[i];
        out.push((v % 256) as u8);
        out.push((v / 256) as u8);
        proof {
            let t = samples@.take(i as int + 1);
            assert(t.map_values(|v: u16| v as int) =~= samples@.take(i as int).map_values(|v: u16| v as int).push(v as int));
        }
        i = i + 1;
        assert(out@ =~= encoded_u16(samples@.take(i as int)));
    }
    assert(samples@.take(n as int) =~= samples@);
    out
}

/// Serialises signed 16-bit samples, two little-endian two's-complement bytes each,
/// in sample order.
pub fn encode_i16_le(samples: &[i16]) -> (r: Vec<u8>)
    ensures
        r@ == encoded_i16(samples@),
{
    let mut out: Vec<u8> = Vec::new();
    let n = samples.len();
    let mut i: usize = 0;
    while i < n
        invariant
            n == samples@.len(),
            i <= n,
            out@ == encoded_i16(samples@.take(i as int)),
        decreases n - i,
    {
        let v = samples[i];
        let bits: u16 = if v < 0 {
            (v as i32 + 65536) as u16
        } else {
            v as u16
        };
        out.push((bits % 256) as u8);
        out.push((bits / 256) as u8);
        proof {
            let t = samples@.take(i as int + 1);
            assert(t.map_values(|v: i16| i16_bits(v)) =~= samples@.take(i as int).map_values(
                |v: i16| i16_bits(v),
            ).push(i16_bits(v)));
        }
        i = i + 1;
        assert(out@ =~= encoded_i16(samples@.take(i as int)));
    }
    assert(samples@.take(n as int) =~= samples@);
    out
}

/// Serialises Float32 samples given as their bit patterns, four little-endian bytes
/// each, in sample order.
pub fn encode_f32_bits_le(samples: &[u32]) -> (r: Vec<u8>)
    ensures
        r@ == encoded_f32_bits(samples@),
{
    let mut out: Vec<u8> = Vec::new();
    let n = samples.len();
    let mut i: usize = 0;
    while i < n
        invariant
            n == samples@.len(),
            i <= n,
            out@ == encoded_f32_bits(samples@.take(i as int)),
        decreases n - i,
    {
        let v = samples[i];
        out.push((v % 256) as u8);
        out.push((v / 256 % 256) as u8);
        out.push((v / 65536 % 256) as u8);
        out.push((v / 16777216) as u8);
        proof {
            let t = samples@.take(i as int + 1);
            assert(t.map_values(|v: u32| v as int) =~= samples@.take(i as int).map_values(|v: u32| v as int).push(v as int));
        }
        i = i + 1;
        assert(out@ =~= encoded_f32_bits(samples@.take(i as int)));
    }
    assert(samples@.take(n as int) =~= samples@);
    out
}

/// The little-endian value of the `width` bytes of `b` that start at `start`.
pub open spec fn le_value(b: Seq<u8>, start: int, width: int) -> int
    decreases width,
{
    if width <= 0 {
        0
    } else {
        b[start] + 256 * le_value(b, start + 1, width - 1)
    }
}

/// The signed sample whose two's-complement pattern is `u`.
pub open spec fn i16_of_bits(u: int) -> i16 {
    if u >= 32768 {
        (u - 65536) as i16
    } else {
        u as i16
    }
}

/// Whole two-byte words of `b`, read as unsigned samples; a trailing odd byte is ignored.
pub open spec fn decoded_u16(b: Seq<u8>) -> Seq<u16> {
    Seq::new(b.len() / 2, |i: int| le_value(b, 2 * i, 2) as u16)
}

pub open spec fn decoded_i16(b: Seq<u8>) -> Seq<i16> {
    Seq::new(b.len() / 2, |i: int| i16_of_bits(le_value(b, 2 * i, 2)))
}

/// Whole four-byte words of `b`, read as Float32 bit patterns; trailing bytes are ignored.
pub open spec fn decoded_f32_bits(b: Seq<u8>) -> Seq<u32> {
    Seq::new(b.len() / 4, |i: int| le_value(b, 4 * i, 4) as u32)
}

proof fn lemma_u16_word(v: int)
    requires
        0 <= v < 65536,
    ensures
        le_byte(v, 0) + 256 * le_byte(v, 1) == v,
{
}

proof fn lemma_u32_word(v: int)
    requires
        0 <= v < 4294967296,
    ensures
        le_byte(v, 0) + 256 * (le_byte(v, 1) + 256 * (le_byte(v, 2) + 256 * le_byte(v, 3))) == v,
{
    assert(v / 256 / 256 == v / 65536) by (nonlinear_arith)
        requires
            v >= 0,
    ;
    assert(v / 65536 / 256 == v / 16777216) by (nonlinear_arith)
        requires
            v >= 0,
    ;
}

/// Decoding what `encode_u16_le` produced gives back every sample exactly.
pub proof fn lemma_u16_round_trip(s: Seq<u16>)
    ensures
        decoded_u16(encoded_u16(s)) == s,
{
    let e = encoded_u16(s);
    assert forall|i: int| 0 <= i < s.len() implies #[trigger] decoded_u16(e)[i] == s[i] by {
        reveal_with_fuel(le_value, 3);
        assert((2 * i) / 2 == i && (2 * i) % 2 == 0);
        assert((2 * i + 1) / 2 == i && (2 * i + 1) % 2 == 1);
        lemma_u16_word(s[i] as int);
    }
    assert(decoded_u16(e) =~= s);
}

/// Decoding what `encode_i16_le` produced gives back every sample exactly.
pub proof fn lemma_i16_round_trip(s: Seq<i16>)
    ensures
        decoded_i16(encoded_i16(s)) == s,
{
    let e = encoded_i16(s);
    assert forall|i: int| 0 <= i < s.len() implies #[trigger] decoded_i16(e)[i] == s[i] by {
        reveal_with_fuel(le_value, 3);
        assert((2 * i) / 2 == i && (2 * i) % 2 == 0);
        assert((2 * i + 1) / 2 == i && (2 * i + 1) % 2 == 1);
        lemma_u16_word(i16_bits(s[i]));
    }
    assert(decoded_i16(e) =~= s);
}

/// Decoding what `encode_f32_bits_le` produced gives back every bit pattern exactly,
/// hence every Float32 sample.
pub proof fn lemma_f32_bits_round_trip(s: Seq<u32>)
    ensures
        decoded_f32_bits(encoded_f32_bits(s)) == s,
{
    let e = encoded_f32_bits(s);
    assert forall|i: int| 0 <= i < s.len() implies #[trigger] decoded_f32_bits(e)[i] == s[i] by {
        reveal_with_fuel(le_value, 5);
        assert((4 * i) / 4 == i && (4 * i) % 4 == 0);
        assert((4 * i + 1) / 4 == i && (4 * i + 1) % 4 == 1);
        assert((4 * i + 2) / 4 == i && (4 * i + 2) % 4 == 2);
        assert((4 * i + 3) / 4 == i && (4 * i + 3) % 4 == 3);
        lemma_u32_word(s[i] as int);
    }
    assert(decoded_f32_bits(e) =~= s);
}

/// Reads whole two-byte little-endian words of `bytes` as unsigned samples.
pub fn decode_u16_le(bytes: &[u8]) -> (r: Vec<u16>)
    ensures
        r@ == decoded_u16(bytes@),
{
    let mut out: Vec<u16> = Vec::new();
    let len = bytes.len();
    let n = len / 2;
    let mut i: usize = 0;
    while i < n
        invariant
            len == bytes@.len(),
            n == bytes@.len() / 2,
            i <= n,
            out@ =~= decoded_u16(bytes@).take(i as int),
        decreases n - i,
    {
        proof {
            reveal_with_fuel(le_value, 3);
        }
        assert(2 * i + 1 < bytes@.len());
        let v: u16 = bytes[2 * i] as u16 + 256 * (bytes[2 * i + 1] as u16);
        out.push(v);
        i = i + 1;
    }
    out
}

/// Reads whole two-byte little-endian words of `bytes` as two's-complement samples.
pub fn decode_i16_le(bytes: &[u8]) -> (r: Vec<i16>)
    ensures
        r@ == decoded_i16(bytes@),
{
    let mut out: Vec<i16> = Vec::new();
    let len = bytes.len();
    let n = len / 2;
    let mut i: usize = 0;
    while i < n
        invariant
            len == bytes@.len(),
            n == bytes@.len() / 2,
            i <= n,
            out@ =~= decoded_i16(bytes@).take(i as int),
        decreases n - i,
    {
        proof {
            reveal_with_fuel(le_value, 3);
        }
        assert(2 * i + 1 < bytes@.len());
        let u: i32 = bytes[2 * i] as i32 + 256 * (bytes[2 * i + 1] as i32);
        let v: i16 = if u >= 32768 {
            (u - 65536) as i16
        } else {
            u as i16
        };
        out.push(v);
        i = i + 1;
    }
    out
}

/// Reads whole four-byte little-endian words of `bytes` as Float32 bit patterns.
pub fn decode_f32_bits_le(bytes: &[u8]) -> (r: Vec<u32>)
    ensures
        r@ == decoded_f32_bits(bytes@),
{
    let mut out: Vec<u32> = Vec::new();
    let len = bytes.len();
    let n = len / 4;
    let mut i: usize = 0;
    while i < n
        invariant
            len == bytes@.len(),
            n == bytes@.len() / 4,
            i <= n,
            out@ =~= decoded_f32_bits(bytes@).take(i as int),
        decreases n - i,
    {
        proof {
            reveal_with_fuel(le_value, 5);
        }
        assert(4 * i + 3 < bytes@.len());
        let j = 4 * i;
        let v: u32 = bytes[j] as u32 + 256 * (bytes[j + 1] as u32 + 256 * (bytes[j + 2] as u32
            + 256 * (bytes[j + 3] as u32)));
        out.push(v);
        i = i + 1;
    }
    out
}

/// How the capture device delivers its samples.
#[derive(Clone, Copy, Debug, PartialEq, Eq, Structural)]
pub enum SampleEncoding {
    Float32,
    SignedInt16,
    UnsignedInt16,
    /// Any encoding this engine cannot serialise.
    Other,
}

impl SampleEncoding {
    pub open spec fn spec_width(self) -> Option<usize> {
        match self {
            SampleEncoding::Float32 => Some(4),
            SampleEncoding::SignedInt16 => Some(2),
            SampleEncoding::UnsignedInt16 => Some(2),
            SampleEncoding::Other => None,
        }
    }

    /// Bytes per serialised sample; `None` for an unsupported encoding.
    pub fn sample_width(&self) -> (r: Option<usize>)
        ensures
            r == self.spec_width(),
    {
        match self {
            SampleEncoding::Float32 => Some(4),
            SampleEncoding::SignedInt16 => Some(2),
            SampleEncoding::UnsignedInt16 => Some(2),
            SampleEncoding::Other => None,
        }
    }
}

} // verus!
