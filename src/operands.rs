use vstd::prelude::*;
use vstd::string::StringSliceAdditionalSpecFns;
use crypto_bigint::Encoding;

verus! {

/// Hex digits of a 2048-bit number.
pub const HEX_DIGITS_2048: usize = 512;

/// 32-bit words of a 2048-bit number.
pub const WORDS_2048: usize = 64;

/// Base of the timed exponentiation (placeholder value, not secret).
pub const BASE_HEX: &'static str = "c7f61058f96db3bd87dbab08ab03b4f7f2f864eac249144adea6a65f97803b71\
    9d8ca980b7b3c0389c1c7c67dc353c5e0ec11f5fc8ce7f6073796cc8f73fa878\
    c7f61058f96db3bd87dbab08ab03b4f7f2f864eac249144adea6a65f97803b71\
    9d8ca980b7b3c0389c1c7c67dc353c5e0ec11f5fc8ce7f6073796cc8f73fa878\
    c7f61058f96db3bd87dbab08ab03b4f7f2f864eac249144adea6a65f97803b71\
    9d8ca980b7b3c0389c1c7c67dc353c5e0ec11f5fc8ce7f6073796cc8f73fa878\
    c7f61058f96db3bd87dbab08ab03b4f7f2f864eac249144adea6a65f97803b71\
    9d8ca980b7b3c0389c1c7c67dc353c5e0ec11f5fc8ce7f6073796cc8f73fa878";

/// Exponent of the timed exponentiation (placeholder value, not secret).
pub const EXPONENT_HEX: &'static str = "1763db3344e97be15d04de4868badb12a38046bb793f7630d87cf100aa1c759a\
    fac15a01f3c4c83ec2d2f666bd22f71c3c1f075ec0e2cb0cb29994d091b73f51\
    1763db3344e97be15d04de4868badb12a38046bb793f7630d87cf100aa1c759a\
    fac15a01f3c4c83ec2d2f666bd22f71c3c1f075ec0e2cb0cb29994d091b73f51\
    1763db3344e97be15d04de4868badb12a38046bb793f7630d87cf100aa1c759a\
    fac15a01f3c4c83ec2d2f666bd22f71c3c1f075ec0e2cb0cb29994d091b73f51\
    1763db3344e97be15d04de4868badb12a38046bb793f7630d87cf100aa1c759a\
    fac15a01f3c4c83ec2d2f666bd22f71c3c1f075ec0e2cb0cb29994d091b73f51";

/// Modulus of the timed exponentiation (placeholder value, not secret).
pub const MODULUS_HEX: &'static str = "6b6bb3d2b6cbeb45a769eaa0384e611e1b89b0c9b45a045aca1c5fd6e8785b38\
    df7118cf5dd45b9b63d293b67aeafa9ba25feb8712f188cb139b7d9b9af1c361\
    6b6bb3d2b6cbeb45a769eaa0384e611e1b89b0c9b45a045aca1c5fd6e8785b38\
    df7118cf5dd45b9b63d293b67aeafa9ba25feb8712f188cb139b7d9b9af1c361\
    6b6bb3d2b6cbeb45a769eaa0384e611e1b89b0c9b45a045aca1c5fd6e8785b38\
    df7118cf5dd45b9b63d293b67aeafa9ba25feb8712f188cb139b7d9b9af1c361\
    6b6bb3d2b6cbeb45a769eaa0384e611e1b89b0c9b45a045aca1c5fd6e8785b38\
    df7118cf5dd45b9b63d293b67aeafa9ba25feb8712f188cb139b7d9b9af1c361";

/// Montgomery helper word handed to the engine with the modulus.
pub const M_PRIME: u32 = 0xFFFF_FFFE;

pub open spec fn is_hex_digit_spec(b: u8) -> bool {
    (48 <= b <= 57) || (65 <= b <= 70) || (97 <= b <= 102)
}

/// Value of an ASCII hex digit, upper or lower case.
pub open spec fn hex_digit_value(b: u8) -> int {
    if 48 <= b <= 57 {
        b - 48
    } else if 65 <= b <= 70 {
        b - 55
    } else {
        b - 87
    }
}

/// Exactly the digits of a 2048-bit number.
pub open spec fn valid_hex_2048(hex: Seq<u8>) -> bool {
    &&& hex.len() == HEX_DIGITS_2048
    &&& forall|i: int| 0 <= i < hex.len() ==> #[trigger] is_hex_digit_spec(hex[i])
}

/// Byte `k` of a number written in hex, most significant byte first.
pub open spec fn be_hex_byte(hex: Seq<u8>, k: int) -> int {
    16 * hex_digit_value(hex[2 * k]) + hex_digit_value(hex[2 * k + 1])
}

/// Word `i` of a 2048-bit number written in hex, least significant word
/// first; each word is its four bytes, least significant first.
pub open spec fn be_hex_word(hex: Seq<u8>, i: int) -> int {
    be_hex_byte(hex, 255 - 4 * i) + 256 * be_hex_byte(hex, 254 - 4 * i) + 65536 * be_hex_byte(
        hex,
        253 - 4 * i,
    ) + 16777216 * be_hex_byte(hex, 252 - 4 * i)
}

/// Relies on crypto_bigint's `Uint::from_be_hex` for `U2048`, which reads
/// 512 hex digits, most significant first, and panics on another length or
/// on a byte that is no hex digit; and on `Encoding::to_le_bytes`, which
/// gives the number's 256 bytes, least significant first.
#[verifier::external_body]
fn u2048_le_bytes_from_be_hex(hex: &str) -> (r: Vec<u8>)
    requires
        valid_hex_2048(hex.spec_bytes()),
    ensures
        r@.len() == 256,
        forall|j: int| 0 <= j < 256 ==> #[trigger] r@[j] as int == be_hex_byte(hex.spec_bytes(), 255 - j),
{
    crypto_bigint::U2048::from_be_hex(hex).to_le_bytes().to_vec()
}

pub fn is_hex_digit(b: u8) -> (r: bool)
    ensures
        r == is_hex_digit_spec(b),
{
    (48 <= b && b <= 57) || (65 <= b && b <= 70) || (97 <= b && b <= 102)
}

/// Whether `hex` holds exactly the digits of a 2048-bit number.
pub fn is_valid_hex_2048(hex: &str) -> (r: bool)
    ensures
        r == valid_hex_2048(hex.spec_bytes()),
{
    let bytes = hex.as_bytes();
    if bytes.len() != HEX_DIGITS_2048 {
        return false;
    }
    let mut i: usize = 0;
    while i < bytes.len()
        invariant
            bytes@ == hex.spec_bytes(),
            bytes@.len() == HEX_DIGITS_2048,
            i <= bytes@.len(),
            forall|j: int| 0 <= j < i ==> #[trigger] is_hex_digit_spec(bytes@[j]),
        decreases bytes@.len() - i,
    {
        if !is_hex_digit(bytes[i]) {
            return false;
        }
        i = i + 1;
    }
    true
}

/// The 64 words, least significant first, of the 2048-bit number that
/// `hex` writes most significant digit first; none unless `hex` is exactly
/// 512 hex digits.
pub fn words_from_be_hex(hex: &str) -> (r: Option<Vec<u32>>)
    ensures
        r is Some <==> valid_hex_2048(hex.spec_bytes()),
        r matches Some(w) ==> w@.len() == WORDS_2048 && forall|i: int|
            0 <= i < WORDS_2048 ==> #[trigger] w@[i] as int == be_hex_word(hex.spec_bytes(), i),
{
    if !is_valid_hex_2048(hex) {
        return None;
    }
    let le = u2048_le_bytes_from_be_hex(hex);
    let mut words: Vec<u32> = Vec::new();
    let mut i: usize = 0;
    while i < WORDS_2048
        invariant
            valid_hex_2048(hex.spec_bytes()),
            le@.len() == 256,
            forall|j: int| 0 <= j < 256 ==> #[trigger] le@[j] as int == be_hex_byte(hex.spec_bytes(), 255 - j),
            i <= WORDS_2048,
            words@.len() == i,
            forall|j: int| 0 <= j < i ==> #[trigger] words@[j] as int == be_hex_word(hex.spec_bytes(), j),
        decreases WORDS_2048 - i,
    {
        let b0: u32 = le[4 * i] as u32;
        let b1: u32 = le[4 * i + 1] as u32;
        let b2: u32 = le[4 * i + 2] as u32;
        let b3: u32 = le[4 * i + 3] as u32;
        let w: u32 = b0 + b1 * 256 + b2 * 65536 + b3 * 16777216;
        assert(le@[4 * i as int] as int == be_hex_byte(hex.spec_bytes(), 255 - 4 * i));
        assert(le@[4 * i + 1] as int == be_hex_byte(hex.spec_bytes(), 254 - 4 * i));
        assert(le@[4 * i + 2] as int == be_hex_byte(hex.spec_bytes(), 253 - 4 * i));
        assert(le@[4 * i + 3] as int == be_hex_byte(hex.spec_bytes(), 252 - 4 * i));
        words.push(w);
        i = i + 1;
    }
    Some(words)
}

/// The 2048-bit number with every bit set, as 64 words.
pub fn all_ones_words() -> (r: Vec<u32>)
    ensures
        r@.len() == WORDS_2048,
        forall|i: int| 0 <= i < WORDS_2048 ==> #[trigger] r@[i] == u32::MAX,
{
    let mut r: Vec<u32> = Vec::new();
    let mut i: usize = 0;
    while i < WORDS_2048
        invariant
            i <= WORDS_2048,
            r@.len() == i,
            forall|j: int| 0 <= j < i ==> #[trigger] r@[j] == u32::MAX,
        decreases WORDS_2048 - i,
    {
        r.push(u32::MAX);
        i = i + 1;
    }
    r
}

/// What the exponentiation engine is given: `base ^ exponent mod modulus`,
/// with the Montgomery helpers `r` and `m_prime`. Numbers are 64 words,
/// least significant first.
pub struct ModExpOperands {
    pub base: Vec<u32>,
    pub exponent: Vec<u32>,
    pub modulus: Vec<u32>,
    pub r: Vec<u32>,
    pub m_prime: u32,
}

/// The words of a number written in hex, as `words_from_be_hex` gives them.
pub open spec fn words_of_hex(w: Seq<u32>, hex: Seq<u8>) -> bool {
    &&& w.len() == WORDS_2048
    &&& forall|i: int| 0 <= i < WORDS_2048 ==> #[trigger] w[i] as int == be_hex_word(hex, i)
}

/// The fixed operands of the timed exponentiation, decoded from
/// `BASE_HEX`, `EXPONENT_HEX` and `MODULUS_HEX`; `r` has every bit set.
pub fn mod_exp_operands() -> (r: Option<ModExpOperands>)
    ensures
        r is Some <==> (valid_hex_2048(BASE_HEX.spec_bytes()) && valid_hex_2048(
            EXPONENT_HEX.spec_bytes(),
        ) && valid_hex_2048(MODULUS_HEX.spec_bytes())),
        r matches Some(ops) ==> {
            &&& words_of_hex(ops.base@, BASE_HEX.spec_bytes())
            &&& words_of_hex(ops.exponent@, EXPONENT_HEX.spec_bytes())
            &&& words_of_hex(ops.modulus@, MODULUS_HEX.spec_bytes())
            &&& ops.r@.len() == WORDS_2048
            &&& forall|i: int| 0 <= i < WORDS_2048 ==> #[trigger] ops.r@[i] == u32::MAX
            &&& ops.m_prime == M_PRIME
        },
{
    let base = match words_from_be_hex(BASE_HEX) {
        Some(w) => w,
        None => return None,
    };
    let exponent = match words_from_be_hex(EXPONENT_HEX) {
        Some(w) => w,
        None => return None,
    };
    let modulus = match words_from_be_hex(MODULUS_HEX) {
        Some(w) => w,
        None => return None,
    };
    Some(ModExpOperands { base, exponent, modulus, r: all_ones_words(), m_prime: M_PRIME })
}

} // verus!
