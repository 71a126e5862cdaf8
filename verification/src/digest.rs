//! SHA-256 digests and their lower-case hexadecimal rendering.

use vstd::prelude::*;
use sha2::Digest;
use crate::text::push_char;

verus! {

/// The SHA-256 digest of a byte sequence, as computed by the `sha2` crate.
pub uninterp spec fn sha256_spec(data: Seq<u8>) -> Seq<u8>;

/// Calls `<sha2::Sha256 as Digest>::digest` (new, update, finalize in one call).
/// Trusted: the result is the crate's SHA-256 digest of `data`, named
/// `sha256_spec`, and it is 32 bytes long (the output size of `Sha256` is `U32`).
#[verifier::external_body]
fn sha256_digest(data: &[u8]) -> (res: Vec<u8>)
    ensures
        res@ == sha256_spec(data@),
        res@.len() == 32,
{
    sha2::Sha256::digest(data).to_vec()
}

/// The lower-case hexadecimal digit of a value below sixteen.
pub open spec fn hex_digit(n: nat) -> char {
    if n < 10 {
        ((48 + n) as u8) as char
    } else {
        ((87 + n) as u8) as char
    }
}

/// Whether `c` is one of `0-9` or `a-f`.
pub open spec fn is_lower_hex_char(c: char) -> bool {
    ('0' <= c && c <= '9') || ('a' <= c && c <= 'f')
}

/// Two lower-case hex digits per byte, high nibble first (`format!("{:02x}", byte)`).
pub open spec fn hex_lower(bytes: Seq<u8>) -> Seq<char>
    decreases bytes.len(),
{
    if bytes.len() == 0 {
        Seq::empty()
    } else {
        let b = bytes.last();
        hex_lower(bytes.drop_last()) + seq![hex_digit((b / 16) as nat), hex_digit((b % 16) as nat)]
    }
}

/// The hex rendering has two characters per byte, each a lower-case hex digit.
pub proof fn lemma_hex_lower_shape(bytes: Seq<u8>)
    ensures
        hex_lower(bytes).len() == 2 * bytes.len(),
        forall|i: int| 0 <= i < hex_lower(bytes).len() ==> is_lower_hex_char(#[trigger] hex_lower(bytes)[i]),
    decreases bytes.len(),
{
    if bytes.len() > 0 {
        lemma_hex_lower_shape(bytes.drop_last());
        let b = bytes.last();
        assert(is_lower_hex_char(hex_digit((b / 16) as nat)));
        assert(is_lower_hex_char(hex_digit((b % 16) as nat)));
    }
}

/// `hex_digit` spells each value below sixteen as in `0123456789abcdef`.
pub proof fn lemma_hex_digit_table(n: nat)
    requires
        n < 16,
    ensures
        hex_digit(n) == "0123456789abcdef"@[n as int],
{
    reveal_strlit("0123456789abcdef");
    if n == 0 { } else if n == 1 { } else if n == 2 { } else if n == 3 { } else if n == 4 { }
    else if n == 5 { } else if n == 6 { } else if n == 7 { } else if n == 8 { } else if n == 9 { }
    else if n == 10 { } else if n == 11 { } else if n == 12 { } else if n == 13 { } else if n == 14 { }
    else { }
}

/// Byte `k` is spelled by characters `2k` (high nibble) and `2k + 1` (low
/// nibble) of the hex rendering, as `format!("{:02x}", byte)` does.
pub proof fn lemma_hex_lower_digits(bytes: Seq<u8>)
    ensures
        hex_lower(bytes).len() == 2 * bytes.len(),
        forall|k: int| 0 <= k < bytes.len() ==> {
            &&& #[trigger] hex_lower(bytes)[2 * k] == "0123456789abcdef"@[(bytes[k] / 16) as int]
            &&& hex_lower(bytes)[2 * k + 1] == "0123456789abcdef"@[(bytes[k] % 16) as int]
        },
    decreases bytes.len(),
{
    if bytes.len() > 0 {
        let rest = bytes.drop_last();
        lemma_hex_lower_digits(rest);
        let b = bytes.last();
        lemma_hex_digit_table((b / 16) as nat);
        lemma_hex_digit_table((b % 16) as nat);
        assert forall|k: int| 0 <= k < bytes.len() implies {
            &&& #[trigger] hex_lower(bytes)[2 * k] == "0123456789abcdef"@[(bytes[k] / 16) as int]
            &&& hex_lower(bytes)[2 * k + 1] == "0123456789abcdef"@[(bytes[k] % 16) as int]
        } by {
            if k < rest.len() {
                assert(hex_lower(rest)[2 * k] == "0123456789abcdef"@[(rest[k] / 16) as int]);
            }
        }
    }
}

fn hex_digit_of(n: u8) -> (c: char)
    requires
        n < 16,
    ensures
        c == hex_digit(n as nat),
{
    if n < 10 {
        (48u8 + n) as char
    } else {
        (87u8 + n) as char
    }
}

/// Renders bytes as lower-case hex, two digits per byte.
pub fn to_hex_lower(bytes: &[u8]) -> (res: String)
    ensures
        res@ == hex_lower(bytes@),
        res@.len() == 2 * bytes@.len(),
        forall|k: int| 0 <= k < bytes@.len() ==> {
            &&& #[trigger] res@[2 * k] == "0123456789abcdef"@[(bytes@[k] / 16) as int]
            &&& res@[2 * k + 1] == "0123456789abcdef"@[(bytes@[k] % 16) as int]
        },
{
    proof {
        lemma_hex_lower_digits(bytes@);
    }
    let mut res = String::new();
    let n = bytes.len();
    let mut i: usize = 0;
    while i < n
        invariant
            n == bytes@.len(),
            i <= n,
            res@ == hex_lower(bytes@.take(i as int)),
        decreases n - i,
    {
        let b = bytes[i];
        let hi = hex_digit_of(b / 16);
        let lo = hex_digit_of(b % 16);
        push_char(&mut res, hi);
        push_char(&mut res, lo);
        assert(bytes@.take(i as int + 1).drop_last() =~= bytes@.take(i as int));
        assert(res@ =~= hex_lower(bytes@.take(i as int + 1)));
        i = i + 1;
    }
    assert(bytes@.take(n as int) =~= bytes@);
    res
}

/// The lower-case hex rendering of the SHA-256 digest of `data`.
pub fn sha256_hex(data: &[u8]) -> (res: String)
    ensures
        res@ == hex_lower(sha256_spec(data@)),
        res@.len() == 64,
        forall|k: int| 0 <= k < 32 ==> {
            &&& #[trigger] res@[2 * k] == "0123456789abcdef"@[(sha256_spec(data@)[k] / 16) as int]
            &&& res@[2 * k + 1] == "0123456789abcdef"@[(sha256_spec(data@)[k] % 16) as int]
        },
{
    let digest = sha256_digest(data);
    let res = to_hex_lower(digest.as_slice());
    proof {
        lemma_hex_lower_shape(sha256_spec(data@));
    }
    res
}

} // verus!
