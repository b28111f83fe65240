//! Names for directories that no other process picks: a prefix, a dash and
//! sixteen hexadecimal digits taken from random bytes.

use crate::path::join;
use crate::path::joined;
use vstd::prelude::*;
use vstd::string::*;

verus! {

/// The hexadecimal digit for a value below sixteen.
pub open spec fn hex_digit(nibble: u8) -> char {
    "0123456789abcdef"@[nibble as int]
}

/// Two digits for each byte, in order: the low half of the byte first, then
/// the high half.
pub open spec fn hex_suffix(num: Seq<u8>) -> Seq<char>
    decreases num.len(),
{
    if num.len() == 0 {
        Seq::empty()
    } else {
        hex_suffix(num.drop_last()).push(hex_digit(num.last() & 0xf)).push(
            hex_digit((num.last() >> 4) & 0xf),
        )
    }
}

/// The name made of `prefix`, a dash and the digits of `num`.
pub open spec fn unique(prefix: Seq<char>, num: Seq<u8>) -> Seq<char> {
    prefix + seq!['-'] + hex_suffix(num)
}

/// The digits of `num` have twice its length.
pub proof fn lemma_hex_suffix_len(num: Seq<u8>)
    ensures
        hex_suffix(num).len() == 2 * num.len(),
    decreases num.len(),
{
    if num.len() > 0 {
        lemma_hex_suffix_len(num.drop_last());
    }
}

/// The digits tell the halves of a byte apart.
proof fn lemma_hex_digit_injective(a: u8, b: u8)
    requires
        a < 16,
        b < 16,
        hex_digit(a) == hex_digit(b),
    ensures
        a == b,
{
    reveal_strlit("0123456789abcdef");
}

/// Different bytes give different digits: two sequences of the same length
/// with the same digits are the same.
pub proof fn lemma_hex_suffix_injective(a: Seq<u8>, b: Seq<u8>)
    requires
        a.len() == b.len(),
        hex_suffix(a) == hex_suffix(b),
    ensures
        a == b,
    decreases a.len(),
{
    if a.len() > 0 {
        let x = a.last();
        let y = b.last();
        let front_a = hex_suffix(a.drop_last());
        let front_b = hex_suffix(b.drop_last());
        lemma_hex_suffix_len(a.drop_last());
        lemma_hex_suffix_len(b.drop_last());
        let whole_a = hex_suffix(a);
        let whole_b = hex_suffix(b);
        assert(whole_a[whole_a.len() - 1] == hex_digit((x >> 4) & 0xf));
        assert(whole_a[whole_a.len() - 2] == hex_digit(x & 0xf));
        assert(whole_b[whole_b.len() - 1] == hex_digit((y >> 4) & 0xf));
        assert(whole_b[whole_b.len() - 2] == hex_digit(y & 0xf));
        assert(x & 0xf < 16 && (x >> 4) & 0xf < 16 && y & 0xf < 16 && (y >> 4) & 0xf < 16)
            by (bit_vector);
        lemma_hex_digit_injective(x & 0xf, y & 0xf);
        lemma_hex_digit_injective((x >> 4) & 0xf, (y >> 4) & 0xf);
        assert(x == y) by (bit_vector)
            requires
                x & 0xf == y & 0xf,
                (x >> 4) & 0xf == (y >> 4) & 0xf,
        ;
        assert(front_a =~= whole_a.subrange(0, whole_a.len() - 2));
        assert(front_b =~= whole_b.subrange(0, whole_b.len() - 2));
        lemma_hex_suffix_injective(a.drop_last(), b.drop_last());
        assert(a =~= a.drop_last().push(x));
        assert(b =~= b.drop_last().push(y));
    } else {
        assert(a =~= b);
    }
}

/// Two names with the same prefix are the same only where the bytes they
/// were made of are the same: different draws never name one directory.
pub proof fn lemma_unique_names_differ(base: Seq<char>, prefix: Seq<char>, a: Seq<u8>, b: Seq<u8>)
    requires
        a.len() == b.len(),
        a != b,
        prefix.len() > 0 ==> prefix[0] != '/',
    ensures
        joined(base, unique(prefix, a)) != joined(base, unique(prefix, b)),
{
    let lead = prefix + seq!['-'];
    let name_a = unique(prefix, a);
    let name_b = unique(prefix, b);
    lemma_hex_suffix_len(a);
    lemma_hex_suffix_len(b);
    if joined(base, name_a) == joined(base, name_b) {
        assert(name_a[0] == lead[0]);
        assert(name_b[0] == lead[0]);
        assert(lead[0] != '/');
        crate::path::lemma_joined_keeps_base(base, name_a);
        crate::path::lemma_joined_keeps_base(base, name_b);
        assert(name_a == name_b);
        assert(hex_suffix(a) =~= name_a.subrange(lead.len() as int, name_a.len() as int));
        assert(hex_suffix(b) =~= name_b.subrange(lead.len() as int, name_b.len() as int));
        lemma_hex_suffix_injective(a, b);
    }
}

/// `nanorand::tls_rng` and `Rng::rand` on it: eight bytes from the generator
/// of the thread. Nothing is known of them.
#[verifier::external_body]
fn random_bytes() -> (num: [u8; 8]) {
    nanorand::Rng::rand(&mut nanorand::tls::tls_rng())
}

/// The name made of `prefix`, a dash and the digits of `num`.
pub fn unique_name(prefix: &str, num: &[u8; 8]) -> (name: String)
    ensures
        name@ == unique(prefix@, num@),
{
    let table = "0123456789abcdef";
    proof {
        reveal_strlit("0123456789abcdef");
        reveal_strlit("-");
        assert("-"@ =~= seq!['-']);
    }
    let ghost given = prefix@;
    let mut lead = String::from_str(prefix);
    lead.append("-");
    let prefix = lead.as_str();
    let mut name = String::from_str(prefix);
    let mut i: usize = 0;
    while i < 8
        invariant
            i <= 8,
            table@ == "0123456789abcdef"@,
            table@.len() == 16,
            name@ == prefix@ + hex_suffix(num@.take(i as int)),
        decreases 8 - i,
    {
        let byte = num[i];
        let low: u8 = byte & 0xf;
        let high: u8 = (byte >> 4) & 0xf;
        assert(low < 16 && high < 16) by (bit_vector)
            requires
                low == byte & 0xf,
                high == (byte >> 4) & 0xf,
        ;
        let low_at: usize = low as usize;
        let high_at: usize = high as usize;
        let ghost before = name@;
        name.append(table.substring_char(low_at, low_at + 1));
        name.append(table.substring_char(high_at, high_at + 1));
        proof {
            let done = num@.take(i + 1);
            assert(done.drop_last() =~= num@.take(i as int));
            assert(done.last() == byte);
            assert(table@.subrange(low_at as int, low_at + 1) =~= seq![hex_digit(low)]);
            assert(table@.subrange(high_at as int, high_at + 1) =~= seq![hex_digit(high)]);
            assert(name@ =~= prefix@ + hex_suffix(done));
        }
        i += 1;
    }
    proof {
        assert(num@.take(8) =~= num@);
        assert(name@ =~= unique(given, num@));
    }
    name
}

/// A path under `base` whose last component is `prefix`, a dash and sixteen
/// hexadecimal digits. Which digits is left to chance: a caller that finds
/// the path taken asks again.
pub fn unique_dir(base: &str, prefix: &str) -> (path: String)
    ensures
        exists|num: Seq<u8>| num.len() == 8 && path@ == joined(base@, unique(prefix@, num)),
{
    let num = random_bytes();
    let name = unique_name(prefix, &num);
    let path = join(base, name.as_str());
    proof {
        assert(num@.len() == 8 && path@ == joined(base@, unique(prefix@, num@)));
    }
    path
}

} // verus!
