use vstd::prelude::*;

verus! {

/// The lowercase hexadecimal digit of a value below sixteen.
pub open spec fn hex_char(d: nat) -> char {
    if d < 10 {
        (('0' as u8) + d) as char
    } else {
        (('a' as u8) + (d - 10)) as char
    }
}

/// The last `n` hexadecimal digits of `v`, most significant first.
pub open spec fn hex_digits(v: nat, n: nat) -> Seq<char>
    decreases n,
{
    if n == 0 {
        Seq::empty()
    } else {
        hex_digits(v / 16, (n - 1) as nat).push(hex_char(v % 16))
    }
}

/// The hyphenated text of a 128-bit identifier: 32 lowercase hexadecimal
/// digits in groups of 8, 4, 4, 4 and 12, separated by `-`.
pub open spec fn hyphenated(u: u128) -> Seq<char> {
    let s = hex_digits(u as nat, 32);
    s.subrange(0, 8) + seq!['-'] + s.subrange(8, 12) + seq!['-'] + s.subrange(12, 16) + seq!['-']
        + s.subrange(16, 20) + seq!['-'] + s.subrange(20, 32)
}

/// A random identifier of version 4 and of the RFC 4122 variant: the version
/// nibble holds 4 and the two top bits of the variant field hold `10`.
pub open spec fn is_random_v4(u: u128) -> bool {
    (u >> 76u128) & 0xfu128 == 4 && (u >> 62u128) & 0x3u128 == 2
}

/// Relies on `uuid::Uuid::new_v4` and `Uuid::as_u128`: a random identifier whose
/// version and variant bits are set as for version 4.
#[verifier::external_body]
fn random_v4() -> (r: u128)
    ensures
        is_random_v4(r),
{
    uuid::Uuid::new_v4().as_u128()
}

/// Relies on `uuid::Uuid::from_u128` and the `Display` impl of `Uuid`: the
/// lowercase hyphenated text of the identifier.
#[verifier::external_body]
fn uuid_text(u: u128) -> (r: String)
    ensures
        r@ == hyphenated(u),
{
    uuid::Uuid::from_u128(u).to_string()
}

/// The hyphenated text of some random version 4 identifier.
pub open spec fn is_session_id(s: Seq<char>) -> bool {
    exists|u: u128| is_random_v4(u) && s == hyphenated(u)
}

pub proof fn lemma_hex_digits_len(v: nat, n: nat)
    ensures
        hex_digits(v, n).len() == n,
    decreases n,
{
    if n > 0 {
        lemma_hex_digits_len(v / 16, (n - 1) as nat);
    }
}

/// A session identifier is always 36 characters long.
pub proof fn lemma_hyphenated_len(u: u128)
    ensures
        hyphenated(u).len() == 36,
        hyphenated(u)[8] == '-',
        hyphenated(u)[13] == '-',
        hyphenated(u)[18] == '-',
        hyphenated(u)[23] == '-',
{
    lemma_hex_digits_len(u as nat, 32);
}

/// Mints a fresh session identifier: the hyphenated text of a random
/// version 4 identifier.
pub fn session_id() -> (r: String)
    ensures
        is_session_id(r@),
        r@.len() == 36,
{
    let u = random_v4();
    let r = uuid_text(u);
    proof {
        lemma_hyphenated_len(u);
    }
    r
}

} // verus!
