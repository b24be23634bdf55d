//! The account data that the scenarios send: fresh random addresses and an
//! address over the API's length bound.
use vstd::prelude::*;
use vstd::string::*;

verus! {

/// Relies on `rand::random`: a value drawn from the thread-local generator;
/// nothing is known of which.
pub assume_specification<T>[ rand::random::<T> ]() -> (r: T)
    where
        rand::distributions::Standard: rand::distributions::Distribution<T>,
;

/// The lower-case hexadecimal digit of `d`.
pub open spec fn hex_char(d: nat) -> char {
    if d < 10 {
        ((d + '0' as nat) as u8) as char
    } else {
        ((d - 10 + 'a' as nat) as u8) as char
    }
}

/// The last `width` hexadecimal digits of `n`, zero-padded.
pub open spec fn hex_fixed(n: nat, width: nat) -> Seq<char>
    decreases width,
{
    if width == 0 {
        Seq::empty()
    } else {
        hex_fixed(n / 16, (width - 1) as nat).push(hex_char(n % 16))
    }
}

/// The test address for the number `n`: `test+` and `n` in eight
/// hexadecimal digits, at `example.com`.
pub open spec fn test_email_of(n: u32) -> Seq<char> {
    "test+"@ + hex_fixed(n as nat, 8) + "@example.com"@
}

fn hex_str(d: u32) -> (r: &'static str)
    requires
        d < 16,
    ensures
        r@ == seq![hex_char(d as nat)],
{
    proof {
        reveal_strlit("0");
        reveal_strlit("1");
        reveal_strlit("2");
        reveal_strlit("3");
        reveal_strlit("4");
        reveal_strlit("5");
        reveal_strlit("6");
        reveal_strlit("7");
        reveal_strlit("8");
        reveal_strlit("9");
        reveal_strlit("a");
        reveal_strlit("b");
        reveal_strlit("c");
        reveal_strlit("d");
        reveal_strlit("e");
        reveal_strlit("f");
    }
    match d {
        0 => "0",
        1 => "1",
        2 => "2",
        3 => "3",
        4 => "4",
        5 => "5",
        6 => "6",
        7 => "7",
        8 => "8",
        9 => "9",
        10 => "a",
        11 => "b",
        12 => "c",
        13 => "d",
        14 => "e",
        _ => "f",
    }
}

fn hex_fixed_text(n: u32, width: u32) -> (r: String)
    ensures
        r@ == hex_fixed(n as nat, width as nat),
    decreases width,
{
    if width == 0 {
        String::new()
    } else {
        let r = hex_fixed_text(n / 16, width - 1).concat(hex_str(n % 16));
        proof {
            assert(r@ =~= hex_fixed(n as nat, width as nat));
        }
        r
    }
}

/// The test address for the number `n`.
pub fn test_email(n: u32) -> (r: String)
    ensures
        r@ == test_email_of(n),
{
    String::from_str("test+").concat(hex_fixed_text(n, 8).as_str()).concat("@example.com")
}

/// A test address for a random number, so that each run registers new accounts.
pub fn random_test_email() -> (r: String)
    ensures
        exists|n: u32| r@ == #[trigger] test_email_of(n),
{
    let n = rand::random::<u32>();
    test_email(n)
}

/// `s` repeated `k` times.
pub open spec fn repeat(s: Seq<char>, k: nat) -> Seq<char>
    decreases k,
{
    if k == 0 {
        Seq::empty()
    } else {
        repeat(s, (k - 1) as nat) + s
    }
}

/// An address of 166 characters, over the 150 that the API accepts:
/// fourteen times `01234567890`, at `example.com`.
pub fn long_email() -> (r: String)
    ensures
        r@ == repeat("01234567890"@, 14) + "@example.com"@,
        r@.len() == 166,
{
    proof {
        reveal_strlit("01234567890");
        reveal_strlit("@example.com");
    }
    let mut r = String::new();
    let mut i: u32 = 0;
    while i < 14
        invariant
            i <= 14,
            r@ == repeat("01234567890"@, i as nat),
            r@.len() == 11 * i,
            "01234567890"@.len() == 11,
        decreases 14 - i,
    {
        r = r.concat("01234567890");
        i = i + 1;
    }
    r.concat("@example.com")
}

} // verus!
