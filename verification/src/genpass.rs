use vstd::prelude::*;

verus! {

/// An upper-case ASCII letter.
pub open spec fn is_upper_byte(b: u8) -> bool {
    65 <= b && b <= 90
}

/// A lower-case ASCII letter.
pub open spec fn is_lower_byte(b: u8) -> bool {
    97 <= b && b <= 122
}

/// An ASCII decimal digit.
pub open spec fn is_digit_byte(b: u8) -> bool {
    48 <= b && b <= 57
}

/// One of the punctuation characters the generator draws from:
/// `! @ # $ % ^ & *`.
pub open spec fn is_symbol_byte(b: u8) -> bool {
    b == 33 || b == 64 || b == 35 || b == 36 || b == 37 || b == 94 || b == 38 || b == 42
}

/// A byte the password generator may emit: a character from one of the four
/// classes (upper, lower, digit, symbol).
pub open spec fn is_password_byte(b: u8) -> bool {
    is_upper_byte(b) || is_lower_byte(b) || is_digit_byte(b) || is_symbol_byte(b)
}

/// The sequence holds at least one character of each of the four classes.
pub open spec fn has_all_classes(s: Seq<u8>) -> bool {
    &&& exists|i: int| 0 <= i < s.len() && is_upper_byte(#[trigger] s[i])
    &&& exists|i: int| 0 <= i < s.len() && is_lower_byte(#[trigger] s[i])
    &&& exists|i: int| 0 <= i < s.len() && is_digit_byte(#[trigger] s[i])
    &&& exists|i: int| 0 <= i < s.len() && is_symbol_byte(#[trigger] s[i])
}

/// Relies on rand's `OsRng` through `Rng::gen_range`: whatever the operating
/// system's generator returns, the result lies below the bound.
#[verifier::external_body]
fn random_below(bound: usize) -> (r: usize)
    requires
        1 <= bound,
    ensures
        r < bound,
{
    rand::Rng::gen_range(&mut rand::rngs::OsRng, 0..bound)
}

fn random_upper() -> (r: u8)
    ensures
        is_upper_byte(r),
{
    let i = random_below(26);
    65 + (i as u8)
}

fn random_lower() -> (r: u8)
    ensures
        is_lower_byte(r),
{
    let i = random_below(26);
    97 + (i as u8)
}

fn random_digit() -> (r: u8)
    ensures
        is_digit_byte(r),
{
    let i = random_below(10);
    48 + (i as u8)
}

fn random_symbol() -> (r: u8)
    ensures
        is_symbol_byte(r),
{
    let i = random_below(8);
    match i {
        0 => 33,
        1 => 64,
        2 => 35,
        3 => 36,
        4 => 37,
        5 => 94,
        6 => 38,
        _ => 42,
    }
}

fn random_password_byte() -> (r: u8)
    ensures
        is_password_byte(r),
{
    let c = random_below(4);
    match c {
        0 => random_upper(),
        1 => random_lower(),
        2 => random_digit(),
        _ => random_symbol(),
    }
}

/// Every byte of the new vector already stood somewhere in the old one, and
/// every byte of the old vector still stands somewhere in the new one: the
/// vector was reordered, no byte was invented or lost as a value.
fn shuffle(v: &mut Vec<u8>)
    ensures
        final(v)@.len() == old(v)@.len(),
        forall|i: int| 0 <= i < final(v)@.len() ==> old(v)@.contains(#[trigger] final(v)@[i]),
        forall|j: int| 0 <= j < old(v)@.len() ==> final(v)@.contains(#[trigger] old(v)@[j]),
{
    let n = v.len();
    let mut k: usize = 1;
    while k < n
        invariant
            1 <= k,
            n == v@.len(),
            n == old(v)@.len(),
            forall|i: int| 0 <= i < v@.len() ==> old(v)@.contains(#[trigger] v@[i]),
            forall|j: int| 0 <= j < old(v)@.len() ==> v@.contains(#[trigger] old(v)@[j]),
        decreases n - k,
    {
        let j = random_below(k + 1);
        let ghost prev = v@;
        let a = v[k];
        let b = v[j];
        v[k] = b;
        v[j] = a;
        proof {
            assert forall|i: int| 0 <= i < v@.len() implies old(v)@.contains(
                #[trigger] v@[i],
            ) by {
                let src: int = if i == k {
                    j as int
                } else if i == j {
                    k as int
                } else {
                    i
                };
                assert(v@[i] == prev[src]);
                assert(prev.contains(prev[src]));
            }
            assert forall|jj: int| 0 <= jj < old(v)@.len() implies v@.contains(
                #[trigger] old(v)@[jj],
            ) by {
                let w = choose|w: int| 0 <= w < prev.len() && prev[w] == old(v)@[jj];
                let dst: int = if w == k {
                    j as int
                } else if w == j {
                    k as int
                } else {
                    w
                };
                assert(v@[dst] == prev[w]);
            }
        }
        k = k + 1;
    }
}

/// Draw `len` bytes of fresh password material: every byte is a character
/// from the four classes, at least one character of each class is present,
/// and the order is shuffled so the classes do not sit at fixed positions.
pub fn generate_password(len: usize) -> (r: Vec<u8>)
    requires
        4 <= len,
    ensures
        r@.len() == len,
        forall|i: int| 0 <= i < r@.len() ==> is_password_byte(#[trigger] r@[i]),
        has_all_classes(r@),
{
    let mut out: Vec<u8> = Vec::new();
    out.push(random_upper());
    out.push(random_lower());
    out.push(random_digit());
    out.push(random_symbol());
    while out.len() < len
        invariant
            4 <= out@.len() <= len,
            forall|i: int| 0 <= i < out@.len() ==> is_password_byte(#[trigger] out@[i]),
            is_upper_byte(out@[0]),
            is_lower_byte(out@[1]),
            is_digit_byte(out@[2]),
            is_symbol_byte(out@[3]),
        decreases len - out@.len(),
    {
        out.push(random_password_byte());
    }
    proof {
        assert(has_all_classes(out@));
    }
    let ghost before = out@;
    shuffle(&mut out);
    proof {
        assert forall|i: int| 0 <= i < out@.len() implies is_password_byte(
            #[trigger] out@[i],
        ) by {
            let j = choose|j: int| 0 <= j < before.len() && before[j] == out@[i];
        }
        let u = choose|i: int| 0 <= i < before.len() && is_upper_byte(#[trigger] before[i]);
        let l = choose|i: int| 0 <= i < before.len() && is_lower_byte(#[trigger] before[i]);
        let d = choose|i: int| 0 <= i < before.len() && is_digit_byte(#[trigger] before[i]);
        let s = choose|i: int| 0 <= i < before.len() && is_symbol_byte(#[trigger] before[i]);
        assert(out@.contains(before[u]));
        assert(out@.contains(before[l]));
        assert(out@.contains(before[d]));
        assert(out@.contains(before[s]));
    }
    out
}

} // verus!
