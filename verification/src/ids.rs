//! Identifiers: template ids, version ids and request ids are 128-bit
//! values.  The shell draws fresh ones from its random source and hands
//! them in; their canonical text form (32 hex digits in five
//! hyphen-separated groups) is computed and verified here, since scratch
//! directories and template directories are named after ids.

use vstd::prelude::*;
use vstd::arithmetic::div_mod::lemma_div_denominator;
use vstd::string::StrSliceExecFns;
use vstd::string::StringExecFns;
use crate::textutil::push_char;

verus! {

/// 16 to the `k`th power.
pub open spec fn pow16(k: nat) -> int
    decreases k,
{
    if k == 0 {
        1
    } else {
        16 * pow16((k - 1) as nat)
    }
}

pub proof fn lemma_pow16_pos(k: nat)
    ensures
        pow16(k) >= 1,
    decreases k,
{
    if k > 0 {
        lemma_pow16_pos((k - 1) as nat);
    }
}

/// The lower-case hex digit for a value below sixteen.
pub open spec fn hex_digit(d: int) -> char {
    if d == 0 {
        '0'
    } else if d == 1 {
        '1'
    } else if d == 2 {
        '2'
    } else if d == 3 {
        '3'
    } else if d == 4 {
        '4'
    } else if d == 5 {
        '5'
    } else if d == 6 {
        '6'
    } else if d == 7 {
        '7'
    } else if d == 8 {
        '8'
    } else if d == 9 {
        '9'
    } else if d == 10 {
        'a'
    } else if d == 11 {
        'b'
    } else if d == 12 {
        'c'
    } else if d == 13 {
        'd'
    } else if d == 14 {
        'e'
    } else {
        'f'
    }
}

/// Executable mirror of `hex_digit`.
pub fn hex_digit_exec(d: u8) -> (c: char)
    requires
        d < 16,
    ensures
        c == hex_digit(d as int),
{
    if d == 0 {
        '0'
    } else if d == 1 {
        '1'
    } else if d == 2 {
        '2'
    } else if d == 3 {
        '3'
    } else if d == 4 {
        '4'
    } else if d == 5 {
        '5'
    } else if d == 6 {
        '6'
    } else if d == 7 {
        '7'
    } else if d == 8 {
        '8'
    } else if d == 9 {
        '9'
    } else if d == 10 {
        'a'
    } else if d == 11 {
        'b'
    } else if d == 12 {
        'c'
    } else if d == 13 {
        'd'
    } else if d == 14 {
        'e'
    } else {
        'f'
    }
}

/// The last `k` hex digits of `n`, most significant first.
pub open spec fn hex_seq(n: int, k: nat) -> Seq<char>
    decreases k,
{
    if k == 0 {
        Seq::empty()
    } else {
        hex_seq(n / 16, (k - 1) as nat).push(hex_digit(n % 16))
    }
}

pub proof fn lemma_hex_seq_len(n: int, k: nat)
    ensures
        hex_seq(n, k).len() == k,
    decreases k,
{
    if k > 0 {
        lemma_hex_seq_len(n / 16, (k - 1) as nat);
    }
}

/// Digit `j` counted from the least significant end sits at index
/// `k - 1 - j` and reads `(n / 16^j) % 16`.
pub proof fn lemma_hex_seq_index(n: int, k: nat, j: nat)
    requires
        n >= 0,
        j < k,
    ensures
        hex_seq(n, k).len() == k,
        hex_seq(n, k)[k - 1 - j] == hex_digit((n / pow16(j)) % 16),
    decreases k,
{
    lemma_hex_seq_len(n, k);
    if j == 0 {
        assert(n / pow16(0) == n);
    } else {
        lemma_hex_seq_len(n / 16, (k - 1) as nat);
        lemma_hex_seq_index(n / 16, (k - 1) as nat, (j - 1) as nat);
        lemma_pow16_pos((j - 1) as nat);
        lemma_div_denominator(n, 16, pow16((j - 1) as nat));
        assert(pow16(j) == 16 * pow16((j - 1) as nat));
        assert(hex_seq(n, k)[k - 1 - j] == hex_seq(n / 16, (k - 1) as nat)[k - 1 - j]);
    }
}

/// The canonical hyphenated text form of a 128-bit id: its 32 hex digits
/// in groups of 8, 4, 4, 4 and 12.
pub open spec fn uuid_str(n: u128) -> Seq<char> {
    let d = hex_seq(n as int, 32);
    d.subrange(0, 8) + seq!['-'] + d.subrange(8, 12) + seq!['-'] + d.subrange(12, 16) + seq!['-']
        + d.subrange(16, 20) + seq!['-'] + d.subrange(20, 32)
}

/// Formats an id in its canonical hyphenated form.
pub fn uuid_hyphenated(n: u128) -> (r: String)
    ensures
        r@ == uuid_str(n),
        r@.len() == 36,
{
    let mut digits: Vec<char> = Vec::new();
    let mut m: u128 = n;
    let mut k: usize = 0;
    proof {
        assert(n as int / pow16(0) == n as int);
    }
    while k < 32
        invariant
            k <= 32,
            digits@.len() == k,
            m as int == n as int / pow16(k as nat),
            forall|j: int|
                0 <= j < k ==> digits@[j] == hex_digit(
                    (n as int / pow16(j as nat)) % 16,
                ),
        decreases 32 - k,
    {
        let d: u8 = (m % 16) as u8;
        digits.push(hex_digit_exec(d));
        proof {
            lemma_pow16_pos(k as nat);
            lemma_div_denominator(n as int, pow16(k as nat), 16);
            assert(pow16((k + 1) as nat) == 16 * pow16(k as nat));
            assert((n as int / pow16(k as nat)) / 16 == n as int / pow16((k + 1) as nat));
        }
        m = m / 16;
        k = k + 1;
    }
    let mut hs = String::new();
    let mut idx: usize = 0;
    while idx < 32
        invariant
            idx <= 32,
            digits@.len() == 32,
            forall|j: int|
                0 <= j < 32 ==> digits@[j] == hex_digit(
                    (n as int / pow16(j as nat)) % 16,
                ),
            hs@.len() == idx,
            forall|i2: int| 0 <= i2 < idx ==> hs@[i2] == digits@[31 - i2],
        decreases 32 - idx,
    {
        let c = digits[31 - idx];
        push_char(&mut hs, c);
        idx = idx + 1;
    }
    proof {
        assert(hs@ =~= hex_seq(n as int, 32)) by {
            lemma_hex_seq_len(n as int, 32);
            assert forall|i2: int| 0 <= i2 < 32 implies hs@[i2] == hex_seq(n as int, 32)[i2] by {
                lemma_hex_seq_index(n as int, 32, (31 - i2) as nat);
            }
        }
    }
    let mut r = String::new();
    r.append(hs.as_str().substring_char(0, 8));
    push_char(&mut r, '-');
    r.append(hs.as_str().substring_char(8, 12));
    push_char(&mut r, '-');
    r.append(hs.as_str().substring_char(12, 16));
    push_char(&mut r, '-');
    r.append(hs.as_str().substring_char(16, 20));
    push_char(&mut r, '-');
    r.append(hs.as_str().substring_char(20, 32));
    proof {
        assert(r@ =~= uuid_str(n));
    }
    r
}

} // verus!
