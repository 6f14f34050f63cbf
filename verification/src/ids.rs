//! Identifier text: the canonical string form of store-assigned
//! identifiers, its validation, and its generation from a counter.
//!
//! An identifier is rendered as the canonical hyphenated form of a
//! 128-bit value: 32 lower-case hexadecimal digits in five groups of
//! 8, 4, 4, 4 and 12, separated by `-`. The store derives fresh
//! identifiers from a strictly increasing counter; rendering is
//! injective, so no identifier is ever assigned twice.

use vstd::prelude::*;
use vstd::string::*;
use vstd::arithmetic::div_mod::{
    lemma_basic_div, lemma_div_basics, lemma_div_denominator, lemma_div_multiples_vanish,
    lemma_fundamental_div_mod,
};

verus! {

/// 16 raised to the power `k`.
pub open spec fn pow16(k: nat) -> int
    decreases k,
{
    if k == 0 {
        1
    } else {
        16 * pow16((k - 1) as nat)
    }
}

pub proof fn lemma_pow16_pos(k: nat)
    ensures
        pow16(k) >= 1,
    decreases k,
{
    if k > 0 {
        lemma_pow16_pos((k - 1) as nat);
    }
}

/// Hexadecimal digit `j` (counted from the least significant) of `n`.
pub open spec fn nibble(n: u64, j: int) -> int {
    (n as int / pow16(j as nat)) % 16
}

/// The lower-case hexadecimal digit character for a value below 16.
pub open spec fn hex_char(d: int) -> char {
    if d == 0 {
        '0'
    } else if d == 1 {
        '1'
    } else if d == 2 {
        '2'
    } else if d == 3 {
        '3'
    } else if d == 4 {
        '4'
    } else if d == 5 {
        '5'
    } else if d == 6 {
        '6'
    } else if d == 7 {
        '7'
    } else if d == 8 {
        '8'
    } else if d == 9 {
        '9'
    } else if d == 10 {
        'a'
    } else if d == 11 {
        'b'
    } else if d == 12 {
        'c'
    } else if d == 13 {
        'd'
    } else if d == 14 {
        'e'
    } else {
        'f'
    }
}

/// A hexadecimal digit character, either case.
pub open spec fn is_hex_digit(c: char) -> bool {
    ||| '0' as int <= c as int <= '9' as int
    ||| 'a' as int <= c as int <= 'f' as int
    ||| 'A' as int <= c as int <= 'F' as int
}

/// The value of a lower-case hexadecimal digit character, -1 otherwise.
pub open spec fn hex_char_val(c: char) -> int {
    if '0' as int <= c as int <= '9' as int {
        c as int - '0' as int
    } else if 'a' as int <= c as int <= 'f' as int {
        c as int - 'a' as int + 10
    } else {
        -1
    }
}

pub proof fn lemma_hex_char_val(d: int)
    requires
        0 <= d < 16,
    ensures
        hex_char_val(hex_char(d)) == d,
        is_hex_digit(hex_char(d)),
{
}

/// Positions of the four hyphens in the canonical form.
pub open spec fn is_hyphen_pos(i: int) -> bool {
    i == 8 || i == 13 || i == 18 || i == 23
}

/// The index among the 32 digits of the character at position `i`.
pub open spec fn digit_index(i: int) -> int {
    if i < 8 {
        i
    } else if i < 13 {
        i - 1
    } else if i < 18 {
        i - 2
    } else if i < 23 {
        i - 3
    } else {
        i - 4
    }
}

/// Character at position `i` of the identifier text for counter `n`.
/// The high 16 digits are zero: the counter occupies the low 64 bits.
pub open spec fn uuid_char(n: u64, i: int) -> char {
    if is_hyphen_pos(i) {
        '-'
    } else if digit_index(i) < 16 {
        '0'
    } else {
        hex_char(nibble(n, 31 - digit_index(i)))
    }
}

/// The canonical identifier text for counter value `n`.
pub open spec fn uuid_text(n: u64) -> Seq<char> {
    Seq::new(36, |i: int| uuid_char(n, i))
}

/// The character at position `i` of `s` fits the canonical form:
/// a hyphen at the four hyphen positions, a hexadecimal digit elsewhere.
pub open spec fn uuid_char_ok(s: Seq<char>, i: int) -> bool {
    if is_hyphen_pos(i) {
        s[i] == '-'
    } else {
        is_hex_digit(s[i])
    }
}

/// A syntactically valid identifier: 36 characters, hyphens at
/// positions 8, 13, 18 and 23, hexadecimal digits everywhere else.
pub open spec fn is_uuid_text(s: Seq<char>) -> bool {
    &&& s.len() == 36
    &&& forall|i: int| 0 <= i < 36 ==> #[trigger] uuid_char_ok(s, i)
}

/// The 16 hexadecimal digits of `n`, most significant first.
pub open spec fn hex16(n: u64) -> Seq<char> {
    Seq::new(16, |i: int| hex_char(nibble(n, 15 - i)))
}

/// Is `c` a hexadecimal digit character?
fn is_hex_digit_exec(c: char) -> (r: bool)
    ensures
        r == is_hex_digit(c),
{
    let v: u32 = c as u32;
    (48 <= v && v <= 57) || (97 <= v && v <= 102) || (65 <= v && v <= 70)
}

/// Check that a string is a syntactically valid identifier.
pub fn validate_uuid(s: &str) -> (r: bool)
    ensures
        r == is_uuid_text(s@),
{
    let len: usize = s.unicode_len();
    if len != 36 {
        return false;
    }
    let mut i: usize = 0;
    while i < 36
        invariant
            s@.len() == 36,
            0 <= i <= 36,
            forall|k: int| 0 <= k < i ==> #[trigger] uuid_char_ok(s@, k),
        decreases 36 - i,
    {
        let c: char = s.get_char(i);
        if i == 8 || i == 13 || i == 18 || i == 23 {
            if c != '-' {
                assert(!uuid_char_ok(s@, i as int));
                return false;
            }
        } else {
            if !is_hex_digit_exec(c) {
                assert(!uuid_char_ok(s@, i as int));
                return false;
            }
        }
        assert(uuid_char_ok(s@, i as int));
        i += 1;
    }
    true
}

/// One lower-case hexadecimal digit as a string slice.
fn hex_digit_str(d: u8) -> (r: &'static str)
    requires
        d < 16,
    ensures
        r@.len() == 1,
        r@[0] == hex_char(d as int),
{
    match d {
        0 => {
            proof {
                reveal_strlit("0");
            }
            "0"
        },
        1 => {
            proof {
                reveal_strlit("1");
            }
            "1"
        },
        2 => {
            proof {
                reveal_strlit("2");
            }
            "2"
        },
        3 => {
            proof {
                reveal_strlit("3");
            }
            "3"
        },
        4 => {
            proof {
                reveal_strlit("4");
            }
            "4"
        },
        5 => {
            proof {
                reveal_strlit("5");
            }
            "5"
        },
        6 => {
            proof {
                reveal_strlit("6");
            }
            "6"
        },
        7 => {
            proof {
                reveal_strlit("7");
            }
            "7"
        },
        8 => {
            proof {
                reveal_strlit("8");
            }
            "8"
        },
        9 => {
            proof {
                reveal_strlit("9");
            }
            "9"
        },
        10 => {
            proof {
                reveal_strlit("a");
            }
            "a"
        },
        11 => {
            proof {
                reveal_strlit("b");
            }
            "b"
        },
        12 => {
            proof {
                reveal_strlit("c");
            }
            "c"
        },
        13 => {
            proof {
                reveal_strlit("d");
            }
            "d"
        },
        14 => {
            proof {
                reveal_strlit("e");
            }
            "e"
        },
        _ => {
            proof {
                reveal_strlit("f");
            }
            "f"
        },
    }
}

/// Append one hexadecimal digit character to `s`.
fn push_hex(s: &mut String, d: u8)
    requires
        d < 16,
    ensures
        final(s)@ == old(s)@.push(hex_char(d as int)),
{
    let t: &'static str = hex_digit_str(d);
    s.append(t);
    assert(s@ =~= old(s)@.push(hex_char(d as int)));
}

/// `16^15`, the weight of the most significant of 16 digits.
fn pow16_top() -> (r: u64)
    ensures
        r as int == pow16(15),
{
    proof {
        reveal_with_fuel(pow16, 16);
    }
    0x1000_0000_0000_0000
}

/// The 16 hexadecimal digits of `n`, most significant first.
pub fn hex16_string(n: u64) -> (r: String)
    ensures
        r@ == hex16(n),
        r@.len() == 16,
{
    let mut r: String = String::new();
    let mut p: u64 = pow16_top();
    let mut i: usize = 0;
    while i < 16
        invariant
            0 <= i <= 16,
            i < 16 ==> p as int == pow16((15 - i) as nat),
            r@.len() == i,
            forall|k: int| 0 <= k < i ==> r@[k] == hex_char(nibble(n, 15 - k)),
        decreases 16 - i,
    {
        proof {
            lemma_pow16_pos((15 - i) as nat);
        }
        let d: u64 = (n / p) % 16;
        push_hex(&mut r, d as u8);
        proof {
            if i < 15 {
                assert(pow16((15 - i) as nat) == 16 * pow16((14 - i) as nat));
                lemma_div_multiples_vanish(pow16((14 - i) as nat), 16);
            }
        }
        p = p / 16;
        i += 1;
    }
    assert(r@ =~= hex16(n));
    r
}

/// The canonical identifier text for counter value `n`.
pub fn uuid_string(n: u64) -> (r: String)
    ensures
        r@ == uuid_text(n),
{
    let mut r: String = String::from_str("00000000-0000-0000-");
    proof {
        reveal_strlit("00000000-0000-0000-");
    }
    let mut p: u64 = pow16_top();
    let mut i: usize = 0;
    while i < 4
        invariant
            0 <= i <= 4,
            p as int == pow16((15 - i) as nat),
            r@.len() == 19 + i,
            forall|k: int| 0 <= k < 19 + i ==> r@[k] == uuid_char(n, k),
        decreases 4 - i,
    {
        proof {
            lemma_pow16_pos((15 - i) as nat);
        }
        let d: u64 = (n / p) % 16;
        push_hex(&mut r, d as u8);
        proof {
            assert(pow16((15 - i) as nat) == 16 * pow16((14 - i) as nat));
            lemma_div_multiples_vanish(pow16((14 - i) as nat), 16);
        }
        p = p / 16;
        i += 1;
    }
    r.append("-");
    proof {
        reveal_strlit("-");
    }
    let mut j: usize = 0;
    while j < 12
        invariant
            0 <= j <= 12,
            j < 12 ==> p as int == pow16((11 - j) as nat),
            r@.len() == 24 + j,
            forall|k: int| 0 <= k < 24 + j ==> r@[k] == uuid_char(n, k),
        decreases 12 - j,
    {
        proof {
            lemma_pow16_pos((11 - j) as nat);
        }
        let d: u64 = (n / p) % 16;
        push_hex(&mut r, d as u8);
        proof {
            if j < 11 {
                assert(pow16((11 - j) as nat) == 16 * pow16((10 - j) as nat));
                lemma_div_multiples_vanish(pow16((10 - j) as nat), 16);
            }
        }
        p = p / 16;
        j += 1;
    }
    assert(r@ =~= uuid_text(n));
    r
}

/// Every generated identifier text is syntactically valid.
pub proof fn lemma_uuid_text_valid(n: u64)
    ensures
        is_uuid_text(uuid_text(n)),
{
    assert forall|i: int| 0 <= i < 36 implies #[trigger] uuid_char_ok(uuid_text(n), i) by {
        if !is_hyphen_pos(i) && digit_index(i) >= 16 {
            lemma_hex_char_val(nibble(n, 31 - digit_index(i)));
        }
    }
}

/// Distinct counters yield distinct identifier texts, because the
/// digits of the text determine the counter.
pub proof fn lemma_uuid_text_injective(a: u64, b: u64)
    requires
        uuid_text(a) == uuid_text(b),
    ensures
        a == b,
{
    assert forall|j: int| 0 <= j < 16 implies nibble(a, j) == nibble(b, j) by {
        let pos: int = if j <= 11 {
            35 - j
        } else {
            34 - j
        };
        assert(uuid_text(a)[pos] == uuid_char(a, pos));
        assert(uuid_text(b)[pos] == uuid_char(b, pos));
        assert(uuid_text(a)[pos] == uuid_text(b)[pos]);
        assert(uuid_char(a, pos) == hex_char(nibble(a, j)));
        assert(uuid_char(b, pos) == hex_char(nibble(b, j)));
        lemma_pow16_pos(j as nat);
        assert(0 <= nibble(a, j) < 16);
        assert(0 <= nibble(b, j) < 16);
        lemma_hex_char_val(nibble(a, j));
        lemma_hex_char_val(nibble(b, j));
        assert(hex_char_val(hex_char(nibble(a, j))) == hex_char_val(hex_char(nibble(b, j))));
    }
    lemma_nibbles_determine(a, b, 0);
    lemma_div_basics(a as int);
    lemma_div_basics(b as int);
}

/// If all digits of `a` and `b` from position `k` up agree, then the
/// quotients of `a` and `b` by `16^k` agree.
proof fn lemma_nibbles_determine(a: u64, b: u64, k: nat)
    requires
        k <= 16,
        forall|j: int| k <= j < 16 ==> nibble(a, j) == nibble(b, j),
    ensures
        a as int / pow16(k) == b as int / pow16(k),
    decreases 16 - k,
{
    if k == 16 {
        assert(pow16(16) > u64::MAX) by {
            reveal_with_fuel(pow16, 17);
        }
        lemma_basic_div(a as int, pow16(16));
        lemma_basic_div(b as int, pow16(16));
    } else {
        lemma_nibbles_determine(a, b, k + 1);
        lemma_pow16_pos(k);
        let pa: int = a as int / pow16(k);
        let pb: int = b as int / pow16(k);
        lemma_div_denominator(a as int, pow16(k), 16);
        lemma_div_denominator(b as int, pow16(k), 16);
        assert(pow16(k + 1) == 16 * pow16(k));
        assert(pa / 16 == a as int / pow16(k + 1));
        assert(pb / 16 == b as int / pow16(k + 1));
        lemma_fundamental_div_mod(pa, 16);
        lemma_fundamental_div_mod(pb, 16);
        assert(nibble(a, k as int) == pa % 16);
        assert(nibble(b, k as int) == pb % 16);
    }
}

} // verus!
