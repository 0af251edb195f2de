//! Register codec: raw 16-bit register words to presentable values.
//!
//! A pair of registers carries one IEEE-754 single-precision float: the
//! first word holds the upper 16 bits of the 32-bit pattern, the second the
//! lower 16 bits. This module computes that 32-bit pattern; reinterpreting
//! the bits as a float is left to the caller (`f32::from_bits`), since the
//! pattern itself is the whole decoding decision. A raw word is rendered in
//! hexadecimal as `0x` followed by four uppercase digits.

use vstd::prelude::*;

verus! {

/// The 32-bit pattern built from a register pair: `high` as the upper
/// 16 bits, `low` as the lower 16 bits.
pub open spec fn float32_bits_of(high: u16, low: u16) -> u32 {
    (high * 0x10000 + low) as u32
}

/// Concatenate a register pair into the bit pattern of a 32-bit float.
///
/// The caller obtains the float itself with `f32::from_bits`; the bits are
/// a pure function of the two words, so decoding is deterministic.
pub fn float32_bits(high: u16, low: u16) -> (r: u32)
    ensures
        r == float32_bits_of(high, low),
{
    (high as u32) * 0x10000 + (low as u32)
}

/// Decoding a register pair is a pure function of the two words: any two
/// results obtained from the same pair are bit-identical.
pub proof fn lemma_float32_bits_deterministic(high: u16, low: u16, r1: u32, r2: u32)
    requires
        r1 == float32_bits_of(high, low),
        r2 == float32_bits_of(high, low),
    ensures
        r1 == r2,
{
}

/// The float bit patterns decoded from a word sequence, pairwise from the
/// left: element `i` comes from words `2*i` and `2*i + 1`. An odd trailing
/// word contributes nothing.
pub open spec fn decoded_bits_of(words: Seq<u16>) -> Seq<u32> {
    Seq::new(words.len() / 2, |i: int| float32_bits_of(words[2 * i], words[2 * i + 1]))
}

/// Decode a word sequence pairwise into float bit patterns, left to right,
/// starting at index 0; an odd-length input silently drops its last word.
pub fn float32_bits_sequence(words: &Vec<u16>) -> (r: Vec<u32>)
    ensures
        r@ == decoded_bits_of(words@),
{
    let mut out: Vec<u32> = Vec::new();
    let pairs = words.len() / 2;
    let mut i: usize = 0;
    while i < pairs
        invariant
            pairs == words@.len() / 2,
            words@.len() <= usize::MAX,
            i <= pairs,
            out@ == decoded_bits_of(words@).take(i as int),
        decreases pairs - i,
    {
        proof {
            assert(2 * (i as int) + 1 < words@.len());
        }
        out.push(float32_bits(words[2 * i], words[2 * i + 1]));
        proof {
            assert(out@ =~= decoded_bits_of(words@).take(i + 1));
        }
        i = i + 1;
    }
    proof {
        assert(out@ =~= decoded_bits_of(words@));
    }
    out
}

/// Pairwise decoding consumes exactly the even prefix: an empty input
/// yields nothing, and an odd-length input yields one float per complete
/// pair, the final unpaired word discarded.
pub proof fn lemma_decoded_bits_len(words: Seq<u16>)
    ensures
        words.len() == 0 ==> decoded_bits_of(words).len() == 0,
        words.len() % 2 == 1 ==> decoded_bits_of(words).len() == (words.len() - 1) / 2,
        words.len() % 2 == 1 ==> decoded_bits_of(words) == decoded_bits_of(words.drop_last()),
        decoded_bits_of(words).len() == words.len() / 2,
{
    if words.len() % 2 == 1 {
        assert(decoded_bits_of(words) =~= decoded_bits_of(words.drop_last()));
    }
}

/// The uppercase hexadecimal digit for a value below 16 (other values map
/// arbitrarily to '0').
pub open spec fn hex_digit_char_of(d: int) -> char {
    if d == 1 {
        '1'
    } else if d == 2 {
        '2'
    } else if d == 3 {
        '3'
    } else if d == 4 {
        '4'
    } else if d == 5 {
        '5'
    } else if d == 6 {
        '6'
    } else if d == 7 {
        '7'
    } else if d == 8 {
        '8'
    } else if d == 9 {
        '9'
    } else if d == 10 {
        'A'
    } else if d == 11 {
        'B'
    } else if d == 12 {
        'C'
    } else if d == 13 {
        'D'
    } else if d == 14 {
        'E'
    } else if d == 15 {
        'F'
    } else {
        '0'
    }
}

/// The hexadecimal rendering of a raw word: `0x` then four uppercase
/// digits, zero-padded.
pub open spec fn hex_render_of(v: u16) -> Seq<char> {
    seq![
        '0',
        'x',
        hex_digit_char_of(v as int / 0x1000),
        hex_digit_char_of((v as int / 0x100) % 16),
        hex_digit_char_of((v as int / 0x10) % 16),
        hex_digit_char_of(v as int % 16),
    ]
}

pub(crate) fn hex_digit_str(d: u16) -> (r: &'static str)
    requires
        d < 16,
    ensures
        r@ =~= seq![hex_digit_char_of(d as int)],
{
    if d == 1 {
        proof {
            reveal_strlit("1");
        }
        "1"
    } else if d == 2 {
        proof {
            reveal_strlit("2");
        }
        "2"
    } else if d == 3 {
        proof {
            reveal_strlit("3");
        }
        "3"
    } else if d == 4 {
        proof {
            reveal_strlit("4");
        }
        "4"
    } else if d == 5 {
        proof {
            reveal_strlit("5");
        }
        "5"
    } else if d == 6 {
        proof {
            reveal_strlit("6");
        }
        "6"
    } else if d == 7 {
        proof {
            reveal_strlit("7");
        }
        "7"
    } else if d == 8 {
        proof {
            reveal_strlit("8");
        }
        "8"
    } else if d == 9 {
        proof {
            reveal_strlit("9");
        }
        "9"
    } else if d == 10 {
        proof {
            reveal_strlit("A");
        }
        "A"
    } else if d == 11 {
        proof {
            reveal_strlit("B");
        }
        "B"
    } else if d == 12 {
        proof {
            reveal_strlit("C");
        }
        "C"
    } else if d == 13 {
        proof {
            reveal_strlit("D");
        }
        "D"
    } else if d == 14 {
        proof {
            reveal_strlit("E");
        }
        "E"
    } else if d == 15 {
        proof {
            reveal_strlit("F");
        }
        "F"
    } else {
        proof {
            reveal_strlit("0");
        }
        "0"
    }
}

/// Render a raw word as `0x` followed by its four uppercase hexadecimal
/// digits.
pub fn hex_render(v: u16) -> (r: String)
    ensures
        r@ == hex_render_of(v),
{
    let mut s = String::new();
    proof {
        reveal_strlit("0x");
    }
    s.append("0x");
    s.append(hex_digit_str(v / 0x1000));
    s.append(hex_digit_str((v / 0x100) % 16));
    s.append(hex_digit_str((v / 0x10) % 16));
    s.append(hex_digit_str(v % 16));
    proof {
        assert(s@ =~= hex_render_of(v));
    }
    s
}

} // verus!
