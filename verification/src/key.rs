//! Keys of the correction grid as OSTN02 tables are published: the
//! kilometre indices of a grid point in lower-case hexadecimal, northing
//! first. A shift table is filled by asking such a table for each key.

use vstd::prelude::*;
use vstd::string::StringExecFns;

verus! {

/// The lower-case hexadecimal digit of a value below sixteen.
pub open spec fn hex_char(d: nat) -> char
    recommends
        d < 16,
{
    if d == 0 {
        '0'
    } else if d == 1 {
        '1'
    } else if d == 2 {
        '2'
    } else if d == 3 {
        '3'
    } else if d == 4 {
        '4'
    } else if d == 5 {
        '5'
    } else if d == 6 {
        '6'
    } else if d == 7 {
        '7'
    } else if d == 8 {
        '8'
    } else if d == 9 {
        '9'
    } else if d == 10 {
        'a'
    } else if d == 11 {
        'b'
    } else if d == 12 {
        'c'
    } else if d == 13 {
        'd'
    } else if d == 14 {
        'e'
    } else {
        'f'
    }
}

/// The hexadecimal digits of `v`, most significant first, without padding.
pub open spec fn hex_digits(v: nat) -> Seq<char>
    decreases v,
{
    if v < 16 {
        seq![hex_char(v)]
    } else {
        hex_digits(v / 16).push(hex_char(v % 16))
    }
}

/// The hexadecimal digits of `v`, padded with zeros on the left to at least
/// three places.
pub open spec fn hex_padded(v: nat) -> Seq<char> {
    if v < 0x10 {
        seq!['0', '0'] + hex_digits(v)
    } else if v < 0x100 {
        seq!['0'] + hex_digits(v)
    } else {
        hex_digits(v)
    }
}

/// The 32-bit two's complement pattern of a signed index, as hexadecimal
/// notation shows it.
pub open spec fn bit_pattern(i: int) -> nat {
    if i >= 0 {
        i as nat
    } else {
        (i + 0x1_0000_0000) as nat
    }
}

/// The key of the cell whose south-west corner has the given kilometre
/// indices: the padded northing index followed by the padded easting index.
pub open spec fn cell_key(easting_index: int, northing_index: int) -> Seq<char> {
    hex_padded(bit_pattern(northing_index)) + hex_padded(bit_pattern(easting_index))
}

/// An index between 0 and 4095 has exactly three digits, so the keys of
/// such cells have six.
pub proof fn lemma_key_length(easting_index: int, northing_index: int)
    requires
        0 <= easting_index < 0x1000,
        0 <= northing_index < 0x1000,
    ensures
        cell_key(easting_index, northing_index).len() == 6,
{
    lemma_padded_length(bit_pattern(easting_index));
    lemma_padded_length(bit_pattern(northing_index));
}

proof fn lemma_padded_length(v: nat)
    requires
        v < 0x1000,
    ensures
        hex_padded(v).len() == 3,
{
    reveal_with_fuel(hex_digits, 3);
}

fn hex_digit(d: u32) -> (s: &'static str)
    requires
        d < 16,
    ensures
        s@ == seq![hex_char(d as nat)],
{
    proof {
        reveal_strlit("0");
        reveal_strlit("1");
        reveal_strlit("2");
        reveal_strlit("3");
        reveal_strlit("4");
        reveal_strlit("5");
        reveal_strlit("6");
        reveal_strlit("7");
        reveal_strlit("8");
        reveal_strlit("9");
        reveal_strlit("a");
        reveal_strlit("b");
        reveal_strlit("c");
        reveal_strlit("d");
        reveal_strlit("e");
        reveal_strlit("f");
    }
    let s = if d == 0 {
        "0"
    } else if d == 1 {
        "1"
    } else if d == 2 {
        "2"
    } else if d == 3 {
        "3"
    } else if d == 4 {
        "4"
    } else if d == 5 {
        "5"
    } else if d == 6 {
        "6"
    } else if d == 7 {
        "7"
    } else if d == 8 {
        "8"
    } else if d == 9 {
        "9"
    } else if d == 10 {
        "a"
    } else if d == 11 {
        "b"
    } else if d == 12 {
        "c"
    } else if d == 13 {
        "d"
    } else if d == 14 {
        "e"
    } else {
        "f"
    };
    assert(s@ =~= seq![hex_char(d as nat)]);
    s
}

fn append_hex(text: String, v: u32) -> (out: String)
    ensures
        out@ == text@ + hex_digits(v as nat),
    decreases v,
{
    if v < 16 {
        text.concat(hex_digit(v))
    } else {
        let head = append_hex(text, v / 16);
        let out = head.concat(hex_digit(v % 16));
        assert(out@ =~= text@ + hex_digits(v as nat));
        out
    }
}

fn append_padded(text: String, index: i32) -> (out: String)
    ensures
        out@ == text@ + hex_padded(bit_pattern(index as int)),
{
    let v: u32 = if index >= 0 {
        index as u32
    } else {
        (index + i32::MAX + 1) as u32 + 0x8000_0000
    };
    proof {
        reveal_strlit("00");
        reveal_strlit("0");
    }
    let padded = if v < 0x10 {
        text.concat("00")
    } else if v < 0x100 {
        text.concat("0")
    } else {
        text
    };
    let out = append_hex(padded, v);
    assert(out@ =~= text@ + hex_padded(bit_pattern(index as int)));
    out
}

/// Forms the key under which the correction grid holds the cell whose
/// south-west corner has the given kilometre indices.
pub fn grid_key(easting_index: i32, northing_index: i32) -> (key: String)
    ensures
        key@ == cell_key(easting_index as int, northing_index as int),
{
    let northing = append_padded(String::new(), northing_index);
    let key = append_padded(northing, easting_index);
    assert(key@ =~= cell_key(easting_index as int, northing_index as int));
    key
}

} // verus!
