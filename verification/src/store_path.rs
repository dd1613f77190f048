//! Nix store path base names and their hashes.
//!
//! A store path base name is a 32-character hash in Nix's base-32 alphabet,
//! a `-`, and a non-empty human-readable name made of ASCII letters, digits
//! and the characters `+-._?=`. For example
//! `0c6kzph7l0dcbyfqmb2aajkkbig6smq8-hello-2.12.1`.

use vstd::prelude::*;
use vstd::string::StringSliceAdditionalSpecFns;

verus! {

broadcast use vstd::string::group_string_axioms;

/// Length of the hash part of a store path base name.
pub const STORE_PATH_HASH_LEN: usize = 32;

/// A character of Nix's base-32 alphabet `0123456789abcdfghijklmnpqrsvwxyz`:
/// the digits and the lowercase letters but `e`, `o`, `t` and `u`.
pub open spec fn is_nix32_char(c: char) -> bool {
    ||| ('0' <= c && c <= '9')
    ||| ('a' <= c && c <= 'z' && c != 'e' && c != 'o' && c != 't' && c != 'u')
}

/// A character allowed in the name part of a store path base name.
pub open spec fn is_store_name_char(c: char) -> bool {
    ||| ('0' <= c && c <= '9')
    ||| ('a' <= c && c <= 'z')
    ||| ('A' <= c && c <= 'Z')
    ||| c == '+'
    ||| c == '-'
    ||| c == '.'
    ||| c == '_'
    ||| c == '?'
    ||| c == '='
}

/// `s` is a store path hash: exactly 32 base-32 characters.
pub open spec fn is_valid_hash(s: Seq<char>) -> bool {
    &&& s.len() == STORE_PATH_HASH_LEN
    &&& forall|i: int| 0 <= i < s.len() ==> is_nix32_char(#[trigger] s[i])
}

/// `s` is a store path base name: a hash, a `-` and a non-empty name.
pub open spec fn is_valid_base_name(s: Seq<char>) -> bool {
    &&& s.len() > STORE_PATH_HASH_LEN + 1
    &&& is_valid_hash(s.take(STORE_PATH_HASH_LEN as int))
    &&& s[STORE_PATH_HASH_LEN as int] == '-'
    &&& forall|i: int| STORE_PATH_HASH_LEN < i < s.len() ==> is_store_name_char(#[trigger] s[i])
}

/// Nix's base-32 alphabet, in the order of the digit values.
pub const NIX32_ALPHABET: &'static str = "0123456789abcdfghijklmnpqrsvwxyz";

/// The characters of a store path hash are exactly the 32 characters of
/// Nix's base-32 alphabet.
pub proof fn lemma_nix32_alphabet(c: char)
    ensures
        is_nix32_char(c) <==> NIX32_ALPHABET@.contains(c),
        NIX32_ALPHABET@.len() == 32,
{
    reveal_strlit("0123456789abcdfghijklmnpqrsvwxyz");
    if is_nix32_char(c) {
        if c == '0' {
            assert(NIX32_ALPHABET@[0] == c);
        } else if c == '1' {
            assert(NIX32_ALPHABET@[1] == c);
        } else if c == '2' {
            assert(NIX32_ALPHABET@[2] == c);
        } else if c == '3' {
            assert(NIX32_ALPHABET@[3] == c);
        } else if c == '4' {
            assert(NIX32_ALPHABET@[4] == c);
        } else if c == '5' {
            assert(NIX32_ALPHABET@[5] == c);
        } else if c == '6' {
            assert(NIX32_ALPHABET@[6] == c);
        } else if c == '7' {
            assert(NIX32_ALPHABET@[7] == c);
        } else if c == '8' {
            assert(NIX32_ALPHABET@[8] == c);
        } else if c == '9' {
            assert(NIX32_ALPHABET@[9] == c);
        } else if c == 'a' {
            assert(NIX32_ALPHABET@[10] == c);
        } else if c == 'b' {
            assert(NIX32_ALPHABET@[11] == c);
        } else if c == 'c' {
            assert(NIX32_ALPHABET@[12] == c);
        } else if c == 'd' {
            assert(NIX32_ALPHABET@[13] == c);
        } else if c == 'f' {
            assert(NIX32_ALPHABET@[14] == c);
        } else if c == 'g' {
            assert(NIX32_ALPHABET@[15] == c);
        } else if c == 'h' {
            assert(NIX32_ALPHABET@[16] == c);
        } else if c == 'i' {
            assert(NIX32_ALPHABET@[17] == c);
        } else if c == 'j' {
            assert(NIX32_ALPHABET@[18] == c);
        } else if c == 'k' {
            assert(NIX32_ALPHABET@[19] == c);
        } else if c == 'l' {
            assert(NIX32_ALPHABET@[20] == c);
        } else if c == 'm' {
            assert(NIX32_ALPHABET@[21] == c);
        } else if c == 'n' {
            assert(NIX32_ALPHABET@[22] == c);
        } else if c == 'p' {
            assert(NIX32_ALPHABET@[23] == c);
        } else if c == 'q' {
            assert(NIX32_ALPHABET@[24] == c);
        } else if c == 'r' {
            assert(NIX32_ALPHABET@[25] == c);
        } else if c == 's' {
            assert(NIX32_ALPHABET@[26] == c);
        } else if c == 'v' {
            assert(NIX32_ALPHABET@[27] == c);
        } else if c == 'w' {
            assert(NIX32_ALPHABET@[28] == c);
        } else if c == 'x' {
            assert(NIX32_ALPHABET@[29] == c);
        } else if c == 'y' {
            assert(NIX32_ALPHABET@[30] == c);
        } else if c == 'z' {
            assert(NIX32_ALPHABET@[31] == c);
        }
    }
    if NIX32_ALPHABET@.contains(c) {
        let i = choose|i: int| 0 <= i < NIX32_ALPHABET@.len() && NIX32_ALPHABET@[i] == c;
        if i == 0 {
            assert(NIX32_ALPHABET@[0] == '0');
        } else if i == 1 {
            assert(NIX32_ALPHABET@[1] == '1');
        } else if i == 2 {
            assert(NIX32_ALPHABET@[2] == '2');
        } else if i == 3 {
            assert(NIX32_ALPHABET@[3] == '3');
        } else if i == 4 {
            assert(NIX32_ALPHABET@[4] == '4');
        } else if i == 5 {
            assert(NIX32_ALPHABET@[5] == '5');
        } else if i == 6 {
            assert(NIX32_ALPHABET@[6] == '6');
        } else if i == 7 {
            assert(NIX32_ALPHABET@[7] == '7');
        } else if i == 8 {
            assert(NIX32_ALPHABET@[8] == '8');
        } else if i == 9 {
            assert(NIX32_ALPHABET@[9] == '9');
        } else if i == 10 {
            assert(NIX32_ALPHABET@[10] == 'a');
        } else if i == 11 {
            assert(NIX32_ALPHABET@[11] == 'b');
        } else if i == 12 {
            assert(NIX32_ALPHABET@[12] == 'c');
        } else if i == 13 {
            assert(NIX32_ALPHABET@[13] == 'd');
        } else if i == 14 {
            assert(NIX32_ALPHABET@[14] == 'f');
        } else if i == 15 {
            assert(NIX32_ALPHABET@[15] == 'g');
        } else if i == 16 {
            assert(NIX32_ALPHABET@[16] == 'h');
        } else if i == 17 {
            assert(NIX32_ALPHABET@[17] == 'i');
        } else if i == 18 {
            assert(NIX32_ALPHABET@[18] == 'j');
        } else if i == 19 {
            assert(NIX32_ALPHABET@[19] == 'k');
        } else if i == 20 {
            assert(NIX32_ALPHABET@[20] == 'l');
        } else if i == 21 {
            assert(NIX32_ALPHABET@[21] == 'm');
        } else if i == 22 {
            assert(NIX32_ALPHABET@[22] == 'n');
        } else if i == 23 {
            assert(NIX32_ALPHABET@[23] == 'p');
        } else if i == 24 {
            assert(NIX32_ALPHABET@[24] == 'q');
        } else if i == 25 {
            assert(NIX32_ALPHABET@[25] == 'r');
        } else if i == 26 {
            assert(NIX32_ALPHABET@[26] == 's');
        } else if i == 27 {
            assert(NIX32_ALPHABET@[27] == 'v');
        } else if i == 28 {
            assert(NIX32_ALPHABET@[28] == 'w');
        } else if i == 29 {
            assert(NIX32_ALPHABET@[29] == 'x');
        } else if i == 30 {
            assert(NIX32_ALPHABET@[30] == 'y');
        } else if i == 31 {
            assert(NIX32_ALPHABET@[31] == 'z');
        }
    }
}

/// A store path hash is any 32 characters of Nix's base-32 alphabet.
pub proof fn lemma_valid_hash_is_32_alphabet_chars(h: Seq<char>)
    ensures
        is_valid_hash(h) <==> (h.len() == 32 && forall|i: int| 0 <= i < h.len() ==> NIX32_ALPHABET@.contains(#[trigger] h[i])),
{
    assert forall|i: int| 0 <= i < h.len() implies (is_nix32_char(#[trigger] h[i]) <==> NIX32_ALPHABET@.contains(h[i])) by {
        lemma_nix32_alphabet(h[i]);
    }
}

/// The characters allowed in the name part of a store path base name.
pub const STORE_NAME_CHARS: &'static str = "0123456789abcdefghijklmnopqrstuvwxyzABCDEFGHIJKLMNOPQRSTUVWXYZ+-._?=";

/// The characters of the name part of a store path base name are exactly
/// the 68 characters of `STORE_NAME_CHARS`.
pub proof fn lemma_store_name_chars(c: char)
    ensures
        is_store_name_char(c) <==> STORE_NAME_CHARS@.contains(c),
        STORE_NAME_CHARS@.len() == 68,
{
    reveal_strlit("0123456789abcdefghijklmnopqrstuvwxyzABCDEFGHIJKLMNOPQRSTUVWXYZ+-._?=");
    if is_store_name_char(c) {
        if c == '0' {
            assert(STORE_NAME_CHARS@[0] == c);
        } else if c == '1' {
            assert(STORE_NAME_CHARS@[1] == c);
        } else if c == '2' {
            assert(STORE_NAME_CHARS@[2] == c);
        } else if c == '3' {
            assert(STORE_NAME_CHARS@[3] == c);
        } else if c == '4' {
            assert(STORE_NAME_CHARS@[4] == c);
        } else if c == '5' {
            assert(STORE_NAME_CHARS@[5] == c);
        } else if c == '6' {
            assert(STORE_NAME_CHARS@[6] == c);
        } else if c == '7' {
            assert(STORE_NAME_CHARS@[7] == c);
        } else if c == '8' {
            assert(STORE_NAME_CHARS@[8] == c);
        } else if c == '9' {
            assert(STORE_NAME_CHARS@[9] == c);
        } else if c == 'a' {
            assert(STORE_NAME_CHARS@[10] == c);
        } else if c == 'b' {
            assert(STORE_NAME_CHARS@[11] == c);
        } else if c == 'c' {
            assert(STORE_NAME_CHARS@[12] == c);
        } else if c == 'd' {
            assert(STORE_NAME_CHARS@[13] == c);
        } else if c == 'e' {
            assert(STORE_NAME_CHARS@[14] == c);
        } else if c == 'f' {
            assert(STORE_NAME_CHARS@[15] == c);
        } else if c == 'g' {
            assert(STORE_NAME_CHARS@[16] == c);
        } else if c == 'h' {
            assert(STORE_NAME_CHARS@[17] == c);
        } else if c == 'i' {
            assert(STORE_NAME_CHARS@[18] == c);
        } else if c == 'j' {
            assert(STORE_NAME_CHARS@[19] == c);
        } else if c == 'k' {
            assert(STORE_NAME_CHARS@[20] == c);
        } else if c == 'l' {
            assert(STORE_NAME_CHARS@[21] == c);
        } else if c == 'm' {
            assert(STORE_NAME_CHARS@[22] == c);
        } else if c == 'n' {
            assert(STORE_NAME_CHARS@[23] == c);
        } else if c == 'o' {
            assert(STORE_NAME_CHARS@[24] == c);
        } else if c == 'p' {
            assert(STORE_NAME_CHARS@[25] == c);
        } else if c == 'q' {
            assert(STORE_NAME_CHARS@[26] == c);
        } else if c == 'r' {
            assert(STORE_NAME_CHARS@[27] == c);
        } else if c == 's' {
            assert(STORE_NAME_CHARS@[28] == c);
        } else if c == 't' {
            assert(STORE_NAME_CHARS@[29] == c);
        } else if c == 'u' {
            assert(STORE_NAME_CHARS@[30] == c);
        } else if c == 'v' {
            assert(STORE_NAME_CHARS@[31] == c);
        } else if c == 'w' {
            assert(STORE_NAME_CHARS@[32] == c);
        } else if c == 'x' {
            assert(STORE_NAME_CHARS@[33] == c);
        } else if c == 'y' {
            assert(STORE_NAME_CHARS@[34] == c);
        } else if c == 'z' {
            assert(STORE_NAME_CHARS@[35] == c);
        } else if c == 'A' {
            assert(STORE_NAME_CHARS@[36] == c);
        } else if c == 'B' {
            assert(STORE_NAME_CHARS@[37] == c);
        } else if c == 'C' {
            assert(STORE_NAME_CHARS@[38] == c);
        } else if c == 'D' {
            assert(STORE_NAME_CHARS@[39] == c);
        } else if c == 'E' {
            assert(STORE_NAME_CHARS@[40] == c);
        } else if c == 'F' {
            assert(STORE_NAME_CHARS@[41] == c);
        } else if c == 'G' {
            assert(STORE_NAME_CHARS@[42] == c);
        } else if c == 'H' {
            assert(STORE_NAME_CHARS@[43] == c);
        } else if c == 'I' {
            assert(STORE_NAME_CHARS@[44] == c);
        } else if c == 'J' {
            assert(STORE_NAME_CHARS@[45] == c);
        } else if c == 'K' {
            assert(STORE_NAME_CHARS@[46] == c);
        } else if c == 'L' {
            assert(STORE_NAME_CHARS@[47] == c);
        } else if c == 'M' {
            assert(STORE_NAME_CHARS@[48] == c);
        } else if c == 'N' {
            assert(STORE_NAME_CHARS@[49] == c);
        } else if c == 'O' {
            assert(STORE_NAME_CHARS@[50] == c);
        } else if c == 'P' {
            assert(STORE_NAME_CHARS@[51] == c);
        } else if c == 'Q' {
            assert(STORE_NAME_CHARS@[52] == c);
        } else if c == 'R' {
            assert(STORE_NAME_CHARS@[53] == c);
        } else if c == 'S' {
            assert(STORE_NAME_CHARS@[54] == c);
        } else if c == 'T' {
            assert(STORE_NAME_CHARS@[55] == c);
        } else if c == 'U' {
            assert(STORE_NAME_CHARS@[56] == c);
        } else if c == 'V' {
            assert(STORE_NAME_CHARS@[57] == c);
        } else if c == 'W' {
            assert(STORE_NAME_CHARS@[58] == c);
        } else if c == 'X' {
            assert(STORE_NAME_CHARS@[59] == c);
        } else if c == 'Y' {
            assert(STORE_NAME_CHARS@[60] == c);
        } else if c == 'Z' {
            assert(STORE_NAME_CHARS@[61] == c);
        } else if c == '+' {
            assert(STORE_NAME_CHARS@[62] == c);
        } else if c == '-' {
            assert(STORE_NAME_CHARS@[63] == c);
        } else if c == '.' {
            assert(STORE_NAME_CHARS@[64] == c);
        } else if c == '_' {
            assert(STORE_NAME_CHARS@[65] == c);
        } else if c == '?' {
            assert(STORE_NAME_CHARS@[66] == c);
        } else if c == '=' {
            assert(STORE_NAME_CHARS@[67] == c);
        }
    }
    if STORE_NAME_CHARS@.contains(c) {
        let i = choose|i: int| 0 <= i < STORE_NAME_CHARS@.len() && STORE_NAME_CHARS@[i] == c;
        if i == 0 {
            assert(STORE_NAME_CHARS@[0] == '0');
        } else if i == 1 {
            assert(STORE_NAME_CHARS@[1] == '1');
        } else if i == 2 {
            assert(STORE_NAME_CHARS@[2] == '2');
        } else if i == 3 {
            assert(STORE_NAME_CHARS@[3] == '3');
        } else if i == 4 {
            assert(STORE_NAME_CHARS@[4] == '4');
        } else if i == 5 {
            assert(STORE_NAME_CHARS@[5] == '5');
        } else if i == 6 {
            assert(STORE_NAME_CHARS@[6] == '6');
        } else if i == 7 {
            assert(STORE_NAME_CHARS@[7] == '7');
        } else if i == 8 {
            assert(STORE_NAME_CHARS@[8] == '8');
        } else if i == 9 {
            assert(STORE_NAME_CHARS@[9] == '9');
        } else if i == 10 {
            assert(STORE_NAME_CHARS@[10] == 'a');
        } else if i == 11 {
            assert(STORE_NAME_CHARS@[11] == 'b');
        } else if i == 12 {
            assert(STORE_NAME_CHARS@[12] == 'c');
        } else if i == 13 {
            assert(STORE_NAME_CHARS@[13] == 'd');
        } else if i == 14 {
            assert(STORE_NAME_CHARS@[14] == 'e');
        } else if i == 15 {
            assert(STORE_NAME_CHARS@[15] == 'f');
        } else if i == 16 {
            assert(STORE_NAME_CHARS@[16] == 'g');
        } else if i == 17 {
            assert(STORE_NAME_CHARS@[17] == 'h');
        } else if i == 18 {
            assert(STORE_NAME_CHARS@[18] == 'i');
        } else if i == 19 {
            assert(STORE_NAME_CHARS@[19] == 'j');
        } else if i == 20 {
            assert(STORE_NAME_CHARS@[20] == 'k');
        } else if i == 21 {
            assert(STORE_NAME_CHARS@[21] == 'l');
        } else if i == 22 {
            assert(STORE_NAME_CHARS@[22] == 'm');
        } else if i == 23 {
            assert(STORE_NAME_CHARS@[23] == 'n');
        } else if i == 24 {
            assert(STORE_NAME_CHARS@[24] == 'o');
        } else if i == 25 {
            assert(STORE_NAME_CHARS@[25] == 'p');
        } else if i == 26 {
            assert(STORE_NAME_CHARS@[26] == 'q');
        } else if i == 27 {
            assert(STORE_NAME_CHARS@[27] == 'r');
        } else if i == 28 {
            assert(STORE_NAME_CHARS@[28] == 's');
        } else if i == 29 {
            assert(STORE_NAME_CHARS@[29] == 't');
        } else if i == 30 {
            assert(STORE_NAME_CHARS@[30] == 'u');
        } else if i == 31 {
            assert(STORE_NAME_CHARS@[31] == 'v');
        } else if i == 32 {
            assert(STORE_NAME_CHARS@[32] == 'w');
        } else if i == 33 {
            assert(STORE_NAME_CHARS@[33] == 'x');
        } else if i == 34 {
            assert(STORE_NAME_CHARS@[34] == 'y');
        } else if i == 35 {
            assert(STORE_NAME_CHARS@[35] == 'z');
        } else if i == 36 {
            assert(STORE_NAME_CHARS@[36] == 'A');
        } else if i == 37 {
            assert(STORE_NAME_CHARS@[37] == 'B');
        } else if i == 38 {
            assert(STORE_NAME_CHARS@[38] == 'C');
        } else if i == 39 {
            assert(STORE_NAME_CHARS@[39] == 'D');
        } else if i == 40 {
            assert(STORE_NAME_CHARS@[40] == 'E');
        } else if i == 41 {
            assert(STORE_NAME_CHARS@[41] == 'F');
        } else if i == 42 {
            assert(STORE_NAME_CHARS@[42] == 'G');
        } else if i == 43 {
            assert(STORE_NAME_CHARS@[43] == 'H');
        } else if i == 44 {
            assert(STORE_NAME_CHARS@[44] == 'I');
        } else if i == 45 {
            assert(STORE_NAME_CHARS@[45] == 'J');
        } else if i == 46 {
            assert(STORE_NAME_CHARS@[46] == 'K');
        } else if i == 47 {
            assert(STORE_NAME_CHARS@[47] == 'L');
        } else if i == 48 {
            assert(STORE_NAME_CHARS@[48] == 'M');
        } else if i == 49 {
            assert(STORE_NAME_CHARS@[49] == 'N');
        } else if i == 50 {
            assert(STORE_NAME_CHARS@[50] == 'O');
        } else if i == 51 {
            assert(STORE_NAME_CHARS@[51] == 'P');
        } else if i == 52 {
            assert(STORE_NAME_CHARS@[52] == 'Q');
        } else if i == 53 {
            assert(STORE_NAME_CHARS@[53] == 'R');
        } else if i == 54 {
            assert(STORE_NAME_CHARS@[54] == 'S');
        } else if i == 55 {
            assert(STORE_NAME_CHARS@[55] == 'T');
        } else if i == 56 {
            assert(STORE_NAME_CHARS@[56] == 'U');
        } else if i == 57 {
            assert(STORE_NAME_CHARS@[57] == 'V');
        } else if i == 58 {
            assert(STORE_NAME_CHARS@[58] == 'W');
        } else if i == 59 {
            assert(STORE_NAME_CHARS@[59] == 'X');
        } else if i == 60 {
            assert(STORE_NAME_CHARS@[60] == 'Y');
        } else if i == 61 {
            assert(STORE_NAME_CHARS@[61] == 'Z');
        } else if i == 62 {
            assert(STORE_NAME_CHARS@[62] == '+');
        } else if i == 63 {
            assert(STORE_NAME_CHARS@[63] == '-');
        } else if i == 64 {
            assert(STORE_NAME_CHARS@[64] == '.');
        } else if i == 65 {
            assert(STORE_NAME_CHARS@[65] == '_');
        } else if i == 66 {
            assert(STORE_NAME_CHARS@[66] == '?');
        } else if i == 67 {
            assert(STORE_NAME_CHARS@[67] == '=');
        }
    }
}

/// A store path base name is exactly 32 characters of Nix's base-32
/// alphabet, a `-`, and a non-empty name of characters of
/// `STORE_NAME_CHARS`.
pub proof fn lemma_base_name_chars(s: Seq<char>)
    ensures
        is_valid_base_name(s) <==> {
            &&& s.len() > 33
            &&& forall|i: int| 0 <= i < 32 ==> NIX32_ALPHABET@.contains(#[trigger] s[i])
            &&& s[32] == '-'
            &&& forall|i: int| 32 < i < s.len() ==> STORE_NAME_CHARS@.contains(#[trigger] s[i])
        },
{
    assert forall|i: int| 0 <= i < s.len() implies (is_nix32_char(#[trigger] s[i])
        <==> NIX32_ALPHABET@.contains(s[i])) && (is_store_name_char(s[i])
        <==> STORE_NAME_CHARS@.contains(s[i])) by {
        lemma_nix32_alphabet(s[i]);
        lemma_store_name_chars(s[i]);
    }
    if s.len() > 33 {
        let h = s.take(32);
        assert(h.len() == 32);
        if is_valid_hash(h) {
            assert forall|i: int| 0 <= i < 32 implies NIX32_ALPHABET@.contains(#[trigger] s[i]) by {
                assert(h[i] == s[i]);
            }
        }
        if forall|i: int| 0 <= i < 32 ==> NIX32_ALPHABET@.contains(#[trigger] s[i]) {
            assert forall|i: int| 0 <= i < h.len() implies is_nix32_char(#[trigger] h[i]) by {
                assert(h[i] == s[i]);
                assert(NIX32_ALPHABET@.contains(s[i]));
            }
        }
    }
}

/// Every store path hash, followed by `-` and a non-empty name of allowed
/// characters, is a store path base name, whatever characters of the
/// alphabet the hash holds.
pub proof fn lemma_base_name_of_parts(h: Seq<char>, name: Seq<char>)
    requires
        h.len() == 32,
        forall|i: int| 0 <= i < h.len() ==> NIX32_ALPHABET@.contains(#[trigger] h[i]),
        name.len() > 0,
        forall|i: int| 0 <= i < name.len() ==> STORE_NAME_CHARS@.contains(#[trigger] name[i]),
    ensures
        is_valid_base_name(h + seq!['-'] + name),
        (h + seq!['-'] + name).take(32) == h,
{
    let s = h + seq!['-'] + name;
    lemma_base_name_chars(s);
    assert forall|i: int| 0 <= i < 32 implies NIX32_ALPHABET@.contains(#[trigger] s[i]) by {
        assert(s[i] == h[i]);
    }
    assert forall|i: int| 32 < i < s.len() implies STORE_NAME_CHARS@.contains(#[trigger] s[i]) by {
        assert(s[i] == name[i - 33]);
    }
    assert(s.take(32) =~= h);
}

/// Why a string was refused as a store path hash or base name.
#[derive(Debug, Clone, Copy, PartialEq, Eq, Structural)]
pub enum StorePathError {
    /// Not 32 characters of Nix's base-32 alphabet.
    InvalidHash,
    /// Not a hash, a `-` and a non-empty name of allowed characters.
    InvalidBaseName,
}

fn nix32_char(c: char) -> (b: bool)
    ensures
        b == is_nix32_char(c),
{
    ('0' <= c && c <= '9') || ('a' <= c && c <= 'z' && c != 'e' && c != 'o' && c != 't' && c
        != 'u')
}

fn store_name_char(c: char) -> (b: bool)
    ensures
        b == is_store_name_char(c),
{
    ('0' <= c && c <= '9') || ('a' <= c && c <= 'z') || ('A' <= c && c <= 'Z') || c == '+' || c
        == '-' || c == '.' || c == '_' || c == '?' || c == '='
}

/// The character at position `i` of an ASCII string, read in constant time.
fn ascii_char_at(s: &str, i: usize) -> (c: char)
    requires
        vstd::string::is_ascii(s),
        i < s@.len(),
    ensures
        c == s@[i as int],
{
    let b = s.get_ascii(i);
    proof {
        vstd::utf8::is_ascii_chars_nat_bound(s@);
        assert((s@[i as int] as nat) < 128);
    }
    b as char
}

/// Whether `s` is a store path hash.
pub fn is_store_path_hash(s: &str) -> (b: bool)
    ensures
        b == is_valid_hash(s@),
{
    if !s.is_ascii() {
        proof {
            if is_valid_hash(s@) {
                assert(vstd::utf8::is_ascii_chars(s@));
            }
        }
        return false;
    }
    proof {
        vstd::string::is_ascii_spec_bytes(s);
    }
    let n = s.as_bytes().len();
    if n != STORE_PATH_HASH_LEN {
        return false;
    }
    let mut i: usize = 0;
    while i < n
        invariant
            vstd::string::is_ascii(s),
            n == s@.len(),
            i <= n,
            forall|j: int| 0 <= j < i ==> is_nix32_char(#[trigger] s@[j]),
        decreases n - i,
    {
        if !nix32_char(ascii_char_at(s, i)) {
            return false;
        }
        i = i + 1;
    }
    true
}

/// Whether `s` is a store path base name.
pub fn is_store_path_base_name(s: &str) -> (b: bool)
    ensures
        b == is_valid_base_name(s@),
{
    if !s.is_ascii() {
        proof {
            if is_valid_base_name(s@) {
                assert forall|i: int| 0 <= i < s@.len() implies '\0' <= #[trigger] s@[i] <= '\u{7f}' by {
                    if i < STORE_PATH_HASH_LEN {
                        assert(s@.take(STORE_PATH_HASH_LEN as int)[i] == s@[i]);
                    }
                }
            }
        }
        return false;
    }
    proof {
        vstd::string::is_ascii_spec_bytes(s);
    }
    let n = s.as_bytes().len();
    if n <= STORE_PATH_HASH_LEN + 1 {
        return false;
    }
    let mut i: usize = 0;
    while i < STORE_PATH_HASH_LEN
        invariant
            vstd::string::is_ascii(s),
            n == s@.len(),
            n > STORE_PATH_HASH_LEN + 1,
            i <= STORE_PATH_HASH_LEN,
            forall|j: int| 0 <= j < i ==> is_nix32_char(#[trigger] s@[j]),
        decreases STORE_PATH_HASH_LEN - i,
    {
        if !nix32_char(ascii_char_at(s, i)) {
            proof {
                assert(s@.take(STORE_PATH_HASH_LEN as int)[i as int] == s@[i as int]);
            }
            return false;
        }
        i = i + 1;
    }
    assert(is_valid_hash(s@.take(STORE_PATH_HASH_LEN as int))) by {
        assert forall|j: int| 0 <= j < STORE_PATH_HASH_LEN implies is_nix32_char(
            #[trigger] s@.take(STORE_PATH_HASH_LEN as int)[j],
        ) by {
            assert(s@.take(STORE_PATH_HASH_LEN as int)[j] == s@[j]);
        }
    }
    if ascii_char_at(s, STORE_PATH_HASH_LEN) != '-' {
        return false;
    }
    let mut k: usize = STORE_PATH_HASH_LEN + 1;
    while k < n
        invariant
            vstd::string::is_ascii(s),
            n == s@.len(),
            STORE_PATH_HASH_LEN < k <= n,
            forall|j: int| STORE_PATH_HASH_LEN < j < k ==> is_store_name_char(#[trigger] s@[j]),
        decreases n - k,
    {
        if !store_name_char(ascii_char_at(s, k)) {
            return false;
        }
        k = k + 1;
    }
    true
}

/// Every character of a store path base name is ASCII.
pub proof fn lemma_base_name_is_ascii(s: Seq<char>)
    requires
        is_valid_base_name(s),
    ensures
        vstd::utf8::is_ascii_chars(s),
{
    assert forall|i: int| 0 <= i < s.len() implies '\0' <= #[trigger] s[i] <= '\u{7f}' by {
        if i < STORE_PATH_HASH_LEN {
            assert(s.take(STORE_PATH_HASH_LEN as int)[i] == s[i]);
        }
    }
}

/// The hash part of a store path, such as `0c6kzph7l0dcbyfqmb2aajkkbig6smq8`.
#[derive(Debug)]
pub struct StorePathHash {
    hash: String,
}

impl View for StorePathHash {
    type V = Seq<char>;

    closed spec fn view(&self) -> Seq<char> {
        self.hash@
    }
}

impl StorePathHash {
    #[verifier::type_invariant]
    spec fn holds_valid_hash(self) -> bool {
        is_valid_hash(self.hash@)
    }

    /// Checks that `hash` is a store path hash.
    pub fn new(hash: String) -> (r: Result<StorePathHash, StorePathError>)
        ensures
            r is Ok <==> is_valid_hash(hash@),
            r matches Ok(h) ==> h@ == hash@,
            r matches Err(e) ==> e == StorePathError::InvalidHash,
    {
        if is_store_path_hash(hash.as_str()) {
            Ok(StorePathHash { hash })
        } else {
            Err(StorePathError::InvalidHash)
        }
    }

    /// The hash as a string slice.
    pub fn as_str(&self) -> (s: &str)
        ensures
            s@ == self@,
            is_valid_hash(s@),
    {
        proof {
            use_type_invariant(self);
        }
        self.hash.as_str()
    }

    /// The hash as an owned string.
    pub fn into_string(self) -> (s: String)
        ensures
            s@ == self@,
            is_valid_hash(s@),
    {
        proof {
            use_type_invariant(&self);
        }
        self.hash
    }
}

/// The base name of a store path, such as
/// `0c6kzph7l0dcbyfqmb2aajkkbig6smq8-hello-2.12.1`.
#[derive(Debug)]
pub struct StorePath {
    base_name: String,
}

impl View for StorePath {
    type V = Seq<char>;

    closed spec fn view(&self) -> Seq<char> {
        self.base_name@
    }
}

impl StorePath {
    #[verifier::type_invariant]
    spec fn holds_valid_base_name(self) -> bool {
        is_valid_base_name(self.base_name@)
    }

    /// Checks that `base_name` is a store path base name.
    pub fn from_base_name(base_name: &str) -> (r: Result<StorePath, StorePathError>)
        ensures
            r is Ok <==> is_valid_base_name(base_name@),
            r matches Ok(p) ==> p@ == base_name@,
            r matches Err(e) ==> e == StorePathError::InvalidBaseName,
    {
        if is_store_path_base_name(base_name) {
            Ok(StorePath { base_name: base_name.to_owned() })
        } else {
            Err(StorePathError::InvalidBaseName)
        }
    }

    /// The base name as a string slice.
    pub fn base_name(&self) -> (s: &str)
        ensures
            s@ == self@,
            is_valid_base_name(s@),
    {
        proof {
            use_type_invariant(self);
        }
        self.base_name.as_str()
    }

    /// The hash part of the base name: its first 32 characters.
    pub fn to_hash(&self) -> (h: StorePathHash)
        ensures
            h@ == self@.take(STORE_PATH_HASH_LEN as int),
    {
        proof {
            use_type_invariant(self);
            lemma_base_name_is_ascii(self.base_name@);
        }
        let s = self.base_name.as_str();
        let hash = s.substring_ascii(0, STORE_PATH_HASH_LEN).to_owned();
        assert(s@.subrange(0, STORE_PATH_HASH_LEN as int) =~= s@.take(STORE_PATH_HASH_LEN as int));
        StorePathHash { hash }
    }
}

} // verus!
