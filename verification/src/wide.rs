//! Lossless UTF-16 encoding of the navigation target.
//!
//! The navigate command takes the URL as a null-terminated sequence of
//! 16-bit units. [`utf16_encode`] defines that encoding over a sequence
//! of characters, [`utf16_decode`] reads it back, and
//! [`lemma_utf16_round_trip`] shows that decoding undoes encoding for
//! every string, so the URL handed to the navigate call carries exactly
//! the characters the caller supplied.

use vstd::prelude::*;
use vstd::arithmetic::div_mod::{lemma_fundamental_div_mod, lemma_mod_bound};
use vstd::utf8::{char_is_scalar, char_u32_cast};

verus! {

/// True of the 16-bit units that open a surrogate pair.
pub open spec fn is_high_surrogate(u: u16) -> bool {
    0xD800 <= u < 0xDC00
}

/// True of the 16-bit units that close a surrogate pair.
pub open spec fn is_low_surrogate(u: u16) -> bool {
    0xDC00 <= u < 0xE000
}

/// The UTF-16 units of one character: the character's own code for the
/// basic plane, a surrogate pair for the supplementary planes.
pub open spec fn utf16_units(c: char) -> Seq<u16> {
    if (c as u32) < 0x10000 {
        seq![(c as u32) as u16]
    } else {
        let v: int = (c as u32) - 0x10000;
        seq![(0xD800 + v / 0x400) as u16, (0xDC00 + v % 0x400) as u16]
    }
}

/// The UTF-16 encoding of a character sequence, unit by unit.
pub open spec fn utf16_encode(s: Seq<char>) -> Seq<u16>
    decreases s.len(),
{
    if s.len() == 0 {
        Seq::empty()
    } else {
        utf16_units(s[0]) + utf16_encode(s.drop_first())
    }
}

/// The null-terminated form that the navigate command receives.
pub open spec fn utf16z(s: Seq<char>) -> Seq<u16> {
    utf16_encode(s).push(0u16)
}

/// The scalar value a surrogate pair stands for.
pub open spec fn combined_scalar(h: u16, l: u16) -> int {
    0x10000 + (h - 0xD800) * 0x400 + (l - 0xDC00)
}

/// Reads a UTF-16 unit sequence back into characters; `None` on a lone
/// or misordered surrogate.
pub open spec fn utf16_decode(units: Seq<u16>) -> Option<Seq<char>>
    decreases units.len(),
{
    if units.len() == 0 {
        Some(Seq::empty())
    } else if !is_high_surrogate(units[0]) && !is_low_surrogate(units[0]) {
        match utf16_decode(units.drop_first()) {
            Some(rest) => Some(seq![(units[0] as u32) as char] + rest),
            None => None,
        }
    } else if is_high_surrogate(units[0]) && units.len() >= 2 && is_low_surrogate(units[1]) {
        match utf16_decode(units.skip(2)) {
            Some(rest) => Some(seq![((combined_scalar(units[0], units[1])) as u32) as char] + rest),
            None => None,
        }
    } else {
        None
    }
}

/// Appending one character appends exactly that character's units.
pub proof fn lemma_utf16_encode_snoc(s: Seq<char>, c: char)
    ensures
        utf16_encode(s.push(c)) == utf16_encode(s) + utf16_units(c),
    decreases s.len(),
{
    if s.len() == 0 {
        assert(s.push(c).drop_first() =~= Seq::<char>::empty());
        assert(s.push(c)[0] == c);
        assert(utf16_encode(s.push(c)) == utf16_units(s.push(c)[0]) + utf16_encode(
            s.push(c).drop_first(),
        ));
        assert(utf16_units(c) + Seq::<u16>::empty() =~= utf16_units(c));
        assert(utf16_encode(s) + utf16_units(c) =~= utf16_units(c));
    } else {
        lemma_utf16_encode_snoc(s.drop_first(), c);
        assert(s.push(c).drop_first() =~= s.drop_first().push(c));
        assert(s.push(c)[0] == s[0]);
        assert(utf16_encode(s.push(c)) =~= utf16_encode(s) + utf16_units(c));
    }
}

/// Decoding undoes encoding: the UTF-16 form of any character sequence
/// reads back as exactly that sequence. This is the losslessness of the
/// URL handed to the navigate command.
pub proof fn lemma_utf16_round_trip(s: Seq<char>)
    ensures
        utf16_decode(utf16_encode(s)) == Some(s),
    decreases s.len(),
{
    if s.len() == 0 {
    } else {
        let c = s[0];
        char_is_scalar(c);
        lemma_utf16_round_trip(s.drop_first());
        let rest = utf16_encode(s.drop_first());
        if (c as u32) < 0x10000 {
            let u: u16 = (c as u32) as u16;
            assert(u as u32 == c as u32);
            assert(!is_high_surrogate(u) && !is_low_surrogate(u));
            assert(utf16_encode(s) =~= seq![u] + rest);
            assert((seq![u] + rest).drop_first() =~= rest);
            char_u32_cast(c, u as u32);
            assert(seq![c] + s.drop_first() =~= s);
        } else {
            let v: int = (c as u32) - 0x10000;
            assert(0 <= v <= 0xFFFFF);
            lemma_mod_bound(v, 0x400);
            lemma_fundamental_div_mod(v, 0x400);
            assert(0 <= v / 0x400 <= 0x3FF) by (nonlinear_arith)
                requires
                    0 <= v <= 0xFFFFF,
            ;
            let hi: u16 = (0xD800 + v / 0x400) as u16;
            let lo: u16 = (0xDC00 + v % 0x400) as u16;
            assert(hi == 0xD800 + v / 0x400);
            assert(lo == 0xDC00 + v % 0x400);
            assert(is_high_surrogate(hi));
            assert(is_low_surrogate(lo));
            assert(utf16_encode(s) =~= seq![hi, lo] + rest);
            assert((seq![hi, lo] + rest).skip(2) =~= rest);
            assert(combined_scalar(hi, lo) == c as u32);
            char_u32_cast(c, combined_scalar(hi, lo) as u32);
            assert(seq![c] + s.drop_first() =~= s);
        }
    }
}

/// No unit of a character's encoding is zero unless the character is
/// the NUL character itself: basic-plane characters encode as their own
/// nonzero code, and surrogates are never zero.
proof fn lemma_units_nonzero(c: char)
    requires
        c != '\0',
    ensures
        forall|j: int| 0 <= j < utf16_units(c).len() ==> utf16_units(c)[j] != 0,
{
    char_is_scalar(c);
    if (c as u32) < 0x10000 {
        if c as u32 == 0 {
            char_u32_cast(c, 0u32);
            char_u32_cast('\0', 0u32);
            assert(c == '\0');
        }
        assert(utf16_units(c)[0] != 0);
    } else {
        let v: int = (c as u32) - 0x10000;
        lemma_mod_bound(v, 0x400);
        assert(0 <= v / 0x400 <= 0x3FF) by (nonlinear_arith)
            requires
                0 <= v <= 0xFFFFF,
        ;
        assert(utf16_units(c)[0] != 0);
        assert(utf16_units(c)[1] != 0);
    }
}

/// For a URL without the NUL character, the terminator that
/// [`utf16z`] appends is the first zero unit, so a receiver that reads
/// the buffer up to the first zero sees exactly the URL's encoding.
pub proof fn lemma_terminator_is_first_zero(s: Seq<char>)
    requires
        forall|i: int| 0 <= i < s.len() ==> s[i] != '\0',
    ensures
        utf16z(s).len() == utf16_encode(s).len() + 1,
        utf16z(s)[utf16z(s).len() - 1] == 0,
        forall|j: int| 0 <= j < utf16_encode(s).len() ==> utf16z(s)[j] != 0,
    decreases s.len(),
{
    if s.len() == 0 {
    } else {
        lemma_units_nonzero(s[0]);
        assert(forall|i: int| 0 <= i < s.drop_first().len() ==> s.drop_first()[i] != '\0');
        lemma_terminator_is_first_zero(s.drop_first());
        let units = utf16_units(s[0]);
        let rest = utf16_encode(s.drop_first());
        assert forall|j: int| 0 <= j < utf16_encode(s).len() implies utf16_encode(s)[j] != 0 by {
            assert(utf16_encode(s) == units + rest);
            if j < units.len() {
                assert((units + rest)[j] == units[j]);
            } else {
                assert((units + rest)[j] == rest[j - units.len()]);
                assert(utf16z(s.drop_first())[j - units.len()] == rest[j - units.len()]);
            }
        };
        assert(forall|j: int| 0 <= j < utf16_encode(s).len() ==> utf16z(s)[j] == utf16_encode(s)[j]);
    }
}

/// Two different strings never share a UTF-16 encoding.
pub proof fn lemma_utf16_encode_injective(s1: Seq<char>, s2: Seq<char>)
    requires
        utf16_encode(s1) == utf16_encode(s2),
    ensures
        s1 == s2,
{
    lemma_utf16_round_trip(s1);
    lemma_utf16_round_trip(s2);
}

/// Encodes a string as the null-terminated UTF-16 unit vector that the
/// navigate command takes.
pub fn encode_wide(s: &str) -> (r: Vec<u16>)
    ensures
        r@ == utf16z(s@),
{
    let n: usize = s.unicode_len();
    let mut r: Vec<u16> = Vec::new();
    let mut i: usize = 0;
    while i < n
        invariant
            n == s@.len(),
            0 <= i <= n,
            r@ == utf16_encode(s@.take(i as int)),
        decreases n - i,
    {
        let c = s.get_char(i);
        proof {
            char_is_scalar(c);
            lemma_utf16_encode_snoc(s@.take(i as int), c);
            assert(s@.take(i as int + 1) =~= s@.take(i as int).push(s@[i as int]));
        }
        let u: u32 = c as u32;
        if u < 0x10000 {
            r.push(u as u16);
        } else {
            let v: u32 = u - 0x10000;
            proof {
                lemma_mod_bound(v as int, 0x400);
                assert(0 <= (v as int) / 0x400 <= 0x3FF) by (nonlinear_arith)
                    requires
                        0 <= v <= 0xFFFFF,
                ;
            }
            let hi: u32 = 0xD800 + v / 0x400;
            let lo: u32 = 0xDC00 + v % 0x400;
            r.push(hi as u16);
            r.push(lo as u16);
        }
        i += 1;
    }
    proof {
        assert(s@.take(n as int) =~= s@);
    }
    r.push(0);
    r
}

/// Relies on char::from_u32: it returns the character with the given
/// code exactly when the code is a Unicode scalar value, and nothing
/// otherwise.
pub assume_specification[ char::from_u32 ](v: u32) -> (r: Option<char>)
    ensures
        r is Some <==> vstd::utf8::is_scalar(v),
        r matches Some(c) ==> c as u32 == v,
;

/// Reads a UTF-16 unit sequence back into its characters, exactly as
/// [`utf16_decode`] describes; `None` on a lone or misordered
/// surrogate.
pub fn decode_wide(units: &[u16]) -> (r: Option<Vec<char>>)
    ensures
        match r {
            Some(chars) => utf16_decode(units@) == Some(chars@),
            None => utf16_decode(units@) is None,
        },
{
    let mut out: Vec<char> = Vec::new();
    let mut i: usize = 0;
    proof {
        assert(units@.skip(0) =~= units@);
        if utf16_decode(units@) is Some {
            let rest = utf16_decode(units@)->Some_0;
            assert(Seq::<char>::empty() + rest =~= rest);
        }
    }
    while i < units.len()
        invariant
            0 <= i <= units@.len(),
            utf16_decode(units@) == match utf16_decode(units@.skip(i as int)) {
                Some(rest) => Some(out@ + rest),
                None => None::<Seq<char>>,
            },
        decreases units@.len() - i,
    {
        let u: u16 = units[i];
        let ghost tail = units@.skip(i as int);
        proof {
            assert(tail.len() > 0);
            assert(tail[0] == units@[i as int]);
        }
        if u < 0xD800 || u >= 0xE000 {
            proof {
                assert(!is_high_surrogate(u) && !is_low_surrogate(u));
                assert(tail.drop_first() =~= units@.skip(i as int + 1));
            }
            let c = match char::from_u32(u as u32) {
                Some(c) => c,
                None => {
                    proof {
                        assert(vstd::utf8::is_scalar(u as u32));
                    }
                    return None;
                },
            };
            out.push(c);
            proof {
                char_u32_cast(c, u as u32);
                assert(seq![(tail[0] as u32) as char] =~= seq![c]);
                if utf16_decode(units@.skip(i as int + 1)) is Some {
                    let rest = utf16_decode(units@.skip(i as int + 1))->Some_0;
                    assert(out@ + rest =~= out@.drop_last() + (seq![c] + rest));
                }
            }
        } else if u < 0xDC00 {
            proof {
                assert(is_high_surrogate(u));
            }
            if i + 1 >= units.len() {
                proof {
                    assert(tail.len() < 2);
                    assert(utf16_decode(tail) is None);
                }
                return None;
            }
            let l: u16 = units[i + 1];
            if !(0xDC00 <= l && l < 0xE000) {
                proof {
                    assert(tail[1] == l);
                    assert(!is_low_surrogate(l));
                    assert(utf16_decode(tail) is None);
                }
                return None;
            }
            proof {
                assert(tail[1] == l);
                assert(is_low_surrogate(l));
                assert(tail.skip(2) =~= units@.skip(i as int + 2));
                lemma_mod_bound((u - 0xD800) as int * 0x400 + (l - 0xDC00) as int, 0x400);
            }
            let scalar: u32 = 0x10000 + (u as u32 - 0xD800) * 0x400 + (l as u32 - 0xDC00);
            proof {
                assert(scalar == combined_scalar(u, l));
                assert(0x10000 <= scalar <= 0x10FFFF);
            }
            let c = match char::from_u32(scalar) {
                Some(c) => c,
                None => {
                    proof {
                        assert(vstd::utf8::is_scalar(scalar));
                    }
                    return None;
                },
            };
            out.push(c);
            proof {
                char_u32_cast(c, scalar);
                assert(seq![(combined_scalar(tail[0], tail[1]) as u32) as char] =~= seq![c]);
                if utf16_decode(units@.skip(i as int + 2)) is Some {
                    let rest = utf16_decode(units@.skip(i as int + 2))->Some_0;
                    assert(out@ + rest =~= out@.drop_last() + (seq![c] + rest));
                }
            }
            i += 1;
        } else {
            proof {
                assert(is_low_surrogate(u));
                assert(utf16_decode(tail) is None);
            }
            return None;
        }
        i += 1;
    }
    proof {
        assert(units@.skip(i as int) =~= Seq::<u16>::empty());
        assert(out@ + Seq::<char>::empty() =~= out@);
    }
    Some(out)
}

} // verus!
