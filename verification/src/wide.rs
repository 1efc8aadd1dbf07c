//! UTF-16 marshalling for the wide-string arguments of the native dialog
//! interface.

use vstd::prelude::*;

verus! {

/// The UTF-16 code units that encode one Unicode scalar value: the value
/// itself for a code point below `0x10000`, otherwise a surrogate pair.
pub open spec fn utf16_units(c: char) -> Seq<u16> {
    let v = c as u32;
    if v < 0x10000 {
        seq![v as u16]
    } else {
        seq![
            (0xD800 + (v - 0x10000) / 0x400) as u16,
            (0xDC00 + (v - 0x10000) % 0x400) as u16,
        ]
    }
}

/// The UTF-16 encoding of a sequence of characters.
pub open spec fn utf16(s: Seq<char>) -> Seq<u16>
    decreases s.len(),
{
    if s.len() == 0 {
        Seq::empty()
    } else {
        utf16_units(s[0]) + utf16(s.drop_first())
    }
}

/// Appending a character appends its code units.
pub proof fn lemma_utf16_push(s: Seq<char>, c: char)
    ensures
        utf16(s.push(c)) == utf16(s) + utf16_units(c),
    decreases s.len(),
{
    if s.len() == 0 {
        assert(s.push(c).drop_first() =~= Seq::<char>::empty());
        assert(s.push(c)[0] == c);
        assert(utf16(Seq::<char>::empty()) =~= Seq::<u16>::empty());
        assert(utf16(s.push(c)) == utf16_units(c) + utf16(s.push(c).drop_first()));
        assert(utf16(s.push(c)) =~= utf16(s) + utf16_units(c));
    } else {
        assert(s.push(c).drop_first() =~= s.drop_first().push(c));
        lemma_utf16_push(s.drop_first(), c);
        assert(utf16(s.push(c)) =~= utf16(s) + utf16_units(c));
    }
}

/// The unit of a code point below `0x10000` is the code point itself, which
/// lies outside the surrogate range; for a higher code point the two units
/// are a high and a low surrogate.
proof fn lemma_unit_ranges(c: char)
    ensures
        (c as u32) < 0x10000 ==> {
            &&& utf16_units(c)[0] == c as u32
            &&& !(0xD800 <= (utf16_units(c)[0] as int) < 0xE000)
        },
        (c as u32) >= 0x10000 ==> {
            &&& (c as u32) <= 0x10FFFF
            &&& utf16_units(c)[0] as int == 0xD800 + ((c as u32) - 0x10000) / 0x400
            &&& utf16_units(c)[1] as int == 0xDC00 + ((c as u32) - 0x10000) % 0x400
            &&& 0xD800 <= (utf16_units(c)[0] as int) < 0xDC00
            &&& 0xDC00 <= (utf16_units(c)[1] as int) < 0xE000
        },
{
    vstd::utf8::char_is_scalar(c);
    let v = c as u32;
    if v >= 0x10000 {
        let w = v - 0x10000;
        vstd::arithmetic::div_mod::lemma_div_pos_is_pos(w, 0x400);
        vstd::arithmetic::div_mod::lemma_div_is_ordered(w, 0xFFFFF, 0x400);
        assert(0xFFFFFint / 0x400 == 0x3FF);
        vstd::arithmetic::div_mod::lemma_mod_bound(w, 0x400);
    }
}

/// A text without NUL characters encodes to a buffer without NUL units, so
/// the terminator appended by [`encode_utf16_nul`] is the only NUL unit the
/// native side sees, and the whole text reaches it.
pub proof fn lemma_utf16_nul_free(s: Seq<char>)
    requires
        forall|i: int| 0 <= i < s.len() ==> s[i] != '\0',
    ensures
        forall|j: int| 0 <= j < utf16(s).len() ==> utf16(s)[j] != 0u16,
    decreases s.len(),
{
    if s.len() > 0 {
        assert forall|i: int| 0 <= i < s.drop_first().len() implies s.drop_first()[i] != '\0' by {
            assert(s.drop_first()[i] == s[i + 1]);
        }
        lemma_utf16_nul_free(s.drop_first());
        let c = s[0];
        let u = utf16_units(c);
        assert(s[0] != '\0');
        assert forall|j: int| 0 <= j < u.len() implies u[j] != 0u16 by {
            lemma_unit_ranges(c);
            vstd::utf8::char_u32_cast(c, c as u32);
            assert((c as u32) == 0 ==> c == '\0');
        }
        assert forall|j: int| 0 <= j < utf16(s).len() implies utf16(s)[j] != 0u16 by {
            assert(utf16(s) == u + utf16(s.drop_first()));
            if j >= u.len() {
                assert(utf16(s)[j] == utf16(s.drop_first())[j - u.len()]);
            }
        }
    }
}

/// The code units of one character determine it.
proof fn lemma_units_determine_char(c1: char, c2: char)
    requires
        utf16_units(c1) == utf16_units(c2),
    ensures
        c1 == c2,
{
    let v1 = c1 as u32;
    let v2 = c2 as u32;
    let u1 = utf16_units(c1);
    let u2 = utf16_units(c2);
    lemma_unit_ranges(c1);
    lemma_unit_ranges(c2);
    if v1 < 0x10000 && v2 < 0x10000 {
        assert(v1 == v2);
    } else if v1 >= 0x10000 && v2 >= 0x10000 {
        assert((v1 - 0x10000) / 0x400 == (v2 - 0x10000) / 0x400);
        assert((v1 - 0x10000) % 0x400 == (v2 - 0x10000) % 0x400);
        vstd::arithmetic::div_mod::lemma_fundamental_div_mod(v1 - 0x10000, 0x400);
        vstd::arithmetic::div_mod::lemma_fundamental_div_mod(v2 - 0x10000, 0x400);
        assert(v1 == v2);
    } else {
        // A code point below 0x10000 never encodes to a high surrogate
        // (characters skip the surrogate range), while a higher one always
        // does: the first units differ, against the hypothesis.
        assert(u1[0] == u2[0]);
        assert(false);
    }
    vstd::utf8::char_u32_cast(c1, v1);
    vstd::utf8::char_u32_cast(c2, v2);
}

/// Distinct texts have distinct encodings: the wide strings handed to the
/// native side lose nothing of the caller's configuration.
pub proof fn lemma_utf16_injective(s1: Seq<char>, s2: Seq<char>)
    requires
        utf16(s1) == utf16(s2),
    ensures
        s1 == s2,
    decreases s1.len(),
{
    if s1.len() == 0 && s2.len() == 0 {
        assert(s1 =~= s2);
    } else if s1.len() == 0 {
        assert(utf16(s2) == utf16_units(s2[0]) + utf16(s2.drop_first()));
        assert(utf16(s2).len() >= 1);
        assert(false);
    } else if s2.len() == 0 {
        assert(utf16(s1) == utf16_units(s1[0]) + utf16(s1.drop_first()));
        assert(utf16(s1).len() >= 1);
        assert(false);
    } else {
        let c1 = s1[0];
        let c2 = s2[0];
        let u1 = utf16_units(c1);
        let u2 = utf16_units(c2);
        let t1 = utf16(s1.drop_first());
        let t2 = utf16(s2.drop_first());
        assert(utf16(s1) == u1 + t1);
        assert(utf16(s2) == u2 + t2);
        assert(utf16(s1)[0] == u1[0] && utf16(s2)[0] == u2[0]);
        lemma_unit_ranges(c1);
        lemma_unit_ranges(c2);
        // The first unit says whether a surrogate pair follows, so the two
        // heads fall under the same case and have equally many units.
        assert((c1 as u32) < 0x10000 <==> (c2 as u32) < 0x10000);
        if (c1 as u32) >= 0x10000 {
            assert(utf16(s1)[1] == u1[1] && utf16(s2)[1] == u2[1]);
        }
        assert(u1 =~= u2);
        lemma_units_determine_char(c1, c2);
        assert(t1.len() == t2.len());
        assert forall|k: int| 0 <= k < t1.len() implies t1[k] == t2[k] by {
            assert(utf16(s1)[k + u1.len()] == t1[k]);
            assert(utf16(s2)[k + u2.len()] == t2[k]);
        }
        assert(t1 =~= t2);
        lemma_utf16_injective(s1.drop_first(), s2.drop_first());
        assert forall|k: int| 0 <= k < s1.len() implies s1[k] == s2[k] by {
            if k > 0 {
                assert(s1.drop_first()[k - 1] == s1[k]);
                assert(s2.drop_first()[k - 1] == s2[k]);
            }
        }
        assert(s1 =~= s2);
    }
}

/// Encode `s` as UTF-16 and append the terminating NUL unit, as the
/// wide-string parameters of the native dialog interface require.
pub fn encode_utf16_nul(s: &str) -> (r: Vec<u16>)
    ensures
        r@ == utf16(s@).push(0u16),
{
    let n = s.unicode_len();
    let mut r: Vec<u16> = Vec::new();
    let mut i: usize = 0;
    while i < n
        invariant
            n == s@.len(),
            i <= n,
            r@ == utf16(s@.take(i as int)),
        decreases n - i,
    {
        let c = s.get_char(i);
        proof {
            assert(s@.take(i as int).push(s@[i as int]) =~= s@.take(i + 1));
            lemma_utf16_push(s@.take(i as int), s@[i as int]);
        }
        let u = c as u32;
        if u < 0x10000 {
            r.push(u as u16);
        } else {
            let v = u - 0x10000;
            r.push(0xD800 + (v / 0x400) as u16);
            r.push(0xDC00 + (v % 0x400) as u16);
        }
        i = i + 1;
    }
    proof {
        assert(s@.take(n as int) =~= s@);
    }
    r.push(0u16);
    r
}

} // verus!
