//! UTF-16, the encoding of text on Windows.

use vstd::prelude::*;

verus! {

/// `char::from_u32` gives the character with the given code, and `None` for a
/// number that is no Unicode scalar value: one above `0x10FFFF`, or a
/// surrogate.
pub assume_specification[ char::from_u32 ](i: u32) -> (r: Option<char>)
    ensures
        r is Some <==> (i < 0xD800 || 0xE000 <= i <= 0x10FFFF),
        r matches Some(c) ==> c as int == i,
;

/// A character in UTF-16: its code if that has sixteen bits, and else the high
/// and the low half of what exceeds sixteen bits, as surrogates.
pub open spec fn encoded(c: char) -> Seq<u16> {
    let code = c as int;
    if code < 0x1_0000 {
        seq![code as u16]
    } else {
        let excess = code - 0x1_0000;
        seq![(0xD800 + excess / 0x400) as u16, (0xDC00 + excess % 0x400) as u16]
    }
}

/// A text in UTF-16.
pub open spec fn encoded_text(text: Seq<char>) -> Seq<u16>
    decreases text.len(),
{
    if text.len() == 0 {
        Seq::empty()
    } else {
        encoded(text[0]) + encoded_text(text.drop_first())
    }
}

/// Encodes a character in UTF-16.
pub fn encode(c: char) -> (units: Vec<u16>)
    ensures
        units@ == encoded(c),
        (c as int) < 0x1_0000 ==> units@.len() == 1 && units@[0] == c as int,
        (c as int) >= 0x1_0000 ==> {
            &&& units@.len() == 2
            &&& 0xD800 <= units@[0] < 0xDC00
            &&& 0xDC00 <= units@[1] < 0xE000
            &&& c as int == 0x1_0000 + (units@[0] - 0xD800) * 0x400 + (units@[1] - 0xDC00)
        },
{
    let code: u32 = c as u32;
    let mut units: Vec<u16> = Vec::new();
    if code < 0x1_0000 {
        units.push(code as u16);
    } else {
        let excess: u32 = code - 0x1_0000;
        units.push((0xD800 + excess / 0x400) as u16);
        units.push((0xDC00 + excess % 0x400) as u16);
    }
    units
}

/// The code of a character is a Unicode scalar value.
proof fn lemma_scalar_value(c: char)
    ensures
        0 <= c as int <= 0x10FFFF,
        c as int <= 0xD7FF || c as int >= 0xE000,
{
}

/// No encoded character is the beginning of another.
proof fn lemma_prefix_free(c: char, d: char, x: Seq<u16>, y: Seq<u16>)
    requires
        encoded(c) + x == encoded(d) + y,
    ensures
        c == d,
        x == y,
{
    let l = encoded(c) + x;
    let r = encoded(d) + y;
    assert(l[0] == encoded(c)[0]);
    assert(r[0] == encoded(d)[0]);
    if c as int >= 0x1_0000 && d as int >= 0x1_0000 {
        assert(l[1] == encoded(c)[1]);
        assert(r[1] == encoded(d)[1]);
    }
    assert(encoded(c).len() == encoded(d).len());
    assert(c == d);
    assert(x =~= l.skip(encoded(c).len() as int));
    assert(y =~= r.skip(encoded(d).len() as int));
}

/// A text that begins with the units of another begins with that other.
proof fn lemma_prefix(a: Seq<char>, text: Seq<char>, tail: Seq<u16>)
    requires
        encoded_text(text) == encoded_text(a) + tail,
    ensures
        a.len() <= text.len(),
        text.take(a.len() as int) == a,
        encoded_text(text.skip(a.len() as int)) == tail,
    decreases a.len(),
{
    if a.len() == 0 {
        assert(encoded_text(a) + tail =~= tail);
        assert(text.skip(0) =~= text);
        assert(text.take(0) =~= a);
    } else {
        let rest = encoded_text(a.drop_first()) + tail;
        assert(encoded_text(text) =~= encoded(a[0]) + rest);
        if text.len() == 0 {
            assert(encoded_text(text).len() == 0);
            assert(encoded(a[0]).len() > 0);
        }
        lemma_prefix_free(text[0], a[0], encoded_text(text.drop_first()), rest);
        lemma_prefix(a.drop_first(), text.drop_first(), tail);
        let t = text.drop_first();
        assert(t.skip(a.len() - 1) =~= text.skip(a.len() as int));
        assert forall|i: int| 0 <= i < a.len() implies text[i] == a[i] by {
            if i > 0 {
                assert(t.take(a.len() - 1)[i - 1] == a.drop_first()[i - 1]);
            }
        }
        assert(text.take(a.len() as int) =~= a);
    }
}

/// The units of a text with a character appended.
proof fn lemma_push(text: Seq<char>, c: char)
    ensures
        encoded_text(text.push(c)) == encoded_text(text) + encoded(c),
    decreases text.len(),
{
    reveal_with_fuel(encoded_text, 2);
    let longer = text.push(c);
    if text.len() == 0 {
        assert(longer.drop_first() =~= Seq::<char>::empty());
        assert(encoded_text(longer) =~= encoded_text(text) + encoded(c));
    } else {
        assert(longer.drop_first() =~= text.drop_first().push(c));
        lemma_push(text.drop_first(), c);
        assert(encoded_text(longer) =~= encoded_text(text) + encoded(c));
    }
}

/// Decodes UTF-16, if the units are those of a text.
pub fn decode(units: &Vec<u16>, len: usize) -> (r: Option<String>)
    requires
        len <= units@.len(),
    ensures
        match r {
            Some(text) => encoded_text(text@) == units@.take(len as int),
            None => forall|text: Seq<char>| encoded_text(text) != units@.take(len as int),
        },
{
    let ghost all = units@.take(len as int);
    let mut text: String = String::new();
    let mut i: usize = 0;
    assert(all.take(0) =~= encoded_text(text@));
    while i < len
        invariant
            i <= len <= units@.len(),
            all == units@.take(len as int),
            encoded_text(text@) == all.take(i as int),
        decreases len - i,
    {
        let first: u16 = units[i];
        let mut code: u32 = first as u32;
        let mut width: usize = 1;
        if 0xD800 <= first && first < 0xDC00 && i + 1 < len {
            let second: u16 = units[i + 1];
            if 0xDC00 <= second && second < 0xE000 {
                code = 0x1_0000 + (first as u32 - 0xD800) * 0x400 + (second as u32 - 0xDC00);
                width = 2;
            }
        }
        match char::from_u32(code) {
            Some(c) => {
                proof {
                    lemma_push(text@, c);
                    assert(encoded(c) =~= all.subrange(i as int, i + width));
                    assert(all.take(i + width) =~= all.take(i as int) + encoded(c));
                }
                text.push(c);
                i += width;
            },
            None => {
                assert forall|t: Seq<char>| encoded_text(t) != all by {
                    if encoded_text(t) == all {
                        let tail = all.skip(i as int);
                        assert(all =~= encoded_text(text@) + tail);
                        lemma_prefix(text@, t, tail);
                        let rest = t.skip(text@.len() as int);
                        assert(rest.len() > 0);
                        let c = rest[0];
                        assert(encoded_text(rest)[0] == encoded(c)[0]);
                        if c as int >= 0x1_0000 {
                            assert(encoded_text(rest)[1] == encoded(c)[1]);
                        }
                        lemma_scalar_value(c);
                        assert(false);
                    }
                }
                return None;
            },
        }
    }
    assert(all.take(len as int) =~= all);
    Some(text)
}

/// A text is known by its units: different texts are encoded differently.
pub proof fn law_encoding_is_injective(a: Seq<char>, b: Seq<char>)
    requires
        encoded_text(a) == encoded_text(b),
    ensures
        a == b,
{
    assert(encoded_text(b) + Seq::<u16>::empty() =~= encoded_text(b));
    assert(encoded_text(a) + Seq::<u16>::empty() =~= encoded_text(a));
    lemma_prefix(b, a, Seq::empty());
    lemma_prefix(a, b, Seq::empty());
    assert(a.take(b.len() as int) =~= a);
}

/// A character takes one unit, or two if its code has more than sixteen bits.
pub proof fn law_encoded_length(c: char)
    ensures
        encoded(c).len() == if (c as int) < 0x1_0000 {
            1int
        } else {
            2
        },
        encoded_text(seq![c]) == encoded(c),
{
    reveal_with_fuel(encoded_text, 2);
    assert(seq![c].drop_first() =~= Seq::<char>::empty());
    assert(encoded_text(seq![c]) =~= encoded(c));
}

/// A character whose code has sixteen bits is one unit, the code; any other is
/// a high surrogate and a low one, out of which its code can be read back.
pub proof fn law_surrogates_hold_the_code(c: char)
    ensures
        (c as int) < 0x1_0000 ==> encoded(c).len() == 1 && encoded(c)[0] == c as int,
        (c as int) >= 0x1_0000 ==> {
            &&& encoded(c).len() == 2
            &&& 0xD800 <= encoded(c)[0] < 0xDC00
            &&& 0xDC00 <= encoded(c)[1] < 0xE000
            &&& c as int == 0x1_0000 + (encoded(c)[0] - 0xD800) * 0x400 + (encoded(c)[1] - 0xDC00)
        },
{
    lemma_scalar_value(c);
}

/// A text is encoded character by character: the units of two texts that follow
/// each other follow each other, no character has no units, and one has its own.
pub proof fn law_texts_are_encoded_in_order(a: Seq<char>, b: Seq<char>, c: char)
    ensures
        encoded_text(a + b) == encoded_text(a) + encoded_text(b),
        encoded_text(seq![c]) == encoded(c),
        encoded_text(Seq::<char>::empty()).len() == 0,
    decreases a.len(),
{
    law_encoded_length(c);
    if a.len() == 0 {
        assert(a + b =~= b);
        assert(encoded_text(a) + encoded_text(b) =~= encoded_text(b));
    } else {
        law_texts_are_encoded_in_order(a.drop_first(), b, c);
        assert((a + b).drop_first() =~= a.drop_first() + b);
        assert(encoded_text(a + b) =~= encoded_text(a) + encoded_text(b));
    }
}

} // verus!
