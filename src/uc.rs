//! Conversion between host text and the runtime's wide-character text.
//!
//! The runtime stores text as `SAP_UC` code units, which are UTF-16 code
//! units. A host `str` becomes the UTF-16 encoding of its characters; a
//! sequence of units becomes text again only where it is well-formed UTF-16.
use vstd::prelude::*;
use vstd::utf8::is_scalar;

use crate::error::RfcErrorInfo;

verus! {

broadcast use vstd::utf8::char_is_scalar, vstd::utf8::char_u32_cast, vstd::string::axiom_spec_iter;

/// Width, NUL terminator included, of the runtime's fixed-size name fields.
pub const ABAP_NAME_LEN: usize = 31;

pub open spec fn is_high_surrogate(u: u16) -> bool {
    0xD800 <= u && u < 0xDC00
}

pub open spec fn is_low_surrogate(u: u16) -> bool {
    0xDC00 <= u && u < 0xE000
}

/// The UTF-16 code units of one character.
pub open spec fn char_units(c: char) -> Seq<u16> {
    let v = c as u32;
    if v < 0x10000 {
        seq![v as u16]
    } else {
        seq![
            (0xD800 + (v - 0x10000) / 0x400) as u16,
            (0xDC00 + (v - 0x10000) % 0x400) as u16,
        ]
    }
}

/// The wide-character encoding of a text.
pub open spec fn sap_uc_of(s: Seq<char>) -> Seq<u16>
    decreases s.len(),
{
    if s.len() == 0 {
        Seq::empty()
    } else {
        char_units(s[0]) + sap_uc_of(s.drop_first())
    }
}

/// The character that a surrogate pair stands for.
pub open spec fn pair_char(hi: u16, lo: u16) -> char {
    (0x10000 + (hi - 0xD800) * 0x400 + (lo - 0xDC00)) as u32 as char
}

pub open spec fn prepend(p: Seq<char>, o: Option<Seq<char>>) -> Option<Seq<char>> {
    match o {
        Some(rest) => Some(p + rest),
        None => None,
    }
}

/// The text that a sequence of code units encodes, or `None` where it holds
/// an unpaired surrogate.
pub open spec fn text_of(u: Seq<u16>) -> Option<Seq<char>>
    decreases u.len(),
{
    if u.len() == 0 {
        Some(Seq::empty())
    } else if is_high_surrogate(u[0]) {
        if u.len() >= 2 && is_low_surrogate(u[1]) {
            prepend(seq![pair_char(u[0], u[1])], text_of(u.subrange(2, u.len() as int)))
        } else {
            None
        }
    } else if is_low_surrogate(u[0]) {
        None
    } else {
        prepend(seq![u[0] as u32 as char], text_of(u.subrange(1, u.len() as int)))
    }
}

/// Length of the part of a fixed-size field before its first NUL unit.
pub open spec fn nul_prefix_len(u: Seq<u16>) -> nat
    decreases u.len(),
{
    if u.len() == 0 {
        0
    } else if u[0] == 0 {
        0
    } else {
        1 + nul_prefix_len(u.drop_first())
    }
}

/// The text of a fixed-size field: its units before the first NUL, decoded.
pub open spec fn field_text(u: Seq<u16>) -> Option<Seq<char>> {
    text_of(u.take(nul_prefix_len(u) as int))
}

/// A fixed-size field of `width` units holding `u`: the first `width` units
/// of `u`, then NUL units up to the width.
pub open spec fn fixed_field(u: Seq<u16>, width: nat) -> Seq<u16> {
    if u.len() <= width {
        u + Seq::new((width - u.len()) as nat, |i: int| 0u16)
    } else {
        u.take(width as int)
    }
}

proof fn lemma_prepend_empty(o: Option<Seq<char>>)
    ensures
        prepend(Seq::empty(), o) == o,
{
    if let Some(rest) = o {
        assert(Seq::<char>::empty() + rest =~= rest);
    }
}

proof fn lemma_prepend_assoc(a: Seq<char>, b: Seq<char>, o: Option<Seq<char>>)
    ensures
        prepend(a, prepend(b, o)) == prepend(a + b, o),
{
    if let Some(rest) = o {
        assert(a + (b + rest) =~= (a + b) + rest);
    }
}

pub proof fn lemma_sap_uc_of_append(a: Seq<char>, b: Seq<char>)
    ensures
        sap_uc_of(a + b) == sap_uc_of(a) + sap_uc_of(b),
    decreases a.len(),
{
    if a.len() == 0 {
        assert(a + b =~= b);
        assert(sap_uc_of(a) + sap_uc_of(b) =~= sap_uc_of(b));
    } else {
        assert((a + b).drop_first() =~= a.drop_first() + b);
        lemma_sap_uc_of_append(a.drop_first(), b);
        assert(sap_uc_of(a + b) =~= sap_uc_of(a) + sap_uc_of(b));
    }
}

proof fn lemma_char_units_decode(c: char, rest: Seq<u16>)
    ensures
        text_of(char_units(c) + rest) == prepend(seq![c], text_of(rest)),
{
    let v = c as u32;
    let u = char_units(c) + rest;
    if v < 0x10000 {
        assert(u.subrange(1, u.len() as int) =~= rest);
        assert((v as u16) as u32 == v);
    } else {
        let hi = (0xD800 + (v - 0x10000) / 0x400) as u16;
        let lo = (0xDC00 + (v - 0x10000) % 0x400) as u16;
        assert(u.subrange(2, u.len() as int) =~= rest);
        assert(0x10000 + (hi - 0xD800) * 0x400 + (lo - 0xDC00) == v);
    }
}

/// Decoding the encoding of any text gives that text back.
pub proof fn lemma_round_trip(s: Seq<char>)
    ensures
        text_of(sap_uc_of(s)) == Some(s),
    decreases s.len(),
{
    if s.len() == 0 {
    } else {
        lemma_round_trip(s.drop_first());
        lemma_char_units_decode(s[0], sap_uc_of(s.drop_first()));
        assert(seq![s[0]] + s.drop_first() =~= s);
    }
}

/// Relies on `char::from_u32`: it gives the character exactly for Unicode
/// scalar values.
#[verifier::external_body]
fn char_from_scalar(v: u32) -> (r: Option<char>)
    ensures
        is_scalar(v) ==> r == Some(v as char),
        !is_scalar(v) ==> r is None,
{
    char::from_u32(v)
}

/// Relies on `String::push`: it appends one character.
#[verifier::external_body]
fn push_char(s: &mut String, c: char)
    ensures
        final(s)@ == old(s)@.push(c),
{
    s.push(c)
}

/// Encode `value` into wide characters.
pub fn from_str(value: &str) -> (r: Vec<u16>)
    ensures
        r@ == sap_uc_of(value@),
{
    let mut r: Vec<u16> = Vec::new();
    let ghost seen: Seq<char> = Seq::empty();
    for c in it: value.chars()
        invariant
            it.seq() == value@,
            seen == it.seq().take(it.index() as int),
            r@ == sap_uc_of(seen),
    {
        let v = c as u32;
        let ghost before = r@;
        proof {
            vstd::utf8::char_is_scalar(c);
            assert(v == c as u32);
        }
        if v < 0x10000 {
            r.push(v as u16);
        } else {
            r.push((0xD800 + (v - 0x10000) / 0x400) as u16);
            r.push((0xDC00 + (v - 0x10000) % 0x400) as u16);
        }
        proof {
            assert(r@ =~= before + char_units(c));
            lemma_sap_uc_of_append(seen, seq![c]);
            assert(sap_uc_of(seq![c]) =~= char_units(c)) by {
                assert(seq![c].drop_first() =~= Seq::<char>::empty());
                assert(sap_uc_of(Seq::<char>::empty()) == Seq::<u16>::empty());
            }
            assert(seen.push(c) =~= seen + seq![c]);
            seen = seen.push(c);
            assert(seen =~= it.seq().take(it.index() + 1));
        }
    }
    proof {
        assert(seen =~= value@);
    }
    r
}

pub open spec fn min_nat(a: nat, b: nat) -> nat {
    if a <= b { a } else { b }
}

/// Write `units` into a fixed-size field of `dest.len()` units: the first
/// units that fit, then NUL units. Returns how many units of `units` were kept.
pub fn fill_fixed(units: &[u16], dest: &mut Vec<u16>) -> (r: usize)
    ensures
        final(dest)@ == fixed_field(units@, old(dest)@.len()),
        r == min_nat(units@.len(), old(dest)@.len()),
{
    let width = dest.len();
    let n = if units.len() < width { units.len() } else { width };
    let mut i: usize = 0;
    while i < width
        invariant
            0 <= i <= width,
            width == dest@.len(),
            n == min_nat(units@.len(), width as nat),
            forall|j: int| 0 <= j < i ==> dest@[j] == fixed_field(units@, width as nat)[j],
        decreases width - i,
    {
        if i < n {
            dest.set(i, units[i]);
        } else {
            dest.set(i, 0);
        }
        i = i + 1;
    }
    proof {
        assert(dest@ =~= fixed_field(units@, width as nat));
    }
    n
}

/// Encode `value` into the fixed-size field `dest`, silently cutting off what
/// does not fit. Returns the number of units written before the NUL padding.
pub fn from_str_to_slice(value: &str, dest: &mut Vec<u16>) -> (r: usize)
    ensures
        final(dest)@ == fixed_field(sap_uc_of(value@), old(dest)@.len()),
        r == min_nat(sap_uc_of(value@).len(), old(dest)@.len()),
{
    let units = from_str(value);
    fill_fixed(units.as_slice(), dest)
}

/// Encode `value` as a name field of the runtime's fixed name width.
pub fn from_str_to_abap_name(value: &str) -> (r: Vec<u16>)
    ensures
        r@ == fixed_field(sap_uc_of(value@), ABAP_NAME_LEN as nat),
{
    let mut r: Vec<u16> = vec![0u16; ABAP_NAME_LEN];
    from_str_to_slice(value, &mut r);
    r
}

/// Decode the first `size` units of `value`. Fails with a locally built
/// error where those units are not well-formed text.
pub fn to_string(value: &[u16], size: usize) -> (r: Result<String, RfcErrorInfo>)
    requires
        size <= value@.len(),
    ensures
        r is Ok <==> text_of(value@.take(size as int)) is Some,
        r matches Ok(s) ==> Some(s@) == text_of(value@.take(size as int)),
        r matches Err(e) ==> e@ == RfcErrorInfo::invalid_text_record(),
{
    let ghost u = value@.take(size as int);
    let mut out = String::new();
    let mut i: usize = 0;
    proof {
        assert(u.subrange(0, size as int) =~= u);
        lemma_prepend_empty(text_of(u));
    }
    while i < size
        invariant
            0 <= i <= size,
            size <= value@.len(),
            u == value@.take(size as int),
            text_of(u) == prepend(out@, text_of(u.subrange(i as int, size as int))),
        decreases size - i,
    {
        let ghost rest = u.subrange(i as int, size as int);
        let hi = value[i];
        if 0xD800 <= hi && hi < 0xDC00 {
            if i + 1 < size && 0xDC00 <= value[i + 1] && value[i + 1] < 0xE000 {
                let lo = value[i + 1];
                let v: u32 = 0x10000 + (hi as u32 - 0xD800) * 0x400 + (lo as u32 - 0xDC00);
                match char_from_scalar(v) {
                    Some(c) => {
                        proof {
                            assert(rest.subrange(2, rest.len() as int) =~= u.subrange(i + 2, size as int));
                            assert(out@.push(c) =~= out@ + seq![c]);
                            lemma_prepend_assoc(out@, seq![c], text_of(u.subrange(i + 2, size as int)));
                        }
                        push_char(&mut out, c);
                    },
                    None => {
                        return Err(RfcErrorInfo::invalid_text());
                    },
                }
                i = i + 2;
            } else {
                return Err(RfcErrorInfo::invalid_text());
            }
        } else if 0xDC00 <= hi && hi < 0xE000 {
            return Err(RfcErrorInfo::invalid_text());
        } else {
            match char_from_scalar(hi as u32) {
                Some(c) => {
                    proof {
                        assert(rest.subrange(1, rest.len() as int) =~= u.subrange(i + 1, size as int));
                        assert(out@.push(c) =~= out@ + seq![c]);
                        lemma_prepend_assoc(out@, seq![c], text_of(u.subrange(i + 1, size as int)));
                    }
                    push_char(&mut out, c);
                },
                None => {
                    return Err(RfcErrorInfo::invalid_text());
                },
            }
            i = i + 1;
        }
    }
    proof {
        assert(u.subrange(size as int, size as int) =~= Seq::<u16>::empty());
        assert(out@ + Seq::<char>::empty() =~= out@);
    }
    Ok(out)
}

/// Index of the first NUL unit of `value`, or its length if it has none.
pub fn nul_position(value: &[u16]) -> (r: usize)
    ensures
        r == nul_prefix_len(value@),
{
    let mut i: usize = 0;
    proof {
        assert(value@.skip(0) =~= value@);
    }
    while i < value.len()
        invariant
            0 <= i <= value@.len(),
            forall|j: int| 0 <= j < i ==> value@[j] != 0,
            nul_prefix_len(value@) == i + nul_prefix_len(value@.skip(i as int)),
        decreases value@.len() - i,
    {
        if value[i] == 0 {
            return i;
        }
        proof {
            assert(value@.skip(i as int).drop_first() =~= value@.skip(i + 1));
        }
        i = i + 1;
    }
    proof {
        assert(value@.skip(i as int) =~= Seq::<u16>::empty());
    }
    i
}

/// Decode a fixed-size field: the units before its first NUL, or all of
/// them where it has none.
pub fn to_string_truncate(value: &[u16]) -> (r: Result<String, RfcErrorInfo>)
    ensures
        r is Ok <==> field_text(value@) is Some,
        r matches Ok(s) ==> Some(s@) == field_text(value@),
        r matches Err(e) ==> e@ == RfcErrorInfo::invalid_text_record(),
{
    let n = nul_position(value);
    proof {
        lemma_nul_prefix_len_bound(value@);
    }
    to_string(value, n)
}

proof fn lemma_nul_prefix_len_bound(u: Seq<u16>)
    ensures
        nul_prefix_len(u) <= u.len(),
    decreases u.len(),
{
    if u.len() > 0 && u[0] != 0 {
        lemma_nul_prefix_len_bound(u.drop_first());
    }
}

/// A text whose characters all lie in the basic plane, none of them NUL:
/// one unit per character.
pub open spec fn is_plain_bmp(s: Seq<char>) -> bool {
    forall|i: int| 0 <= i < s.len() ==> 0 < (#[trigger] s[i]) as u32 && (s[i] as u32) < 0x10000
}

proof fn lemma_plain_bmp_units(s: Seq<char>)
    requires
        is_plain_bmp(s),
    ensures
        sap_uc_of(s).len() == s.len(),
        forall|i: int| 0 <= i < s.len() ==> (#[trigger] sap_uc_of(s)[i]) == s[i] as u32 as u16,
        forall|i: int| 0 <= i < s.len() ==> (#[trigger] sap_uc_of(s)[i]) != 0,
    decreases s.len(),
{
    if s.len() > 0 {
        let t = s.drop_first();
        assert forall|i: int| 0 <= i < t.len() implies 0 < (#[trigger] t[i]) as u32 && (t[i] as u32) < 0x10000 by {
            assert(t[i] == s[i + 1]);
        }
        lemma_plain_bmp_units(t);
        assert forall|i: int| 0 <= i < s.len() implies (#[trigger] sap_uc_of(s)[i]) == s[i] as u32 as u16 && sap_uc_of(s)[i] != 0 by {
            if i > 0 {
                assert(sap_uc_of(s)[i] == sap_uc_of(t)[i - 1]);
                assert(t[i - 1] == s[i]);
            }
        }
    }
}

proof fn lemma_nul_prefix_len_at(u: Seq<u16>, k: nat)
    requires
        k <= u.len(),
        forall|i: int| 0 <= i < k ==> u[i] != 0,
        k == u.len() || u[k as int] == 0,
    ensures
        nul_prefix_len(u) == k,
    decreases k,
{
    if k > 0 {
        let t = u.drop_first();
        assert forall|i: int| 0 <= i < k - 1 implies t[i] != 0 by {
            assert(t[i] == u[i + 1]);
        }
        lemma_nul_prefix_len_at(t, (k - 1) as nat);
    }
}

/// Encoding a text into a fixed-size field and decoding the field up to its
/// first NUL gives the text cut to the field's width, for text with one unit
/// per character and no NUL: the whole text where it fits, else its first
/// `width` characters.
pub proof fn lemma_fixed_field_text(s: Seq<char>, width: nat)
    requires
        is_plain_bmp(s),
    ensures
        field_text(fixed_field(sap_uc_of(s), width)) == Some(s.take(min_nat(s.len(), width) as int)),
{
    lemma_plain_bmp_units(s);
    let u = sap_uc_of(s);
    let f = fixed_field(u, width);
    let m = min_nat(s.len(), width);
    lemma_nul_prefix_len_at(f, m);
    let t = s.take(m as int);
    assert forall|i: int| 0 <= i < t.len() implies 0 < (#[trigger] t[i]) as u32 && (t[i] as u32) < 0x10000 by {
        assert(t[i] == s[i]);
    }
    lemma_plain_bmp_units(t);
    assert(f.take(m as int) =~= sap_uc_of(t));
    lemma_round_trip(t);
}

/// A text without NUL characters comes back whole from the encoder and the
/// NUL-terminated decoder.
pub proof fn lemma_truncate_round_trip(s: Seq<char>)
    requires
        forall|i: int| 0 <= i < s.len() ==> (#[trigger] s[i]) != '\0',
    ensures
        nul_prefix_len(sap_uc_of(s)) == sap_uc_of(s).len(),
        field_text(sap_uc_of(s)) == Some(s),
{
    lemma_units_nonzero(s);
    lemma_nul_prefix_len_at(sap_uc_of(s), sap_uc_of(s).len());
    assert(sap_uc_of(s).take(sap_uc_of(s).len() as int) =~= sap_uc_of(s));
    lemma_round_trip(s);
}

proof fn lemma_units_nonzero(s: Seq<char>)
    requires
        forall|i: int| 0 <= i < s.len() ==> (#[trigger] s[i]) != '\0',
    ensures
        forall|i: int| 0 <= i < sap_uc_of(s).len() ==> (#[trigger] sap_uc_of(s)[i]) != 0,
    decreases s.len(),
{
    if s.len() > 0 {
        let t = s.drop_first();
        assert forall|i: int| 0 <= i < t.len() implies (#[trigger] t[i]) != '\0' by {
            assert(t[i] == s[i + 1]);
        }
        lemma_units_nonzero(t);
        let c = s[0];
        assert(c != '\0');
        assert((c as u32) != 0) by {
            vstd::utf8::char_u32_cast(c, c as u32);
            if (c as u32) == 0 {
                assert((0u32 as char) == '\0');
            }
        }
        assert forall|i: int| 0 <= i < sap_uc_of(s).len() implies (#[trigger] sap_uc_of(s)[i]) != 0 by {
            if i >= char_units(c).len() {
                assert(sap_uc_of(s)[i] == sap_uc_of(t)[i - char_units(c).len()]);
            } else {
                assert(sap_uc_of(s)[i] == char_units(c)[i]);
                let v = c as u32;
                if v < 0x10000 {
                    assert((v as u16) as u32 == v);
                } else {
                    vstd::utf8::char_is_scalar(c);
                    assert(0xD800 <= 0xD800 + (v - 0x10000) / 0x400 < 0x10000);
                    assert(0xDC00 <= 0xDC00 + (v - 0x10000) % 0x400 < 0x10000);
                }
            }
        }
    }
}

} // verus!
