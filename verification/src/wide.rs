//! Decoding of the UTF-16 text buffers delivered by the platform.
//!
//! Registry properties arrive as raw byte buffers holding UTF-16
//! code units in little-endian order. A single-string property is
//! terminated by the first nul unit; a multi-string property is a
//! run of nul-separated segments in which empty segments carry no
//! information and are dropped. Decoding is strict: a buffer with an
//! unpaired surrogate does not decode.

use vstd::prelude::*;

verus! {

/// Whether a code unit is a high (leading) surrogate.
pub open spec fn is_high_surrogate(u: u16) -> bool {
    0xD800 <= u <= 0xDBFF
}

/// Whether a code unit is a low (trailing) surrogate.
pub open spec fn is_low_surrogate(u: u16) -> bool {
    0xDC00 <= u <= 0xDFFF
}

/// The scalar value that a surrogate pair encodes.
pub open spec fn pair_scalar(hi: u16, lo: u16) -> int {
    0x10000 + (hi - 0xD800) * 0x400 + (lo - 0xDC00)
}

/// Whether a value is a Unicode scalar value, that is, the code of
/// some `char`.
pub open spec fn is_unicode_scalar(u: u32) -> bool {
    u < 0xD800 || (0xE000 <= u && u <= 0x10FFFF)
}

/// Strict UTF-16 decoding of a code-unit sequence: `None` when the
/// sequence is ill-formed (it holds an unpaired surrogate).
pub open spec fn decode_utf16(s: Seq<u16>) -> Option<Seq<char>>
    decreases s.len(),
{
    if s.len() == 0 {
        Some(Seq::empty())
    } else if !is_high_surrogate(s[0]) && !is_low_surrogate(s[0]) {
        match decode_utf16(s.drop_first()) {
            Some(rest) => Some(seq![s[0] as char] + rest),
            None => None,
        }
    } else if is_high_surrogate(s[0]) && s.len() >= 2 && is_low_surrogate(s[1]) {
        match decode_utf16(s.skip(2)) {
            Some(rest) => Some(seq![pair_scalar(s[0], s[1]) as char] + rest),
            None => None,
        }
    } else {
        None
    }
}

/// The code units of the pairs of a little-endian byte buffer; a
/// trailing odd byte carries no unit.
pub open spec fn spec_units_of_bytes(b: Seq<u8>) -> Seq<u16> {
    Seq::new(b.len() / 2, |i: int| (b[2 * i] + 256 * b[2 * i + 1]) as u16)
}

/// Relies on char::from_u32: the result is `Some` exactly for Unicode
/// scalar values, and then holds the character with that code.
pub assume_specification[ char::from_u32 ](u: u32) -> (r: Option<char>)
    ensures
        r is Some <==> is_unicode_scalar(u),
        r matches Some(c) ==> c == u as char && c as u32 == u,
;

/// Relies on String::push: appends the given character at the end of
/// the string.
pub assume_specification[ String::push ](s: &mut String, c: char)
    ensures
        final(s)@ == old(s)@.push(c),
;

/// Turn a little-endian byte buffer into its UTF-16 code units.
pub fn units_from_bytes(buf: &Vec<u8>) -> (r: Vec<u16>)
    ensures
        r@ == spec_units_of_bytes(buf@),
{
    let mut out: Vec<u16> = Vec::new();
    let blen: usize = buf.len();
    let n: usize = blen / 2;
    let mut i: usize = 0;
    while i < n
        invariant
            blen == buf@.len(),
            n == buf@.len() / 2,
            i <= n,
            out@.len() == i,
            forall|k: int| 0 <= k < i ==> out@[k] == spec_units_of_bytes(buf@)[k],
        decreases n - i,
    {
        proof {
            assert(2 * i + 1 < blen);
        }
        let u: u16 = buf[2 * i] as u16 + 256 * (buf[2 * i + 1] as u16);
        out.push(u);
        i = i + 1;
    }
    proof {
        assert(out@ =~= spec_units_of_bytes(buf@));
    }
    out
}

/// Decode a whole UTF-16 code-unit buffer into a string; `None` when
/// the buffer holds an unpaired surrogate.
pub fn utf16_to_string(units: &Vec<u16>) -> (r: Option<String>)
    ensures
        match r {
            Some(s) => decode_utf16(units@) == Some(s@),
            None => decode_utf16(units@) is None,
        },
{
    let n: usize = units.len();
    let mut out = String::new();
    let mut i: usize = 0;
    proof {
        assert(units@.skip(0) =~= units@);
        if decode_utf16(units@) is Some {
            let rest0 = decode_utf16(units@).unwrap();
            assert(out@ + rest0 =~= rest0);
        }
    }
    while i < n
        invariant
            n == units@.len(),
            i <= n,
            decode_utf16(units@) is Some <==> decode_utf16(units@.skip(i as int)) is Some,
            decode_utf16(units@.skip(i as int)) matches Some(rest) ==> decode_utf16(units@)
                == Some(out@ + rest),
        decreases n - i,
    {
        let ghost tail = units@.skip(i as int);
        let ghost out0 = out@;
        let u: u16 = units[i];
        if u < 0xD800 || u > 0xDFFF {
            let c = char::from_u32(u as u32).unwrap();
            out.push(c);
            proof {
                assert(tail.drop_first() =~= units@.skip(i + 1 as int));
                assert(c == tail[0] as char);
                assert(out@ =~= out0 + seq![c]);
                if decode_utf16(units@.skip(i + 1 as int)) is Some {
                    let rest = decode_utf16(units@.skip(i + 1 as int)).unwrap();
                    assert(decode_utf16(tail) == Some(seq![tail[0] as char] + rest));
                    assert(out0 + (seq![c] + rest) =~= (out0 + seq![c]) + rest);
                }
            }
            i = i + 1;
        } else if u <= 0xDBFF {
            if i + 1 == n {
                proof {
                    assert(decode_utf16(tail) is None);
                }
                return None;
            }
            let v: u16 = units[i + 1];
            if 0xDC00 <= v && v <= 0xDFFF {
                let scalar: u32 = 0x10000 + (u as u32 - 0xD800) * 0x400 + (v as u32 - 0xDC00);
                proof {
                    assert(scalar == pair_scalar(u, v));
                    assert(is_unicode_scalar(scalar));
                }
                let c = char::from_u32(scalar).unwrap();
                out.push(c);
                proof {
                    assert(tail.skip(2) =~= units@.skip(i + 2 as int));
                    assert(tail[0] == u && tail[1] == v);
                    assert(c == pair_scalar(u, v) as char);
                    assert(out@ =~= out0 + seq![c]);
                    if decode_utf16(units@.skip(i + 2 as int)) is Some {
                        let rest = decode_utf16(units@.skip(i + 2 as int)).unwrap();
                        assert(decode_utf16(tail) == Some(seq![pair_scalar(u, v) as char] + rest));
                        assert(out0 + (seq![c] + rest) =~= (out0 + seq![c]) + rest);
                    }
                }
                i = i + 2;
            } else {
                proof {
                    assert(decode_utf16(tail) is None);
                }
                return None;
            }
        } else {
            proof {
                assert(decode_utf16(tail) is None);
            }
            return None;
        }
    }
    proof {
        assert(units@.skip(n as int) =~= Seq::<u16>::empty());
        assert(decode_utf16(units@.skip(n as int)) == Some(Seq::<char>::empty()));
        assert(out@ + Seq::<char>::empty() =~= out@);
    }
    Some(out)
}

/// The code units of a single string: everything before the first nul
/// unit, or the whole buffer when it holds none.
pub open spec fn prefix_to_nul(s: Seq<u16>) -> Seq<u16>
    decreases s.len(),
{
    if s.len() == 0 {
        s
    } else if s[0] == 0 {
        Seq::empty()
    } else {
        seq![s[0]] + prefix_to_nul(s.drop_first())
    }
}

/// The prefix up to the first nul is the take up to the first nul's
/// position.
pub proof fn lemma_prefix_to_nul_take(s: Seq<u16>, i: int)
    requires
        0 <= i <= s.len(),
        forall|k: int| 0 <= k < i ==> s[k] != 0,
        i == s.len() || s[i] == 0,
    ensures
        prefix_to_nul(s) == s.take(i),
    decreases i,
{
    if i == 0 {
        assert(s.take(0) =~= Seq::<u16>::empty());
        if s.len() > 0 {
            assert(s[0] == 0);
        }
    } else {
        assert(s[0] != 0);
        assert(forall|k: int| 0 <= k < i - 1 ==> s.drop_first()[k] == s[k + 1] && s[k + 1] != 0);
        lemma_prefix_to_nul_take(s.drop_first(), i - 1);
        assert(s.take(i) =~= seq![s[0]] + s.drop_first().take(i - 1));
    }
}

/// The prefix up to the first nul never exceeds the buffer.
pub proof fn lemma_prefix_to_nul_len(s: Seq<u16>)
    ensures
        prefix_to_nul(s).len() <= s.len(),
    decreases s.len(),
{
    if s.len() > 0 && s[0] != 0 {
        lemma_prefix_to_nul_len(s.drop_first());
    }
}

/// The decoded text of a single-string (nul-terminated) code-unit
/// buffer.
pub open spec fn spec_decode_wide_sz(s: Seq<u16>) -> Option<Seq<char>> {
    decode_utf16(prefix_to_nul(s))
}

/// Decode a single string out of a wide code-unit buffer: the text
/// before the first nul unit. `None` on ill-formed UTF-16.
pub fn decode_wide_sz(units: &Vec<u16>) -> (r: Option<String>)
    ensures
        match r {
            Some(s) => spec_decode_wide_sz(units@) == Some(s@),
            None => spec_decode_wide_sz(units@) is None,
        },
{
    let n: usize = units.len();
    let mut prefix: Vec<u16> = Vec::new();
    let mut i: usize = 0;
    while i < n && units[i] != 0
        invariant
            n == units@.len(),
            i <= n,
            prefix@ == units@.take(i as int),
            forall|k: int| 0 <= k < i ==> units@[k] != 0,
        decreases n - i,
    {
        prefix.push(units[i]);
        proof {
            assert(prefix@ =~= units@.take(i + 1 as int));
        }
        i = i + 1;
    }
    proof {
        lemma_prefix_to_nul_take(units@, i as int);
    }
    utf16_to_string(&prefix)
}

/// The decoded text of a single-string registry property buffer.
pub open spec fn spec_decode_sz(b: Seq<u8>) -> Option<Seq<char>> {
    spec_decode_wide_sz(spec_units_of_bytes(b))
}

/// Decode a single-string registry property out of its raw byte
/// buffer. `None` on ill-formed UTF-16.
pub fn decode_sz_bytes(buf: &Vec<u8>) -> (r: Option<String>)
    ensures
        match r {
            Some(s) => spec_decode_sz(buf@) == Some(s@),
            None => spec_decode_sz(buf@) is None,
        },
{
    let units = units_from_bytes(buf);
    decode_wide_sz(&units)
}

/// The decoded segments of a multi-string code-unit buffer: the
/// buffer splits on nul units, empty segments are dropped, and each
/// remaining segment decodes independently, in buffer order. `None`
/// when some segment holds ill-formed UTF-16.
pub open spec fn decode_multi(s: Seq<u16>) -> Option<Seq<Seq<char>>>
    decreases s.len(),
    via decode_multi_decreases
{
    if s.len() == 0 {
        Some(Seq::empty())
    } else if s[0] == 0 {
        decode_multi(s.drop_first())
    } else {
        match decode_utf16(prefix_to_nul(s)) {
            None => None,
            Some(text) => if prefix_to_nul(s).len() == s.len() {
                Some(seq![text])
            } else {
                match decode_multi(s.skip(prefix_to_nul(s).len() + 1 as int)) {
                    None => None,
                    Some(rest) => Some(seq![text] + rest),
                }
            },
        }
    }
}

#[via_fn]
proof fn decode_multi_decreases(s: Seq<u16>) {
    lemma_prefix_to_nul_len(s);
}

/// Decode the segments of a multi-string buffer from `start` on.
fn decode_multi_from(units: &Vec<u16>, start: usize) -> (r: Option<Vec<String>>)
    requires
        start <= units@.len(),
    ensures
        match r {
            Some(v) => decode_multi(units@.skip(start as int)) matches Some(d) && v.deep_view()
                == d,
            None => decode_multi(units@.skip(start as int)) is None,
        },
    decreases units@.len() - start,
{
    let ghost tail = units@.skip(start as int);
    let n: usize = units.len();
    if start == n {
        proof {
            assert(tail =~= Seq::<u16>::empty());
        }
        let out: Vec<String> = Vec::new();
        proof {
            assert(out.deep_view() =~= Seq::<Seq<char>>::empty());
        }
        return Some(out);
    }
    if units[start] == 0 {
        proof {
            assert(tail.drop_first() =~= units@.skip(start + 1 as int));
        }
        return decode_multi_from(units, start + 1);
    }
    // scan the current segment up to its terminating nul
    let mut end: usize = start;
    while end < n && units[end] != 0
        invariant
            n == units@.len(),
            start <= end <= n,
            forall|k: int| start <= k < end ==> units@[k] != 0,
        decreases n - end,
    {
        end = end + 1;
    }
    let mut seg: Vec<u16> = Vec::new();
    let mut i: usize = start;
    while i < end
        invariant
            start <= i <= end <= units@.len(),
            seg@ == units@.subrange(start as int, i as int),
        decreases end - i,
    {
        seg.push(units[i]);
        proof {
            assert(seg@ =~= units@.subrange(start as int, i + 1 as int));
        }
        i = i + 1;
    }
    proof {
        assert(forall|k: int| 0 <= k < end - start ==> tail[k] == units@[start + k]);
        assert(end - start < tail.len() ==> tail[end - start] == units@[end as int]);
        lemma_prefix_to_nul_take(tail, end - start);
        assert(seg@ =~= tail.take(end - start));
        assert(prefix_to_nul(tail) == seg@);
    }
    let text = match utf16_to_string(&seg) {
        Some(t) => t,
        None => {
            return None;
        },
    };
    if end == n {
        proof {
            assert(prefix_to_nul(tail).len() == tail.len());
        }
        let mut out: Vec<String> = Vec::new();
        out.push(text);
        proof {
            assert(out.deep_view() =~= seq![text@]);
        }
        return Some(out);
    }
    proof {
        assert(prefix_to_nul(tail).len() < tail.len());
        assert(tail.skip(end - start + 1) =~= units@.skip(end + 1 as int));
    }
    match decode_multi_from(units, end + 1) {
        Some(mut v) => {
            v.insert(0, text);
            proof {
                let d = decode_multi(units@.skip(end + 1 as int)).unwrap();
                assert(v.deep_view() =~= seq![text@] + d);
            }
            Some(v)
        },
        None => None,
    }
}

/// A non-empty, well-formed code-unit sequence decodes to at least
/// one character.
pub proof fn lemma_decode_utf16_nonempty(s: Seq<u16>)
    requires
        s.len() > 0,
        decode_utf16(s) is Some,
    ensures
        decode_utf16(s).unwrap().len() > 0,
{
}

/// Law: an empty segment never appears in a decoded multi-string:
/// consecutive or trailing nul separators leave no trace in the
/// output.
pub proof fn lemma_decode_multi_no_empty(s: Seq<u16>)
    requires
        decode_multi(s) is Some,
    ensures
        forall|j: int|
            0 <= j < decode_multi(s).unwrap().len() ==> decode_multi(s).unwrap()[j].len() > 0,
    decreases s.len(),
{
    lemma_prefix_to_nul_len(s);
    if s.len() == 0 {
    } else if s[0] == 0 {
        lemma_decode_multi_no_empty(s.drop_first());
    } else {
        let p = prefix_to_nul(s);
        lemma_decode_utf16_nonempty(p);
        if p.len() < s.len() {
            lemma_decode_multi_no_empty(s.skip(p.len() + 1 as int));
        }
    }
}

/// Law: decoding is a pure function of the raw buffer: decoding the
/// same buffer twice yields the same segments, in the same order.
pub proof fn lemma_decode_multi_repeatable(a: Seq<u16>, b: Seq<u16>)
    requires
        a == b,
    ensures
        decode_multi(a) == decode_multi(b),
{
}

/// A canonical multi-string buffer: each segment followed by one nul
/// separator.
pub open spec fn join_multi(segs: Seq<Seq<u16>>) -> Seq<u16>
    decreases segs.len(),
{
    if segs.len() == 0 {
        Seq::empty()
    } else {
        segs[0] + seq![0u16] + join_multi(segs.drop_first())
    }
}

/// Law (round trip): a canonical multi-string buffer made of
/// non-empty, nul-free, well-formed segments decodes back to exactly
/// those segments' texts, in order; an extra trailing terminator
/// changes nothing.
pub proof fn lemma_multi_roundtrip(segs: Seq<Seq<u16>>)
    requires
        forall|j: int| 0 <= j < segs.len() ==> segs[j].len() > 0,
        forall|j: int, k: int|
            0 <= j < segs.len() && 0 <= k < segs[j].len() ==> segs[j][k] != 0,
        forall|j: int| 0 <= j < segs.len() ==> decode_utf16(segs[j]) is Some,
    ensures
        decode_multi(join_multi(segs)) == Some(
            Seq::new(segs.len(), |j: int| decode_utf16(segs[j]).unwrap()),
        ),
        decode_multi(join_multi(segs) + seq![0u16]) == Some(
            Seq::new(segs.len(), |j: int| decode_utf16(segs[j]).unwrap()),
        ),
    decreases segs.len(),
{
    let dec = Seq::new(segs.len(), |j: int| decode_utf16(segs[j]).unwrap());
    if segs.len() == 0 {
        assert(join_multi(segs) =~= Seq::<u16>::empty());
        assert((join_multi(segs) + seq![0u16]).drop_first() =~= Seq::<u16>::empty());
        assert(dec =~= Seq::<Seq<char>>::empty());
    } else {
        let s0 = segs[0];
        let rest = segs.drop_first();
        assert(forall|j: int| 0 <= j < rest.len() ==> rest[j] == segs[j + 1]);
        lemma_multi_roundtrip(rest);
        let jrest = join_multi(rest);
        let decr = Seq::new(rest.len(), |j: int| decode_utf16(rest[j]).unwrap());
        let s = join_multi(segs);
        assert(s == s0 + seq![0u16] + jrest);
        assert(s.len() == s0.len() + 1 + jrest.len());
        assert(forall|k: int| 0 <= k < s0.len() ==> s[k] == s0[k]);
        assert(s[s0.len() as int] == 0);
        lemma_prefix_to_nul_take(s, s0.len() as int);
        assert(prefix_to_nul(s) =~= s0);
        assert(s.skip(s0.len() + 1 as int) =~= jrest);
        let text = decode_utf16(s0).unwrap();
        assert(decode_multi(s) == Some(seq![text] + decr));
        assert(seq![text] + decr =~= dec);
        // the trailing-terminator form
        let t = s + seq![0u16];
        assert(t =~= s0 + seq![0u16] + (jrest + seq![0u16]));
        assert(forall|k: int| 0 <= k < s0.len() ==> t[k] == s0[k]);
        assert(t[s0.len() as int] == 0);
        lemma_prefix_to_nul_take(t, s0.len() as int);
        assert(prefix_to_nul(t) =~= s0);
        assert(t.skip(s0.len() + 1 as int) =~= jrest + seq![0u16]);
        assert(decode_multi(t) == Some(seq![text] + decr));
    }
}

/// The decoded segments of a multi-string registry property buffer.
pub open spec fn spec_decode_multi_sz(b: Seq<u8>) -> Option<Seq<Seq<char>>> {
    decode_multi(spec_units_of_bytes(b))
}

/// Decode a multi-string registry property out of its raw byte
/// buffer: its non-empty nul-separated segments, in buffer order.
/// `None` on ill-formed UTF-16.
pub fn decode_multi_sz_bytes(buf: &Vec<u8>) -> (r: Option<Vec<String>>)
    ensures
        match r {
            Some(v) => spec_decode_multi_sz(buf@) matches Some(d) && v.deep_view() == d,
            None => spec_decode_multi_sz(buf@) is None,
        },
{
    let units = units_from_bytes(buf);
    proof {
        assert(units@.skip(0) =~= units@);
    }
    decode_multi_from(&units, 0)
}

} // verus!
