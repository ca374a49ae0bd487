use crate::outside::choose_char;
use crate::text::{
    ascii_upper, char_upper, chars_of, is_white_space, is_whitespace_char,
    push_upper, string_from_chars, to_upper_chars, upper_all,
};
use vstd::prelude::*;

verus! {

/// The alphabet of generated codes: no `0`, `O`, `1`, `I` or `L`, which handwriting and
/// QR scans confuse.
pub const CHARSET: [char; 31] = [
    'A', 'B', 'C', 'D', 'E', 'F', 'G', 'H', 'J', 'K', 'M', 'N', 'P', 'Q', 'R',
    'S', 'T', 'U', 'V', 'W', 'X', 'Y', 'Z', '2', '3', '4', '5', '6', '7', '8',
    '9',
];

/// A character of the code alphabet.
pub open spec fn is_code_char(c: char) -> bool {
    ||| ('A' <= c <= 'Z' && c != 'I' && c != 'L' && c != 'O')
    ||| ('2' <= c <= '9')
}

/// One character of the code alphabet, picked at random.
pub fn pick_code_char() -> (c: char)
    ensures
        is_code_char(c),
{
    let set: &[char] = &CHARSET;
    match choose_char(set) {
        Some(b) => {
            assert(forall|i: int| 0 <= i < 31 ==> is_code_char(#[trigger] set@[i]));
            b
        },
        None => {
            proof {
                assert(set@.len() == 31);
            }
            'A'
        },
    }
}

/// Whitespace and hyphens, which a code may hold for readability and which
/// normalization drops.
pub open spec fn is_code_separator(c: char) -> bool {
    is_white_space(c) || c == '-'
}

/// The characters of `s` that are not separators, in order.
pub open spec fn kept_code_chars(s: Seq<char>) -> Seq<char> {
    s.filter(keeps_code_char())
}

/// The test that `kept_code_chars` filters by.
pub open spec fn keeps_code_char() -> spec_fn(char) -> bool {
    |c: char| !is_code_separator(c)
}

/// The canonical form of a typed code: separators dropped, the rest upper-cased.
pub open spec fn normalized_code(s: Seq<char>) -> Seq<char> {
    upper_all(kept_code_chars(s))
}

/// One step of `normalized_code` from the end of `s`.
pub proof fn lemma_normalized_step(s: Seq<char>)
    requires
        s.len() > 0,
    ensures
        normalized_code(s) == if is_code_separator(s.last()) {
            normalized_code(s.drop_last())
        } else {
            normalized_code(s.drop_last()) + char_upper(s.last())
        },
{
    reveal(Seq::filter);
    let k = kept_code_chars(s.drop_last());
    assert(keeps_code_char()(s.last()) == !is_code_separator(s.last()));
    if !is_code_separator(s.last()) {
        assert(kept_code_chars(s) == k.push(s.last()));
        assert(k.push(s.last()).drop_last() =~= k);
    } else {
        assert(kept_code_chars(s) == k);
    }
}

/// Normalizes a typed code: drops whitespace and `-`, and upper-cases the rest.
pub fn normalize_code(input: &str) -> (r: String)
    ensures
        r@ == normalized_code(input@),
{
    let cs = chars_of(input);
    let mut out: Vec<char> = Vec::new();
    let mut i: usize = 0;
    while i < cs.len()
        invariant
            0 <= i <= cs@.len(),
            cs@ == input@,
            out@ == normalized_code(cs@.take(i as int)),
        decreases cs@.len() - i,
    {
        let c = cs[i];
        proof {
            lemma_normalized_step(cs@.take(i + 1));
            assert(cs@.take(i + 1).drop_last() =~= cs@.take(i as int));
        }
        if !(is_whitespace_char(c) || c == '-') {
            push_upper(&mut out, c);
        }
        i = i + 1;
    }
    assert(cs@.take(i as int) =~= cs@);
    string_from_chars(out.as_slice())
}

/// Every character of `s` is ASCII.
pub open spec fn is_ascii_seq(s: Seq<char>) -> bool {
    forall|i: int| 0 <= i < s.len() ==> (#[trigger] s[i] as u32) < 128
}

/// Separators may stand anywhere in a typed code: a whitespace character or a hyphen
/// added at any place leaves the normalized code unchanged.
pub proof fn law_separators_ignored(a: Seq<char>, b: Seq<char>, c: char)
    requires
        is_code_separator(c),
    ensures
        normalized_code(a + seq![c] + b) == normalized_code(a + b),
{
    reveal(Seq::filter);
    let p = keeps_code_char();
    Seq::filter_distributes_over_add(a + seq![c], b, p);
    Seq::filter_distributes_over_add(a, seq![c], p);
    Seq::filter_distributes_over_add(a, b, p);
    assert(seq![c].drop_last() =~= Seq::<char>::empty());
    assert(Seq::<char>::empty().filter(p) =~= Seq::<char>::empty());
    assert(seq![c].filter(p) =~= Seq::<char>::empty());
    assert(a.filter(p) + seq![c].filter(p) =~= a.filter(p));
}

/// Codes are case-insensitive: two ASCII inputs that differ only in the case of
/// letters normalize to the same code.
pub proof fn law_ascii_case_insensitive(s: Seq<char>, t: Seq<char>)
    requires
        s.len() == t.len(),
        is_ascii_seq(s),
        is_ascii_seq(t),
        forall|i: int| 0 <= i < s.len() ==> ascii_upper(#[trigger] s[i]) == ascii_upper(t[i]),
    ensures
        normalized_code(s) == normalized_code(t),
    decreases s.len(),
{
    if s.len() > 0 {
        let x = s.last();
        let y = t.last();
        assert(ascii_upper(s[s.len() - 1]) == ascii_upper(t[s.len() - 1]));
        assert((x as u32) < 128 && (y as u32) < 128);
        law_ascii_case_insensitive(s.drop_last(), t.drop_last());
        lemma_normalized_step(s);
        lemma_normalized_step(t);
        assert(is_code_separator(x) == is_code_separator(y));
    }
}

/// On ASCII input, the normalized code holds no separator and no lower-case letter,
/// and is ASCII itself.
pub proof fn law_normalized_ascii_form(s: Seq<char>)
    requires
        is_ascii_seq(s),
    ensures
        is_ascii_seq(normalized_code(s)),
        forall|i: int|
            0 <= i < normalized_code(s).len() ==> !is_code_separator(
                #[trigger] normalized_code(s)[i],
            ) && !('a' <= normalized_code(s)[i] <= 'z'),
    decreases s.len(),
{
    if s.len() > 0 {
        let d = s.drop_last();
        assert(is_ascii_seq(d));
        assert((s[s.len() - 1] as u32) < 128);
        law_normalized_ascii_form(d);
        lemma_normalized_step(s);
    }
}

/// Normalizing twice gives what normalizing once gives, for ASCII input.
pub proof fn law_normalize_idempotent(s: Seq<char>)
    requires
        is_ascii_seq(s),
    ensures
        normalized_code(normalized_code(s)) == normalized_code(s),
    decreases s.len(),
{
    if s.len() > 0 {
        let d = s.drop_last();
        let x = s.last();
        assert(is_ascii_seq(d));
        assert((s[s.len() - 1] as u32) < 128);
        law_normalize_idempotent(d);
        law_normalized_ascii_form(d);
        lemma_normalized_step(s);
        if !is_code_separator(x) {
            let u = ascii_upper(x);
            let nd = normalized_code(d);
            assert(normalized_code(s) == nd.push(u));
            lemma_normalized_step(nd.push(u));
            assert(nd.push(u).drop_last() =~= nd);
            assert((u as u32) < 128);
        }
    } else {
        assert(normalized_code(s) =~= Seq::<char>::empty()) by {
            reveal(Seq::filter);
        }
        assert(normalized_code(Seq::<char>::empty()) =~= Seq::<char>::empty()) by {
            reveal(Seq::filter);
        }
    }
}

/// `length` kept within the bounds that `generate_code` allows.
pub open spec fn clamped_code_length(length: usize) -> int {
    if length < 4 {
        4
    } else if length > 32 {
        32
    } else {
        length as int
    }
}

/// What `generate_code` puts before the random part: the upper-cased prefix, if one is given.
pub open spec fn code_prefix_part(prefix: Option<&str>) -> Seq<char> {
    match prefix {
        Some(p) => if p@.len() > 0 {
            upper_all(p@)
        } else {
            Seq::empty()
        },
        None => Seq::empty(),
    }
}

/// A fresh random code: the upper-cased `prefix` (when one is given and not empty),
/// then `length` characters of the code alphabet, with `length` clamped to `4..=32`.
pub fn generate_code(length: usize, prefix: Option<&str>) -> (r: String)
    ensures
        r@.len() == code_prefix_part(prefix).len() + clamped_code_length(length),
        r@.take(code_prefix_part(prefix).len() as int) == code_prefix_part(prefix),
        forall|i: int|
            code_prefix_part(prefix).len() <= i < r@.len() ==> is_code_char(#[trigger] r@[i]),
{
    let n: usize = if length < 4 {
        4
    } else if length > 32 {
        32
    } else {
        length
    };
    let mut out: Vec<char> = match prefix {
        Some(p) => {
            let pc = chars_of(p);
            if pc.len() > 0 {
                to_upper_chars(&pc)
            } else {
                Vec::new()
            }
        },
        None => Vec::new(),
    };
    let ghost pre = out@;
    assert(pre == code_prefix_part(prefix));
    let mut k: usize = 0;
    while k < n
        invariant
            0 <= k <= n,
            n == clamped_code_length(length),
            out@.len() == pre.len() + k,
            out@.take(pre.len() as int) == pre,
            forall|i: int| pre.len() <= i < out@.len() ==> is_code_char(#[trigger] out@[i]),
        decreases n - k,
    {
        let c = pick_code_char();
        out.push(c);
        k = k + 1;
        assert(out@.take(pre.len() as int) =~= out@.drop_last().take(pre.len() as int));
    }
    string_from_chars(out.as_slice())
}

} // verus!
