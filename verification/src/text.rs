//! Small text helpers over `String`, stated over character sequences.

use vstd::prelude::*;

verus! {

/// `text` with every non-overlapping occurrence of the non-empty `pat`
/// (scanning left to right) replaced by `rep`.
pub open spec fn spec_replace(text: Seq<char>, pat: Seq<char>, rep: Seq<char>) -> Seq<char>
    decreases text.len(),
{
    if pat.len() == 0 || text.len() < pat.len() {
        text
    } else if text.subrange(0, pat.len() as int) == pat {
        rep + spec_replace(text.subrange(pat.len() as int, text.len() as int), pat, rep)
    } else {
        seq![text[0]] + spec_replace(text.subrange(1, text.len() as int), pat, rep)
    }
}

/// `String::push`: appends one character.
#[verifier::external_body]
pub(crate) fn push_char(s: &mut String, c: char)
    ensures
        final(s)@ == old(s)@.push(c),
{
    s.push(c);
}

/// `String::pop`: removes and returns the last character, if any.
#[verifier::external_body]
pub(crate) fn pop_char(s: &mut String) -> (r: Option<char>)
    ensures
        old(s)@.len() == 0 ==> r is None && final(s)@ == old(s)@,
        old(s)@.len() > 0 ==> r == Some(old(s)@.last()) && final(s)@ == old(s)@.drop_last(),
{
    s.pop()
}

/// `text` with every non-overlapping occurrence of the non-empty `pat`,
/// scanning left to right, replaced by `rep`.
pub(crate) fn replace_all(text: &str, pat: &str, rep: &str) -> (r: String)
    requires
        pat@.len() > 0,
    ensures
        r@ == spec_replace(text@, pat@, rep@),
{
    let n = text.unicode_len();
    let plen = pat.unicode_len();
    let mut out = String::new();
    let mut i: usize = 0;
    proof {
        reveal_strlit("");
        assert(text@.subrange(0, n as int) =~= text@);
    }
    while i < n
        invariant
            n == text@.len(),
            plen == pat@.len(),
            plen > 0,
            i <= n,
            out@ + spec_replace(text@.subrange(i as int, n as int), pat@, rep@) == spec_replace(text@, pat@, rep@),
        decreases n - i,
    {
        let ghost rest = text@.subrange(i as int, n as int);
        if plen <= n - i && str_eq(text.substring_char(i, i + plen), pat) {
            proof {
                assert(rest.subrange(0, plen as int) =~= text@.subrange(i as int, i + plen));
                assert(rest.subrange(plen as int, rest.len() as int) =~= text@.subrange(i + plen, n as int));
                assert(out@ + rep@ + spec_replace(text@.subrange(i + plen, n as int), pat@, rep@)
                    =~= out@ + spec_replace(rest, pat@, rep@));
            }
            out.append(rep);
            i = i + plen;
        } else {
            let c = text.get_char(i);
            proof {
                assert(rest.subrange(1, rest.len() as int) =~= text@.subrange(i + 1, n as int));
                if rest.len() < pat@.len() {
                    assert(spec_replace(text@.subrange(i + 1, n as int), pat@, rep@) == text@.subrange(i + 1, n as int));
                    assert(rest =~= seq![c] + text@.subrange(i + 1, n as int));
                } else {
                    assert(rest.subrange(0, plen as int) =~= text@.subrange(i as int, i + plen));
                }
                assert(out@.push(c) + spec_replace(text@.subrange(i + 1, n as int), pat@, rep@)
                    =~= out@ + spec_replace(rest, pat@, rep@));
            }
            push_char(&mut out, c);
            i = i + 1;
        }
    }
    proof {
        assert(text@.subrange(n as int, n as int) =~= Seq::<char>::empty());
        assert(out@ + Seq::<char>::empty() =~= out@);
    }
    out
}

/// `prefix`, the decimal digits of `n`, then `suffix`.
pub(crate) fn number_text(prefix: &str, n: u8, suffix: &str) -> (s: String)
    ensures
        s@ == prefix@ + spec_decimal(n as nat) + suffix@,
{
    let mut s = String::from_str(prefix);
    push_decimal(&mut s, n as u32);
    s.concat(suffix)
}

/// Number of characters (not bytes) of `s`.
pub fn char_count(s: &str) -> (n: usize)
    ensures
        n == s@.len(),
{
    s.unicode_len()
}

/// Whether two strings hold the same characters.
pub fn str_eq(a: &str, b: &str) -> (r: bool)
    ensures
        r == (a@ == b@),
{
    let n = a.unicode_len();
    if n != b.unicode_len() {
        return false;
    }
    let mut i: usize = 0;
    while i < n
        invariant
            n == a@.len(),
            n == b@.len(),
            i <= n,
            forall|k: int| 0 <= k < i ==> a@[k] == b@[k],
        decreases n - i,
    {
        if a.get_char(i) != b.get_char(i) {
            return false;
        }
        i += 1;
    }
    assert(a@ =~= b@);
    true
}

/// The decimal digit character of `d` (0..=9).
pub open spec fn spec_digit(d: nat) -> char {
    if d == 0 { '0' } else if d == 1 { '1' } else if d == 2 { '2' } else if d == 3 { '3' } else if d == 4 {
        '4'
    } else if d == 5 { '5' } else if d == 6 { '6' } else if d == 7 { '7' } else if d == 8 { '8' } else { '9' }
}

/// The decimal representation of `n`, without leading zeros ("0" for 0).
pub open spec fn spec_decimal(n: nat) -> Seq<char>
    decreases n,
{
    if n < 10 {
        seq![spec_digit(n)]
    } else {
        spec_decimal(n / 10).push(spec_digit(n % 10))
    }
}

fn digit_char(d: u32) -> (c: char)
    requires
        d < 10,
    ensures
        c == spec_digit(d as nat),
{
    if d == 0 { '0' } else if d == 1 { '1' } else if d == 2 { '2' } else if d == 3 { '3' } else if d == 4 {
        '4'
    } else if d == 5 { '5' } else if d == 6 { '6' } else if d == 7 { '7' } else if d == 8 { '8' } else { '9' }
}

/// Appends the decimal representation of `n`.
pub fn push_decimal(s: &mut String, n: u32)
    ensures
        final(s)@ == old(s)@ + spec_decimal(n as nat),
    decreases n,
{
    if n >= 10 {
        push_decimal(s, n / 10);
    }
    push_char(s, digit_char(n % 10));
    assert(s@ =~= old(s)@ + spec_decimal(n as nat));
}

/// Items joined by `", "`.
pub open spec fn spec_join_comma(items: Seq<Seq<char>>) -> Seq<char>
    decreases items.len(),
{
    if items.len() == 0 {
        Seq::empty()
    } else if items.len() == 1 {
        items[0]
    } else {
        spec_join_comma(items.drop_last()) + ", "@ + items.last()
    }
}

/// Items in list brackets, `[a, b, c]`, as `Debug` writes a slice.
pub open spec fn spec_list(items: Seq<Seq<char>>) -> Seq<char> {
    "["@ + spec_join_comma(items) + "]"@
}

/// The decimal texts of bytes.
pub open spec fn spec_u8_texts(v: Seq<u8>) -> Seq<Seq<char>> {
    v.map_values(|x: u8| spec_decimal(x as nat))
}

/// The decimal texts of 16-bit numbers.
pub open spec fn spec_u16_texts(v: Seq<u16>) -> Seq<Seq<char>> {
    v.map_values(|x: u16| spec_decimal(x as nat))
}

/// Extending the joined prefix of `items` by one item.
pub proof fn lemma_join_comma_step(items: Seq<Seq<char>>, i: int)
    requires
        0 <= i < items.len(),
    ensures
        spec_join_comma(items.subrange(0, i + 1)) == if i == 0 {
            items[0]
        } else {
            spec_join_comma(items.subrange(0, i)) + ", "@ + items[i]
        },
{
    assert(items.subrange(0, i + 1).drop_last() =~= items.subrange(0, i));
}

/// Appends `[b0, b1, ...]`, the `Debug` form of a byte slice.
pub(crate) fn push_u8_list(s: &mut String, v: &[u8])
    ensures
        final(s)@ == old(s)@ + spec_list(spec_u8_texts(v@)),
{
    let ghost items = spec_u8_texts(v@);
    let ghost start = s@;
    s.append("[");
    let mut i: usize = 0;
    proof {
        assert(items.subrange(0, 0) =~= Seq::<Seq<char>>::empty());
    }
    while i < v.len()
        invariant
            i <= v@.len(),
            items == spec_u8_texts(v@),
            items.len() == v@.len(),
            s@ == start + "["@ + spec_join_comma(items.subrange(0, i as int)),
        decreases v@.len() - i,
    {
        proof {
            lemma_join_comma_step(items, i as int);
        }
        if i > 0 {
            s.append(", ");
        }
        push_decimal(s, v[i] as u32);
        proof {
            assert(items[i as int] == spec_decimal(v@[i as int] as nat));
            if i == 0 {
                assert(s@ =~= start + "["@ + items[0]);
            } else {
                assert(s@ =~= start + "["@ + (spec_join_comma(items.subrange(0, i as int)) + ", "@ + items[i as int]));
            }
        }
        i += 1;
    }
    s.append("]");
    proof {
        assert(items.subrange(0, v@.len() as int) =~= items);
        assert(s@ =~= start + ("["@ + spec_join_comma(items) + "]"@));
    }
}

/// Appends `[n0, n1, ...]`, the `Debug` form of a slice of 16-bit numbers.
pub(crate) fn push_u16_list(s: &mut String, v: &[u16])
    ensures
        final(s)@ == old(s)@ + spec_list(spec_u16_texts(v@)),
{
    let ghost items = spec_u16_texts(v@);
    let ghost start = s@;
    s.append("[");
    let mut i: usize = 0;
    proof {
        assert(items.subrange(0, 0) =~= Seq::<Seq<char>>::empty());
    }
    while i < v.len()
        invariant
            i <= v@.len(),
            items == spec_u16_texts(v@),
            items.len() == v@.len(),
            s@ == start + "["@ + spec_join_comma(items.subrange(0, i as int)),
        decreases v@.len() - i,
    {
        proof {
            lemma_join_comma_step(items, i as int);
        }
        if i > 0 {
            s.append(", ");
        }
        push_decimal(s, v[i] as u32);
        proof {
            assert(items[i as int] == spec_decimal(v@[i as int] as nat));
            if i == 0 {
                assert(s@ =~= start + "["@ + items[0]);
            } else {
                assert(s@ =~= start + "["@ + (spec_join_comma(items.subrange(0, i as int)) + ", "@ + items[i as int]));
            }
        }
        i += 1;
    }
    s.append("]");
    proof {
        assert(items.subrange(0, v@.len() as int) =~= items);
        assert(s@ =~= start + ("["@ + spec_join_comma(items) + "]"@));
    }
}

/// What `Debug` writes for a string: the text in double quotes, with std's
/// character escapes. It depends on the characters alone.
pub uninterp spec fn spec_debug_str(s: Seq<char>) -> Seq<char>;

/// `<str as Debug>::fmt`, through `format!("{:?}", ..)`: the result is
/// [`spec_debug_str`] of the characters (std's escape rules are not written
/// out here).
#[verifier::external_body]
pub(crate) fn debug_str(s: &str) -> (r: String)
    ensures
        r@ == spec_debug_str(s@),
{
    format!("{:?}", s)
}

/// The value of a non-empty run of decimal digits.
pub open spec fn spec_digits_value(d: Seq<char>) -> nat
    decreases d.len(),
{
    if d.len() == 0 {
        0
    } else {
        spec_digits_value(d.drop_last()) * 10 + ((d.last() as u32) - 48) as nat
    }
}

pub open spec fn is_digit(c: char) -> bool {
    '0' <= c && c <= '9'
}

pub open spec fn all_digits(d: Seq<char>) -> bool {
    forall|i: int| 0 <= i < d.len() ==> is_digit(#[trigger] d[i])
}

/// What `str::parse` gives for an unsigned integer type whose largest value
/// is `max`: an optional leading `+`, then at least one decimal digit and
/// nothing else, with a value at most `max`.
pub open spec fn spec_parse_unsigned(s: Seq<char>, max: nat) -> Option<nat> {
    let d = if s.len() > 0 && s[0] == '+' { s.drop_first() } else { s };
    if d.len() == 0 || !all_digits(d) {
        None
    } else if spec_digits_value(d) > max {
        None
    } else {
        Some(spec_digits_value(d))
    }
}

proof fn lemma_digits_value_grows(d: Seq<char>, k: int)
    requires
        0 <= k <= d.len(),
        forall|i: int| 0 <= i < d.len() ==> is_digit(#[trigger] d[i]),
    ensures
        spec_digits_value(d.subrange(0, k)) <= spec_digits_value(d),
    decreases d.len() - k,
{
    if k < d.len() {
        lemma_digits_value_grows(d, k + 1);
        let p = d.subrange(0, k + 1);
        assert(p.drop_last() =~= d.subrange(0, k));
    } else {
        assert(d.subrange(0, k) =~= d);
    }
}

/// `str::parse` for an unsigned integer type whose largest value is `max`.
pub fn parse_unsigned(s: &str, max: u32) -> (r: Option<u32>)
    requires
        max <= 0xFFFF,
    ensures
        match spec_parse_unsigned(s@, max as nat) {
            Some(v) => r == Some(v as u32),
            None => r is None,
        },
{
    let n = s.unicode_len();
    let start: usize = if n > 0 && s.get_char(0) == '+' { 1 } else { 0 };
    let ghost d = if s@.len() > 0 && s@[0] == '+' { s@.drop_first() } else { s@ };
    assert(d =~= s@.subrange(start as int, n as int));
    if start == n {
        return None;
    }
    let mut value: u32 = 0;
    let mut i: usize = start;
    while i < n
        invariant
            start <= i <= n,
            n == s@.len(),
            d =~= s@.subrange(start as int, n as int),
            d == (if s@.len() > 0 && s@[0] == '+' { s@.drop_first() } else { s@ }),
            d.len() > 0,
            max <= 0xFFFF,
            value <= max,
            forall|k: int| start <= k < i ==> is_digit(#[trigger] s@[k]),
            value as nat == spec_digits_value(s@.subrange(start as int, i as int)),
        decreases n - i,
    {
        let c = s.get_char(i);
        if !('0' <= c && c <= '9') {
            assert(!is_digit(d[i - start]));
            return None;
        }
        let digit = (c as u32) - 48;
        let next = value * 10 + digit;
        assert(s@.subrange(start as int, i + 1).drop_last() =~= s@.subrange(start as int, i as int));
        if next > max {
            proof {
                if all_digits(d) {
                    lemma_digits_value_grows(d, i + 1 - start);
                    assert(d.subrange(0, i + 1 - start) =~= s@.subrange(start as int, i + 1));
                }
            }
            return None;
        }
        value = next;
        i += 1;
    }
    assert(s@.subrange(start as int, n as int) =~= d);
    Some(value)
}

} // verus!
