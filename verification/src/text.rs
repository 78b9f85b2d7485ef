//! Small verified utilities over strings: equality, substring search,
//! decimal rendering and parsing of unsigned integers.

use vstd::prelude::*;

verus! {

/// `n` occurs as a contiguous run of characters somewhere in `h`.
pub open spec fn has_substring(h: Seq<char>, n: Seq<char>) -> bool {
    exists|i: int| 0 <= i && i + n.len() <= h.len() && #[trigger] h.subrange(i, i + n.len()) == n
}

/// Character-by-character string equality, decided in executable code.
pub fn str_eq(a: &str, b: &str) -> (r: bool)
    ensures
        r == (a@ == b@),
{
    let alen = a.unicode_len();
    let blen = b.unicode_len();
    if alen != blen {
        return false;
    }
    let mut i: usize = 0;
    while i < alen
        invariant
            alen == a@.len(),
            blen == b@.len(),
            alen == blen,
            0 <= i <= alen,
            forall|j: int| 0 <= j < i ==> a@[j] == b@[j],
        decreases alen - i,
    {
        if a.get_char(i) != b.get_char(i) {
            return false;
        }
        i += 1;
    }
    proof {
        assert(a@ =~= b@);
    }
    true
}

/// Decides whether `needle` occurs contiguously inside `hay`.
pub fn contains_sub(hay: &str, needle: &str) -> (r: bool)
    ensures
        r == has_substring(hay@, needle@),
{
    let hlen = hay.unicode_len();
    let nlen = needle.unicode_len();
    if nlen > hlen {
        return false;
    }
    if nlen == 0 {
        proof {
            assert(hay@.subrange(0, 0 + needle@.len() as int) =~= needle@);
        }
        return true;
    }
    let last = hlen - nlen;
    let mut i: usize = 0;
    while i <= last
        invariant
            hlen == hay@.len(),
            nlen == needle@.len(),
            0 < nlen <= hlen,
            last == hlen - nlen,
            0 <= i <= last + 1,
            forall|j: int| 0 <= j < i ==> #[trigger] hay@.subrange(j, j + nlen as int)
                != needle@,
        decreases last + 1 - i,
    {
        let mut k: usize = 0;
        let mut matched = true;
        while k < nlen && matched
            invariant
                hlen == hay@.len(),
                nlen == needle@.len(),
                0 <= i,
                i + nlen <= hlen,
                0 <= k <= nlen,
                matched ==> forall|m: int| 0 <= m < k ==> hay@[i + m] == needle@[m],
                !matched ==> hay@.subrange(i as int, i + nlen as int) != needle@,
            decreases nlen - k + (if matched { 1int } else { 0int }),
        {
            if hay.get_char(i + k) != needle.get_char(k) {
                proof {
                    let sub = hay@.subrange(i as int, i + nlen as int);
                    assert(sub[k as int] == hay@[i + k]);
                }
                matched = false;
            } else {
                k += 1;
            }
        }
        if matched {
            proof {
                let sub = hay@.subrange(i as int, i + nlen as int);
                assert forall|m: int| 0 <= m < nlen implies sub[m] == needle@[m] by {
                    assert(sub[m] == hay@[i + m]);
                    assert(hay@[i + m] == needle@[m]);
                }
                assert(sub =~= needle@);
            }
            return true;
        }
        i += 1;
    }
    proof {
        assert forall|j: int| 0 <= j && j + needle@.len() <= hay@.len() implies #[trigger] hay@
            .subrange(j, j + needle@.len()) != needle@ by {
            assert(j < i);
        }
    }
    false
}

/// The character for a single decimal digit.
pub open spec fn spec_digit_char(d: nat) -> char {
    if d == 0 {
        '0'
    } else if d == 1 {
        '1'
    } else if d == 2 {
        '2'
    } else if d == 3 {
        '3'
    } else if d == 4 {
        '4'
    } else if d == 5 {
        '5'
    } else if d == 6 {
        '6'
    } else if d == 7 {
        '7'
    } else if d == 8 {
        '8'
    } else {
        '9'
    }
}

/// The decimal rendering of `n`, most significant digit first, no sign and no
/// leading zeros (except for `n == 0`, rendered as a single `'0'`).
pub open spec fn dec_digits(n: nat) -> Seq<char>
    decreases n,
{
    if n < 10 {
        seq![spec_digit_char(n)]
    } else {
        dec_digits(n / 10).push(spec_digit_char(n % 10))
    }
}

fn digit_str(d: u32) -> (r: &'static str)
    requires
        d < 10,
    ensures
        r@ == seq![spec_digit_char(d as nat)],
{
    proof {
        reveal_strlit("0");
        reveal_strlit("1");
        reveal_strlit("2");
        reveal_strlit("3");
        reveal_strlit("4");
        reveal_strlit("5");
        reveal_strlit("6");
        reveal_strlit("7");
        reveal_strlit("8");
        reveal_strlit("9");
    }
    let r = match d {
        0 => "0",
        1 => "1",
        2 => "2",
        3 => "3",
        4 => "4",
        5 => "5",
        6 => "6",
        7 => "7",
        8 => "8",
        _ => "9",
    };
    proof {
        assert(r@ =~= seq![spec_digit_char(d as nat)]);
    }
    r
}

/// Renders `n` in decimal.
pub fn u32_to_dec(n: u32) -> (r: String)
    ensures
        r@ == dec_digits(n as nat),
    decreases n,
{
    if n < 10 {
        digit_str(n).to_owned()
    } else {
        let mut s = u32_to_dec(n / 10);
        s.append(digit_str(n % 10));
        proof {
            assert(s@ =~= dec_digits(n as nat));
        }
        s
    }
}

/// `c` is one of the characters `'0'` through `'9'`.
pub open spec fn is_dec_digit(c: char) -> bool {
    '0' as u32 <= c as u32 && c as u32 <= '9' as u32
}

/// The numeric value of a decimal digit character.
pub open spec fn digit_value(c: char) -> nat {
    (c as u32 - '0' as u32) as nat
}

/// Every character of `s` is a decimal digit.
pub open spec fn all_dec_digits(s: Seq<char>) -> bool {
    forall|i: int| 0 <= i < s.len() ==> is_dec_digit(#[trigger] s[i])
}

/// The number denoted by a string of decimal digits.
pub open spec fn dec_value(s: Seq<char>) -> nat
    decreases s.len(),
{
    if s.len() == 0 {
        0
    } else {
        dec_value(s.drop_last()) * 10 + digit_value(s.last())
    }
}

proof fn lemma_dec_value_prefix_le(s: Seq<char>, i: int)
    requires
        0 <= i <= s.len(),
    ensures
        dec_value(s.take(i)) <= dec_value(s),
    decreases s.len() - i,
{
    if i < s.len() {
        assert(s.take(i + 1).drop_last() =~= s.take(i));
        assert(s.take(i + 1).last() == s[i]);
        assert(dec_value(s.take(i)) <= dec_value(s.take(i)) * 10 + digit_value(s[i]));
        lemma_dec_value_prefix_le(s, i + 1);
    } else {
        assert(s.take(i) =~= s);
    }
}

/// Parses a non-empty, all-digit decimal string into a `u32`; anything else,
/// and any value too large for a `u32`, yields `None`.
pub fn parse_u32(s: &str) -> (r: Option<u32>)
    ensures
        match r {
            Some(n) => s@.len() > 0 && all_dec_digits(s@) && n == dec_value(s@),
            None => s@.len() == 0 || !all_dec_digits(s@) || dec_value(s@) > u32::MAX,
        },
{
    let len = s.unicode_len();
    if len == 0 {
        return None;
    }
    let mut i: usize = 0;
    let mut acc: u64 = 0;
    while i < len
        invariant
            len == s@.len(),
            0 <= i <= len,
            forall|j: int| 0 <= j < i ==> is_dec_digit(#[trigger] s@[j]),
            acc <= u32::MAX,
            acc == dec_value(s@.take(i as int)),
        decreases len - i,
    {
        let c = s.get_char(i);
        let v = c as u32;
        if v < 48 || v > 57 {
            proof {
                assert(!is_dec_digit(s@[i as int]));
            }
            return None;
        }
        let d = (v - 48) as u64;
        let next = acc * 10 + d;
        proof {
            assert(s@.take(i + 1).drop_last() =~= s@.take(i as int));
            assert(s@.take(i + 1).last() == s@[i as int]);
            assert(digit_value(s@[i as int]) == d);
        }
        if next > u32::MAX as u64 {
            proof {
                assert(dec_value(s@.take(i + 1)) == next);
                lemma_dec_value_prefix_le(s@, i + 1);
            }
            return None;
        }
        acc = next;
        i += 1;
    }
    proof {
        assert(s@.take(len as int) =~= s@);
    }
    Some(acc as u32)
}

/// Joins a list of values into one string with a comma between neighbours.
pub open spec fn join_commas(items: Seq<Seq<char>>) -> Seq<char>
    decreases items.len(),
{
    if items.len() == 0 {
        Seq::empty()
    } else if items.len() == 1 {
        items[0]
    } else {
        items[0] + seq![','] + join_commas(items.drop_first())
    }
}

/// Appending one more item to a non-empty join adds a comma and the item.
pub proof fn lemma_join_push(items: Seq<Seq<char>>, x: Seq<char>)
    requires
        items.len() >= 1,
    ensures
        join_commas(items.push(x)) == join_commas(items) + seq![','] + x,
    decreases items.len(),
{
    let p = items.push(x);
    assert(p[0] == items[0]);
    assert(join_commas(p) == p[0] + seq![','] + join_commas(p.drop_first()));
    if items.len() == 1 {
        assert(p.drop_first() =~~= seq![x]);
        assert(join_commas(seq![x]) == x);
        assert(join_commas(items) == items[0]);
        assert(join_commas(p) =~= join_commas(items) + seq![','] + x);
    } else {
        assert(p.drop_first() =~~= items.drop_first().push(x));
        lemma_join_push(items.drop_first(), x);
        assert(join_commas(items) == items[0] + seq![','] + join_commas(items.drop_first()));
        assert(join_commas(p) =~= join_commas(items) + seq![','] + x);
    }
}

/// Splits a string at every comma. A string with no comma yields one item;
/// each comma adds one more, so empty items are kept.
pub open spec fn split_commas(s: Seq<char>) -> Seq<Seq<char>>
    decreases s.len(),
{
    if s.len() == 0 {
        seq![Seq::<char>::empty()]
    } else if s[0] == ',' {
        seq![Seq::<char>::empty()] + split_commas(s.drop_first())
    } else {
        let rest = split_commas(s.drop_first());
        seq![seq![s[0]] + rest[0]] + rest.drop_first()
    }
}

/// `s` holds no comma.
pub open spec fn comma_free(s: Seq<char>) -> bool {
    forall|i: int| 0 <= i < s.len() ==> #[trigger] s[i] != ','
}

proof fn lemma_split_single(s: Seq<char>)
    requires
        comma_free(s),
    ensures
        split_commas(s) == seq![s],
    decreases s.len(),
{
    if s.len() == 0 {
        assert(split_commas(s) =~~= seq![s]);
    } else {
        assert(s[0] != ',');
        lemma_split_single(s.drop_first());
        let rest = split_commas(s.drop_first());
        assert(rest == seq![s.drop_first()]);
        assert(seq![s[0]] + rest[0] =~= s);
        assert(split_commas(s) =~~= seq![s]);
    }
}

proof fn lemma_split_step(p: Seq<char>, t: Seq<char>)
    requires
        comma_free(p),
    ensures
        split_commas(p + seq![','] + t) == seq![p] + split_commas(t),
    decreases p.len(),
{
    let s = p + seq![','] + t;
    if p.len() == 0 {
        assert(s[0] == ',');
        assert(s.drop_first() =~= t);
        assert(split_commas(s) =~~= seq![p] + split_commas(t));
    } else {
        assert(s[0] == p[0]);
        assert(p[0] != ',');
        assert(s.drop_first() =~= p.drop_first() + seq![','] + t);
        lemma_split_step(p.drop_first(), t);
        let rest = split_commas(s.drop_first());
        assert(rest == seq![p.drop_first()] + split_commas(t));
        assert(rest[0] == p.drop_first());
        assert(seq![s[0]] + rest[0] =~= p);
        assert(rest.drop_first() =~~= split_commas(t));
        assert(split_commas(s) =~~= seq![p] + split_commas(t));
    }
}

/// Law: joining a non-empty list of comma-free values with commas and
/// splitting the result at commas returns exactly the original list.
pub proof fn lemma_join_split_roundtrip(items: Seq<Seq<char>>)
    requires
        items.len() >= 1,
        forall|i: int| 0 <= i < items.len() ==> comma_free(#[trigger] items[i]),
    ensures
        split_commas(join_commas(items)) == items,
    decreases items.len(),
{
    if items.len() == 1 {
        lemma_split_single(items[0]);
        assert(split_commas(join_commas(items)) =~~= items);
    } else {
        lemma_join_split_roundtrip(items.drop_first());
        lemma_split_step(items[0], join_commas(items.drop_first()));
        assert(split_commas(join_commas(items)) =~~= seq![items[0]] + items.drop_first());
        assert(seq![items[0]] + items.drop_first() =~= items);
    }
}

} // verus!
