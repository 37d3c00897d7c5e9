use vstd::prelude::*;

verus! {

/// The two address families a record can carry: A records hold IPv4, AAAA records IPv6.
#[derive(Clone, Copy, Debug, PartialEq, Eq, Structural)]
pub enum AddressFamily {
    V4,
    V6,
}

pub open spec fn is_digit(c: char) -> bool {
    '0' <= c && c <= '9'
}

pub open spec fn is_hex_digit(c: char) -> bool {
    is_digit(c) || ('a' <= c && c <= 'f') || ('A' <= c && c <= 'F')
}

pub open spec fn all_digits(s: Seq<char>) -> bool {
    forall|i: int| 0 <= i < s.len() ==> is_digit(#[trigger] s[i])
}

/// The value of a string of decimal digits, most significant digit first.
pub open spec fn decimal_value(s: Seq<char>) -> nat
    decreases s.len(),
{
    if s.len() == 0 {
        0
    } else {
        decimal_value(s.drop_last()) * 10 + ((s.last() as u32 - '0' as u32) as nat)
    }
}

/// The pieces of `s` between occurrences of `sep`; a string without `sep` is one piece.
pub open spec fn split_on(s: Seq<char>, sep: char) -> Seq<Seq<char>>
    decreases s.len(),
{
    if s.len() == 0 {
        seq![Seq::empty()]
    } else {
        let init = split_on(s.drop_last(), sep);
        if s.last() == sep {
            init.push(Seq::empty())
        } else {
            init.update(init.len() - 1, init.last().push(s.last()))
        }
    }
}

/// One component of a dotted-quad: one to three digits, no leading zero, at most 255.
pub open spec fn is_octet(s: Seq<char>) -> bool {
    &&& 1 <= s.len() <= 3
    &&& all_digits(s)
    &&& (s.len() > 1 ==> s[0] != '0')
    &&& decimal_value(s) <= 255
}

/// A dotted-quad IPv4 literal such as `192.0.2.1`.
pub open spec fn is_ipv4(s: Seq<char>) -> bool {
    let f = split_on(s, '.');
    f.len() == 4 && forall|i: int| 0 <= i < 4 ==> is_octet(#[trigger] f[i])
}

/// One group of an IPv6 literal: one to four hexadecimal digits.
pub open spec fn is_h16(g: Seq<char>) -> bool {
    &&& 1 <= g.len() <= 4
    &&& forall|i: int| 0 <= i < g.len() ==> is_hex_digit(#[trigger] g[i])
}

pub open spec fn starts_with_double_colon(s: Seq<char>) -> bool {
    s.len() >= 2 && s[0] == ':' && s[1] == ':'
}

pub open spec fn ends_with_double_colon(s: Seq<char>) -> bool {
    s.len() >= 2 && s[s.len() - 1] == ':' && s[s.len() - 2] == ':'
}

/// The colon-separated fields of an IPv6 literal, where a `::` at either end
/// leaves one empty field, as a `::` inside the literal does.
pub open spec fn ipv6_fields(s: Seq<char>) -> Seq<Seq<char>> {
    let f = split_on(s, ':');
    let f1 = if starts_with_double_colon(s) { f.drop_first() } else { f };
    if ends_with_double_colon(s) { f1.drop_last() } else { f1 }
}

pub open spec fn count_empty(f: Seq<Seq<char>>) -> nat
    decreases f.len(),
{
    if f.len() == 0 {
        0
    } else {
        count_empty(f.drop_last()) + if f.last().len() == 0 { 1nat } else { 0nat }
    }
}

/// A field is empty only where it stands for `::`; otherwise it is a group,
/// or, in last place, an embedded IPv4 literal.
pub open spec fn ipv6_field_ok(f: Seq<Seq<char>>, i: int, lead: bool, trail: bool) -> bool {
    if f[i].len() == 0 {
        (i == 0 ==> lead) && (i == f.len() - 1 ==> trail)
    } else {
        is_h16(f[i]) || (i == f.len() - 1 && is_ipv4(f[i]))
    }
}

/// How many of the eight 16-bit groups the written fields fill.
pub open spec fn ipv6_units(f: Seq<Seq<char>>) -> int {
    f.len() - count_empty(f) + if f.len() > 0 && is_ipv4(f.last()) { 1int } else { 0int }
}

/// An IPv6 literal: eight groups, or fewer with one `::` standing for at least one
/// zero group; the last two groups may be written as an IPv4 literal.
pub open spec fn is_ipv6(s: Seq<char>) -> bool {
    let f = ipv6_fields(s);
    let lead = starts_with_double_colon(s);
    let trail = ends_with_double_colon(s);
    &&& f.len() >= 1
    &&& forall|i: int| 0 <= i < f.len() ==> ipv6_field_ok(f, i, lead, trail)
    &&& ((count_empty(f) == 0 && ipv6_units(f) == 8) || (count_empty(f) == 1 && ipv6_units(f)
        <= 7))
}

pub open spec fn is_address_of(family: AddressFamily, s: Seq<char>) -> bool {
    match family {
        AddressFamily::V4 => is_ipv4(s),
        AddressFamily::V6 => is_ipv6(s),
    }
}

/// The contents of each vector in `v`.
pub open spec fn views(v: Seq<Vec<char>>) -> Seq<Seq<char>> {
    v.map_values(|x: Vec<char>| x@)
}

pub proof fn lemma_split_nonempty(s: Seq<char>, sep: char)
    ensures
        split_on(s, sep).len() >= 1,
    decreases s.len(),
{
    if s.len() > 0 {
        lemma_split_nonempty(s.drop_last(), sep);
    }
}

/// The characters of `s`, one by one.
pub fn chars_of(s: &str) -> (r: Vec<char>)
    ensures
        r@ == s@,
{
    let n = s.unicode_len();
    let mut r: Vec<char> = Vec::new();
    let mut i: usize = 0;
    while i < n
        invariant
            n == s@.len(),
            i <= n,
            r@ == s@.take(i as int),
        decreases n - i,
    {
        r.push(s.get_char(i));
        i = i + 1;
        assert(r@ =~= s@.take(i as int));
    }
    assert(r@ =~= s@);
    r
}

/// Splits `chars` at each `sep`.
pub fn split_chars(chars: &Vec<char>, sep: char) -> (r: Vec<Vec<char>>)
    ensures
        views(r@) == split_on(chars@, sep),
{
    let mut fields: Vec<Vec<char>> = Vec::new();
    let mut cur: Vec<char> = Vec::new();
    let mut i: usize = 0;
    while i < chars.len()
        invariant
            i <= chars.len(),
            views(fields@).push(cur@) == split_on(chars@.take(i as int), sep),
        decreases chars.len() - i,
    {
        let ghost before = views(fields@).push(cur@);
        let c = chars[i];
        proof {
            assert(chars@.take(i + 1).drop_last() =~= chars@.take(i as int));
        }
        if c == sep {
            let ghost prev = fields@;
            fields.push(cur);
            cur = Vec::new();
            assert(views(fields@) =~= views(prev).push(before.last()));
            assert(views(fields@).push(cur@) =~= before.push(Seq::empty()));
        } else {
            cur.push(c);
            assert(views(fields@).push(cur@) =~= before.update(
                before.len() - 1,
                before.last().push(c),
            ));
        }
        i = i + 1;
    }
    assert(chars@.take(chars@.len() as int) =~= chars@);
    let ghost prev = fields@;
    fields.push(cur);
    assert(views(fields@) =~= views(prev).push(cur@));
    fields
}

fn is_digit_char(c: char) -> (r: bool)
    ensures
        r == is_digit(c),
{
    '0' <= c && c <= '9'
}

fn is_hex_digit_char(c: char) -> (r: bool)
    ensures
        r == is_hex_digit(c),
{
    ('0' <= c && c <= '9') || ('a' <= c && c <= 'f') || ('A' <= c && c <= 'F')
}

fn octet_ok(g: &Vec<char>) -> (r: bool)
    ensures
        r == is_octet(g@),
{
    if g.len() < 1 || g.len() > 3 {
        return false;
    }
    let mut value: u32 = 0;
    let mut j: usize = 0;
    while j < g.len()
        invariant
            1 <= g.len() <= 3,
            j <= g.len(),
            all_digits(g@.take(j as int)),
            value == decimal_value(g@.take(j as int)),
            value < 1000,
            j == 0 ==> value == 0,
            j == 1 ==> value < 10,
            j == 2 ==> value < 100,
        decreases g.len() - j,
    {
        let c = g[j];
        if !is_digit_char(c) {
            assert(!all_digits(g@));
            return false;
        }
        proof {
            assert(g@.take(j + 1).drop_last() =~= g@.take(j as int));
        }
        value = value * 10 + (c as u32 - '0' as u32);
        j = j + 1;
        assert(all_digits(g@.take(j as int)));
    }
    assert(g@.take(g@.len() as int) =~= g@);
    value <= 255 && (g.len() == 1 || g[0] != '0')
}

fn ipv4_ok(chars: &Vec<char>) -> (r: bool)
    ensures
        r == is_ipv4(chars@),
{
    let f = split_chars(chars, '.');
    if f.len() != 4 {
        return false;
    }
    let mut k: usize = 0;
    while k < 4
        invariant
            views(f@) == split_on(chars@, '.'),
            f.len() == 4,
            k <= 4,
            forall|i: int| 0 <= i < k ==> is_octet(#[trigger] views(f@)[i]),
        decreases 4 - k,
    {
        if !octet_ok(&f[k]) {
            assert(!is_octet(views(f@)[k as int]));
            return false;
        }
        assert(is_octet(views(f@)[k as int]));
        k = k + 1;
    }
    true
}

fn h16_ok(g: &Vec<char>) -> (r: bool)
    ensures
        r == is_h16(g@),
{
    if g.len() < 1 || g.len() > 4 {
        return false;
    }
    let mut j: usize = 0;
    while j < g.len()
        invariant
            j <= g.len(),
            forall|i: int| 0 <= i < j ==> is_hex_digit(#[trigger] g@[i]),
        decreases g.len() - j,
    {
        if !is_hex_digit_char(g[j]) {
            return false;
        }
        j = j + 1;
    }
    true
}

fn ipv6_ok(chars: &Vec<char>) -> (r: bool)
    ensures
        r == is_ipv6(chars@),
{
    let n = chars.len();
    let lead = n >= 2 && chars[0] == ':' && chars[1] == ':';
    let trail = n >= 2 && chars[n - 1] == ':' && chars[n - 2] == ':';
    let f = split_chars(chars, ':');
    let ghost s = chars@;
    let ghost full = views(f@);
    proof {
        lemma_split_nonempty(s, ':');
        if trail {
            let d = s.drop_last();
            lemma_split_nonempty(d.drop_last(), ':');
            assert(d.last() == ':');
            assert(split_on(d, ':').len() == split_on(d.drop_last(), ':').len() + 1);
            assert(split_on(s, ':').len() == split_on(d, ':').len() + 1);
        }
    }
    let lo: usize = if lead { 1 } else { 0 };
    let hi: usize = if trail { f.len() - 1 } else { f.len() };
    let ghost fields = full.subrange(lo as int, hi as int);
    assert(fields =~= ipv6_fields(s));
    if hi <= lo {
        return false;
    }
    let mut empties: usize = 0;
    let mut k: usize = lo;
    while k < hi
        invariant
            lo < hi <= f.len(),
            full == views(f@),
            fields == full.subrange(lo as int, hi as int),
            fields == ipv6_fields(chars@),
            lead == starts_with_double_colon(chars@),
            trail == ends_with_double_colon(chars@),
            lo <= k <= hi,
            empties == count_empty(fields.take(k - lo)),
            empties <= k - lo,
            forall|i: int| 0 <= i < k - lo ==> ipv6_field_ok(fields, i, lead, trail),
        decreases hi - k,
    {
        let g = &f[k];
        proof {
            assert(fields.take(k + 1 - lo).drop_last() =~= fields.take(k - lo));
        }
        if g.len() == 0 {
            if (k == lo && !lead) || (k == hi - 1 && !trail) {
                assert(!ipv6_field_ok(fields, k - lo, lead, trail));
                return false;
            }
            empties = empties + 1;
        } else {
            let ok = h16_ok(g) || (k == hi - 1 && ipv4_ok(g));
            if !ok {
                assert(!ipv6_field_ok(fields, k - lo, lead, trail));
                return false;
            }
        }
        k = k + 1;
    }
    assert(fields.take(hi - lo) =~= fields);
    assert(fields.last() == f@[hi - 1]@);
    let last_v4 = ipv4_ok(&f[hi - 1]);
    let written: usize = (hi - lo) - empties;
    let extra: usize = if last_v4 { 1 } else { 0 };
    (empties == 0 && written == 8 - extra) || (empties == 1 && written <= 7 - extra)
}

/// Whether `s` is an address literal of `family`.
pub fn is_valid_address(family: AddressFamily, s: &str) -> (r: bool)
    ensures
        r == is_address_of(family, s@),
{
    let chars = chars_of(s);
    match family {
        AddressFamily::V4 => ipv4_ok(&chars),
        AddressFamily::V6 => ipv6_ok(&chars),
    }
}

} // verus!
