//! Character-level helpers shared by the validators: whitespace trimming,
//! control characters, literal comparison and fixed-width number rendering.
use vstd::prelude::*;
use vstd::utf8::encode_utf8;

verus! {

broadcast use vstd::string::group_string_axioms;

/// The characters of `s`, in order.
pub fn chars_of(s: &str) -> (v: Vec<char>)
    ensures
        v@ == s@,
{
    let mut out: Vec<char> = Vec::new();
    for c in iter: s.chars()
        invariant
            iter.seq() == s@,
            out@ == s@.take(iter.index() as int),
    {
        out.push(c);
    }
    out
}

/// Unicode `White_Space`, the property that `char::is_whitespace` and `str::trim` use.
pub open spec fn is_white_space_char(c: char) -> bool {
    let u = c as u32;
    ||| 0x9 <= u && u <= 0xd
    ||| u == 0x20
    ||| u == 0x85
    ||| u == 0xa0
    ||| u == 0x1680
    ||| 0x2000 <= u && u <= 0x200a
    ||| u == 0x2028
    ||| u == 0x2029
    ||| u == 0x202f
    ||| u == 0x205f
    ||| u == 0x3000
}

pub fn is_white_space(c: char) -> (r: bool)
    ensures
        r == is_white_space_char(c),
{
    let u: u32 = c as u32;
    (0x9 <= u && u <= 0xd) || u == 0x20 || u == 0x85 || u == 0xa0 || u == 0x1680 || (0x2000 <= u
        && u <= 0x200a) || u == 0x2028 || u == 0x2029 || u == 0x202f || u == 0x205f || u == 0x3000
}

/// General category `Cc`, the property that `char::is_control` tests.
pub open spec fn is_control_char(c: char) -> bool {
    (c as u32) <= 0x1f || (0x7f <= (c as u32) && (c as u32) <= 0x9f)
}

pub fn is_control(c: char) -> (r: bool)
    ensures
        r == is_control_char(c),
{
    let u: u32 = c as u32;
    u <= 0x1f || (0x7f <= u && u <= 0x9f)
}

pub open spec fn has_control(s: Seq<char>) -> bool {
    exists|i: int| 0 <= i < s.len() && #[trigger] is_control_char(s[i])
}

/// Whether any character of `s` is a control character.
pub fn any_control(s: &Vec<char>) -> (r: bool)
    ensures
        r == has_control(s@),
{
    let mut i: usize = 0;
    while i < s.len()
        invariant
            i <= s.len(),
            forall|j: int| 0 <= j < i ==> !#[trigger] is_control_char(s@[j]),
        decreases s.len() - i,
    {
        if is_control(s[i]) {
            return true;
        }
        i = i + 1;
    }
    false
}

/// Number of whitespace characters at the start of `s`.
pub open spec fn leading_ws(s: Seq<char>) -> nat
    decreases s.len(),
{
    if s.len() > 0 && is_white_space_char(s[0]) {
        1 + leading_ws(s.drop_first())
    } else {
        0
    }
}

/// Number of whitespace characters at the end of `s`.
pub open spec fn trailing_ws(s: Seq<char>) -> nat
    decreases s.len(),
{
    if s.len() > 0 && is_white_space_char(s.last()) {
        1 + trailing_ws(s.drop_last())
    } else {
        0
    }
}

/// `s` without leading and trailing whitespace, as `str::trim` gives it.
pub open spec fn trim_view(s: Seq<char>) -> Seq<char> {
    let rest = s.skip(leading_ws(s) as int);
    rest.take(rest.len() - trailing_ws(rest))
}

pub proof fn lemma_leading_ws_bound(s: Seq<char>)
    ensures
        leading_ws(s) <= s.len(),
    decreases s.len(),
{
    if s.len() > 0 && is_white_space_char(s[0]) {
        lemma_leading_ws_bound(s.drop_first());
    }
}

pub proof fn lemma_trailing_ws_bound(s: Seq<char>)
    ensures
        trailing_ws(s) <= s.len(),
    decreases s.len(),
{
    if s.len() > 0 && is_white_space_char(s.last()) {
        lemma_trailing_ws_bound(s.drop_last());
    }
}

pub proof fn lemma_trailing_ws_not_all(s: Seq<char>)
    requires
        s.len() > 0,
        !is_white_space_char(s[0]),
    ensures
        trailing_ws(s) < s.len(),
    decreases s.len(),
{
    if is_white_space_char(s.last()) {
        if s.len() > 1 {
            assert(s.drop_last()[0] == s[0]);
            lemma_trailing_ws_not_all(s.drop_last());
        }
    }
}

/// Position of the first non-whitespace character, as a loop finds it.
fn leading_ws_count(v: &Vec<char>) -> (n: usize)
    ensures
        n == leading_ws(v@),
{
    let mut i: usize = 0;
    assert(v@.skip(0) =~= v@);
    while i < v.len() && is_white_space(v[i])
        invariant
            i <= v.len(),
            leading_ws(v@) == i + leading_ws(v@.skip(i as int)),
        decreases v.len() - i,
    {
        assert(v@.skip(i as int).drop_first() =~= v@.skip(i + 1));
        i = i + 1;
    }
    i
}

/// Number of trailing whitespace characters of `v[..end]`.
fn trailing_ws_count(v: &Vec<char>, end: usize) -> (n: usize)
    requires
        end <= v.len(),
    ensures
        n == trailing_ws(v@.take(end as int)),
        n <= end,
{
    let mut k: usize = end;
    while k > 0 && is_white_space(v[k - 1])
        invariant
            k <= end <= v.len(),
            trailing_ws(v@.take(end as int)) == (end - k) + trailing_ws(v@.take(k as int)),
        decreases k,
    {
        assert(v@.take(k as int).drop_last() =~= v@.take(k - 1));
        k = k - 1;
    }
    end - k
}

/// `s` without its leading and trailing whitespace (`str::trim`).
pub fn trim(s: &str) -> (r: String)
    ensures
        r@ == trim_view(s@),
{
    let v = chars_of(s);
    let a = leading_ws_count(&v);
    proof {
        lemma_leading_ws_bound(v@);
    }
    assert(v@.skip(a as int) =~= v@.subrange(a as int, v@.len() as int));
    let n = v.len();
    // Trailing whitespace of the rest is that of the whole string cut at its end.
    let t = trailing_ws_count(&v, n);
    assert(v@.take(n as int) =~= v@);
    let ghost rest = v@.skip(a as int);
    proof {
        lemma_trailing_ws_bound(rest);
        lemma_trailing_ws_rest(v@, a as int);
    }
    let b: usize = if a < n {
        n - t
    } else {
        a
    };
    let sub = s.substring_char(a, b);
    assert(sub@ =~= trim_view(s@));
    String::from_str(sub)
}

/// Cutting whitespace from the front leaves the trailing whitespace unchanged,
/// unless nothing but whitespace was there.
proof fn lemma_trailing_ws_rest(s: Seq<char>, a: int)
    requires
        a == leading_ws(s),
    ensures
        a < s.len() ==> a + trailing_ws(s) < s.len() && trailing_ws(s.skip(a)) == trailing_ws(s),
        a == s.len() ==> trailing_ws(s.skip(a)) == 0,
    decreases s.len(),
{
    lemma_leading_ws_bound(s);
    lemma_trailing_ws_bound(s);
    if a == 0 {
        assert(s.skip(0) =~= s);
        if s.len() > 0 {
            lemma_trailing_ws_not_all(s);
        }
    } else {
        lemma_trailing_ws_rest(s.drop_first(), a - 1);
        assert(s.drop_first().skip(a - 1) =~= s.skip(a));
        lemma_trailing_ws_drop_first(s);
        if a == s.len() {
            assert(s.skip(a).len() == 0);
        }
    }
}

/// Trailing whitespace of `s` and of `s` without its first character.
proof fn lemma_trailing_ws_drop_first(s: Seq<char>)
    requires
        s.len() > 0,
        is_white_space_char(s[0]),
    ensures
        trailing_ws(s) == s.len() ==> trailing_ws(s.drop_first()) == s.len() - 1,
        trailing_ws(s) < s.len() ==> trailing_ws(s.drop_first()) == trailing_ws(s),
    decreases s.len(),
{
    lemma_trailing_ws_bound(s);
    if s.len() == 1 {
        assert(s.drop_first().len() == 0);
        assert(s.last() == s[0]);
        assert(trailing_ws(s.drop_last()) == 0);
    } else if is_white_space_char(s.last()) {
        assert(s.drop_last()[0] == s[0]);
        lemma_trailing_ws_drop_first(s.drop_last());
        assert(s.drop_first().drop_last() =~= s.drop_last().drop_first());
        assert(s.drop_first().last() == s.last());
    } else {
        assert(s.drop_first().last() == s.last());
    }
}

/// Bytes that the UTF-8 encoding of `c` takes.
pub open spec fn char_width(c: char) -> nat {
    let u = c as u32;
    if u <= 0x7f {
        1
    } else if u <= 0x7ff {
        2
    } else if u <= 0xffff {
        3
    } else {
        4
    }
}

/// Bytes that the UTF-8 encoding of `s` takes.
pub open spec fn utf8_len(s: Seq<char>) -> nat
    decreases s.len(),
{
    if s.len() == 0 {
        0
    } else {
        char_width(s[0]) + utf8_len(s.drop_first())
    }
}

pub proof fn lemma_utf8_len_encode(s: Seq<char>)
    ensures
        encode_utf8(s).len() == utf8_len(s),
    decreases s.len(),
{
    if s.len() > 0 {
        let c = s[0];
        vstd::utf8::char_is_scalar(c);
        lemma_utf8_len_encode(s.drop_first());
    }
}

pub proof fn lemma_utf8_len_append(a: Seq<char>, b: Seq<char>)
    ensures
        utf8_len(a + b) == utf8_len(a) + utf8_len(b),
    decreases a.len(),
{
    if a.len() > 0 {
        assert((a + b).drop_first() =~= a.drop_first() + b);
        lemma_utf8_len_append(a.drop_first(), b);
    } else {
        assert(a + b =~= b);
    }
}

fn char_width_exec(c: char) -> (w: usize)
    ensures
        w == char_width(c),
{
    let u: u32 = c as u32;
    if u <= 0x7f {
        1
    } else if u <= 0x7ff {
        2
    } else if u <= 0xffff {
        3
    } else {
        4
    }
}

/// Whether the UTF-8 encoding of `v` takes at most `limit` bytes (`str::len`).
pub fn utf8_len_within(v: &Vec<char>, limit: usize) -> (r: bool)
    requires
        limit <= 0x1000_0000,
    ensures
        r == (encode_utf8(v@).len() <= limit),
{
    let mut total: usize = 0;
    let mut i: usize = 0;
    while i < v.len()
        invariant
            i <= v.len(),
            limit <= 0x1000_0000,
            total <= limit,
            total == utf8_len(v@.take(i as int)),
        decreases v.len() - i,
    {
        proof {
            lemma_utf8_len_append(v@.take(i as int), seq![v@[i as int]]);
            assert(v@.take(i as int) + seq![v@[i as int]] =~= v@.take(i + 1));
            assert(utf8_len(seq![v@[i as int]]) == char_width(v@[i as int])) by {
                assert(seq![v@[i as int]].drop_first() =~= Seq::<char>::empty());
                assert(utf8_len(Seq::<char>::empty()) == 0);
            }
        }
        total = total + char_width_exec(v[i]);
        if total > limit {
            proof {
                lemma_utf8_len_append(v@.take(i + 1), v@.skip(i + 1));
                assert(v@.take(i + 1) + v@.skip(i + 1) =~= v@);
                lemma_utf8_len_encode(v@);
            }
            return false;
        }
        i = i + 1;
    }
    proof {
        assert(v@.take(v@.len() as int) =~= v@);
        lemma_utf8_len_encode(v@);
    }
    true
}

/// The characters of each string.
pub open spec fn strings_view(s: Seq<String>) -> Seq<Seq<char>> {
    s.map_values(|x: String| x@)
}

/// The strings of `list` with `sep` between each two (`[String]::join`).
pub open spec fn join_view(list: Seq<Seq<char>>, sep: Seq<char>) -> Seq<char>
    decreases list.len(),
{
    if list.len() == 0 {
        Seq::empty()
    } else if list.len() == 1 {
        list[0]
    } else {
        join_view(list.drop_last(), sep) + sep + list.last()
    }
}

pub fn join(list: &Vec<String>, sep: &str) -> (r: String)
    ensures
        r@ == join_view(strings_view(list@), sep@),
{
    let mut out = String::new();
    let mut i: usize = 0;
    while i < list.len()
        invariant
            i <= list.len(),
            out@ == join_view(strings_view(list@).take(i as int), sep@),
        decreases list.len() - i,
    {
        assert(strings_view(list@).take(i + 1).drop_last() =~= strings_view(list@).take(i as int));
        if i != 0 {
            out.append(sep);
        } else {
            assert(out@ == Seq::<char>::empty());
        }
        out.append(list[i].as_str());
        proof {
            let t = strings_view(list@).take(i + 1);
            assert(t.last() == list@[i as int]@);
            if i == 0 {
                assert(out@ =~= t[0]);
            }
        }
        i = i + 1;
    }
    assert(strings_view(list@).take(list.len() as int) =~= strings_view(list@));
    out
}

/// Whether `needle` occurs in `hay` at position `i`.
pub open spec fn occurs_at(hay: Seq<char>, needle: Seq<char>, i: int) -> bool {
    0 <= i && i + needle.len() <= hay.len() && hay.subrange(i, i + needle.len()) == needle
}

pub open spec fn contains_view(hay: Seq<char>, needle: Seq<char>) -> bool {
    exists|i: int| #[trigger] occurs_at(hay, needle, i)
}

/// Whether `needle` occurs in `hay` (`str::contains`).
pub fn contains_str(hay: &Vec<char>, needle: &str) -> (r: bool)
    ensures
        r == contains_view(hay@, needle@),
{
    let nv = chars_of(needle);
    if nv.len() > hay.len() {
        assert forall|i: int| !#[trigger] occurs_at(hay@, needle@, i) by {}
        return false;
    }
    let mut i: usize = 0;
    while i <= hay.len() - nv.len()
        invariant
            nv@ == needle@,
            nv.len() <= hay.len(),
            i <= hay.len() - nv.len() + 1,
            forall|k: int| 0 <= k < i ==> !#[trigger] occurs_at(hay@, needle@, k),
        decreases hay.len() - i,
    {
        let mut j: usize = 0;
        let mut same = true;
        while j < nv.len()
            invariant
                nv@ == needle@,
                i + nv.len() <= hay.len(),
                j <= nv.len(),
                same == (forall|m: int| 0 <= m < j ==> hay@[i + m] == nv@[m]),
            decreases nv.len() - j,
        {
            if hay[i + j] != nv[j] {
                same = false;
            }
            j = j + 1;
        }
        if same {
            assert(hay@.subrange(i as int, i + nv.len()) =~= needle@);
            assert(occurs_at(hay@, needle@, i as int));
            return true;
        }
        proof {
            if occurs_at(hay@, needle@, i as int) {
                let m = choose|m: int| 0 <= m < nv.len() && hay@[i + m] != nv@[m];
                assert(hay@.subrange(i as int, i + nv.len())[m] == hay@[i + m]);
            }
        }
        i = i + 1;
    }
    assert forall|k: int| !#[trigger] occurs_at(hay@, needle@, k) by {
        if 0 <= k && k < i {
        }
    }
    false
}

/// Whether the characters of `a` and `b` are the same.
pub fn str_eq(a: &str, b: &str) -> (r: bool)
    ensures
        r == (a@ == b@),
{
    let x = chars_of(a);
    let y = chars_of(b);
    chars_eq(&x, &y)
}

pub fn chars_eq(x: &Vec<char>, y: &Vec<char>) -> (r: bool)
    ensures
        r == (x@ == y@),
{
    if x.len() != y.len() {
        return false;
    }
    let mut i: usize = 0;
    while i < x.len()
        invariant
            x.len() == y.len(),
            i <= x.len(),
            forall|j: int| 0 <= j < i ==> x@[j] == y@[j],
        decreases x.len() - i,
    {
        if x[i] != y[i] {
            return false;
        }
        i = i + 1;
    }
    assert(x@ =~= y@);
    true
}

/// Whether `p` is a prefix of `s`.
pub open spec fn is_prefix(p: Seq<char>, s: Seq<char>) -> bool {
    p.len() <= s.len() && s.take(p.len() as int) == p
}

pub fn starts_with(s: &Vec<char>, p: &str) -> (r: bool)
    ensures
        r == is_prefix(p@, s@),
{
    let pv = chars_of(p);
    if pv.len() > s.len() {
        return false;
    }
    let mut i: usize = 0;
    while i < pv.len()
        invariant
            pv@ == p@,
            pv.len() <= s.len(),
            i <= pv.len(),
            forall|j: int| 0 <= j < i ==> pv@[j] == s@[j],
        decreases pv.len() - i,
    {
        if pv[i] != s[i] {
            assert(s@.take(pv.len() as int)[i as int] != pv@[i as int]);
            assert(s@.take(pv.len() as int) != p@);
            return false;
        }
        i = i + 1;
    }
    assert(s@.take(pv.len() as int) =~= pv@);
    true
}

/// Whether two dots follow each other somewhere in `s`.
pub open spec fn has_double_dot(s: Seq<char>) -> bool {
    exists|i: int| 0 <= i && i + 1 < s.len() && #[trigger] s[i] == '.' && s[i + 1] == '.'
}

pub fn contains_double_dot(s: &Vec<char>) -> (r: bool)
    ensures
        r == has_double_dot(s@),
{
    let mut i: usize = 0;
    while s.len() > 0 && i < s.len() - 1
        invariant
            forall|j: int| 0 <= j < i && j + 1 < s.len() ==> !(#[trigger] s@[j] == '.' && s@[j + 1]
                == '.'),
        decreases s.len() - i,
    {
        if s[i] == '.' && s[i + 1] == '.' {
            return true;
        }
        i = i + 1;
    }
    false
}

/// Lower-case hexadecimal digit for a value below 16.
pub open spec fn hex_digit(d: nat) -> char {
    "0123456789abcdef"@[d as int]
}

/// The last `n` hexadecimal digits of `v`, most significant first, padded with zeros.
pub open spec fn hex_digits(v: nat, n: nat) -> Seq<char>
    decreases n,
{
    if n == 0 {
        Seq::empty()
    } else {
        hex_digits(v / 16, (n - 1) as nat).push(hex_digit(v % 16))
    }
}

/// `format!("{:032x}", v)`: the 32 lower-case hexadecimal digits of `v`.
pub fn hex32(v: u128) -> (r: String)
    ensures
        r@ == hex_digits(v as nat, 32),
{
    let digits: &str = "0123456789abcdef";
    proof {
        reveal_strlit("0123456789abcdef");
    }
    let mut acc = String::new();
    let mut rest: u128 = v;
    let mut i: usize = 0;
    while i < 32
        invariant
            i <= 32,
            digits@ == "0123456789abcdef"@,
            digits@.len() == 16,
            hex_digits(v as nat, 32) == hex_digits(rest as nat, (32 - i) as nat) + acc@,
        decreases 32 - i,
    {
        let d = (rest % 16) as usize;
        let one = digits.substring_char(d, d + 1);
        assert(one@ =~= seq![hex_digit(d as nat)]);
        let mut next = String::from_str(one);
        next.append(acc.as_str());
        proof {
            let k = (32 - i - 1) as nat;
            assert(hex_digits(rest as nat, k + 1) == hex_digits(rest as nat / 16, k).push(
                hex_digit(rest as nat % 16),
            ));
            assert(hex_digits(rest as nat / 16, k) + next@ =~= hex_digits(rest as nat, k + 1)
                + acc@);
        }
        acc = next;
        rest = rest / 16;
        i = i + 1;
    }
    assert(hex_digits(rest as nat, 0) + acc@ =~= acc@);
    acc
}

/// Decimal digit for a value below 10.
pub open spec fn decimal_digit(d: nat) -> char {
    "0123456789"@[d as int]
}

/// The decimal representation of `v`, without leading zeros ("0" for zero).
pub open spec fn decimal_view(v: nat) -> Seq<char>
    decreases v,
{
    if v < 10 {
        seq![decimal_digit(v)]
    } else {
        decimal_view(v / 10).push(decimal_digit(v % 10))
    }
}

/// Decimal digits still to be written in front of what has been rendered.
spec fn decimal_prefix(rest: nat) -> Seq<char> {
    if rest == 0 {
        Seq::empty()
    } else {
        decimal_view(rest)
    }
}

/// `v.to_string()` for a port number.
pub fn decimal(v: u16) -> (r: String)
    ensures
        r@ == decimal_view(v as nat),
{
    let digits: &str = "0123456789";
    proof {
        reveal_strlit("0123456789");
    }
    let d0 = (v % 10) as usize;
    let first = digits.substring_char(d0, d0 + 1);
    assert(first@ =~= seq![decimal_digit(d0 as nat)]);
    let mut acc = String::from_str(first);
    let mut rest: u16 = v / 10;
    assert(decimal_view(v as nat) =~= decimal_prefix(rest as nat) + acc@);
    while rest > 0
        invariant
            digits@ == "0123456789"@,
            digits@.len() == 10,
            decimal_view(v as nat) == decimal_prefix(rest as nat) + acc@,
        decreases rest,
    {
        let d = (rest % 10) as usize;
        let one = digits.substring_char(d, d + 1);
        assert(one@ =~= seq![decimal_digit(d as nat)]);
        let mut next = String::from_str(one);
        next.append(acc.as_str());
        assert(decimal_prefix(rest as nat / 10) + next@ =~= decimal_prefix(rest as nat) + acc@);
        acc = next;
        rest = rest / 10;
    }
    assert(decimal_prefix(0) + acc@ =~= acc@);
    acc
}

} // verus!
