//! Small verified string primitives, stated over sequences of characters.

use vstd::prelude::*;
use vstd::string::*;

verus! {

/// The characters with the Unicode property `White_Space`.
pub open spec fn is_white_space(c: char) -> bool {
    let n = c as u32;
    ||| (0x09 <= n && n <= 0x0d)
    ||| n == 0x20
    ||| n == 0x85
    ||| n == 0xa0
    ||| n == 0x1680
    ||| (0x2000 <= n && n <= 0x200a)
    ||| n == 0x2028
    ||| n == 0x2029
    ||| n == 0x202f
    ||| n == 0x205f
    ||| n == 0x3000
}

/// `s` without its leading white space.
pub open spec fn trim_start(s: Seq<char>) -> Seq<char>
    decreases s.len(),
{
    if s.len() > 0 && is_white_space(s[0]) {
        trim_start(s.drop_first())
    } else {
        s
    }
}

/// `s` without its trailing white space.
pub open spec fn trim_end(s: Seq<char>) -> Seq<char>
    decreases s.len(),
{
    if s.len() > 0 && is_white_space(s.last()) {
        trim_end(s.drop_last())
    } else {
        s
    }
}

/// `s` without leading and trailing white space.
pub open spec fn trimmed(s: Seq<char>) -> Seq<char> {
    trim_end(trim_start(s))
}

/// `needle` occurs in `hay` as a contiguous run of characters.
pub open spec fn occurs_in(needle: Seq<char>, hay: Seq<char>) -> bool {
    exists|i: int|
        0 <= i && i + needle.len() <= hay.len() && #[trigger] hay.subrange(
            i,
            i + needle.len(),
        ) == needle
}

/// `s` with every occurrence of `c` removed.
pub open spec fn without(s: Seq<char>, c: char) -> Seq<char> {
    s.filter(|x: char| x != c)
}

/// The pieces of `parts` in order, with `sep` between neighbours.
pub open spec fn joined(parts: Seq<Seq<char>>, sep: Seq<char>) -> Seq<char>
    decreases parts.len(),
{
    if parts.len() == 0 {
        Seq::empty()
    } else if parts.len() == 1 {
        parts[0]
    } else {
        joined(parts.drop_last(), sep) + sep + parts.last()
    }
}

/// The view of a result that carries text on both sides.
pub open spec fn text_result(r: Result<String, String>) -> Result<Seq<char>, Seq<char>> {
    match r {
        Ok(s) => Ok(s@),
        Err(e) => Err(e@),
    }
}

/// The view of an optional text.
pub open spec fn text_option(o: Option<String>) -> Option<Seq<char>> {
    match o {
        Some(s) => Some(s@),
        None => None,
    }
}

/// The views of a list of texts.
pub open spec fn text_list(v: Seq<String>) -> Seq<Seq<char>> {
    Seq::new(v.len(), |i: int| v[i]@)
}

/// The length of the run of characters at the start of `s` that are no white space.
pub open spec fn word_len(s: Seq<char>) -> nat
    decreases s.len(),
{
    if s.len() > 0 && !is_white_space(s[0]) {
        1 + word_len(s.drop_first())
    } else {
        0
    }
}

/// The word of `s` at index `n`, where words are the runs of characters
/// between white space; `None` where `s` has no more than `n` words.
pub open spec fn word(s: Seq<char>, n: nat) -> Option<Seq<char>>
    decreases n,
{
    let t = trim_start(s);
    if t.len() == 0 {
        None
    } else if n == 0 {
        Some(t.take(word_len(t) as int))
    } else {
        word(t.skip(word_len(t) as int), (n - 1) as nat)
    }
}

pub open spec fn is_digit(c: char) -> bool {
    '0' <= c && c <= '9'
}

/// The number that a run of decimal digits writes.
pub open spec fn digits_value(s: Seq<char>) -> nat
    decreases s.len(),
{
    if s.len() == 0 {
        0
    } else {
        (digits_value(s.drop_last()) * 10 + (s.last() as u32 - '0' as u32)) as nat
    }
}

pub open spec fn all_digits(s: Seq<char>) -> bool {
    forall|i: int| 0 <= i < s.len() ==> is_digit(#[trigger] s[i])
}

/// The number that `s` writes, where `s` is a non-empty run of decimal
/// digits whose value fits 64 bits.
pub open spec fn parsed_u64(s: Seq<char>) -> Option<u64> {
    if s.len() > 0 && all_digits(s) && digits_value(s) <= u64::MAX {
        Some(digits_value(s) as u64)
    } else {
        None
    }
}

/// The truth value that `s` writes: `true` or `false`, and nothing else.
pub open spec fn parsed_bool(s: Seq<char>) -> Option<bool> {
    if s == "true"@ {
        Some(true)
    } else if s == "false"@ {
        Some(false)
    } else {
        None
    }
}

proof fn lemma_digits_grow(s: Seq<char>, k: int)
    requires
        0 <= k <= s.len(),
        all_digits(s),
    ensures
        digits_value(s.take(k)) <= digits_value(s),
    decreases s.len() - k,
{
    if k < s.len() {
        let longer = s.take(k + 1);
        assert(longer.drop_last() =~= s.take(k));
        assert(is_digit(longer.last())) by {
            assert(longer.last() == s[k]);
        }
        lemma_digits_grow(s, k + 1);
    } else {
        assert(s.take(k) =~= s);
    }
}

pub fn is_whitespace(c: char) -> (r: bool)
    ensures
        r == is_white_space(c),
{
    let n: u32 = c as u32;
    (0x09 <= n && n <= 0x0d) || n == 0x20 || n == 0x85 || n == 0xa0 || n == 0x1680 || (0x2000 <= n
        && n <= 0x200a) || n == 0x2028 || n == 0x2029 || n == 0x202f || n == 0x205f || n == 0x3000
}

/// The characters of `s`, in order.
pub fn chars_of(s: &str) -> (v: Vec<char>)
    ensures
        v@ == s@,
{
    let mut v: Vec<char> = Vec::new();
    for c in it: s.chars()
        invariant
            v@ =~= s@.take(it.index() as int),
            it.seq() == s@,
    {
        v.push(c);
    }
    v
}

/// `s` without leading and trailing white space.
pub fn trim(s: &str) -> (r: &str)
    ensures
        r@ == trimmed(s@),
{
    let v = chars_of(s);
    let n: usize = v.len();
    let mut i: usize = 0;
    assert(v@.subrange(0, n as int) =~= v@);
    while i < n && is_whitespace(v[i])
        invariant
            n == v@.len(),
            i <= n,
            trim_start(v@) == trim_start(v@.subrange(i as int, n as int)),
        decreases n - i,
    {
        assert(v@.subrange(i as int, n as int).drop_first() =~= v@.subrange(i + 1, n as int));
        i += 1;
    }
    let mut j: usize = n;
    while j > i && is_whitespace(v[j - 1])
        invariant
            n == v@.len(),
            i <= j <= n,
            trim_start(v@) == v@.subrange(i as int, n as int),
            trimmed(v@) == trim_end(v@.subrange(i as int, j as int)),
        decreases j,
    {
        assert(v@.subrange(i as int, j as int).drop_last() =~= v@.subrange(i as int, j - 1));
        j -= 1;
    }
    s.substring_char(i, j)
}

pub fn str_eq(a: &str, b: &str) -> (r: bool)
    ensures
        r == (a@ == b@),
{
    let x = chars_of(a);
    let y = chars_of(b);
    if x.len() != y.len() {
        return false;
    }
    let mut i: usize = 0;
    while i < x.len()
        invariant
            x@ == a@,
            y@ == b@,
            x@.len() == y@.len(),
            i <= x@.len(),
            x@.take(i as int) =~= y@.take(i as int),
        decreases x@.len() - i,
    {
        if x[i] != y[i] {
            return false;
        }
        assert(x@.take(i + 1) =~= x@.take(i as int).push(x@[i as int]));
        assert(y@.take(i + 1) =~= y@.take(i as int).push(y@[i as int]));
        i += 1;
    }
    assert(x@.take(x@.len() as int) =~= x@);
    assert(y@.take(y@.len() as int) =~= y@);
    true
}

pub fn contains_char(s: &str, c: char) -> (r: bool)
    ensures
        r == s@.contains(c),
{
    let v = chars_of(s);
    let mut i: usize = 0;
    while i < v.len()
        invariant
            v@ == s@,
            i <= v@.len(),
            forall|k: int| 0 <= k < i ==> v@[k] != c,
        decreases v@.len() - i,
    {
        if v[i] == c {
            assert(s@[i as int] == c);
            return true;
        }
        i += 1;
    }
    false
}

/// Whether `v` holds `p` at position `at`.
fn matches_at(v: &Vec<char>, p: &Vec<char>, at: usize) -> (r: bool)
    requires
        at + p@.len() <= v@.len(),
    ensures
        r == (v@.subrange(at as int, at + p@.len()) == p@),
{
    let n: usize = v.len();
    let mut k: usize = 0;
    while k < p.len()
        invariant
            at + p@.len() <= v@.len() == n,
            k <= p@.len(),
            v@.subrange(at as int, at + k) =~= p@.take(k as int),
        decreases p@.len() - k,
    {
        if v[at + k] != p[k] {
            assert(v@.subrange(at as int, at + p@.len())[k as int] != p@[k as int]);
            return false;
        }
        assert(v@.subrange(at as int, at + k + 1) =~= v@.subrange(at as int, at + k).push(
            v@[at + k],
        ));
        assert(p@.take(k + 1) =~= p@.take(k as int).push(p@[k as int]));
        k += 1;
    }
    assert(p@.take(p@.len() as int) =~= p@);
    true
}

pub fn starts_with(s: &str, prefix: &str) -> (r: bool)
    ensures
        r == prefix@.is_prefix_of(s@),
{
    let v = chars_of(s);
    let p = chars_of(prefix);
    if p.len() > v.len() {
        return false;
    }
    let r = matches_at(&v, &p, 0);
    assert(v@.subrange(0, p@.len() as int) == p@ <==> p@.is_prefix_of(v@)) by {
        if p@.is_prefix_of(v@) {
            assert(v@.subrange(0, p@.len() as int) =~= p@);
        }
    }
    r
}

pub fn ends_with(s: &str, suffix: &str) -> (r: bool)
    ensures
        r == suffix@.is_suffix_of(s@),
{
    let v = chars_of(s);
    let p = chars_of(suffix);
    if p.len() > v.len() {
        return false;
    }
    let at: usize = v.len() - p.len();
    let r = matches_at(&v, &p, at);
    assert(v@.subrange(at as int, v@.len() as int) == p@ <==> p@.is_suffix_of(v@)) by {
        if p@.is_suffix_of(v@) {
            assert(v@.subrange(at as int, v@.len() as int) =~= p@);
        }
    }
    r
}

pub fn contains_text(hay: &str, needle: &str) -> (r: bool)
    ensures
        r == occurs_in(needle@, hay@),
{
    let v = chars_of(hay);
    let p = chars_of(needle);
    if p.len() > v.len() {
        return false;
    }
    let last: usize = v.len() - p.len();
    let mut i: usize = 0;
    while i < last
        invariant
            v@ == hay@,
            p@ == needle@,
            last == v@.len() - p@.len(),
            i <= last,
            forall|k: int| 0 <= k < i ==> #[trigger] v@.subrange(k, k + p@.len()) != p@,
        decreases last - i,
    {
        if matches_at(&v, &p, i) {
            return true;
        }
        i += 1;
    }
    matches_at(&v, &p, last)
}

/// The word of `s` at index `n`.
pub fn nth_word(s: &str, n: usize) -> (r: Option<String>)
    ensures
        text_option(r) == word(s@, n as nat),
{
    let v = chars_of(s);
    let len: usize = v.len();
    let mut pos: usize = 0;
    let mut left: usize = n;
    assert(v@.skip(0) =~= v@);
    loop
        invariant
            v@ == s@,
            len == v@.len(),
            pos <= len,
            left <= n,
            word(s@, n as nat) == word(v@.skip(pos as int), left as nat),
        decreases left,
    {
        let mut i: usize = pos;
        while i < len && is_whitespace(v[i])
            invariant
                len == v@.len(),
                pos <= i <= len,
                trim_start(v@.skip(pos as int)) == trim_start(v@.skip(i as int)),
            decreases len - i,
        {
            assert(v@.skip(i as int).drop_first() =~= v@.skip(i + 1));
            i += 1;
        }
        if i == len {
            return None;
        }
        let mut j: usize = i;
        while j < len && !is_whitespace(v[j])
            invariant
                len == v@.len(),
                i <= j <= len,
                word_len(v@.skip(i as int)) == (j - i) + word_len(v@.skip(j as int)),
            decreases len - j,
        {
            assert(v@.skip(j as int).drop_first() =~= v@.skip(j + 1));
            j += 1;
        }
        assert(word_len(v@.skip(i as int)) == j - i);
        if left == 0 {
            let piece = s.substring_char(i, j);
            assert(piece@ =~= v@.skip(i as int).take((j - i) as int));
            return Some(String::from_str(piece));
        }
        assert(v@.skip(i as int).skip((j - i) as int) =~= v@.skip(j as int));
        pos = j;
        left -= 1;
    }
}

/// Reads `s` as a decimal number of at most 64 bits.
pub fn parse_u64(s: &str) -> (r: Option<u64>)
    ensures
        r == parsed_u64(s@),
{
    let v = chars_of(s);
    if v.len() == 0 {
        return None;
    }
    let mut acc: u64 = 0;
    let mut i: usize = 0;
    assert(v@.take(0) =~= Seq::<char>::empty());
    while i < v.len()
        invariant
            v@ == s@,
            i <= v@.len(),
            all_digits(v@.take(i as int)),
            acc == digits_value(v@.take(i as int)),
        decreases v@.len() - i,
    {
        let c = v[i];
        if !('0' <= c && c <= '9') {
            assert(!is_digit(s@[i as int]));
            return None;
        }
        let d: u64 = (c as u32 - '0' as u32) as u64;
        proof {
            let longer = v@.take(i + 1);
            assert(longer.drop_last() =~= v@.take(i as int));
            assert(longer.last() == c);
            assert(digits_value(longer) == acc * 10 + d);
            assert forall|j: int| 0 <= j < longer.len() implies is_digit(#[trigger] longer[j]) by {
                if j < i {
                    assert(longer[j] == v@.take(i as int)[j]);
                }
            }
        }
        if acc > (u64::MAX - d) / 10 {
            proof {
                if all_digits(v@) {
                    lemma_digits_grow(v@, i + 1);
                }
            }
            return None;
        }
        acc = acc * 10 + d;
        i += 1;
    }
    assert(v@.take(v@.len() as int) =~= v@);
    Some(acc)
}

/// Reads `s` as `true` or `false`.
pub fn parse_bool(s: &str) -> (r: Option<bool>)
    ensures
        r == parsed_bool(s@),
{
    if str_eq(s, "true") {
        Some(true)
    } else if str_eq(s, "false") {
        Some(false)
    } else {
        None
    }
}

/// `s` with every occurrence of `c` removed.
pub fn remove_char(s: &str, c: char) -> (r: String)
    ensures
        r@ == without(s@, c),
{
    let v = chars_of(s);
    let mut out = String::new();
    let mut i: usize = 0;
    while i < v.len()
        invariant
            v@ == s@,
            i <= v@.len(),
            out@ == without(s@.take(i as int), c),
        decreases v@.len() - i,
    {
        proof {
            let keep = |x: char| x != c;
            assert(s@.take(i + 1) =~= s@.take(i as int).push(s@[i as int]));
            assert(s@.take(i + 1).drop_last() =~= s@.take(i as int));
            reveal_with_fuel(Seq::filter, 2);
        }
        if v[i] != c {
            let piece = s.substring_char(i, i + 1);
            assert(piece@ =~= seq![s@[i as int]]);
            out.append(piece);
            assert(out@ =~= without(s@.take(i as int), c).push(s@[i as int]));
        }
        i += 1;
    }
    assert(s@.take(s@.len() as int) =~= s@);
    out
}

/// The pieces of `parts` in order, with `sep` between neighbours.
pub fn join(parts: &Vec<String>, sep: &str) -> (r: String)
    ensures
        r@ == joined(text_list(parts@), sep@),
{
    let mut out = String::new();
    let mut i: usize = 0;
    while i < parts.len()
        invariant
            i <= parts@.len(),
            out@ == joined(text_list(parts@).take(i as int), sep@),
        decreases parts@.len() - i,
    {
        proof {
            let all = text_list(parts@);
            assert(all.take(i + 1).drop_last() =~= all.take(i as int));
            assert(all.take(i + 1).last() == parts@[i as int]@);
        }
        if i > 0 {
            out.append(sep);
        }
        out.append(parts[i].as_str());
        i += 1;
    }
    assert(text_list(parts@).take(parts@.len() as int) =~= text_list(parts@));
    out
}

} // verus!
