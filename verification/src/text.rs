//! Character-level text handling: line splitting, trimming, prefixes and
//! whitespace-separated tokens, each stated over `Seq<char>`.
use vstd::prelude::*;

verus! {

/// The characters that carry the Unicode `White_Space` property.
pub open spec fn is_space(c: char) -> bool {
    ||| ('\u{9}' <= c && c <= '\u{d}')
    ||| c == ' '
    ||| c == '\u{85}'
    ||| c == '\u{a0}'
    ||| c == '\u{1680}'
    ||| ('\u{2000}' <= c && c <= '\u{200a}')
    ||| c == '\u{2028}'
    ||| c == '\u{2029}'
    ||| c == '\u{202f}'
    ||| c == '\u{205f}'
    ||| c == '\u{3000}'
}

/// `char::is_whitespace`: true exactly of the characters with the Unicode
/// `White_Space` property, as its documentation says.
#[verifier::external_body]
pub(crate) fn char_is_whitespace(c: char) -> (r: bool)
    ensures
        r == is_space(c),
{
    c.is_whitespace()
}

/// Collecting characters into a `String` keeps them, in order.
#[verifier::external_body]
pub(crate) fn chars_to_string(cs: &[char]) -> (r: String)
    ensures
        r@ == cs@,
{
    cs.iter().collect()
}

/// The characters of `s`, in order.
pub fn str_chars(s: &str) -> (r: Vec<char>)
    ensures
        r@ == s@,
{
    let mut out: Vec<char> = Vec::new();
    for c in it: s.chars()
        invariant
            it.seq() == s@,
            out@ == it.seq().take(it.index() as int),
    {
        out.push(c);
    }
    out
}

/// `s` without the whitespace at its end.
pub open spec fn trim_end(s: Seq<char>) -> Seq<char>
    decreases s.len(),
{
    if s.len() > 0 && is_space(s.last()) {
        trim_end(s.drop_last())
    } else {
        s
    }
}

/// A prefix fixes the characters it covers.
pub proof fn lemma_prefix_char(p: Seq<char>, s: Seq<char>, k: int)
    requires
        p.is_prefix_of(s),
        0 <= k < p.len(),
    ensures
        s[k] == p[k],
{
    assert(s.subrange(0, p.len() as int)[k] == s[k]);
}

/// Dropping trailing whitespace leaves a prefix.
pub proof fn lemma_trim_end_is_prefix(s: Seq<char>)
    ensures
        trim_end(s).is_prefix_of(s),
    decreases s.len(),
{
    if s.len() > 0 && is_space(s.last()) {
        lemma_trim_end_is_prefix(s.drop_last());
        assert(trim_end(s.drop_last()) =~= s.subrange(0, trim_end(s.drop_last()).len() as int));
    } else {
        assert(s =~= s.subrange(0, s.len() as int));
    }
}

/// `s` without the whitespace at its start.
pub open spec fn trim_start(s: Seq<char>) -> Seq<char>
    decreases s.len(),
{
    if s.len() > 0 && is_space(s[0]) {
        trim_start(s.drop_first())
    } else {
        s
    }
}

/// `s` without the whitespace at either end.
pub open spec fn trim(s: Seq<char>) -> Seq<char> {
    trim_start(trim_end(s))
}

/// The number of characters at the start of `s` that are not whitespace.
pub open spec fn word_len(s: Seq<char>) -> nat
    decreases s.len(),
{
    if s.len() > 0 && !is_space(s[0]) {
        1 + word_len(s.drop_first())
    } else {
        0
    }
}

pub proof fn lemma_word_len_bound(s: Seq<char>)
    ensures
        word_len(s) <= s.len(),
    decreases s.len(),
{
    if s.len() > 0 && !is_space(s[0]) {
        lemma_word_len_bound(s.drop_first());
    }
}

/// The first maximal run of non-whitespace characters, if there is one.
pub open spec fn first_word(s: Seq<char>) -> Option<Seq<char>> {
    let t = trim_start(s);
    if t.len() == 0 {
        None
    } else {
        Some(t.take(word_len(t) as int))
    }
}

/// The first word of `s`, or `default` where `s` holds only whitespace.
pub open spec fn first_word_or(s: Seq<char>, default: Seq<char>) -> Seq<char> {
    match first_word(s) {
        Some(w) => w,
        None => default,
    }
}

/// The position of the first occurrence of `p` in `s`.
pub open spec fn find(s: Seq<char>, p: Seq<char>) -> Option<nat>
    decreases s.len(),
{
    if p.is_prefix_of(s) {
        Some(0)
    } else if s.len() == 0 {
        None
    } else {
        match find(s.drop_first(), p) {
            Some(k) => Some(k + 1),
            None => None,
        }
    }
}

/// The position of the first line feed in `s`, or its length where it has none.
pub open spec fn newline_at(s: Seq<char>) -> nat
    decreases s.len(),
{
    if s.len() == 0 {
        0
    } else if s[0] == '\n' {
        0
    } else {
        1 + newline_at(s.drop_first())
    }
}

/// `t` without one carriage return at its end.
pub open spec fn strip_cr(t: Seq<char>) -> Seq<char> {
    if t.len() > 0 && t.last() == '\r' {
        t.drop_last()
    } else {
        t
    }
}

/// The lines of `s`: split at each line feed, a carriage return before a line
/// feed dropped, and no empty last line after a final line feed.
pub open spec fn lines(s: Seq<char>) -> Seq<Seq<char>>
    decreases s.len(),
{
    if s.len() == 0 {
        seq![]
    } else {
        let k = newline_at(s);
        if k < s.len() {
            seq![strip_cr(s.take(k as int))] + lines(s.skip(k as int + 1))
        } else {
            seq![s]
        }
    }
}

pub proof fn lemma_newline_at(s: Seq<char>)
    ensures
        newline_at(s) <= s.len(),
        forall|j: int| 0 <= j < newline_at(s) ==> s[j] != '\n',
        newline_at(s) < s.len() ==> s[newline_at(s) as int] == '\n',
    decreases s.len(),
{
    if s.len() > 0 && s[0] != '\n' {
        lemma_newline_at(s.drop_first());
        assert forall|j: int| 0 <= j < newline_at(s) implies s[j] != '\n' by {
            if j > 0 {
                assert(s[j] == s.drop_first()[j - 1]);
            }
        }
    }
}

/// A line feed at `m` with none before it is where `newline_at` stops.
pub proof fn lemma_newline_at_is(s: Seq<char>, m: int)
    requires
        0 <= m <= s.len(),
        forall|j: int| 0 <= j < m ==> s[j] != '\n',
        m < s.len() ==> s[m] == '\n',
    ensures
        newline_at(s) == m,
    decreases s.len(),
{
    if s.len() > 0 && s[0] != '\n' {
        let t = s.drop_first();
        assert forall|j: int| 0 <= j < m - 1 implies t[j] != '\n' by {
            assert(t[j] == s[j + 1]);
        }
        if m - 1 < t.len() {
            assert(t[m - 1] == s[m]);
        }
        lemma_newline_at_is(t, m - 1);
    }
}

/// Text that ends with a line feed splits into lines independently of what
/// follows it.
pub proof fn lemma_lines_append(t: Seq<char>, u: Seq<char>)
    requires
        t.len() == 0 || t.last() == '\n',
    ensures
        lines(t + u) == lines(t) + lines(u),
    decreases t.len(),
{
    if t.len() == 0 {
        assert(t + u =~= u);
        assert(lines(t) =~= Seq::<Seq<char>>::empty());
        assert(lines(t) + lines(u) =~= lines(u));
    } else {
        lemma_newline_at(t);
        let k = newline_at(t);
        if k == t.len() {
            assert(t[t.len() - 1] != '\n');
        }
        assert(k < t.len());
        let tu = t + u;
        assert forall|j: int| 0 <= j < k implies tu[j] != '\n' by {
            assert(tu[j] == t[j]);
        }
        assert(tu[k as int] == t[k as int]);
        lemma_newline_at_is(tu, k as int);
        assert(tu.take(k as int) =~= t.take(k as int));
        let rest = t.skip(k as int + 1);
        assert(tu.skip(k as int + 1) =~= rest + u);
        if rest.len() > 0 {
            assert(rest.last() == t.last());
        }
        lemma_lines_append(rest, u);
        assert(lines(tu) == seq![strip_cr(t.take(k as int))] + lines(rest + u));
        assert(lines(t) == seq![strip_cr(t.take(k as int))] + lines(rest));
        assert(lines(tu) =~= lines(t) + lines(u));
    }
}

/// A non-empty piece without line feeds is a single line.
pub proof fn lemma_lines_single(u: Seq<char>)
    requires
        u.len() > 0,
        forall|j: int| 0 <= j < u.len() ==> u[j] != '\n',
    ensures
        lines(u) == seq![u],
{
    lemma_newline_at_is(u, u.len() as int);
}

/// A piece ending in its only line feed is one line, without that line feed
/// and a carriage return before it.
pub proof fn lemma_lines_terminated(x: Seq<char>)
    requires
        forall|j: int| 0 <= j < x.len() ==> x[j] != '\n',
    ensures
        lines(x.push('\n')) == seq![strip_cr(x)],
{
    let t = x.push('\n');
    assert forall|j: int| 0 <= j < x.len() implies t[j] != '\n' by {
        assert(t[j] == x[j]);
    }
    lemma_newline_at_is(t, x.len() as int);
    assert(t.take(x.len() as int) =~= x);
    assert(t.skip(x.len() as int + 1) =~= Seq::<char>::empty());
    assert(lines(t.skip(x.len() as int + 1)) =~= Seq::<Seq<char>>::empty());
    assert(lines(t) =~= seq![strip_cr(x)]);
}

/// The lines of `s`, as `str::lines` gives them.
pub fn split_lines(s: &[char]) -> (r: Vec<Vec<char>>)
    ensures
        r@.len() == lines(s@).len(),
        forall|k: int| 0 <= k < r@.len() ==> #[trigger] r@[k]@ == lines(s@)[k],
{
    let n = s.len();
    let mut out: Vec<Vec<char>> = Vec::new();
    let mut start: usize = 0;
    let mut i: usize = 0;
    while i < n
        invariant
            n == s@.len(),
            start <= i <= n,
            forall|j: int| start <= j < i ==> s@[j] != '\n',
            start == 0 || s@[start - 1] == '\n',
            out@.len() == lines(s@.take(start as int)).len(),
            forall|k: int| 0 <= k < out@.len() ==> #[trigger] out@[k]@ == lines(s@.take(start as int))[k],
        decreases n - i,
    {
        if s[i] == '\n' {
            let end: usize = if i > start && s[i - 1] == '\r' { i - 1 } else { i };
            let piece = vstd::slice::slice_to_vec(&s[start..end]);
            proof {
                let t = s@.take(start as int);
                let x = s@.subrange(start as int, i as int);
                let u = x.push('\n');
                assert(s@.take(i + 1) =~= t + u);
                if t.len() > 0 {
                    assert(t.last() == s@[start - 1]);
                }
                lemma_lines_append(t, u);
                assert forall|j: int| 0 <= j < x.len() implies x[j] != '\n' by {
                    assert(x[j] == s@[start + j]);
                }
                lemma_lines_terminated(x);
                assert(piece@ =~= strip_cr(x));
            }
            let ghost old_out = out@;
            out.push(piece);
            proof {
                let l2 = lines(s@.take(i + 1));
                assert(l2 =~= lines(s@.take(start as int)).push(piece@));
                assert forall|k: int| 0 <= k < out@.len() implies #[trigger] out@[k]@ == l2[k] by {
                    if k < old_out.len() {
                        assert(out@[k] == old_out[k]);
                    }
                }
            }
            start = i + 1;
        }
        i = i + 1;
    }
    if start < n {
        let piece = vstd::slice::slice_to_vec(&s[start..n]);
        proof {
            let t = s@.take(start as int);
            let u = s@.subrange(start as int, n as int);
            assert(s@ =~= t + u);
            if t.len() > 0 {
                assert(t.last() == s@[start - 1]);
            }
            lemma_lines_append(t, u);
            assert forall|j: int| 0 <= j < u.len() implies u[j] != '\n' by {
                assert(u[j] == s@[start + j]);
            }
            lemma_lines_single(u);
        }
        let ghost old_out = out@;
        out.push(piece);
        proof {
            let l2 = lines(s@);
            assert(l2 =~= lines(s@.take(start as int)).push(piece@));
            assert forall|k: int| 0 <= k < out@.len() implies #[trigger] out@[k]@ == l2[k] by {
                if k < old_out.len() {
                    assert(out@[k] == old_out[k]);
                }
            }
        }
    } else {
        assert(s@.take(start as int) =~= s@);
    }
    out
}

/// The length of `s` without its trailing whitespace.
pub fn trim_end_len(s: &[char]) -> (n: usize)
    ensures
        n <= s@.len(),
        s@.take(n as int) == trim_end(s@),
{
    let mut n: usize = s.len();
    assert(s@.take(n as int) =~= s@);
    loop
        invariant
            n <= s@.len(),
            trim_end(s@.take(n as int)) == trim_end(s@),
        ensures
            n <= s@.len(),
            s@.take(n as int) == trim_end(s@),
        decreases n,
    {
        if n == 0 {
            return n;
        }
        if !char_is_whitespace(s[n - 1]) {
            return n;
        }
        assert(s@.take(n as int).drop_last() =~= s@.take(n - 1));
        n = n - 1;
    }
}

/// The number of whitespace characters at the start of `s`.
pub fn trim_start_len(s: &[char]) -> (n: usize)
    ensures
        n <= s@.len(),
        s@.skip(n as int) == trim_start(s@),
{
    let mut n: usize = 0;
    assert(s@.skip(0) =~= s@);
    loop
        invariant
            n <= s@.len(),
            trim_start(s@.skip(n as int)) == trim_start(s@),
        ensures
            n <= s@.len(),
            s@.skip(n as int) == trim_start(s@),
        decreases s@.len() - n,
    {
        if n == s.len() {
            return n;
        }
        if !char_is_whitespace(s[n]) {
            return n;
        }
        assert(s@.skip(n as int).drop_first() =~= s@.skip(n + 1));
        n = n + 1;
    }
}

/// The bounds of `s` without whitespace at either end.
pub fn trim_bounds(s: &[char]) -> (r: (usize, usize))
    ensures
        r.0 <= r.1 <= s@.len(),
        s@.subrange(r.0 as int, r.1 as int) == trim(s@),
{
    let e = trim_end_len(s);
    let b = trim_start_len(&s[0..e]);
    assert(s@.subrange(0, e as int) =~= s@.take(e as int));
    assert(s@.take(e as int).skip(b as int) =~= s@.subrange(b as int, e as int));
    (b, e)
}

/// The length of `p` where it starts `s`.
pub fn prefix_len(s: &[char], p: &str) -> (r: Option<usize>)
    ensures
        match r {
            Some(k) => k == p@.len() && p@.is_prefix_of(s@),
            None => !p@.is_prefix_of(s@),
        },
{
    let m = p.unicode_len();
    if m > s.len() {
        return None;
    }
    let mut i: usize = 0;
    while i < m
        invariant
            m == p@.len(),
            m <= s@.len(),
            i <= m,
            forall|j: int| 0 <= j < i ==> s@[j] == p@[j],
        decreases m - i,
    {
        if s[i] != p.get_char(i) {
            assert(s@.subrange(0, m as int)[i as int] != p@[i as int]);
            return None;
        }
        i = i + 1;
    }
    assert(p@ =~= s@.subrange(0, m as int));
    Some(m)
}

/// Whether `s` holds exactly the characters of `p`.
pub fn chars_eq_str(s: &[char], p: &str) -> (r: bool)
    ensures
        r == (s@ == p@),
{
    match prefix_len(s, p) {
        Some(k) => {
            if k == s.len() {
                assert(s@ =~= p@);
                true
            } else {
                false
            }
        },
        None => false,
    }
}

/// The bounds of the first word of `s`, if it has one.
pub fn first_word_bounds(s: &[char]) -> (r: Option<(usize, usize)>)
    ensures
        match r {
            Some((b, e)) => b <= e <= s@.len() && first_word(s@) == Some(s@.subrange(b as int, e as int)),
            None => first_word(s@) is None,
        },
{
    let b = trim_start_len(s);
    if b == s.len() {
        return None;
    }
    let mut e: usize = b;
    proof {
        assert(s@.skip(b as int).skip(0) =~= s@.skip(b as int));
    }
    loop
        invariant
            b < s@.len(),
            b <= e <= s@.len(),
            s@.skip(b as int) == trim_start(s@),
            forall|j: int| b <= j < e ==> !is_space(s@[j]),
            word_len(s@.skip(b as int)) == (e - b) + word_len(s@.skip(e as int)),
        ensures
            b <= e <= s@.len(),
            word_len(s@.skip(b as int)) == e - b,
        decreases s@.len() - e,
    {
        if e == s.len() {
            assert(s@.skip(e as int).len() == 0);
            break;
        }
        if char_is_whitespace(s[e]) {
            assert(s@.skip(e as int)[0] == s@[e as int]);
            break;
        }
        assert(s@.skip(e as int)[0] == s@[e as int]);
        assert(s@.skip(e as int).drop_first() =~= s@.skip(e + 1));
        e = e + 1;
    }
    assert(trim_start(s@).take(word_len(trim_start(s@)) as int) =~= s@.subrange(b as int, e as int));
    Some((b, e))
}

/// The position of the first occurrence of `p` in `s`.
pub fn find_str(s: &[char], p: &str) -> (r: Option<usize>)
    ensures
        match r {
            Some(k) => find(s@, p@) == Some(k as nat) && k <= s@.len() && p@.is_prefix_of(s@.skip(k as int)),
            None => find(s@, p@) is None,
        },
{
    let n = s.len();
    let mut i: usize = 0;
    proof {
        assert(s@.skip(0) =~= s@);
    }
    loop
        invariant
            n == s@.len(),
            i <= n,
            find(s@, p@) == match find(s@.skip(i as int), p@) {
                Some(k) => Some((k + i) as nat),
                None => None::<nat>,
            },
        ensures
            i <= n,
            match find(s@.skip(i as int), p@) {
                Some(k) => k == 0 && find(s@, p@) == Some(i as nat) && p@.is_prefix_of(s@.skip(i as int)),
                None => find(s@, p@) is None,
            },
        decreases n - i,
    {
        let rest = &s[i..n];
        assert(rest@ =~= s@.skip(i as int));
        if prefix_len(rest, p).is_some() {
            break;
        }
        if i == n {
            break;
        }
        assert(s@.skip(i as int).drop_first() =~= s@.skip(i + 1));
        i = i + 1;
    }
    let rest = &s[i..n];
    assert(rest@ =~= s@.skip(i as int));
    if prefix_len(rest, p).is_some() {
        Some(i)
    } else {
        None
    }
}

} // verus!

verus! {

/// The decimal digit for `d`.
pub open spec fn digit_char(d: nat) -> char {
    if d == 0 {
        '0'
    } else if d == 1 {
        '1'
    } else if d == 2 {
        '2'
    } else if d == 3 {
        '3'
    } else if d == 4 {
        '4'
    } else if d == 5 {
        '5'
    } else if d == 6 {
        '6'
    } else if d == 7 {
        '7'
    } else if d == 8 {
        '8'
    } else {
        '9'
    }
}

/// The decimal representation of `n`, without leading zeros.
pub open spec fn decimal(n: nat) -> Seq<char>
    decreases n,
{
    if n < 10 {
        seq![digit_char(n)]
    } else {
        decimal(n / 10).push(digit_char(n % 10))
    }
}

fn digit_of(d: u64) -> (c: char)
    requires
        d < 10,
    ensures
        c == digit_char(d as nat),
{
    if d == 0 {
        '0'
    } else if d == 1 {
        '1'
    } else if d == 2 {
        '2'
    } else if d == 3 {
        '3'
    } else if d == 4 {
        '4'
    } else if d == 5 {
        '5'
    } else if d == 6 {
        '6'
    } else if d == 7 {
        '7'
    } else if d == 8 {
        '8'
    } else {
        '9'
    }
}

fn decimal_chars(n: u64) -> (r: Vec<char>)
    ensures
        r@ == decimal(n as nat),
    decreases n,
{
    if n < 10 {
        let mut v: Vec<char> = Vec::new();
        v.push(digit_of(n));
        assert(v@ =~= seq![digit_char(n as nat)]);
        v
    } else {
        let mut v = decimal_chars(n / 10);
        v.push(digit_of(n % 10));
        v
    }
}

/// `n` written in decimal, as `Display` writes an unsigned integer.
pub fn decimal_string(n: u64) -> (r: String)
    ensures
        r@ == decimal(n as nat),
{
    let v = decimal_chars(n);
    chars_to_string(v.as_slice())
}

} // verus!

verus! {

/// The items with `sep` between each two of them.
pub open spec fn join_with(items: Seq<Seq<char>>, sep: Seq<char>) -> Seq<char>
    decreases items.len(),
{
    if items.len() == 0 {
        seq![]
    } else if items.len() == 1 {
        items[0]
    } else {
        join_with(items.drop_last(), sep) + sep + items.last()
    }
}

/// The strings with `sep` between each two of them, as `join` gives them.
pub fn join_strings(items: &Vec<String>, sep: &str) -> (r: String)
    ensures
        r@ == join_with(items@.map_values(|s: String| s@), sep@),
{
    let ghost views = items@.map_values(|s: String| s@);
    let mut out = String::new();
    let n = items.len();
    let mut i: usize = 0;
    while i < n
        invariant
            n == items@.len(),
            views.len() == n,
            forall|k: int| 0 <= k < n ==> #[trigger] views[k] == items@[k]@,
            i <= n,
            out@ == join_with(views.take(i as int), sep@),
        decreases n - i,
    {
        assert(views.take(i + 1).drop_last() =~= views.take(i as int));
        if i == 0 {
            assert(views.take(1) =~= seq![views[0]]);
            out = out.concat(items[i].as_str());
            assert(out@ =~= items@[0]@);
        } else {
            out = out.concat(sep).concat(items[i].as_str());
        }
        i = i + 1;
    }
    assert(views.take(n as int) =~= views);
    out
}

} // verus!
