//! Character-level text operations: splitting on a separator, trimming white
//! space, and the conversions between `str`, `String` and character vectors.

use vstd::prelude::*;
use vstd::string::StrSliceExecFns;

verus! {

/// The Unicode `White_Space` property, as `char::is_whitespace` documents it.
pub open spec fn is_white_space_char(c: char) -> bool {
    let v = c as u32;
    ||| 0x09 <= v <= 0x0d
    ||| v == 0x20
    ||| v == 0x85
    ||| v == 0xa0
    ||| v == 0x1680
    ||| 0x2000 <= v <= 0x200a
    ||| v == 0x2028
    ||| v == 0x2029
    ||| v == 0x202f
    ||| v == 0x205f
    ||| v == 0x3000
}

/// Whether `c` is white space (the Unicode `White_Space` property).
pub fn is_white_space(c: char) -> (r: bool)
    ensures
        r == is_white_space_char(c),
{
    let v = c as u32;
    (0x09 <= v && v <= 0x0d) || v == 0x20 || v == 0x85 || v == 0xa0 || v == 0x1680 || (0x2000
        <= v && v <= 0x200a) || v == 0x2028 || v == 0x2029 || v == 0x202f || v == 0x205f || v
        == 0x3000
}

/// `s` without its leading white space.
pub open spec fn trim_start(s: Seq<char>) -> Seq<char>
    decreases s.len(),
{
    if s.len() > 0 && is_white_space_char(s[0]) {
        trim_start(s.drop_first())
    } else {
        s
    }
}

/// `s` without its trailing white space.
pub open spec fn trim_end(s: Seq<char>) -> Seq<char>
    decreases s.len(),
{
    if s.len() > 0 && is_white_space_char(s.last()) {
        trim_end(s.drop_last())
    } else {
        s
    }
}

/// `s` without leading and trailing white space, as `str::trim` gives it.
pub open spec fn trim(s: Seq<char>) -> Seq<char> {
    trim_end(trim_start(s))
}

/// The pieces of `s` between occurrences of `sep`, as `str::split` gives them:
/// `k` separators give `k + 1` pieces, some of which may be empty.
pub open spec fn split_on(s: Seq<char>, sep: char) -> Seq<Seq<char>>
    decreases s.len(),
{
    if s.len() == 0 {
        seq![Seq::<char>::empty()]
    } else {
        let pieces = split_on(s.drop_last(), sep);
        if s.last() == sep {
            pieces.push(Seq::<char>::empty())
        } else {
            pieces.update(pieces.len() - 1, pieces.last().push(s.last()))
        }
    }
}

/// The trimmed pieces of `pieces` that are not empty after trimming, in order.
pub open spec fn nonempty_trimmed(pieces: Seq<Seq<char>>) -> Seq<Seq<char>>
    decreases pieces.len(),
{
    if pieces.len() == 0 {
        Seq::<Seq<char>>::empty()
    } else {
        let front = nonempty_trimmed(pieces.drop_last());
        let t = trim(pieces.last());
        if t.len() > 0 {
            front.push(t)
        } else {
            front
        }
    }
}

/// The entries of a comma-separated list: each piece trimmed, empty ones dropped.
pub open spec fn comma_list(s: Seq<char>) -> Seq<Seq<char>> {
    nonempty_trimmed(split_on(s, ','))
}

/// The views of a sequence of strings.
pub open spec fn string_views(v: Seq<String>) -> Seq<Seq<char>> {
    v.map_values(|x: String| x@)
}

proof fn lemma_trim_start_suffix(s: Seq<char>)
    ensures
        trim_start(s).len() <= s.len(),
        trim_start(s) =~= s.subrange(s.len() - trim_start(s).len(), s.len() as int),
        trim_start(s).len() > 0 ==> !is_white_space_char(trim_start(s)[0]),
    decreases s.len(),
{
    if s.len() > 0 && is_white_space_char(s[0]) {
        lemma_trim_start_suffix(s.drop_first());
        let t = trim_start(s.drop_first());
        assert(s.drop_first().subrange(s.drop_first().len() - t.len(), s.drop_first().len() as int)
            =~= s.subrange(s.len() - t.len(), s.len() as int));
    }
}

proof fn lemma_trim_end_prefix(s: Seq<char>)
    ensures
        trim_end(s).len() <= s.len(),
        trim_end(s) =~= s.subrange(0, trim_end(s).len() as int),
        trim_end(s).len() > 0 ==> !is_white_space_char(trim_end(s).last()),
    decreases s.len(),
{
    if s.len() > 0 && is_white_space_char(s.last()) {
        lemma_trim_end_prefix(s.drop_last());
        let t = trim_end(s.drop_last());
        assert(s.drop_last().subrange(0, t.len() as int) =~= s.subrange(0, t.len() as int));
    }
}

/// The trimmed form of `s` is a piece of `s` that neither starts nor ends
/// with white space.
proof fn lemma_trim_inside(s: Seq<char>)
    ensures
        trim(s).len() <= s.len(),
        forall|j: int| 0 <= j < trim(s).len() ==> s.contains(#[trigger] trim(s)[j]),
        trim(s).len() > 0 ==> !is_white_space_char(trim(s)[0]) && !is_white_space_char(trim(s).last()),
{
    let a = trim_start(s);
    lemma_trim_start_suffix(s);
    lemma_trim_end_prefix(a);
    let t = trim_end(a);
    assert forall|j: int| 0 <= j < t.len() implies s.contains(#[trigger] t[j]) by {
        assert(t[j] == a[j]);
        assert(a[j] == s[s.len() - a.len() + j]);
    }
    if t.len() > 0 {
        assert(t[0] == a[0]);
    }
}

proof fn lemma_split_has_no_separator(s: Seq<char>, sep: char)
    ensures
        forall|i: int, j: int|
            0 <= i < split_on(s, sep).len() && 0 <= j < split_on(s, sep)[i].len()
                ==> #[trigger] split_on(s, sep)[i][j] != sep,
    decreases s.len(),
{
    if s.len() > 0 {
        lemma_split_has_no_separator(s.drop_last(), sep);
        lemma_split_nonempty(s.drop_last(), sep);
        let pieces = split_on(s.drop_last(), sep);
        if s.last() != sep {
            let last = pieces.last().push(s.last());
            assert forall|j: int| 0 <= j < last.len() implies #[trigger] last[j] != sep by {
                if j < last.len() - 1 {
                    assert(last[j] == pieces[pieces.len() - 1][j]);
                }
            }
        }
    }
}

proof fn lemma_nonempty_trimmed_clean(pieces: Seq<Seq<char>>, sep: char)
    requires
        forall|i: int, j: int| 0 <= i < pieces.len() && 0 <= j < pieces[i].len() ==> #[trigger] pieces[i][j] != sep,
    ensures
        forall|i: int| 0 <= i < nonempty_trimmed(pieces).len() ==> {
            let e = #[trigger] nonempty_trimmed(pieces)[i];
            &&& e.len() > 0
            &&& !e.contains(sep)
            &&& !is_white_space_char(e[0])
            &&& !is_white_space_char(e.last())
        },
    decreases pieces.len(),
{
    if pieces.len() > 0 {
        lemma_nonempty_trimmed_clean(pieces.drop_last(), sep);
        let p = pieces.last();
        lemma_trim_inside(p);
        let t = trim(p);
        if t.len() > 0 {
            assert(!t.contains(sep)) by {
                if t.contains(sep) {
                    let j = choose|j: int| 0 <= j < t.len() && t[j] == sep;
                    assert(p.contains(t[j]));
                    let k = choose|k: int| 0 <= k < p.len() && p[k] == t[j];
                    assert(pieces[pieces.len() - 1][k] != sep);
                }
            }
        }
        let front = nonempty_trimmed(pieces.drop_last());
        let all = nonempty_trimmed(pieces);
        assert forall|i: int| 0 <= i < all.len() implies {
            let e = #[trigger] all[i];
            &&& e.len() > 0
            &&& !e.contains(sep)
            &&& !is_white_space_char(e[0])
            &&& !is_white_space_char(e.last())
        } by {
            if i < front.len() {
                assert(all[i] == front[i]);
            } else {
                assert(all[i] == t);
            }
        }
    }
}

/// Every entry of a comma-separated list is non-empty, holds no comma, and
/// neither starts nor ends with white space.
pub proof fn comma_list_entries_are_clean(s: Seq<char>)
    ensures
        forall|i: int| 0 <= i < comma_list(s).len() ==> {
            let e = #[trigger] comma_list(s)[i];
            &&& e.len() > 0
            &&& !e.contains(',')
            &&& !is_white_space_char(e[0])
            &&& !is_white_space_char(e.last())
        },
{
    lemma_split_has_no_separator(s, ',');
    lemma_nonempty_trimmed_clean(split_on(s, ','), ',');
}

pub proof fn lemma_split_nonempty(s: Seq<char>, sep: char)
    ensures
        split_on(s, sep).len() >= 1,
    decreases s.len(),
{
    if s.len() > 0 {
        lemma_split_nonempty(s.drop_last(), sep);
    }
}

proof fn lemma_trim_start_skip(s: Seq<char>, i: int)
    requires
        0 <= i < s.len(),
        is_white_space_char(s[i]),
    ensures
        trim_start(s.skip(i)) == trim_start(s.skip(i + 1)),
{
    assert(s.skip(i).drop_first() =~= s.skip(i + 1));
}

proof fn lemma_trim_end_sub(s: Seq<char>, a: int, b: int)
    requires
        0 <= a < b <= s.len(),
        is_white_space_char(s[b - 1]),
    ensures
        trim_end(s.subrange(a, b)) == trim_end(s.subrange(a, b - 1)),
{
    assert(s.subrange(a, b).drop_last() =~= s.subrange(a, b - 1));
}

/// The characters of `s`.
pub fn chars_of(s: &str) -> (r: Vec<char>)
    ensures
        r@ == s@,
{
    let n = s.unicode_len();
    let mut v: Vec<char> = Vec::new();
    let mut i: usize = 0;
    while i < n
        invariant
            i <= n,
            n == s@.len(),
            v@ == s@.take(i as int),
        decreases n - i,
    {
        v.push(s.get_char(i));
        i = i + 1;
        assert(v@ =~= s@.take(i as int));
    }
    assert(s@.take(n as int) =~= s@);
    v
}

/// A string made of the characters `v` (`String::from_iter`).
#[verifier::external_body]
pub(crate) fn string_of(v: &[char]) -> (r: String)
    ensures
        r@ == v@,
{
    String::from_iter(v.iter())
}

/// The part of `v` between its leading and its trailing white space.
pub fn trim_chars(v: &[char]) -> (r: Vec<char>)
    ensures
        r@ == trim(v@),
{
    let n = v.len();
    let mut start: usize = 0;
    assert(v@.skip(0) =~= v@);
    while start < n && is_white_space(v[start])
        invariant
            start <= n,
            n == v@.len(),
            trim_start(v@) == trim_start(v@.skip(start as int)),
        decreases n - start,
    {
        proof {
            lemma_trim_start_skip(v@, start as int);
        }
        start = start + 1;
    }
    assert(trim_start(v@.skip(start as int)) == v@.skip(start as int));
    assert(v@.skip(start as int) =~= v@.subrange(start as int, n as int));
    let mut end: usize = n;
    while end > start && is_white_space(v[end - 1])
        invariant
            start <= end <= n,
            n == v@.len(),
            trim(v@) == trim_end(v@.subrange(start as int, end as int)),
        decreases end - start,
    {
        proof {
            lemma_trim_end_sub(v@, start as int, end as int);
        }
        end = end - 1;
    }
    let mut out: Vec<char> = Vec::new();
    let mut k: usize = start;
    while k < end
        invariant
            start <= k <= end <= n,
            n == v@.len(),
            out@ == v@.subrange(start as int, k as int),
        decreases end - k,
    {
        out.push(v[k]);
        k = k + 1;
        assert(out@ =~= v@.subrange(start as int, k as int));
    }
    out
}

/// The entries of the comma-separated list `s`: the pieces between commas,
/// trimmed, with the empty ones dropped.
pub fn split_comma_list(s: &str) -> (r: Vec<String>)
    ensures
        string_views(r@) == comma_list(s@),
{
    let chars = chars_of(s);
    let n = chars.len();
    let mut out: Vec<String> = Vec::new();
    let mut piece: Vec<char> = Vec::new();
    let mut i: usize = 0;
    proof {
        assert(chars@.take(0) =~= Seq::<char>::empty());
    }
    while i < n
        invariant
            i <= n,
            n == chars@.len(),
            chars@ == s@,
            ({
                let pieces = split_on(chars@.take(i as int), ',');
                &&& pieces.len() >= 1
                &&& piece@ == pieces.last()
                &&& string_views(out@) == nonempty_trimmed(pieces.drop_last())
            }),
        decreases n - i,
    {
        let c = chars[i];
        let ghost prefix = chars@.take(i as int);
        let ghost pieces = split_on(prefix, ',');
        proof {
            assert(chars@.take(i + 1).drop_last() =~= prefix);
            assert(chars@.take(i + 1).last() == c);
        }
        if c == ',' {
            let t = trim_chars(&piece);
            if t.len() > 0 {
                let st = string_of(&t);
                out.push(st);
            }
            piece = Vec::new();
            proof {
                let np = split_on(chars@.take(i + 1), ',');
                assert(np == pieces.push(Seq::<char>::empty()));
                assert(np.drop_last() =~= pieces);
                assert(pieces =~= pieces.drop_last().push(pieces.last()));
                assert(string_views(out@) =~= nonempty_trimmed(np.drop_last()));
            }
        } else {
            piece.push(c);
            proof {
                let np = split_on(chars@.take(i + 1), ',');
                assert(np == pieces.update(pieces.len() - 1, pieces.last().push(c)));
                assert(np.drop_last() =~= pieces.drop_last());
                assert(piece@ == np.last());
            }
        }
        i = i + 1;
    }
    let t = trim_chars(&piece);
    if t.len() > 0 {
        let st = string_of(&t);
        out.push(st);
    }
    proof {
        let pieces = split_on(chars@.take(n as int), ',');
        assert(chars@.take(n as int) =~= s@);
        assert(pieces =~= pieces.drop_last().push(pieces.last()));
        assert(string_views(out@) =~= comma_list(s@));
    }
    out
}

} // verus!

verus! {

/// Whether the strings `a` and `b` hold the same characters.
pub fn str_equal(a: &str, b: &str) -> (r: bool)
    ensures
        r == (a@ == b@),
{
    let x = chars_of(a);
    let y = chars_of(b);
    if x.len() != y.len() {
        return false;
    }
    let mut i: usize = 0;
    while i < x.len()
        invariant
            i <= x@.len(),
            x@.len() == y@.len(),
            x@ == a@,
            y@ == b@,
            forall|j: int| 0 <= j < i ==> x@[j] == y@[j],
        decreases x@.len() - i,
    {
        if x[i] != y[i] {
            return false;
        }
        i = i + 1;
    }
    assert(x@ =~= y@);
    true
}

/// The decimal digit for `d`.
pub open spec fn digit_char(d: nat) -> char {
    if d == 0 { '0' }
    else if d == 1 { '1' }
    else if d == 2 { '2' }
    else if d == 3 { '3' }
    else if d == 4 { '4' }
    else if d == 5 { '5' }
    else if d == 6 { '6' }
    else if d == 7 { '7' }
    else if d == 8 { '8' }
    else { '9' }
}

/// The decimal notation of `n`, without leading zeros.
pub open spec fn decimal(n: nat) -> Seq<char>
    decreases n,
{
    if n < 10 {
        seq![digit_char(n)]
    } else {
        decimal(n / 10).push(digit_char(n % 10))
    }
}

/// The decimal notation of `n`, with a leading `-` when negative.
pub open spec fn signed_decimal(n: int) -> Seq<char> {
    if n < 0 {
        seq!['-'] + decimal((-n) as nat)
    } else {
        decimal(n as nat)
    }
}

fn digit(d: u64) -> (c: char)
    requires
        d < 10,
    ensures
        c == digit_char(d as nat),
{
    if d == 0 { '0' }
    else if d == 1 { '1' }
    else if d == 2 { '2' }
    else if d == 3 { '3' }
    else if d == 4 { '4' }
    else if d == 5 { '5' }
    else if d == 6 { '6' }
    else if d == 7 { '7' }
    else if d == 8 { '8' }
    else { '9' }
}

fn decimal_chars(n: u64) -> (r: Vec<char>)
    ensures
        r@ == decimal(n as nat),
    decreases n,
{
    if n < 10 {
        let mut v: Vec<char> = Vec::new();
        v.push(digit(n));
        assert(v@ =~= seq![digit_char(n as nat)]);
        v
    } else {
        let mut v = decimal_chars(n / 10);
        v.push(digit(n % 10));
        v
    }
}

/// The decimal notation of `n`.
pub fn u64_to_decimal(n: u64) -> (r: String)
    ensures
        r@ == decimal(n as nat),
{
    let v = decimal_chars(n);
    string_of(&v)
}

/// The decimal notation of `n`, with a leading `-` when negative.
pub fn i64_to_decimal(n: i64) -> (r: String)
    ensures
        r@ == signed_decimal(n as int),
{
    if n < 0 {
        let m: u64 = if n == i64::MIN { 9223372036854775808u64 } else { (-n) as u64 };
        let mut v: Vec<char> = Vec::new();
        v.push('-');
        let d = decimal_chars(m);
        let mut i: usize = 0;
        while i < d.len()
            invariant
                i <= d@.len(),
                v@ == seq!['-'] + d@.take(i as int),
            decreases d@.len() - i,
        {
            v.push(d[i]);
            i = i + 1;
            assert(v@ =~= seq!['-'] + d@.take(i as int));
        }
        assert(d@.take(d@.len() as int) =~= d@);
        string_of(&v)
    } else {
        u64_to_decimal(n as u64)
    }
}

/// `a` followed by `b`.
pub fn concat(a: &str, b: &str) -> (r: String)
    ensures
        r@ == a@ + b@,
{
    let mut s = String::from_str(a);
    s.append(b);
    s
}

/// `a`, then `b`, then `c`.
pub fn concat3(a: &str, b: &str, c: &str) -> (r: String)
    ensures
        r@ == a@ + b@ + c@,
{
    let mut s = String::from_str(a);
    s.append(b);
    s.append(c);
    s
}

/// The lower-case form of a string, as `str::to_lowercase` gives it.
pub uninterp spec fn lowercase(s: Seq<char>) -> Seq<char>;

/// The lower-case form of `s` (`str::to_lowercase`).
#[verifier::external_body]
pub(crate) fn to_lowercase(s: &str) -> (r: String)
    ensures
        r@ == lowercase(s@),
{
    s.to_lowercase()
}

} // verus!
