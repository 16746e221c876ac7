//! Character-level text helpers shared by the rest of the library.
use vstd::prelude::*;

verus! {

/// The characters of `s`, in order.
pub fn chars_of(s: &str) -> (v: Vec<char>)
    ensures
        v@ == s@,
{
    let mut v: Vec<char> = Vec::new();
    for c in it: s.chars()
        invariant
            it.seq() == s@,
            v@ == it.seq().take(it.index() as int),
    {
        v.push(c);
    }
    v
}

} // verus!

verus! {

/// An ASCII decimal digit.
pub open spec fn is_digit(c: char) -> bool {
    '0' <= c && c <= '9'
}

/// Every character of `s` is an ASCII decimal digit.
pub open spec fn all_digits(s: Seq<char>) -> bool {
    forall|i: int| 0 <= i < s.len() ==> is_digit(#[trigger] s[i])
}

/// The value of the decimal numeral `s` (most significant digit first).
pub open spec fn digits_value(s: Seq<char>) -> nat
    decreases s.len(),
{
    if s.len() == 0 {
        0
    } else {
        digits_value(s.drop_last()) * 10 + ((s.last() as int - '0' as int) as nat)
    }
}

/// What `str::parse::<u64>` gives back: an optional `+` sign followed by at
/// least one decimal digit, whose value fits in a `u64`.
pub open spec fn u64_of(s: Seq<char>) -> Option<u64> {
    let body = if s.len() > 0 && s[0] == '+' { s.drop_first() } else { s };
    if body.len() > 0 && all_digits(body) && digits_value(body) <= u64::MAX {
        Some(digits_value(body) as u64)
    } else {
        None
    }
}

/// What `str::parse::<bool>` gives back: exactly `true` or exactly `false`.
pub open spec fn bool_of(s: Seq<char>) -> Option<bool> {
    if s == seq!['t', 'r', 'u', 'e'] {
        Some(true)
    } else if s == seq!['f', 'a', 'l', 's', 'e'] {
        Some(false)
    } else {
        None
    }
}

/// A numeral's value is at least the value of any of its prefixes.
proof fn lemma_prefix_value_le(s: Seq<char>, k: int)
    requires
        all_digits(s),
        0 <= k <= s.len(),
    ensures
        digits_value(s.take(k)) <= digits_value(s),
    decreases s.len() - k,
{
    if k < s.len() {
        lemma_prefix_value_le(s, k + 1);
        let t = s.take(k + 1);
        assert(t.drop_last() =~= s.take(k));
        assert(is_digit(s[k]));
    } else {
        assert(s.take(k) =~= s);
    }
}

/// Parses an unsigned decimal number the way `str::parse::<u64>` does.
pub fn parse_u64(s: &str) -> (r: Option<u64>)
    ensures
        r == u64_of(s@),
{
    let cs = chars_of(s);
    let mut start: usize = 0;
    if cs.len() > 0 && cs[0] == '+' {
        start = 1;
    }
    let ghost body = if cs@.len() > 0 && cs@[0] == '+' { cs@.drop_first() } else { cs@ };
    assert(body =~= cs@.subrange(start as int, cs@.len() as int));
    if start >= cs.len() {
        return None;
    }
    let mut acc: u64 = 0;
    let mut i: usize = start;
    while i < cs.len()
        invariant
            start <= i <= cs.len(),
            cs@ == s@,
            body == (if s@.len() > 0 && s@[0] == '+' { s@.drop_first() } else { s@ }),
            body == cs@.subrange(start as int, cs@.len() as int),
            all_digits(body.take(i - start)),
            acc == digits_value(body.take(i - start)),
        decreases cs.len() - i,
    {
        let c = cs[i];
        if !('0' <= c && c <= '9') {
            assert(!is_digit(body[i - start]));
            return None;
        }
        let d = (c as u32 - '0' as u32) as u64;
        let ghost next = body.take(i - start + 1);
        assert(next.drop_last() =~= body.take(i - start));
        assert(next.last() == c);
        assert(all_digits(next));
        if acc > (u64::MAX - d) / 10 {
            assert(digits_value(next) > u64::MAX);
            proof {
                if all_digits(body) {
                    lemma_prefix_value_le(body, i - start + 1);
                    assert(digits_value(body) > u64::MAX);
                }
            }
            assert(u64_of(s@).is_none());
            return None;
        }
        acc = acc * 10 + d;
        i = i + 1;
    }
    assert(body.take(i - start) =~= body);
    Some(acc)
}

/// Parses `true` or `false` the way `str::parse::<bool>` does.
pub fn parse_bool(s: &str) -> (r: Option<bool>)
    ensures
        r == bool_of(s@),
{
    let cs = chars_of(s);
    if cs.len() == 4 && cs[0] == 't' && cs[1] == 'r' && cs[2] == 'u' && cs[3] == 'e' {
        assert(cs@ =~= seq!['t', 'r', 'u', 'e']);
        Some(true)
    } else if cs.len() == 5 && cs[0] == 'f' && cs[1] == 'a' && cs[2] == 'l' && cs[3] == 's'
        && cs[4] == 'e' {
        assert(cs@ =~= seq!['f', 'a', 'l', 's', 'e']);
        Some(false)
    } else {
        None
    }
}

} // verus!

verus! {

/// `String::push`: appends one character.
#[verifier::external_body]
pub fn push_char(s: &mut String, c: char)
    ensures
        final(s)@ == old(s)@.push(c),
{
    s.push(c)
}

/// The text made of the characters `cs[from..to]`.
pub fn string_from_chars(cs: &Vec<char>, from: usize, to: usize) -> (s: String)
    requires
        from <= to <= cs.len(),
    ensures
        s@ == cs@.subrange(from as int, to as int),
{
    let mut s = String::new();
    let mut i = from;
    while i < to
        invariant
            from <= i <= to <= cs.len(),
            s@ == cs@.subrange(from as int, i as int),
        decreases to - i,
    {
        push_char(&mut s, cs[i]);
        assert(cs@.subrange(from as int, i + 1) =~= cs@.subrange(from as int, i as int).push(cs@[i as int]));
        i = i + 1;
    }
    s
}

/// A character with the Unicode `White_Space` property, the set that
/// `char::is_whitespace` and `str::trim` use.
pub open spec fn is_white_space(c: char) -> bool {
    let n = c as u32;
    ||| 9 <= n <= 13
    ||| n == 32
    ||| n == 0x85
    ||| n == 0xA0
    ||| n == 0x1680
    ||| 0x2000 <= n <= 0x200A
    ||| n == 0x2028
    ||| n == 0x2029
    ||| n == 0x202F
    ||| n == 0x205F
    ||| n == 0x3000
}

fn white_space(c: char) -> (b: bool)
    ensures
        b == is_white_space(c),
{
    let n = c as u32;
    (9 <= n && n <= 13) || n == 32 || n == 0x85 || n == 0xA0 || n == 0x1680 || (0x2000 <= n && n
        <= 0x200A) || n == 0x2028 || n == 0x2029 || n == 0x202F || n == 0x205F || n == 0x3000
}

/// `s` without its leading white space.
pub open spec fn trim_start(s: Seq<char>) -> Seq<char>
    decreases s.len(),
{
    if s.len() > 0 && is_white_space(s[0]) {
        trim_start(s.drop_first())
    } else {
        s
    }
}

/// `s` without its trailing white space.
pub open spec fn trim_end(s: Seq<char>) -> Seq<char>
    decreases s.len(),
{
    if s.len() > 0 && is_white_space(s.last()) {
        trim_end(s.drop_last())
    } else {
        s
    }
}

/// `s` without leading and trailing white space, as `str::trim` gives it.
pub open spec fn trimmed(s: Seq<char>) -> Seq<char> {
    trim_end(trim_start(s))
}

/// `s` with leading and trailing white space removed.
pub fn trim(s: &str) -> (t: String)
    ensures
        t@ == trimmed(s@),
{
    let cs = chars_of(s);
    let n = cs.len();
    let mut a: usize = 0;
    assert(cs@.subrange(0, n as int) =~= s@);
    while a < n && white_space(cs[a])
        invariant
            a <= n == cs.len(),
            trim_start(s@) == trim_start(cs@.subrange(a as int, n as int)),
        decreases n - a,
    {
        assert(cs@.subrange(a as int, n as int).drop_first() =~= cs@.subrange(a + 1, n as int));
        a = a + 1;
    }
    assert(trim_start(s@) == cs@.subrange(a as int, n as int));
    let mut b: usize = n;
    while b > a && white_space(cs[b - 1])
        invariant
            a <= b <= n == cs.len(),
            trim_end(cs@.subrange(a as int, n as int)) == trim_end(cs@.subrange(a as int, b as int)),
        decreases b - a,
    {
        assert(cs@.subrange(a as int, b as int).drop_last() =~= cs@.subrange(a as int, b - 1));
        b = b - 1;
    }
    string_from_chars(&cs, a, b)
}

} // verus!

verus! {

/// The part of `s` before the first `sep` (all of `s` where there is none):
/// the first item that `str::split(sep)` yields.
pub open spec fn first_segment(s: Seq<char>, sep: char) -> Seq<char>
    decreases s.len(),
{
    if s.len() == 0 || s[0] == sep {
        Seq::empty()
    } else {
        seq![s[0]] + first_segment(s.drop_first(), sep)
    }
}

/// The part of `s` after the last `sep` (all of `s` where there is none):
/// the first item that `str::rsplit(sep)` yields.
pub open spec fn last_segment(s: Seq<char>, sep: char) -> Seq<char>
    decreases s.len(),
{
    if s.len() == 0 || s.last() == sep {
        Seq::empty()
    } else {
        last_segment(s.drop_last(), sep).push(s.last())
    }
}

/// The prefix before the first separator ends at the first separator.
pub proof fn lemma_first_segment_at(s: Seq<char>, sep: char, e: int)
    requires
        0 <= e <= s.len(),
        forall|j: int| 0 <= j < e ==> s[j] != sep,
        e == s.len() || s[e] == sep,
    ensures
        first_segment(s, sep) == s.take(e),
    decreases s.len(),
{
    if s.len() > 0 && s[0] != sep {
        lemma_first_segment_at(s.drop_first(), sep, e - 1);
        assert(s.take(e) =~= seq![s[0]] + s.drop_first().take(e - 1));
    } else {
        assert(s.take(e) =~= Seq::<char>::empty());
    }
}

/// The suffix after the last separator starts after the last separator.
pub proof fn lemma_last_segment_at(s: Seq<char>, sep: char, st: int)
    requires
        0 <= st <= s.len(),
        forall|j: int| st <= j < s.len() ==> s[j] != sep,
        st == 0 || s[st - 1] == sep,
    ensures
        last_segment(s, sep) == s.subrange(st, s.len() as int),
    decreases s.len(),
{
    if s.len() > 0 && s.last() != sep {
        lemma_last_segment_at(s.drop_last(), sep, st);
        assert(s.subrange(st, s.len() as int) =~= s.drop_last().subrange(st, s.len() - 1).push(
            s.last(),
        ));
    } else {
        assert(s.subrange(st, s.len() as int) =~= Seq::<char>::empty());
    }
}

/// Index where the first segment of `cs[..]` ends.
pub fn first_segment_end(cs: &Vec<char>, sep: char) -> (e: usize)
    ensures
        e <= cs.len(),
        first_segment(cs@, sep) == cs@.take(e as int),
{
    let mut e: usize = 0;
    while e < cs.len() && cs[e] != sep
        invariant
            e <= cs.len(),
            forall|j: int| 0 <= j < e ==> cs@[j] != sep,
        decreases cs.len() - e,
    {
        e = e + 1;
    }
    proof {
        lemma_first_segment_at(cs@, sep, e as int);
    }
    e
}

/// Index where the last segment of `cs[..end]` starts.
pub fn last_segment_start(cs: &Vec<char>, end: usize, sep: char) -> (st: usize)
    requires
        end <= cs.len(),
    ensures
        st <= end,
        last_segment(cs@.take(end as int), sep) == cs@.subrange(st as int, end as int),
{
    let mut st: usize = end;
    while st > 0 && cs[st - 1] != sep
        invariant
            st <= end <= cs.len(),
            forall|j: int| st <= j < end ==> cs@[j] != sep,
        decreases st,
    {
        st = st - 1;
    }
    proof {
        let t = cs@.take(end as int);
        lemma_last_segment_at(t, sep, st as int);
        assert(t.subrange(st as int, end as int) =~= cs@.subrange(st as int, end as int));
    }
    st
}

/// `c` with `A`-`Z` mapped to `a`-`z`, as `char::to_ascii_lowercase` does.
pub open spec fn ascii_lower(c: char) -> char {
    if 'A' <= c && c <= 'Z' {
        ((c as u32) + 32) as char
    } else {
        c
    }
}

pub fn to_ascii_lower(c: char) -> (r: char)
    ensures
        r == ascii_lower(c),
{
    if 'A' <= c && c <= 'Z' {
        let b: u8 = (c as u32 + 32) as u8;
        b as char
    } else {
        c
    }
}

/// `s` with every ASCII capital letter made lowercase.
pub open spec fn lower_ascii(s: Seq<char>) -> Seq<char> {
    s.map_values(|c: char| ascii_lower(c))
}

/// `needle` occurs in `hay` as a contiguous run.
pub open spec fn contains_run(hay: Seq<char>, needle: Seq<char>) -> bool {
    exists|i: int| 0 <= i <= hay.len() - needle.len() && #[trigger] hay.subrange(i, i + needle.len()) == needle
}

/// Whether `needle` occurs in `hay`.
pub fn contains_chars(hay: &Vec<char>, needle: &Vec<char>) -> (b: bool)
    ensures
        b == contains_run(hay@, needle@),
{
    let n = hay.len();
    let m = needle.len();
    if m > n {
        return false;
    }
    let mut i: usize = 0;
    while i <= n - m
        invariant
            m <= n == hay.len(),
            m == needle.len(),
            forall|k: int| 0 <= k < i ==> #[trigger] hay@.subrange(k, k + m) != needle@,
        decreases n - m + 1 - i,
    {
        let mut j: usize = 0;
        while j < m && hay[i + j] == needle[j]
            invariant
                j <= m == needle.len(),
                i + m <= n == hay.len(),
                forall|q: int| 0 <= q < j ==> hay@[i + q] == needle@[q],
            decreases m - j,
        {
            j = j + 1;
        }
        if j == m {
            assert(hay@.subrange(i as int, i + m) =~= needle@);
            return true;
        }
        assert(hay@.subrange(i as int, i + m)[j as int] != needle@[j as int]);
        i = i + 1;
    }
    assert forall|k: int| 0 <= k <= n - m implies #[trigger] hay@.subrange(k, k + m) != needle@ by {}
    false
}

} // verus!

verus! {

/// How `u64` parsing behaves: nothing and a lone `+` are refused; one
/// digit is its own value; appending a digit multiplies by ten and adds
/// it (refused once past `u64::MAX`); appending anything else is refused;
/// and a leading `+` changes nothing.
pub proof fn lemma_u64_parsing(s: Seq<char>, c: char)
    ensures
        u64_of(Seq::empty()) is None,
        u64_of(seq!['+']) is None,
        is_digit(c) ==> u64_of(seq![c]) == Some((c as u64 - '0' as u64) as u64),
        !is_digit(c) ==> u64_of(s.push(c)) is None,
        is_digit(c) && u64_of(s) is Some && u64_of(s)->0 * 10 + (c as int - '0' as int)
            <= u64::MAX ==> u64_of(s.push(c)) == Some(
            (u64_of(s)->0 * 10 + (c as int - '0' as int)) as u64,
        ),
        is_digit(c) && u64_of(s) is Some && u64_of(s)->0 * 10 + (c as int - '0' as int)
            > u64::MAX ==> u64_of(s.push(c)) is None,
        !(s.len() > 0 && s[0] == '+') ==> u64_of(seq!['+'] + s) == u64_of(s),
{
    let t = s.push(c);
    let body_s = if s.len() > 0 && s[0] == '+' { s.drop_first() } else { s };
    let body_t = if t.len() > 0 && t[0] == '+' { t.drop_first() } else { t };
    assert(seq![c].drop_last() =~= Seq::<char>::empty());
    if s.len() > 0 {
        assert(t[0] == s[0]);
        assert(body_t =~= body_s.push(c));
    } else {
        assert(t =~= seq![c]);
    }
    if !is_digit(c) {
        if body_t.len() > 0 {
            assert(body_t[body_t.len() - 1] == c);
        }
    }
    if is_digit(c) && u64_of(s) is Some {
        assert(body_t.drop_last() =~= body_s);
        assert(all_digits(body_t));
    }
    if is_digit(c) && u64_of(s) is Some && u64_of(s)->0 * 10 + (c as int - '0' as int) > u64::MAX {
        assert(body_t.drop_last() =~= body_s);
        assert(digits_value(body_t) > u64::MAX);
    }
    let p = seq!['+'] + s;
    assert(p.drop_first() =~= s);
}

/// `true` and `false` parse to themselves, and nothing else parses.
pub proof fn lemma_bool_parsing(s: Seq<char>)
    ensures
        bool_of("true"@) == Some(true),
        bool_of("false"@) == Some(false),
        bool_of(s) == Some(true) ==> s == "true"@,
        bool_of(s) == Some(false) ==> s == "false"@,
        s != "true"@ && s != "false"@ ==> bool_of(s) is None,
{
    reveal_strlit("true");
    reveal_strlit("false");
    assert("true"@ =~= seq!['t', 'r', 'u', 'e']);
    assert("false"@ =~= seq!['f', 'a', 'l', 's', 'e']);
}

} // verus!

verus! {

proof fn trim_start_split(s: Seq<char>) -> (a: int)
    ensures
        0 <= a <= s.len(),
        trim_start(s) == s.subrange(a, s.len() as int),
        forall|i: int| 0 <= i < a ==> is_white_space(#[trigger] s[i]),
        a < s.len() ==> !is_white_space(s[a]),
    decreases s.len(),
{
    if s.len() > 0 && is_white_space(s[0]) {
        let a1 = trim_start_split(s.drop_first());
        assert(s.drop_first().subrange(a1, s.len() - 1) =~= s.subrange(a1 + 1, s.len() as int));
        assert forall|i: int| 0 <= i < a1 + 1 implies is_white_space(#[trigger] s[i]) by {
            if i > 0 {
                assert(s[i] == s.drop_first()[i - 1]);
            }
        }
        a1 + 1
    } else {
        assert(s.subrange(0, s.len() as int) =~= s);
        0
    }
}

proof fn trim_end_split(s: Seq<char>) -> (b: int)
    ensures
        0 <= b <= s.len(),
        trim_end(s) == s.subrange(0, b),
        forall|i: int| b <= i < s.len() ==> is_white_space(#[trigger] s[i]),
        b > 0 ==> !is_white_space(s[b - 1]),
    decreases s.len(),
{
    if s.len() > 0 && is_white_space(s.last()) {
        let b1 = trim_end_split(s.drop_last());
        assert(s.drop_last().subrange(0, b1) =~= s.subrange(0, b1));
        assert forall|i: int| b1 <= i < s.len() implies is_white_space(#[trigger] s[i]) by {
            if i < s.len() - 1 {
                assert(s[i] == s.drop_last()[i]);
            }
        }
        b1
    } else {
        assert(s.subrange(0, s.len() as int) =~= s);
        s.len() as int
    }
}

/// Trimming keeps a contiguous run of `s` that starts and ends with a
/// character other than white space, and drops only white space around it.
/// So it is empty exactly when `s` is all white space.
pub proof fn lemma_trim_shape(s: Seq<char>)
    ensures
        exists|a: int, b: int|
            {
                &&& 0 <= a <= b <= s.len()
                &&& trimmed(s) == s.subrange(a, b)
                &&& forall|i: int| 0 <= i < a ==> is_white_space(#[trigger] s[i])
                &&& forall|i: int| b <= i < s.len() ==> is_white_space(#[trigger] s[i])
                &&& a < b ==> !is_white_space(s[a]) && !is_white_space(s[b - 1])
            },
        trimmed(s).len() == 0 <==> forall|i: int| 0 <= i < s.len() ==> is_white_space(#[trigger] s[i]),
{
    let a = trim_start_split(s);
    let t = s.subrange(a, s.len() as int);
    let b1 = trim_end_split(t);
    let b = a + b1;
    assert(t.subrange(0, b1) =~= s.subrange(a, b));
    assert forall|i: int| b <= i < s.len() implies is_white_space(#[trigger] s[i]) by {
        assert(s[i] == t[i - a]);
    }
    if a < b {
        assert(s[a] == t[0]);
        assert(s[b - 1] == t[b1 - 1]);
    }
    if trimmed(s).len() == 0 {
        assert forall|i: int| 0 <= i < s.len() implies is_white_space(#[trigger] s[i]) by {
            if a <= i < b {
                assert(false);
            }
        }
    }
    if forall|i: int| 0 <= i < s.len() ==> is_white_space(#[trigger] s[i]) {
        if a < b {
            assert(is_white_space(s[a]));
        }
    }
}

} // verus!

verus! {

/// White space takes in the ASCII tab, line feed, vertical tab, form feed,
/// carriage return and space, no visible ASCII character, the no-break and
/// ideographic spaces, and not the zero-width space.
pub proof fn lemma_white_space_members(c: char)
    ensures
        '!' <= c && c <= '~' ==> !is_white_space(c),
        is_white_space(' ') && is_white_space('\t') && is_white_space('\n'),
        is_white_space('\r') && is_white_space('\u{0B}') && is_white_space('\u{0C}'),
        is_white_space('\u{A0}') && is_white_space('\u{3000}') && is_white_space('\u{2028}'),
        !is_white_space('\u{200B}') && !is_white_space('\u{FEFF}'),
{
}

/// ASCII lowercasing moves `A`-`Z` onto `a`-`z` and keeps every other
/// character; lowercasing twice is lowercasing once.
pub proof fn lemma_ascii_lowering(c: char, s: Seq<char>)
    ensures
        'A' <= c && c <= 'Z' ==> ascii_lower(c) as u32 == c as u32 + 32 && 'a' <= ascii_lower(c)
            && ascii_lower(c) <= 'z',
        !('A' <= c && c <= 'Z') ==> ascii_lower(c) == c,
        lower_ascii(s).len() == s.len(),
        lower_ascii(lower_ascii(s)) == lower_ascii(s),
{
    assert(lower_ascii(lower_ascii(s)) =~= lower_ascii(s));
}

/// A run occurs wherever it is placed, and only in text at least as long
/// as it, which then holds its first character.
pub proof fn lemma_runs(a: Seq<char>, n: Seq<char>, b: Seq<char>, h: Seq<char>)
    ensures
        contains_run(a + n + b, n),
        contains_run(h, n) ==> n.len() <= h.len(),
        contains_run(h, n) && n.len() > 0 ==> exists|i: int| 0 <= i < h.len() && h[i] == n[0],
{
    let s = a + n + b;
    assert(s.subrange(a.len() as int, (a.len() + n.len()) as int) =~= n);
    if contains_run(h, n) && n.len() > 0 {
        let i = choose|i: int| 0 <= i <= h.len() - n.len() && #[trigger] h.subrange(i, i + n.len()) == n;
        assert(h[i] == h.subrange(i, i + n.len())[0]);
    }
}

} // verus!
