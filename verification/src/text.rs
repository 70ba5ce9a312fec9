//! Character-level text helpers shared by the parsers of the library.
//!
//! Strings are reasoned about through their `Seq<char>` views.
use vstd::prelude::*;

verus! {

/// The Unicode `White_Space` property: the characters that `char::is_whitespace`
/// and `str::trim` treat as whitespace.
pub open spec fn is_white_space(c: char) -> bool {
    let n = c as u32;
    ||| 0x09 <= n <= 0x0D
    ||| n == 0x20
    ||| n == 0x85
    ||| n == 0xA0
    ||| n == 0x1680
    ||| 0x2000 <= n <= 0x200A
    ||| n == 0x2028
    ||| n == 0x2029
    ||| n == 0x202F
    ||| n == 0x205F
    ||| n == 0x3000
}

/// Whether `c` has the Unicode `White_Space` property, as `char::is_whitespace`
/// tells.
fn char_is_whitespace(c: char) -> (r: bool)
    ensures
        r == is_white_space(c),
{
    let n = c as u32;
    (0x09 <= n && n <= 0x0D) || n == 0x20 || n == 0x85 || n == 0xA0 || n == 0x1680 || (0x2000
        <= n && n <= 0x200A) || n == 0x2028 || n == 0x2029 || n == 0x202F || n == 0x205F || n
        == 0x3000
}

/// `s` with its leading whitespace removed.
pub open spec fn trim_start(s: Seq<char>) -> Seq<char>
    decreases s.len(),
{
    if s.len() > 0 && is_white_space(s[0]) {
        trim_start(s.drop_first())
    } else {
        s
    }
}

/// `s` with its trailing whitespace removed.
pub open spec fn trim_end(s: Seq<char>) -> Seq<char>
    decreases s.len(),
{
    if s.len() > 0 && is_white_space(s.last()) {
        trim_end(s.drop_last())
    } else {
        s
    }
}

/// What `str::trim` returns: leading and trailing whitespace removed.
pub open spec fn trimmed(s: Seq<char>) -> Seq<char> {
    trim_end(trim_start(s))
}

/// The characters of a string slice, in order.
pub fn chars_of(s: &str) -> (r: Vec<char>)
    ensures
        r@ == s@,
{
    broadcast use vstd::string::group_string_axioms;
    let mut r: Vec<char> = Vec::new();
    for c in it: s.chars()
        invariant
            it.seq() == s@,
            r@ == s@.take(it.index() as int),
    {
        r.push(c);
    }
    r
}


/// The character sequences held by a list of character vectors.
pub open spec fn views(v: Seq<Vec<char>>) -> Seq<Seq<char>> {
    Seq::new(v.len(), |i: int| v[i]@)
}

/// The pieces of `s` between occurrences of `sep`, as `str::split` yields
/// them: one more piece than there are separators, empty pieces included.
pub open spec fn split_on(s: Seq<char>, sep: char) -> Seq<Seq<char>>
    decreases s.len(),
{
    if s.len() == 0 {
        seq![Seq::<char>::empty()]
    } else {
        let prev = split_on(s.drop_last(), sep);
        if s.last() == sep {
            prev.push(Seq::<char>::empty())
        } else {
            prev.update(prev.len() - 1, prev.last().push(s.last()))
        }
    }
}

/// Splitting always yields at least one piece.
pub proof fn lemma_split_nonempty(s: Seq<char>, sep: char)
    ensures
        split_on(s, sep).len() >= 1,
    decreases s.len(),
{
    if s.len() > 0 {
        lemma_split_nonempty(s.drop_last(), sep);
    }
}

/// Dropping leading whitespace one character at a time.
proof fn lemma_trim_start_step(s: Seq<char>, i: int)
    requires
        0 <= i < s.len(),
        is_white_space(s[i]),
    ensures
        trim_start(s.subrange(i, s.len() as int)) == trim_start(s.subrange(i + 1, s.len() as int)),
{
    let t = s.subrange(i, s.len() as int);
    assert(t.drop_first() == s.subrange(i + 1, s.len() as int));
}

/// Dropping trailing whitespace one character at a time.
proof fn lemma_trim_end_step(s: Seq<char>, i: int, j: int)
    requires
        0 <= i < j <= s.len(),
        is_white_space(s[j - 1]),
    ensures
        trim_end(s.subrange(i, j)) == trim_end(s.subrange(i, j - 1)),
{
    let t = s.subrange(i, j);
    assert(t.drop_last() == s.subrange(i, j - 1));
}

/// The characters `s[from..to]` as a new vector.
pub fn copy_range(s: &Vec<char>, from: usize, to: usize) -> (r: Vec<char>)
    requires
        from <= to <= s.len(),
    ensures
        r@ == s@.subrange(from as int, to as int),
{
    let mut r: Vec<char> = Vec::new();
    let mut k = from;
    while k < to
        invariant
            from <= k <= to <= s.len(),
            r@ == s@.subrange(from as int, k as int),
        decreases to - k,
    {
        r.push(s[k]);
        k += 1;
    }
    r
}

/// Where the text of `s` without leading and trailing whitespace begins and ends.
pub fn trim_bounds(s: &Vec<char>) -> (r: (usize, usize))
    ensures
        r.0 <= r.1 <= s.len(),
        trimmed(s@) == s@.subrange(r.0 as int, r.1 as int),
{
    let n = s.len();
    let mut i: usize = 0;
    assert(s@.subrange(0, n as int) == s@);
    loop
        invariant
            i <= n,
            n == s.len(),
            trim_start(s@) == trim_start(s@.subrange(i as int, n as int)),
        ensures
            i <= n,
            trim_start(s@) == s@.subrange(i as int, n as int),
        decreases n - i,
    {
        if i == n {
            break;
        }
        if !char_is_whitespace(s[i]) {
            break;
        }
        proof {
            lemma_trim_start_step(s@, i as int);
        }
        i += 1;
    }
    let mut j: usize = n;
    loop
        invariant
            i <= j <= n,
            n == s.len(),
            trim_start(s@) == s@.subrange(i as int, n as int),
            trimmed(s@) == trim_end(s@.subrange(i as int, j as int)),
        ensures
            i <= j <= n,
            trimmed(s@) == s@.subrange(i as int, j as int),
        decreases j - i,
    {
        if j == i {
            break;
        }
        if !char_is_whitespace(s[j - 1]) {
            break;
        }
        proof {
            lemma_trim_end_step(s@, i as int, j as int);
        }
        j -= 1;
    }
    (i, j)
}

/// `s` with leading and trailing whitespace removed, as `str::trim` does.
pub fn trim_chars(s: &Vec<char>) -> (r: Vec<char>)
    ensures
        r@ == trimmed(s@),
{
    let (i, j) = trim_bounds(s);
    copy_range(s, i, j)
}

/// The string slice `s` without leading and trailing whitespace, as `str::trim` gives it.
pub fn trim_str(s: &str) -> (r: &str)
    ensures
        r@ == trimmed(s@),
{
    let cs = chars_of(s);
    let (i, j) = trim_bounds(&cs);
    s.substring_char(i, j)
}

/// The pieces of `s` between occurrences of `sep`, as `str::split` yields them.
pub fn split_chars(s: &Vec<char>, sep: char) -> (r: Vec<Vec<char>>)
    ensures
        views(r@) == split_on(s@, sep),
{
    let mut done: Vec<Vec<char>> = Vec::new();
    let mut cur: Vec<char> = Vec::new();
    let mut i: usize = 0;
    proof {
        assert(s@.take(0) == Seq::<char>::empty());
    }
    while i < s.len()
        invariant
            i <= s.len(),
            split_on(s@.take(i as int), sep) == views(done@).push(cur@),
        decreases s.len() - i,
    {
        let ghost before = s@.take(i as int);
        proof {
            assert(s@.take(i + 1).drop_last() == before);
            lemma_split_nonempty(before, sep);
        }
        let c = s[i];
        let ghost old_done = views(done@);
        let ghost old_cur = cur@;
        if c == sep {
            done.push(cur);
            cur = Vec::new();
            assert(views(done@) =~= old_done.push(old_cur));
            assert(views(done@).push(cur@) == split_on(before, sep).push(Seq::<char>::empty()));
        } else {
            cur.push(c);
            assert(views(done@).push(cur@) == split_on(before, sep).update(
                split_on(before, sep).len() - 1,
                split_on(before, sep).last().push(c),
            ));
        }
        i += 1;
    }
    assert(s@.take(s.len() as int) == s@);
    let ghost old_done = views(done@);
    let ghost old_cur = cur@;
    done.push(cur);
    assert(views(done@) =~= old_done.push(old_cur));
    done
}

/// The characters of `b`, compared with `a`.
pub fn chars_eq_str(a: &Vec<char>, b: &str) -> (r: bool)
    ensures
        r == (a@ == b@),
{
    let bc = chars_of(b);
    if a.len() != bc.len() {
        return false;
    }
    let mut k: usize = 0;
    while k < a.len()
        invariant
            k <= a.len(),
            a.len() == bc.len(),
            bc@ == b@,
            a@.take(k as int) == bc@.take(k as int),
        decreases a.len() - k,
    {
        if a[k] != bc[k] {
            return false;
        }
        assert(a@.take(k + 1) == a@.take(k as int).push(a@[k as int]));
        assert(bc@.take(k + 1) == bc@.take(k as int).push(bc@[k as int]));
        k += 1;
    }
    assert(a@.take(a.len() as int) == a@);
    assert(bc@.take(a.len() as int) == bc@);
    true
}

/// Whether the string `s` is exactly `lit`.
pub fn str_is(s: &str, lit: &str) -> (r: bool)
    ensures
        r == (s@ == lit@),
{
    chars_eq_str(&chars_of(s), lit)
}

/// Whether the string `s` is empty or made of whitespace only.
pub fn is_blank(s: &str) -> (r: bool)
    ensures
        r == (trimmed(s@).len() == 0),
{
    trim_chars(&chars_of(s)).len() == 0
}

/// Whether the string `s` has no characters.
pub fn is_empty_str(s: &str) -> (r: bool)
    ensures
        r == (s@.len() == 0),
{
    chars_of(s).len() == 0
}

/// `needle` occurs in `hay` as a contiguous run.
pub open spec fn has_infix(hay: Seq<char>, needle: Seq<char>) -> bool {
    exists|i: int|
        0 <= i && i + needle.len() <= hay.len() && #[trigger] hay.subrange(i, i + needle.len())
            == needle
}

/// Whether `nd` occurs in `hay` at position `i`.
fn occurs_at(hay: &Vec<char>, i: usize, nd: &Vec<char>) -> (r: bool)
    requires
        i + nd.len() <= hay.len(),
    ensures
        r == (hay@.subrange(i as int, i + nd.len()) == nd@),
{
    let n = nd.len();
    let mut j: usize = 0;
    while j < n
        invariant
            i + n <= hay.len(),
            n == nd.len(),
            j <= n,
            forall|k: int| 0 <= k < j ==> hay@[i + k] == nd@[k],
        decreases n - j,
    {
        if hay[i + j] != nd[j] {
            assert(hay@.subrange(i as int, i + n)[j as int] != nd@[j as int]);
            return false;
        }
        j += 1;
    }
    assert(hay@.subrange(i as int, i + n) =~= nd@);
    true
}

/// Whether `hay` holds `needle` as a contiguous run, as `str::contains` tells.
pub fn contains_chars(hay: &Vec<char>, needle: &str) -> (r: bool)
    ensures
        r == has_infix(hay@, needle@),
{
    let nd = chars_of(needle);
    let n = nd.len();
    if n > hay.len() {
        return false;
    }
    if n == 0 {
        assert(hay@.subrange(0, 0int + needle@.len()) =~= needle@);
        return true;
    }
    let last = hay.len() - n;
    let mut i: usize = 0;
    while i <= last
        invariant
            nd@ == needle@,
            n == nd.len(),
            last + n == hay.len(),
            n > 0,
            i <= last + 1,
            forall|k: int| 0 <= k < i ==> #[trigger] hay@.subrange(k, k + n) != needle@,
        decreases last + 1 - i,
    {
        if occurs_at(hay, i, &nd) {
            assert(hay@.subrange(i as int, i + needle@.len()) == needle@);
            return true;
        }
        i += 1;
    }
    assert forall|k: int|
        0 <= k && k + needle@.len() <= hay@.len() implies #[trigger] hay@.subrange(
        k,
        k + needle@.len(),
    ) != needle@ by {
        assert(k < i);
    }
    false
}

/// Whether the string `s` holds `needle` as a contiguous run.
pub fn contains_str(s: &str, needle: &str) -> (r: bool)
    ensures
        r == has_infix(s@, needle@),
{
    contains_chars(&chars_of(s), needle)
}

/// `s` begins with `p`.
pub open spec fn has_prefix(s: Seq<char>, p: Seq<char>) -> bool {
    p.len() <= s.len() && s.subrange(0, p.len() as int) == p
}

/// `s` ends with `p`.
pub open spec fn has_suffix(s: Seq<char>, p: Seq<char>) -> bool {
    p.len() <= s.len() && s.subrange(s.len() - p.len(), s.len() as int) == p
}

/// Whether `s` begins with `p`, as `str::starts_with` tells.
pub fn starts_with_chars(s: &Vec<char>, p: &str) -> (r: bool)
    ensures
        r == has_prefix(s@, p@),
{
    let pc = chars_of(p);
    if pc.len() > s.len() {
        return false;
    }
    let r = occurs_at(s, 0, &pc);
    r
}

/// Whether `s` ends with `p`, as `str::ends_with` tells.
pub fn ends_with_chars(s: &Vec<char>, p: &str) -> (r: bool)
    ensures
        r == has_suffix(s@, p@),
{
    let pc = chars_of(p);
    if pc.len() > s.len() {
        return false;
    }
    occurs_at(s, s.len() - pc.len(), &pc)
}

/// Whether the string `s` begins with `p`.
pub fn starts_with_str(s: &str, p: &str) -> (r: bool)
    ensures
        r == has_prefix(s@, p@),
{
    starts_with_chars(&chars_of(s), p)
}

/// The decimal digit `d` (0 to 9) as a character.
pub open spec fn digit_char(d: int) -> char {
    (48 + d) as char
}

/// The decimal text of a natural number, without leading zeros.
pub open spec fn nat_text(n: nat) -> Seq<char>
    decreases n,
{
    if n < 10 {
        seq![digit_char(n as int)]
    } else {
        nat_text(n / 10).push(digit_char((n % 10) as int))
    }
}

/// The decimal text of an integer, with a leading '-' when it is negative.
pub open spec fn int_text(n: int) -> Seq<char> {
    if n < 0 {
        seq!['-'] + nat_text((-n) as nat)
    } else {
        nat_text(n as nat)
    }
}

/// The decimal digit `d` as a one-character string.
fn digit_str(d: u64) -> (r: &'static str)
    requires
        d < 10,
    ensures
        r@ == seq![digit_char(d as int)],
{
    proof {
        reveal_strlit("0");
        reveal_strlit("1");
        reveal_strlit("2");
        reveal_strlit("3");
        reveal_strlit("4");
        reveal_strlit("5");
        reveal_strlit("6");
        reveal_strlit("7");
        reveal_strlit("8");
        reveal_strlit("9");
    }
    match d {
        0 => "0",
        1 => "1",
        2 => "2",
        3 => "3",
        4 => "4",
        5 => "5",
        6 => "6",
        7 => "7",
        8 => "8",
        _ => "9",
    }
}

/// The decimal text of the number, as `u64::to_string` writes it.
pub(crate) fn u64_text(n: u64) -> (r: String)
    ensures
        r@ == nat_text(n as nat),
    decreases n,
{
    if n < 10 {
        String::from_str(digit_str(n))
    } else {
        let mut s = u64_text(n / 10);
        s.append(digit_str(n % 10));
        s
    }
}

/// The decimal text of the number, '-' first when negative, as
/// `i32::to_string` writes it.
pub(crate) fn i32_text(n: i32) -> (r: String)
    ensures
        r@ == int_text(n as int),
{
    proof {
        reveal_strlit("-");
    }
    if n < 0 {
        let m: i64 = -(n as i64);
        let digits = u64_text(m as u64);
        String::from_str("-").concat(digits.as_str())
    } else {
        u64_text(n as u64)
    }
}

/// A string holding `s` followed by `t`.
pub fn join2(s: &str, t: &str) -> (r: String)
    ensures
        r@ == s@ + t@,
{
    String::from_str(s).concat(t)
}

/// A string holding `s`, then `t`, then `u`.
pub fn join3(s: &str, t: &str, u: &str) -> (r: String)
    ensures
        r@ == s@ + t@ + u@,
{
    String::from_str(s).concat(t).concat(u)
}

/// The lowercase form of a string, as `str::to_lowercase` computes it
/// (Unicode lowercase mapping, with its word-final sigma rule).
pub uninterp spec fn lowercase(s: Seq<char>) -> Seq<char>;

/// `str::to_lowercase` on the string made of `s`; the result is named
/// `lowercase`, a function of the characters alone. Nothing more is stated.
#[verifier::external_body]
pub(crate) fn lowercase_chars(s: &Vec<char>) -> (r: Vec<char>)
    ensures
        r@ == lowercase(s@),
{
    let text: String = s.iter().collect();
    text.to_lowercase().chars().collect()
}

} // verus!
