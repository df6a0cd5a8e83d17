//! Small text utilities shared by the rest of the crate: character access,
//! equality, substring search, splitting and joining, decimal rendering.
use vstd::prelude::*;
use vstd::string::StringExecFns;
use vstd::utf8::{encode_utf8, encode_utf8_decode_utf8};

verus! {

broadcast use vstd::string::group_string_axioms;

/// The characters of `s`, in order.
pub fn chars_of(s: &str) -> (out: Vec<char>)
    ensures
        out@ == s@,
{
    let mut out: Vec<char> = Vec::new();
    for c in it: s.chars()
        invariant
            out@ == it.seq().take(it.index() as int),
    {
        out.push(c);
    }
    out
}

/// Appends one character to a string; calls `String::push`, of which the
/// contract claims that it extends the string by exactly that character.
#[verifier::external_body]
pub(crate) fn push_char(s: &mut String, c: char)
    ensures
        final(s)@ == old(s)@.push(c),
{
    s.push(c);
}

/// Appends `t` to `s`.
pub fn push_str(s: &mut String, t: &str)
    ensures
        final(s)@ == old(s)@ + t@,
{
    s.append(t);
}

/// A new string holding the text of `t`.
pub fn owned(t: &str) -> (r: String)
    ensures
        r@ == t@,
{
    String::from_str(t)
}

/// Whether two strings hold the same characters.
pub fn str_eq(a: &str, b: &str) -> (r: bool)
    ensures
        r == (a@ == b@),
{
    let x = a.as_bytes();
    let y = b.as_bytes();
    proof {
        encode_utf8_decode_utf8(a@);
        encode_utf8_decode_utf8(b@);
    }
    if x.len() != y.len() {
        return false;
    }
    let n = x.len();
    let mut i: usize = 0;
    while i < n
        invariant
            n == x@.len(),
            n == y@.len(),
            0 <= i <= n,
            x@ == encode_utf8(a@),
            y@ == encode_utf8(b@),
            forall|j: int| 0 <= j < i ==> x@[j] == y@[j],
        decreases n - i,
    {
        if x[i] != y[i] {
            return false;
        }
        i = i + 1;
    }
    assert(x@ =~= y@);
    true
}

/// The decimal digit character for `d < 10`.
pub open spec fn digit_char(d: nat) -> char {
    if d == 0 {
        '0'
    } else if d == 1 {
        '1'
    } else if d == 2 {
        '2'
    } else if d == 3 {
        '3'
    } else if d == 4 {
        '4'
    } else if d == 5 {
        '5'
    } else if d == 6 {
        '6'
    } else if d == 7 {
        '7'
    } else if d == 8 {
        '8'
    } else {
        '9'
    }
}

/// The decimal text of a natural number, without leading zeros.
pub open spec fn decimal(n: nat) -> Seq<char>
    decreases n,
{
    if n < 10 {
        seq![digit_char(n)]
    } else {
        decimal(n / 10).push(digit_char(n % 10))
    }
}

/// The decimal text of an integer: a `-` sign before the magnitude when negative.
pub open spec fn signed_decimal(n: int) -> Seq<char> {
    if n < 0 {
        seq!['-'] + decimal((-n) as nat)
    } else {
        decimal(n as nat)
    }
}

fn digit(d: u64) -> (c: char)
    requires
        d < 10,
    ensures
        c == digit_char(d as nat),
{
    if d == 0 {
        '0'
    } else if d == 1 {
        '1'
    } else if d == 2 {
        '2'
    } else if d == 3 {
        '3'
    } else if d == 4 {
        '4'
    } else if d == 5 {
        '5'
    } else if d == 6 {
        '6'
    } else if d == 7 {
        '7'
    } else if d == 8 {
        '8'
    } else {
        '9'
    }
}

/// Appends the decimal text of `n`.
pub fn push_decimal(s: &mut String, n: u64)
    ensures
        final(s)@ == old(s)@ + decimal(n as nat),
    decreases n,
{
    if n >= 10 {
        push_decimal(s, n / 10);
    }
    push_char(s, digit(n % 10));
    proof {
        if n < 10 {
            assert(decimal(n as nat) =~= seq![digit_char(n as nat)]);
        }
    }
}

/// Appends the decimal text of `n`, with a leading `-` when negative.
pub fn push_signed_decimal(s: &mut String, n: i64)
    ensures
        final(s)@ == old(s)@ + signed_decimal(n as int),
{
    if n < 0 {
        push_char(s, '-');
        let m: u64 = ((-(n + 1)) as u64) + 1;
        push_decimal(s, m);
    } else {
        push_decimal(s, n as u64);
    }
}

/// The decimal text of `n`.
pub fn u64_text(n: u64) -> (r: String)
    ensures
        r@ == decimal(n as nat),
{
    let mut r = String::new();
    push_decimal(&mut r, n);
    r
}

/// The decimal text of `n`, with a leading `-` when negative.
pub fn i64_text(n: i64) -> (r: String)
    ensures
        r@ == signed_decimal(n as int),
{
    let mut r = String::new();
    push_signed_decimal(&mut r, n);
    r
}


/// A new string holding exactly the characters of `cs`.
pub fn string_of(cs: &[char]) -> (r: String)
    ensures
        r@ == cs@,
{
    let mut r = String::new();
    let n = cs.len();
    let mut i: usize = 0;
    while i < n
        invariant
            n == cs@.len(),
            0 <= i <= n,
            r@ == cs@.take(i as int),
        decreases n - i,
    {
        push_char(&mut r, cs[i]);
        assert(cs@.take(i + 1) =~= cs@.take(i as int).push(cs@[i as int]));
        i = i + 1;
    }
    assert(cs@.take(n as int) =~= cs@);
    r
}

/// What is left of `s` after the prefix `p`, when `s` starts with `p`.
pub open spec fn prefix_rest(s: Seq<char>, p: Seq<char>) -> Option<Seq<char>> {
    if p.len() <= s.len() && s.subrange(0, p.len() as int) == p {
        Some(s.skip(p.len() as int))
    } else {
        None
    }
}

/// `str::strip_prefix`: the rest of `s` after `p`, or `None` when `s` does
/// not start with `p`.
pub fn strip_text_prefix(s: &str, p: &str) -> (r: Option<String>)
    ensures
        match prefix_rest(s@, p@) {
            Some(rest) => r matches Some(x) && x@ == rest,
            None => r is None,
        },
{
    let cs = chars_of(s);
    let ps = chars_of(p);
    if !matches_at(cs.as_slice(), ps.as_slice(), 0) {
        return None;
    }
    let n = cs.len();
    let mut i: usize = ps.len();
    let mut r = String::new();
    while i < n
        invariant
            n == cs@.len(),
            ps@.len() <= i <= n,
            r@ == cs@.subrange(ps@.len() as int, i as int),
        decreases n - i,
    {
        push_char(&mut r, cs[i]);
        assert(cs@.subrange(ps@.len() as int, i + 1) =~= cs@.subrange(ps@.len() as int, i as int).push(
            cs@[i as int],
        ));
        i = i + 1;
    }
    assert(r@ =~= s@.skip(p@.len() as int));
    Some(r)
}

// ── substring search ────────────────────────────────────────────────────────

/// `pat` occurs in `hay` starting at position `i`.
pub open spec fn occurs_at(hay: Seq<char>, pat: Seq<char>, i: int) -> bool {
    &&& 0 <= i
    &&& i + pat.len() <= hay.len()
    &&& hay.subrange(i, i + pat.len()) == pat
}

/// `pat` occurs somewhere in `hay` (the empty pattern occurs everywhere).
pub open spec fn contains_text(hay: Seq<char>, pat: Seq<char>) -> bool {
    exists|i: int| occurs_at(hay, pat, i)
}

/// Whether `pat` occurs at position `i` of `hay`.
pub fn matches_at(hay: &[char], pat: &[char], i: usize) -> (r: bool)
    ensures
        r == occurs_at(hay@, pat@, i as int),
{
    let n = hay.len();
    let m = pat.len();
    if i > n || m > n - i {
        return false;
    }
    let mut k: usize = 0;
    while k < m
        invariant
            n == hay@.len(),
            m == pat@.len(),
            i + m <= n,
            0 <= k <= m,
            forall|j: int| 0 <= j < k ==> hay@[i + j] == pat@[j],
        decreases m - k,
    {
        if hay[i + k] != pat[k] {
            assert(hay@.subrange(i as int, i + m)[k as int] != pat@[k as int]);
            return false;
        }
        k = k + 1;
    }
    assert(hay@.subrange(i as int, i + m) =~= pat@);
    true
}

/// Whether `pat` occurs anywhere in `hay`.
pub fn contains_chars(hay: &[char], pat: &[char]) -> (r: bool)
    ensures
        r == contains_text(hay@, pat@),
{
    let n = hay.len();
    let mut i: usize = 0;
    while i < n
        invariant
            n == hay@.len(),
            0 <= i <= n,
            forall|j: int| 0 <= j < i ==> !occurs_at(hay@, pat@, j),
        decreases n - i,
    {
        if matches_at(hay, pat, i) {
            return true;
        }
        i = i + 1;
    }
    if matches_at(hay, pat, n) {
        return true;
    }
    assert forall|j: int| !occurs_at(hay@, pat@, j) by {
        if 0 <= j && j < i {
        }
    }
    false
}

// ── splitting and joining ───────────────────────────────────────────────────

/// The pieces of `s` between the non-overlapping occurrences of `sep`, found
/// from left to right; `cur` is the piece collected so far.
pub open spec fn split_from(s: Seq<char>, sep: Seq<char>, cur: Seq<char>) -> Seq<Seq<char>>
    decreases s.len(),
{
    if s.len() == 0 {
        seq![cur]
    } else if sep.len() > 0 && occurs_at(s, sep, 0) {
        seq![cur] + split_from(s.skip(sep.len() as int), sep, Seq::empty())
    } else {
        split_from(s.drop_first(), sep, cur.push(s[0]))
    }
}

/// The pieces of `s` between the non-overlapping occurrences of the non-empty
/// separator `sep`, as `str::split` yields them.
pub open spec fn split_text(s: Seq<char>, sep: Seq<char>) -> Seq<Seq<char>> {
    split_from(s, sep, Seq::empty())
}

/// The pieces joined with `sep` between neighbours.
pub open spec fn join_text(parts: Seq<Seq<char>>, sep: Seq<char>) -> Seq<char>
    decreases parts.len(),
{
    if parts.len() == 0 {
        Seq::empty()
    } else if parts.len() == 1 {
        parts[0]
    } else {
        parts[0] + sep + join_text(parts.drop_first(), sep)
    }
}

/// The text views of a vector of strings.
pub open spec fn texts(v: Seq<String>) -> Seq<Seq<char>> {
    v.map_values(|x: String| x@)
}

/// The views of a vector grow with it.
pub broadcast proof fn lemma_texts_push(v: Seq<String>, x: String)
    ensures
        #[trigger] texts(v.push(x)) == texts(v).push(x@),
{
    assert(texts(v.push(x)) =~= texts(v).push(x@));
}

proof fn lemma_split_from_nonempty(s: Seq<char>, sep: Seq<char>, cur: Seq<char>)
    ensures
        split_from(s, sep, cur).len() >= 1,
    decreases s.len(),
{
    if s.len() == 0 {
    } else if sep.len() > 0 && occurs_at(s, sep, 0) {
        lemma_split_from_nonempty(s.skip(sep.len() as int), sep, Seq::empty());
    } else {
        lemma_split_from_nonempty(s.drop_first(), sep, cur.push(s[0]));
    }
}

proof fn lemma_join_split_from(s: Seq<char>, sep: Seq<char>, cur: Seq<char>)
    ensures
        join_text(split_from(s, sep, cur), sep) == cur + s,
    decreases s.len(),
{
    if s.len() == 0 {
        assert(cur + s =~= cur);
    } else if sep.len() > 0 && occurs_at(s, sep, 0) {
        let rest = s.skip(sep.len() as int);
        lemma_join_split_from(rest, sep, Seq::empty());
        lemma_split_from_nonempty(rest, sep, Seq::empty());
        let tail = split_from(rest, sep, Seq::empty());
        let all = seq![cur] + tail;
        assert(all.drop_first() =~= tail);
        assert(Seq::<char>::empty() + rest =~= rest);
        assert(s =~= sep + rest);
        assert(cur + sep + rest =~= cur + s);
    } else {
        lemma_join_split_from(s.drop_first(), sep, cur.push(s[0]));
        assert(cur.push(s[0]) + s.drop_first() =~= cur + s);
    }
}

/// A split has at least one piece.
pub proof fn lemma_split_nonempty(s: Seq<char>, sep: Seq<char>)
    ensures
        split_text(s, sep).len() >= 1,
{
    lemma_split_from_nonempty(s, sep, Seq::empty());
}

/// Law: joining the pieces of a split with the same separator gives back the
/// original text.
pub proof fn law_join_split(s: Seq<char>, sep: Seq<char>)
    ensures
        join_text(split_text(s, sep), sep) == s,
{
    lemma_join_split_from(s, sep, Seq::empty());
    assert(Seq::<char>::empty() + s =~= s);
}

pub proof fn lemma_join_push(parts: Seq<Seq<char>>, sep: Seq<char>, x: Seq<char>)
    requires
        parts.len() >= 1,
    ensures
        join_text(parts.push(x), sep) == join_text(parts, sep) + sep + x,
    decreases parts.len(),
{
    if parts.len() == 1 {
        assert(parts.push(x).drop_first() =~= seq![x]);
        assert(join_text(seq![x], sep) == x);
        assert(parts.push(x)[0] == parts[0]);
    } else {
        assert(parts.push(x)[0] == parts[0]);
        assert(parts.push(x).drop_first() =~= parts.drop_first().push(x));
        lemma_join_push(parts.drop_first(), sep, x);
        assert(parts[0] + sep + (join_text(parts.drop_first(), sep) + sep + x) =~= parts[0] + sep
            + join_text(parts.drop_first(), sep) + sep + x);
    }
}

/// The pieces of `s` between the occurrences of the non-empty `sep`.
pub fn split_on(s: &str, sep: &str) -> (parts: Vec<String>)
    requires
        sep@.len() > 0,
    ensures
        texts(parts@) == split_text(s@, sep@),
{
    let cs = chars_of(s);
    let sp = chars_of(sep);
    let n = cs.len();
    let m = sp.len();
    let mut parts: Vec<String> = Vec::new();
    let mut cur: Vec<char> = Vec::new();
    let mut i: usize = 0;
    assert(texts(parts@) =~= Seq::<Seq<char>>::empty());
    assert(cs@.skip(0) =~= cs@);
    assert(cur@ =~= Seq::<char>::empty());
    assert(Seq::<Seq<char>>::empty() + split_text(s@, sep@) =~= split_text(s@, sep@));
    while i < n
        invariant
            n == cs@.len(),
            m == sp@.len(),
            m > 0,
            cs@ == s@,
            sp@ == sep@,
            0 <= i <= n,
            texts(parts@) + split_from(cs@.skip(i as int), sp@, cur@) == split_text(s@, sep@),
        decreases n - i,
    {
        let rest = Ghost(cs@.skip(i as int));
        if matches_at(&cs, &sp, i) {
            assert(occurs_at(rest@, sp@, 0)) by {
                assert(rest@.subrange(0, m as int) =~= cs@.subrange(i as int, i + m));
            }
            assert(rest@.skip(m as int) =~= cs@.skip(i + m));
            let piece = string_of(&cur);
            let ghost before = texts(parts@);
            parts.push(piece);
            assert(texts(parts@) =~= before.push(cur@));
            assert(before + (seq![cur@] + split_from(cs@.skip(i + m), sp@, Seq::empty())) =~= before.push(cur@)
                + split_from(cs@.skip(i + m), sp@, Seq::empty()));
            cur = Vec::new();
            assert(cur@ =~= Seq::<char>::empty());
            i = i + m;
        } else {
            assert(!occurs_at(rest@, sp@, 0)) by {
                if occurs_at(rest@, sp@, 0) {
                    assert(rest@.subrange(0, m as int) =~= cs@.subrange(i as int, i + m));
                }
            }
            assert(rest@.drop_first() =~= cs@.skip(i + 1));
            assert(rest@[0] == cs@[i as int]);
            cur.push(cs[i]);
            i = i + 1;
        }
    }
    let ghost before = texts(parts@);
    assert(cs@.skip(n as int) =~= Seq::<char>::empty());
    let piece = string_of(&cur);
    parts.push(piece);
    assert(texts(parts@) =~= before.push(cur@));
    assert(before + seq![cur@] =~= before.push(cur@));
    parts
}

/// The pieces joined with `sep` between neighbours.
pub fn join_with(parts: &Vec<String>, sep: &str) -> (r: String)
    ensures
        r@ == join_text(texts(parts@), sep@),
{
    let mut r = String::new();
    let n = parts.len();
    let mut i: usize = 0;
    while i < n
        invariant
            n == parts@.len(),
            0 <= i <= n,
            r@ == join_text(texts(parts@).take(i as int), sep@),
        decreases n - i,
    {
        let ghost done = texts(parts@).take(i as int);
        assert(texts(parts@).take(i + 1) =~= done.push(parts@[i as int]@));
        if i > 0 {
            push_str(&mut r, sep);
            proof {
                lemma_join_push(done, sep@, parts@[i as int]@);
            }
        } else {
            assert(done.push(parts@[i as int]@).len() == 1);
            assert(r@ =~= Seq::<char>::empty());
        }
        push_str(&mut r, parts[i].as_str());
        i = i + 1;
    }
    assert(texts(parts@).take(n as int) =~= texts(parts@));
    r
}


// ── white space and case ────────────────────────────────────────────────────

/// The Unicode `White_Space` characters, which `char::is_whitespace` and
/// `str::split_whitespace` go by: U+0009 to U+000D, U+0020, U+0085, U+00A0,
/// U+1680, U+2000 to U+200A, U+2028, U+2029, U+202F, U+205F and U+3000.
pub open spec fn unicode_white_space(c: char) -> bool {
    let n = c as int;
    ||| 0x09 <= n <= 0x0d
    ||| n == 0x20
    ||| n == 0x85
    ||| n == 0xa0
    ||| n == 0x1680
    ||| 0x2000 <= n <= 0x200a
    ||| n == 0x2028
    ||| n == 0x2029
    ||| n == 0x202f
    ||| n == 0x205f
    ||| n == 0x3000
}

/// Whether `c` is white space (`char::is_whitespace`).
pub fn is_white_space(c: char) -> (r: bool)
    ensures
        r == unicode_white_space(c),
{
    let n = c as u32;
    (0x09 <= n && n <= 0x0d) || n == 0x20 || n == 0x85 || n == 0xa0 || n == 0x1680 || (0x2000 <= n
        && n <= 0x200a) || n == 0x2028 || n == 0x2029 || n == 0x202f || n == 0x205f || n == 0x3000
}

/// The character is ASCII.
pub open spec fn is_ascii_char(c: char) -> bool {
    (c as int) < 128
}

/// Every character of the text is ASCII.
pub open spec fn is_ascii_text(s: Seq<char>) -> bool {
    forall|i: int| 0 <= i < s.len() ==> is_ascii_char(#[trigger] s[i])
}

/// The lowercase of an ASCII character: `A` to `Z` become `a` to `z`,
/// anything else stays.
pub open spec fn ascii_lower(c: char) -> char {
    if 'A' <= c && c <= 'Z' {
        ((c as int) + 32) as char
    } else {
        c
    }
}

/// A text lowered letter by letter with [`ascii_lower`].
pub open spec fn ascii_lower_text(s: Seq<char>) -> Seq<char> {
    s.map_values(|c: char| ascii_lower(c))
}

/// What `str::to_lowercase` makes of a text.
pub uninterp spec fn lowercase_text(s: Seq<char>) -> Seq<char>;

/// Calls `str::to_lowercase`. The contract names its result and states what
/// the Unicode lowercase mapping gives for ASCII: each letter `A` to `Z`
/// becomes `a` to `z` and every other ASCII character stays, one for one
/// (so the empty text stays empty).
#[verifier::external_body]
pub(crate) fn lowercase(s: &str) -> (r: String)
    ensures
        r@ == lowercase_text(s@),
        s@.len() == 0 ==> r@.len() == 0,
        is_ascii_text(s@) ==> r@ == ascii_lower_text(s@),
{
    s.to_lowercase()
}

/// The runs of non-white-space characters of `s`, `cur` being the run
/// collected so far.
pub open spec fn words_from(s: Seq<char>, cur: Seq<char>) -> Seq<Seq<char>>
    decreases s.len(),
{
    if s.len() == 0 {
        if cur.len() == 0 {
            Seq::empty()
        } else {
            seq![cur]
        }
    } else if unicode_white_space(s[0]) {
        (if cur.len() == 0 {
            Seq::empty()
        } else {
            seq![cur]
        }) + words_from(s.drop_first(), Seq::empty())
    } else {
        words_from(s.drop_first(), cur.push(s[0]))
    }
}

/// The words of `s` as `str::split_whitespace` yields them: the maximal runs
/// of characters that are not white space, in order.
pub open spec fn words(s: Seq<char>) -> Seq<Seq<char>> {
    words_from(s, Seq::empty())
}

/// The words of `s`: its maximal runs of non-white-space characters.
pub fn words_of(s: &str) -> (r: Vec<String>)
    ensures
        texts(r@) == words(s@),
{
    let cs = chars_of(s);
    let n = cs.len();
    let mut out: Vec<String> = Vec::new();
    let mut cur: Vec<char> = Vec::new();
    let mut i: usize = 0;
    assert(texts(out@) =~= Seq::<Seq<char>>::empty());
    assert(cs@.skip(0) =~= cs@);
    assert(cur@ =~= Seq::<char>::empty());
    assert(Seq::<Seq<char>>::empty() + words(s@) =~= words(s@));
    while i < n
        invariant
            n == cs@.len(),
            cs@ == s@,
            0 <= i <= n,
            texts(out@) + words_from(cs@.skip(i as int), cur@) == words(s@),
        decreases n - i,
    {
        let ghost rest = cs@.skip(i as int);
        assert(rest[0] == cs@[i as int]);
        assert(rest.drop_first() =~= cs@.skip(i + 1));
        if is_white_space(cs[i]) {
            let ghost before = texts(out@);
            if cur.len() > 0 {
                let w = string_of(&cur);
                out.push(w);
                proof {
                    lemma_texts_push(out@.drop_last(), w);
                }
                assert(before + (seq![cur@] + words_from(cs@.skip(i + 1), Seq::empty())) =~= before.push(
                    cur@,
                ) + words_from(cs@.skip(i + 1), Seq::empty()));
            } else {
                assert(Seq::<Seq<char>>::empty() + words_from(cs@.skip(i + 1), Seq::empty()) =~= words_from(
                    cs@.skip(i + 1),
                    Seq::empty(),
                ));
            }
            cur = Vec::new();
            assert(cur@ =~= Seq::<char>::empty());
        } else {
            cur.push(cs[i]);
        }
        i = i + 1;
    }
    assert(cs@.skip(n as int) =~= Seq::<char>::empty());
    if cur.len() > 0 {
        let ghost before = texts(out@);
        let w = string_of(&cur);
        out.push(w);
        proof {
            lemma_texts_push(out@.drop_last(), w);
        }
        assert(before + seq![cur@] =~= before.push(cur@));
    } else {
        assert(texts(out@) + Seq::<Seq<char>>::empty() =~= texts(out@));
    }
    out
}

} // verus!
