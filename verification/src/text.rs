//! Character-level text primitives.
//!
//! Every parser in this crate works on a line as a sequence of `char`s. This
//! module holds the shared vocabulary: character classes, maximal runs of a
//! class, trimming, prefix tests, substring search and splitting, each as a
//! spec function over `Seq<char>` paired with an executable function over
//! `Vec<char>` that is proved to compute it.

use vstd::prelude::*;
use vstd::string::*;

verus! {

/// A set of characters, as the line grammars need them.
#[derive(Clone, Copy, Debug)]
pub enum CharClass {
    /// Unicode `White_Space`.
    Space,
    /// Anything that is not `White_Space`.
    NonSpace,
    /// The ASCII digits `0` to `9`.
    Digit,
    /// An ASCII digit or a full stop.
    Number,
    /// Exactly the given character.
    Only(char),
    /// Every character but the given one.
    Except(char),
}

/// Unicode `White_Space`: the characters that `str::trim` removes.
pub open spec fn is_space(c: char) -> bool {
    let n = c as u32;
    ||| 0x09 <= n <= 0x0D
    ||| n == 0x20
    ||| n == 0x85
    ||| n == 0xA0
    ||| n == 0x1680
    ||| 0x2000 <= n <= 0x200A
    ||| n == 0x2028
    ||| n == 0x2029
    ||| n == 0x202F
    ||| n == 0x205F
    ||| n == 0x3000
}

pub open spec fn is_digit(c: char) -> bool {
    '0' <= c && c <= '9'
}

/// The number that an ASCII digit stands for.
pub open spec fn digit_value(c: char) -> nat {
    (c as u32 - '0' as u32) as nat
}

impl CharClass {
    pub open spec fn has(self, c: char) -> bool {
        match self {
            CharClass::Space => is_space(c),
            CharClass::NonSpace => !is_space(c),
            CharClass::Digit => is_digit(c),
            CharClass::Number => is_digit(c) || c == '.',
            CharClass::Only(x) => c == x,
            CharClass::Except(x) => c != x,
        }
    }

    pub fn contains(self, c: char) -> (b: bool)
        ensures
            b == self.has(c),
    {
        match self {
            CharClass::Space => is_space_char(c),
            CharClass::NonSpace => !is_space_char(c),
            CharClass::Digit => c >= '0' && c <= '9',
            CharClass::Number => (c >= '0' && c <= '9') || c == '.',
            CharClass::Only(x) => c == x,
            CharClass::Except(x) => c != x,
        }
    }
}

pub fn is_space_char(c: char) -> (b: bool)
    ensures
        b == is_space(c),
{
    let n: u32 = c as u32;
    (0x09 <= n && n <= 0x0D) || n == 0x20 || n == 0x85 || n == 0xA0 || n == 0x1680 || (0x2000 <= n
        && n <= 0x200A) || n == 0x2028 || n == 0x2029 || n == 0x202F || n == 0x205F || n == 0x3000
}

pub fn digit_of(c: char) -> (d: u8)
    requires
        is_digit(c),
    ensures
        d == digit_value(c),
        d <= 9,
{
    let n: u32 = c as u32;
    (n - 48) as u8
}

/// The characters of a string slice, in order.
pub fn to_chars(s: &str) -> (v: Vec<char>)
    ensures
        v@ == s@,
{
    let mut v: Vec<char> = Vec::new();
    for c in it: s.chars()
        invariant
            v@ == it.seq().take(it.index() as int),
            it.seq() == s@,
    {
        v.push(c);
    }
    v
}

/// The end of the longest run of characters of `class` that starts at `i`.
pub open spec fn span(s: Seq<char>, class: CharClass, i: int) -> int
    decreases s.len() - i,
{
    if 0 <= i < s.len() && class.has(s[i]) {
        span(s, class, i + 1)
    } else {
        i
    }
}

/// The start of the longest run of characters of `class` that ends at `j`.
pub open spec fn span_back(s: Seq<char>, class: CharClass, j: int) -> int
    decreases j,
{
    if 0 < j <= s.len() && class.has(s[j - 1]) {
        span_back(s, class, j - 1)
    } else {
        j
    }
}

pub proof fn lemma_span_bounds(s: Seq<char>, class: CharClass, i: int)
    requires
        0 <= i <= s.len(),
    ensures
        i <= span(s, class, i) <= s.len(),
        forall|k: int| i <= k < span(s, class, i) ==> class.has(#[trigger] s[k]),
        span(s, class, i) < s.len() ==> !class.has(s[span(s, class, i)]),
    decreases s.len() - i,
{
    if i < s.len() && class.has(s[i]) {
        lemma_span_bounds(s, class, i + 1);
    }
}

pub proof fn lemma_span_back_bounds(s: Seq<char>, class: CharClass, j: int)
    requires
        0 <= j <= s.len(),
    ensures
        0 <= span_back(s, class, j) <= j,
        forall|k: int| span_back(s, class, j) <= k < j ==> class.has(#[trigger] s[k]),
        span_back(s, class, j) > 0 ==> !class.has(s[span_back(s, class, j) - 1]),
    decreases j,
{
    if 0 < j && class.has(s[j - 1]) {
        lemma_span_back_bounds(s, class, j - 1);
    }
}

/// A run of `class` characters from `i` up to a character outside it (or the
/// end) is the whole span.
pub proof fn lemma_span_is(s: Seq<char>, class: CharClass, i: int, j: int)
    requires
        0 <= i <= j <= s.len(),
        forall|k: int| i <= k < j ==> class.has(#[trigger] s[k]),
        j < s.len() ==> !class.has(s[j]),
    ensures
        span(s, class, i) == j,
    decreases j - i,
{
    if i < j {
        lemma_span_is(s, class, i + 1, j);
    }
}

pub proof fn lemma_span_back_is(s: Seq<char>, class: CharClass, i: int, j: int)
    requires
        0 <= i <= j <= s.len(),
        forall|k: int| i <= k < j ==> class.has(#[trigger] s[k]),
        i > 0 ==> !class.has(s[i - 1]),
    ensures
        span_back(s, class, j) == i,
    decreases j - i,
{
    if i < j {
        lemma_span_back_is(s, class, i, j - 1);
    }
}

pub fn skip(cs: &Vec<char>, class: CharClass, i: usize) -> (j: usize)
    requires
        i <= cs.len(),
    ensures
        j == span(cs@, class, i as int),
        i <= j <= cs.len(),
{
    let mut j: usize = i;
    while j < cs.len() && class.contains(cs[j])
        invariant
            i <= j <= cs.len(),
            span(cs@, class, i as int) == span(cs@, class, j as int),
        decreases cs.len() - j,
    {
        j = j + 1;
    }
    j
}

pub fn skip_back(cs: &Vec<char>, class: CharClass, j: usize) -> (i: usize)
    requires
        j <= cs.len(),
    ensures
        i == span_back(cs@, class, j as int),
        i <= j,
{
    let mut i: usize = j;
    while i > 0 && class.contains(cs[i - 1])
        invariant
            i <= j <= cs.len(),
            span_back(cs@, class, j as int) == span_back(cs@, class, i as int),
        decreases i,
    {
        i = i - 1;
    }
    i
}

/// Where the text starts once leading white space is dropped.
pub open spec fn trim_start(s: Seq<char>) -> int {
    span(s, CharClass::Space, 0)
}

/// Where the text ends once trailing white space is dropped.
pub open spec fn trim_end(s: Seq<char>) -> int {
    span_back(s, CharClass::Space, s.len() as int)
}

/// The text without leading and trailing white space.
pub open spec fn trimmed(s: Seq<char>) -> Seq<char> {
    if trim_start(s) < trim_end(s) {
        s.subrange(trim_start(s), trim_end(s))
    } else {
        Seq::empty()
    }
}

/// The characters of `cs` from `from` up to `to`.
pub fn slice_chars(cs: &Vec<char>, from: usize, to: usize) -> (v: Vec<char>)
    requires
        from <= to <= cs.len(),
    ensures
        v@ == cs@.subrange(from as int, to as int),
{
    let mut v: Vec<char> = Vec::new();
    let mut k: usize = from;
    while k < to
        invariant
            from <= k <= to <= cs.len(),
            v@ == cs@.subrange(from as int, k as int),
        decreases to - k,
    {
        v.push(cs[k]);
        proof {
            assert(v@ =~= cs@.subrange(from as int, k + 1));
        }
        k = k + 1;
    }
    proof {
        assert(v@ =~= cs@.subrange(from as int, to as int));
    }
    v
}

pub fn trim(cs: &Vec<char>) -> (v: Vec<char>)
    ensures
        v@ == trimmed(cs@),
{
    let a: usize = skip(cs, CharClass::Space, 0);
    let b: usize = skip_back(cs, CharClass::Space, cs.len());
    if a < b {
        slice_chars(cs, a, b)
    } else {
        Vec::new()
    }
}

/// Text that begins and ends with something other than white space is its
/// own trimmed form.
pub proof fn lemma_trimmed_identity(s: Seq<char>)
    requires
        s.len() > 0,
        !is_space(s[0]),
        !is_space(s[s.len() - 1]),
    ensures
        trimmed(s) == s,
{
    assert(s.subrange(0, s.len() as int) =~= s);
}

/// Whether `p` stands in `s` at position `i`.
pub open spec fn starts_with_at(s: Seq<char>, i: int, p: Seq<char>) -> bool {
    &&& 0 <= i
    &&& i + p.len() <= s.len()
    &&& s.subrange(i, i + p.len()) == p
}

pub open spec fn starts_with(s: Seq<char>, p: Seq<char>) -> bool {
    starts_with_at(s, 0, p)
}

/// Whether `p` occurs anywhere in `s`.
pub open spec fn contains(s: Seq<char>, p: Seq<char>) -> bool {
    exists|i: int| starts_with_at(s, i, p)
}

pub fn has_prefix_at(cs: &Vec<char>, i: usize, p: &Vec<char>) -> (b: bool)
    ensures
        b == starts_with_at(cs@, i as int, p@),
{
    if i > cs.len() || p.len() > cs.len() - i {
        return false;
    }
    let mut k: usize = 0;
    while k < p.len()
        invariant
            k <= p.len(),
            i + p.len() <= cs.len(),
            cs@.subrange(i as int, i + k) == p@.subrange(0, k as int),
        decreases p.len() - k,
    {
        if cs[i + k] != p[k] {
            proof {
                assert(cs@.subrange(i as int, i + p.len())[k as int] == cs@[i + k]);
            }
            return false;
        }
        proof {
            assert(cs@.subrange(i as int, i + k + 1) =~= cs@.subrange(i as int, i + k).push(
                cs@[i + k],
            ));
            assert(p@.subrange(0, k + 1) =~= p@.subrange(0, k as int).push(p@[k as int]));
        }
        k = k + 1;
    }
    proof {
        assert(p@.subrange(0, p.len() as int) =~= p@);
    }
    true
}

/// Whether the literal `p` stands in `cs` at position `i`.
pub fn has_str_at(cs: &Vec<char>, i: usize, p: &str) -> (b: bool)
    ensures
        b == starts_with_at(cs@, i as int, p@),
{
    let pc = to_chars(p);
    has_prefix_at(cs, i, &pc)
}

/// Whether two string slices spell the same text.
pub fn same_text(a: &str, b: &str) -> (r: bool)
    ensures
        r == (a@ == b@),
{
    let ac = to_chars(a);
    chars_are(&ac, b)
}

/// Whether `cs` spells exactly the literal `p`.
pub fn chars_are(cs: &Vec<char>, p: &str) -> (b: bool)
    ensures
        b == (cs@ == p@),
{
    let pc = to_chars(p);
    if pc.len() != cs.len() {
        return false;
    }
    let b = has_prefix_at(cs, 0, &pc);
    proof {
        assert(cs@.subrange(0, cs@.len() as int) =~= cs@);
    }
    b
}

/// The first position at or after `from` where `p` stands in `s`.
pub open spec fn find_sub(s: Seq<char>, p: Seq<char>, from: int) -> Option<int>
    decreases s.len() - from + 1,
{
    if from < 0 || from > s.len() {
        None
    } else if starts_with_at(s, from, p) {
        Some(from)
    } else {
        find_sub(s, p, from + 1)
    }
}

pub proof fn lemma_find_sub(s: Seq<char>, p: Seq<char>, from: int)
    requires
        0 <= from,
    ensures
        match find_sub(s, p, from) {
            Some(i) => from <= i && starts_with_at(s, i, p) && forall|k: int|
                from <= k < i ==> !starts_with_at(s, k, p),
            None => forall|k: int| from <= k ==> !starts_with_at(s, k, p),
        },
    decreases s.len() - from + 1,
{
    if from <= s.len() && !starts_with_at(s, from, p) {
        lemma_find_sub(s, p, from + 1);
    }
}

pub fn find(cs: &Vec<char>, p: &Vec<char>, from: usize) -> (r: Option<usize>)
    ensures
        match r {
            Some(i) => find_sub(cs@, p@, from as int) == Some(i as int),
            None => find_sub(cs@, p@, from as int) is None,
        },
{
    if from > cs.len() {
        return None;
    }
    let mut i: usize = from;
    while i <= cs.len()
        invariant
            from <= i <= cs.len() + 1,
            find_sub(cs@, p@, from as int) == find_sub(cs@, p@, i as int),
        decreases cs.len() + 1 - i,
    {
        if has_prefix_at(cs, i, p) {
            return Some(i);
        }
        if i == cs.len() {
            proof {
                assert(find_sub(cs@, p@, i + 1) is None);
            }
            return None;
        }
        i = i + 1;
    }
    None
}

pub fn contains_chars(cs: &Vec<char>, p: &Vec<char>) -> (b: bool)
    ensures
        b == contains(cs@, p@),
{
    let r = find(cs, p, 0);
    proof {
        lemma_find_sub(cs@, p@, 0);
    }
    r.is_some()
}

/// Whether the literal `p` occurs anywhere in `cs`.
pub fn contains_str(cs: &Vec<char>, p: &str) -> (b: bool)
    ensures
        b == contains(cs@, p@),
{
    let pc = to_chars(p);
    contains_chars(cs, &pc)
}

/// The position of the first `c` at or after `from`, or the length of `s`.
pub open spec fn find_char(s: Seq<char>, c: char, from: int) -> int {
    span(s, CharClass::Except(c), from)
}

/// The pieces of `s` from `from` on, cut at every `sep`.
pub open spec fn split_from(s: Seq<char>, sep: char, from: int) -> Seq<Seq<char>>
    decreases s.len() - from,
{
    let i = find_char(s, sep, from);
    if from < 0 || from > s.len() {
        Seq::empty()
    } else if i >= s.len() {
        seq![s.subrange(from, s.len() as int)]
    } else if i < from {
        Seq::empty()
    } else {
        seq![s.subrange(from, i)] + split_from(s, sep, i + 1)
    }
}

/// The pieces of `s`, cut at every `sep`: always at least one piece.
pub open spec fn split(s: Seq<char>, sep: char) -> Seq<Seq<char>> {
    split_from(s, sep, 0)
}

/// What a vector of strings spells, string by string.
pub open spec fn strings(v: Seq<String>) -> Seq<Seq<char>> {
    v.map_values(|s: String| s@)
}

/// What a vector of character vectors spells, piece by piece.
pub open spec fn pieces(v: Seq<Vec<char>>) -> Seq<Seq<char>> {
    v.map_values(|p: Vec<char>| p@)
}

pub fn split_chars(cs: &Vec<char>, sep: char) -> (parts: Vec<Vec<char>>)
    ensures
        pieces(parts@) == split(cs@, sep),
{
    let mut parts: Vec<Vec<char>> = Vec::new();
    let mut from: usize = 0;
    loop
        invariant_except_break
            from <= cs.len(),
            split(cs@, sep) == pieces(parts@) + split_from(cs@, sep, from as int),
        ensures
            pieces(parts@) == split(cs@, sep),
        decreases cs.len() - from,
    {
        let i: usize = skip(cs, CharClass::Except(sep), from);
        let piece = slice_chars(cs, from, i);
        let ghost before = pieces(parts@);
        parts.push(piece);
        proof {
            assert(pieces(parts@) =~= before.push(cs@.subrange(from as int, i as int)));
        }
        if i >= cs.len() {
            proof {
                assert(split_from(cs@, sep, from as int) =~= seq![
                    cs@.subrange(from as int, cs@.len() as int),
                ]);
                assert(split(cs@, sep) =~= pieces(parts@));
            }
            break;
        }
        proof {
            assert(split_from(cs@, sep, from as int) =~= seq![cs@.subrange(from as int, i as int)]
                + split_from(cs@, sep, i + 1));
            assert(split(cs@, sep) =~= pieces(parts@) + split_from(cs@, sep, i + 1));
        }
        from = i + 1;
    }
    parts
}

/// The words of `s` from position `from` on: the runs of characters that
/// are not white space, in order.
pub open spec fn words_from(s: Seq<char>, from: int) -> Seq<Seq<char>>
    decreases s.len() - from,
{
    let a = span(s, CharClass::Space, from);
    let b = span(s, CharClass::NonSpace, a);
    if from < 0 || a < from || a >= s.len() || b <= a || b > s.len() {
        Seq::empty()
    } else {
        seq![s.subrange(a, b)] + words_from(s, b)
    }
}

/// The words of `s`, as `str::split_whitespace` gives them.
pub open spec fn words(s: Seq<char>) -> Seq<Seq<char>> {
    words_from(s, 0)
}

pub fn split_words(cs: &Vec<char>) -> (parts: Vec<Vec<char>>)
    ensures
        pieces(parts@) == words(cs@),
{
    let mut parts: Vec<Vec<char>> = Vec::new();
    let mut from: usize = 0;
    proof {
        assert(pieces(parts@) =~= Seq::<Seq<char>>::empty());
        assert(Seq::<Seq<char>>::empty() + words_from(cs@, 0) =~= words_from(cs@, 0));
    }
    loop
        invariant_except_break
            from <= cs.len(),
            words(cs@) == pieces(parts@) + words_from(cs@, from as int),
        ensures
            pieces(parts@) == words(cs@),
        decreases cs.len() - from,
    {
        let a: usize = skip(cs, CharClass::Space, from);
        if a >= cs.len() {
            proof {
                assert(pieces(parts@) + Seq::<Seq<char>>::empty() =~= pieces(parts@));
            }
            break;
        }
        let b: usize = skip(cs, CharClass::NonSpace, a);
        proof {
            lemma_span_bounds(cs@, CharClass::Space, from as int);
            assert(CharClass::NonSpace.has(cs@[a as int]));
            lemma_span_bounds(cs@, CharClass::NonSpace, a + 1);
            assert(b > a);
        }
        let piece = slice_chars(cs, a, b);
        let ghost before = pieces(parts@);
        parts.push(piece);
        proof {
            assert(pieces(parts@) =~= before.push(cs@.subrange(a as int, b as int)));
            assert(words(cs@) =~= pieces(parts@) + words_from(cs@, b as int));
        }
        from = b;
    }
    parts
}

/// Whether `a` comes after `b` in the order of strings: at the first place
/// where they differ `a` has the greater character, or `b` is a proper
/// prefix of `a`.
pub open spec fn comes_after(a: Seq<char>, b: Seq<char>, from: int) -> bool
    decreases a.len() - from,
{
    if from < 0 || from >= a.len() {
        false
    } else if from >= b.len() {
        true
    } else if a[from] != b[from] {
        a[from] > b[from]
    } else {
        comes_after(a, b, from + 1)
    }
}

pub fn is_after(a: &Vec<char>, b: &Vec<char>) -> (r: bool)
    ensures
        r == comes_after(a@, b@, 0),
{
    let mut i: usize = 0;
    while i < a.len()
        invariant
            i <= a.len(),
            comes_after(a@, b@, 0) == comes_after(a@, b@, i as int),
        decreases a.len() - i,
    {
        if i >= b.len() {
            return true;
        }
        if a[i] != b[i] {
            return a[i] > b[i];
        }
        i = i + 1;
    }
    false
}

/// The last position from `lo` up to `hi` where `p` stands in `s`.
pub open spec fn find_last_sub(s: Seq<char>, p: Seq<char>, lo: int, hi: int) -> Option<int>
    decreases hi - lo + 1,
{
    if hi < lo {
        None
    } else if starts_with_at(s, hi, p) {
        Some(hi)
    } else {
        find_last_sub(s, p, lo, hi - 1)
    }
}

pub fn find_last(cs: &Vec<char>, p: &Vec<char>, lo: usize, hi: usize) -> (r: Option<usize>)
    ensures
        match r {
            Some(j) => find_last_sub(cs@, p@, lo as int, hi as int) == Some(j as int) && lo <= j
                <= hi && j + p.len() <= cs.len(),
            None => find_last_sub(cs@, p@, lo as int, hi as int) is None,
        },
{
    if hi < lo {
        return None;
    }
    let mut j: usize = hi;
    loop
        invariant
            lo <= j <= hi,
            find_last_sub(cs@, p@, lo as int, hi as int) == find_last_sub(
                cs@,
                p@,
                lo as int,
                j as int,
            ),
        decreases j,
    {
        if has_prefix_at(cs, j, p) {
            return Some(j);
        }
        if j == lo {
            proof {
                assert(find_last_sub(cs@, p@, lo as int, j - 1) is None);
            }
            return None;
        }
        j = j - 1;
    }
}

/// How many bytes a character takes in UTF-8.
pub open spec fn utf8_width(c: char) -> nat {
    let n = c as u32;
    if n < 0x80 {
        1
    } else if n < 0x800 {
        2
    } else if n < 0x10000 {
        3
    } else {
        4
    }
}

/// How many characters from the start of `s` fit in `limit` bytes of UTF-8.
pub open spec fn chars_within(s: Seq<char>, limit: nat) -> nat
    decreases s.len(),
{
    if s.len() == 0 || utf8_width(s[0]) > limit {
        0
    } else {
        1 + chars_within(s.drop_first(), (limit - utf8_width(s[0])) as nat)
    }
}

pub proof fn lemma_chars_within_bound(s: Seq<char>, limit: nat)
    ensures
        chars_within(s, limit) <= s.len(),
        chars_within(s, limit) <= limit,
    decreases s.len(),
{
    if !(s.len() == 0 || utf8_width(s[0]) > limit) {
        lemma_chars_within_bound(s.drop_first(), (limit - utf8_width(s[0])) as nat);
    }
}

pub fn count_within(cs: &Vec<char>, limit: usize) -> (k: usize)
    ensures
        k == chars_within(cs@, limit as nat),
        k <= cs.len(),
{
    let mut k: usize = 0;
    let mut left: usize = limit;
    proof {
        assert(cs@.subrange(0, cs@.len() as int) =~= cs@);
    }
    while k < cs.len()
        invariant
            k <= cs.len(),
            chars_within(cs@, limit as nat) == k + chars_within(
                cs@.subrange(k as int, cs@.len() as int),
                left as nat,
            ),
        decreases cs.len() - k,
    {
        let n: u32 = cs[k] as u32;
        let w: usize = if n < 0x80 {
            1
        } else if n < 0x800 {
            2
        } else if n < 0x10000 {
            3
        } else {
            4
        };
        let ghost here = cs@.subrange(k as int, cs@.len() as int);
        proof {
            assert(here[0] == cs@[k as int]);
            assert(here.drop_first() =~= cs@.subrange(k + 1, cs@.len() as int));
        }
        if w > left {
            return k;
        }
        left = left - w;
        k = k + 1;
    }
    k
}

/// The lower-case form of text, as `str::to_lowercase` gives it.
pub uninterp spec fn lowercase_of(s: Seq<char>) -> Seq<char>;

/// `str::to_lowercase`: the lower-case form of the text by Unicode's rules.
/// Nothing is claimed of the result but that it is a function of the text.
#[verifier::external_body]
pub(crate) fn to_lowercase(s: &str) -> (r: String)
    ensures
        r@ == lowercase_of(s@),
{
    s.to_lowercase()
}

/// `String::from_iter` over characters: the string that spells exactly the
/// given characters, in order.
#[verifier::external_body]
pub(crate) fn string_from_chars(cs: &Vec<char>) -> (r: String)
    ensures
        r@ == cs@,
{
    String::from_iter(cs.iter())
}

/// A run seen through a prefix: positions shift by the prefix's length.
pub proof fn lemma_span_shift(p: Seq<char>, b: Seq<char>, class: CharClass, k: int)
    requires
        0 <= k <= b.len(),
    ensures
        span(p + b, class, p.len() + k) == p.len() + span(b, class, k),
    decreases b.len() - k,
{
    if k < b.len() {
        assert((p + b)[p.len() + k] == b[k]);
        if class.has(b[k]) {
            lemma_span_shift(p, b, class, k + 1);
        }
    }
}

/// Splitting behind a prefix gives the pieces of what follows the prefix.
pub proof fn lemma_split_shift(p: Seq<char>, b: Seq<char>, sep: char, k: int)
    requires
        0 <= k <= b.len(),
    ensures
        split_from(p + b, sep, p.len() + k) == split_from(b, sep, k),
    decreases b.len() - k,
{
    let s = p + b;
    let i = find_char(b, sep, k);
    lemma_span_shift(p, b, CharClass::Except(sep), k);
    lemma_span_bounds(b, CharClass::Except(sep), k);
    assert(find_char(s, sep, p.len() + k) == p.len() + i);
    if i >= b.len() {
        assert(s.subrange(p.len() + k, s.len() as int) =~= b.subrange(k, b.len() as int));
    } else {
        assert(s.subrange(p.len() + k, p.len() + i) =~= b.subrange(k, i));
        lemma_split_shift(p, b, sep, i + 1);
    }
}

/// Text without the separator is a single piece.
pub proof fn lemma_split_single(a: Seq<char>, sep: char)
    requires
        forall|i: int| 0 <= i < a.len() ==> a[i] != sep,
    ensures
        split(a, sep) == seq![a],
{
    assert forall|k: int| 0 <= k < a.len() implies CharClass::Except(sep).has(#[trigger] a[k]) by {}
    lemma_span_is(a, CharClass::Except(sep), 0, a.len() as int);
    assert(a.subrange(0, a.len() as int) =~= a);
}

/// Text without the separator, the separator, then more text: the first
/// piece is the text before the separator, the rest are the pieces of what
/// follows it.
pub proof fn lemma_split_first(a: Seq<char>, b: Seq<char>, sep: char)
    requires
        forall|i: int| 0 <= i < a.len() ==> a[i] != sep,
    ensures
        split(a + seq![sep] + b, sep) == seq![a] + split(b, sep),
{
    let p = a + seq![sep];
    let s = p + b;
    assert forall|k: int| 0 <= k < a.len() implies CharClass::Except(sep).has(#[trigger] s[k]) by {
        assert(s[k] == a[k]);
    }
    assert(s[a.len() as int] == sep);
    lemma_span_is(s, CharClass::Except(sep), 0, a.len() as int);
    assert(s.subrange(0, a.len() as int) =~= a);
    lemma_split_shift(p, b, sep, 0);
}

/// A copy of each string, in order.
pub fn clone_strings(v: &Vec<String>) -> (r: Vec<String>)
    ensures
        strings(r@) == strings(v@),
{
    let mut r: Vec<String> = Vec::new();
    let mut i: usize = 0;
    while i < v.len()
        invariant
            i <= v.len(),
            strings(r@) == strings(v@.subrange(0, i as int)),
        decreases v.len() - i,
    {
        let ghost before = r@;
        let copy = v[i].clone();
        r.push(copy);
        proof {
            assert(v@.subrange(0, i + 1) =~= v@.subrange(0, i as int).push(v@[i as int]));
            assert(r@ =~= before.push(copy));
            assert(strings(before.push(copy)) =~= strings(before).push(copy@));
            assert(strings(v@.subrange(0, i as int).push(v@[i as int])) =~= strings(
                v@.subrange(0, i as int),
            ).push(v@[i as int]@));
        }
        i = i + 1;
    }
    proof {
        assert(v@.subrange(0, v@.len() as int) =~= v@);
    }
    r
}

/// A copy of an optional string.
pub fn clone_opt(o: &Option<String>) -> (r: Option<String>)
    ensures
        r == *o,
{
    match o {
        Some(s) => Some(s.clone()),
        None => None,
    }
}

/// The owned string that spells the characters of `s` from `from` up to `to`.
pub fn substring(s: &str, from: usize, to: usize) -> (r: String)
    requires
        from <= to <= s@.len(),
    ensures
        r@ == s@.subrange(from as int, to as int),
{
    s.substring_char(from, to).to_owned()
}

} // verus!
