//! Character-level helpers on which the rest of the library builds its
//! file names, messages and line handling.

use vstd::prelude::*;

verus! {

/// The code points that Unicode marks as white space.
pub open spec fn is_space(c: char) -> bool {
    let n = c as u32;
    ||| 0x09 <= n <= 0x0D
    ||| n == 0x20
    ||| n == 0x85
    ||| n == 0xA0
    ||| n == 0x1680
    ||| 0x2000 <= n <= 0x200A
    ||| n == 0x2028
    ||| n == 0x2029
    ||| n == 0x202F
    ||| n == 0x205F
    ||| n == 0x3000
}

/// Index of the first character at or after `i` that is not white space
/// (the length of `s` if there is none).
pub open spec fn skip_space(s: Seq<char>, i: int) -> int
    decreases s.len() - i,
{
    if 0 <= i < s.len() && is_space(s[i]) {
        skip_space(s, i + 1)
    } else {
        i
    }
}

/// End of the text that remains when trailing white space is cut from the
/// first `j` characters of `s`.
pub open spec fn back_space(s: Seq<char>, j: int) -> int
    decreases j,
{
    if 0 < j <= s.len() && is_space(s[j - 1]) {
        back_space(s, j - 1)
    } else {
        j
    }
}

/// `s` without its leading and trailing white space.
pub open spec fn trimmed(s: Seq<char>) -> Seq<char> {
    let a = skip_space(s, 0);
    let b = back_space(s, s.len() as int);
    if a < b {
        s.subrange(a, b)
    } else {
        Seq::empty()
    }
}

/// Whether `s` reads `p` from position `i` on.
pub open spec fn has_at(s: Seq<char>, i: int, p: Seq<char>) -> bool {
    &&& 0 <= i
    &&& i + p.len() <= s.len()
    &&& s.subrange(i, i + p.len()) == p
}

/// Position reached from `i` by stepping over every consecutive copy of
/// the non-empty pattern `p`.
pub open spec fn skip_repeats(s: Seq<char>, i: int, p: Seq<char>) -> int
    decreases s.len() - i,
{
    if p.len() > 0 && has_at(s, i, p) {
        skip_repeats(s, i + p.len(), p)
    } else {
        i
    }
}

/// `s` with every space character replaced by an underscore.
pub open spec fn underscored(s: Seq<char>) -> Seq<char> {
    Seq::new(s.len(), |i: int| if s[i] == ' ' { '_' } else { s[i] })
}

/// Whether `c` is white space.
pub fn is_whitespace(c: char) -> (r: bool)
    ensures
        r == is_space(c),
{
    let n: u32 = c as u32;
    (0x09 <= n && n <= 0x0D) || n == 0x20 || n == 0x85 || n == 0xA0 || n == 0x1680 || (0x2000 <= n
        && n <= 0x200A) || n == 0x2028 || n == 0x2029 || n == 0x202F || n == 0x205F || n == 0x3000
}

/// The characters of `s`, in order.
pub fn to_chars(s: &str) -> (v: Vec<char>)
    ensures
        v@ == s@,
{
    let mut v: Vec<char> = Vec::new();
    for c in it: s.chars()
        invariant
            v@ == it.seq().take(it.index() as int),
            it.seq() == s@,
    {
        v.push(c);
    }
    v
}

/// Appends one character to a string: std's `String::push`, of which
/// nothing is proved here. The claim is that the text grows by exactly `c`.
#[verifier::external_body]
pub(crate) fn push_char(s: &mut String, c: char)
    ensures
        final(s)@ == old(s)@.push(c),
{
    s.push(c);
}

/// Appends the characters `v[from..to]` to `dst`.
pub fn push_range(dst: &mut String, v: &Vec<char>, from: usize, to: usize)
    requires
        from <= to <= v.len(),
    ensures
        final(dst)@ == old(dst)@ + v@.subrange(from as int, to as int),
{
    let mut i: usize = from;
    while i < to
        invariant
            from <= i <= to <= v.len(),
            dst@ == old(dst)@ + v@.subrange(from as int, i as int),
        decreases to - i,
    {
        push_char(dst, v[i]);
        i = i + 1;
        assert(v@.subrange(from as int, i as int) == v@.subrange(from as int, i - 1).push(
            v@[i - 1],
        ));
    }
}

/// The string that holds exactly the characters of `v`.
pub fn from_chars(v: &Vec<char>) -> (s: String)
    ensures
        s@ == v@,
{
    let mut s = String::new();
    push_range(&mut s, v, 0, v.len());
    assert(v@.subrange(0, v.len() as int) == v@);
    assert(Seq::<char>::empty() + v@ == v@);
    s
}

/// Where the text of `v` starts once leading white space is passed.
pub fn trim_start_index(v: &Vec<char>) -> (a: usize)
    ensures
        a == skip_space(v@, 0),
        a <= v.len(),
{
    let mut i: usize = 0;
    while i < v.len() && is_whitespace(v[i])
        invariant
            i <= v.len(),
            skip_space(v@, 0) == skip_space(v@, i as int),
        decreases v.len() - i,
    {
        i = i + 1;
    }
    i
}

/// Where the text of `v` ends once trailing white space is cut.
pub fn trim_end_index(v: &Vec<char>) -> (b: usize)
    ensures
        b == back_space(v@, v.len() as int),
        b <= v.len(),
{
    let mut j: usize = v.len();
    while j > 0 && is_whitespace(v[j - 1])
        invariant
            j <= v.len(),
            back_space(v@, v.len() as int) == back_space(v@, j as int),
        decreases j,
    {
        j = j - 1;
    }
    j
}

/// `v` without leading and trailing white space.
pub fn trim_chars(v: &Vec<char>) -> (t: Vec<char>)
    ensures
        t@ == trimmed(v@),
{
    let a = trim_start_index(v);
    let b = trim_end_index(v);
    let mut t: Vec<char> = Vec::new();
    if a < b {
        let mut i: usize = a;
        while i < b
            invariant
                a <= i <= b <= v.len(),
                t@ == v@.subrange(a as int, i as int),
            decreases b - i,
        {
            t.push(v[i]);
            i = i + 1;
        }
    }
    t
}

/// `s` without leading and trailing white space.
pub fn trim(s: &str) -> (t: String)
    ensures
        t@ == trimmed(s@),
{
    let v = to_chars(s);
    let t = trim_chars(&v);
    from_chars(&t)
}

/// Whether `v` is empty or white space throughout.
pub fn is_blank(v: &Vec<char>) -> (r: bool)
    ensures
        r == (trimmed(v@).len() == 0),
{
    let a = trim_start_index(v);
    let b = trim_end_index(v);
    a >= b
}

/// Whether `v` reads `p` from position `i` on.
pub fn starts_at(v: &Vec<char>, i: usize, p: &Vec<char>) -> (r: bool)
    ensures
        r == has_at(v@, i as int, p@),
{
    if i > v.len() || p.len() > v.len() - i {
        return false;
    }
    let mut k: usize = 0;
    while k < p.len()
        invariant
            i + p.len() <= v.len(),
            k <= p.len(),
            v@.subrange(i as int, i + k) == p@.take(k as int),
        decreases p.len() - k,
    {
        if v[i + k] != p[k] {
            assert(v@.subrange(i as int, i + p.len())[k as int] != p@[k as int]);
            return false;
        }
        k = k + 1;
        assert(v@.subrange(i as int, i + k) == v@.subrange(i as int, i + k - 1).push(v@[i + k - 1]));
        assert(p@.take(k as int) == p@.take(k - 1).push(p@[k - 1]));
    }
    assert(p@.take(p.len() as int) == p@);
    true
}

/// The position reached from `i` by stepping over every consecutive copy
/// of `p`.
pub fn skip_pattern(v: &Vec<char>, i: usize, p: &Vec<char>) -> (j: usize)
    requires
        i <= v.len(),
    ensures
        j == skip_repeats(v@, i as int, p@),
        i <= j <= v.len(),
{
    let mut j: usize = i;
    if p.len() == 0 {
        return j;
    }
    while starts_at(v, j, p)
        invariant
            i <= j <= v.len(),
            p.len() > 0,
            skip_repeats(v@, i as int, p@) == skip_repeats(v@, j as int, p@),
        decreases v.len() - j,
    {
        j = j + p.len();
    }
    j
}

/// Whether two sequences of characters are the same.
pub fn same_chars(x: &Vec<char>, y: &Vec<char>) -> (r: bool)
    ensures
        r == (x@ == y@),
{
    if x.len() != y.len() {
        return false;
    }
    let r = starts_at(x, 0, y);
    assert(x@.subrange(0, x.len() as int) == x@);
    r
}

/// Whether two strings hold the same characters.
pub fn same_text(a: &str, b: &str) -> (r: bool)
    ensures
        r == (a@ == b@),
{
    let x = to_chars(a);
    let y = to_chars(b);
    same_chars(&x, &y)
}

/// `s` with an underscore in the place of every space.
pub fn replace_spaces(s: &str) -> (r: String)
    ensures
        r@ == underscored(s@),
{
    let v = to_chars(s);
    let mut r = String::new();
    let mut i: usize = 0;
    while i < v.len()
        invariant
            i <= v.len(),
            v@ == s@,
            r@ == underscored(s@).take(i as int),
        decreases v.len() - i,
    {
        let c = v[i];
        if c == ' ' {
            push_char(&mut r, '_');
        } else {
            push_char(&mut r, c);
        }
        i = i + 1;
        assert(underscored(s@).take(i as int) == underscored(s@).take(i - 1).push(
            underscored(s@)[i - 1],
        ));
    }
    assert(underscored(s@).take(v.len() as int) == underscored(s@));
    r
}

/// The character of the decimal digit `d`.
pub open spec fn digit(d: nat) -> char {
    ((48 + d) as u8) as char
}

/// `n` written in decimal, without leading zeros.
pub open spec fn decimal(n: nat) -> Seq<char>
    decreases n,
{
    if n < 10 {
        seq![digit(n)]
    } else {
        decimal(n / 10).push(digit(n % 10))
    }
}

/// Appends `n`, written in decimal, to `dst`.
pub fn push_decimal(dst: &mut String, n: usize)
    ensures
        final(dst)@ == old(dst)@ + decimal(n as nat),
    decreases n,
{
    if n >= 10 {
        push_decimal(dst, n / 10);
    }
    let d: u8 = (n % 10) as u8;
    let c: char = (48u8 + d) as char;
    push_char(dst, c);
    proof {
        if n >= 10 {
            assert(old(dst)@ + decimal(n as nat) == (old(dst)@ + decimal((n / 10) as nat)).push(
                digit((n % 10) as nat),
            ));
        } else {
            assert(old(dst)@ + decimal(n as nat) == old(dst)@.push(digit(n as nat)));
        }
    }
}

/// From `i` up to `skip_space(s, i)` there is white space only, and what
/// stands there, if anything does, is none.
pub proof fn lemma_skip_space(s: Seq<char>, i: int)
    requires
        0 <= i <= s.len(),
    ensures
        i <= skip_space(s, i) <= s.len(),
        forall|k: int| i <= k < skip_space(s, i) ==> is_space(#[trigger] s[k]),
        skip_space(s, i) < s.len() ==> !is_space(s[skip_space(s, i)]),
    decreases s.len() - i,
{
    if i < s.len() && is_space(s[i]) {
        lemma_skip_space(s, i + 1);
    }
}

/// From `back_space(s, j)` up to `j` there is white space only, and what
/// stands before it, if anything does, is none.
pub proof fn lemma_back_space(s: Seq<char>, j: int)
    requires
        0 <= j <= s.len(),
    ensures
        0 <= back_space(s, j) <= j,
        forall|k: int| back_space(s, j) <= k < j ==> is_space(#[trigger] s[k]),
        back_space(s, j) > 0 ==> !is_space(s[back_space(s, j) - 1]),
    decreases j,
{
    if 0 < j && is_space(s[j - 1]) {
        lemma_back_space(s, j - 1);
    }
}

/// Trimming cuts white space and nothing else: a text that trims to
/// nothing is white space throughout; any other text is its trimmed part
/// with white space before and after it, and the trimmed part neither
/// begins nor ends with white space.
pub proof fn lemma_trimmed_is_tight(s: Seq<char>)
    ensures
        trimmed(s).len() == 0 ==> forall|k: int| 0 <= k < s.len() ==> is_space(#[trigger] s[k]),
        trimmed(s).len() > 0 ==> {
            let a = skip_space(s, 0);
            let b = back_space(s, s.len() as int);
            &&& 0 <= a < b <= s.len()
            &&& trimmed(s) == s.subrange(a, b)
            &&& forall|k: int| 0 <= k < a ==> is_space(#[trigger] s[k])
            &&& forall|k: int| b <= k < s.len() ==> is_space(#[trigger] s[k])
            &&& !is_space(trimmed(s).first())
            &&& !is_space(trimmed(s).last())
        },
{
    lemma_skip_space(s, 0);
    lemma_back_space(s, s.len() as int);
}

} // verus!
