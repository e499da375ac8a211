//! Character-level text operations and their mathematical models.

use vstd::prelude::*;
use vstd::string::*;

verus! {

// ---------------------------------------------------------------------------
// Models
// ---------------------------------------------------------------------------

/// The characters with the Unicode property `White_Space`.
pub open spec fn is_space(c: char) -> bool {
    let n = c as u32;
    ||| 9 <= n <= 13
    ||| n == 0x20
    ||| n == 0x85
    ||| n == 0xA0
    ||| n == 0x1680
    ||| 0x2000 <= n <= 0x200A
    ||| n == 0x2028
    ||| n == 0x2029
    ||| n == 0x202F
    ||| n == 0x205F
    ||| n == 0x3000
}

/// The text without its leading white space.
pub open spec fn trim_start(s: Seq<char>) -> Seq<char>
    decreases s.len(),
{
    if s.len() == 0 || !is_space(s[0]) {
        s
    } else {
        trim_start(s.skip(1))
    }
}

/// The text without its trailing white space.
pub open spec fn trim_end(s: Seq<char>) -> Seq<char>
    decreases s.len(),
{
    if s.len() == 0 || !is_space(s.last()) {
        s
    } else {
        trim_end(s.drop_last())
    }
}

/// The text without leading and trailing white space.
pub open spec fn trimmed(s: Seq<char>) -> Seq<char> {
    trim_end(trim_start(s))
}

/// Whether nothing is left of the text once it is trimmed.
pub open spec fn is_blank(s: Seq<char>) -> bool {
    trimmed(s).len() == 0
}

/// Whether `pattern` occurs in `s` at position `at`.
pub open spec fn occurs_at(s: Seq<char>, pattern: Seq<char>, at: int) -> bool {
    &&& 0 <= at
    &&& at + pattern.len() <= s.len()
    &&& s.subrange(at, at + pattern.len()) == pattern
}

/// Whether `pattern` occurs somewhere in `s`.
pub open spec fn occurs_in(s: Seq<char>, pattern: Seq<char>) -> bool {
    exists|at: int| #[trigger] occurs_at(s, pattern, at)
}

/// `s` with every occurrence of `from`, taken from the left and without
/// overlap, replaced by `to`.
pub open spec fn replaced(s: Seq<char>, from: Seq<char>, to: Seq<char>) -> Seq<char>
    decreases s.len(),
{
    if from.len() == 0 || s.len() < from.len() {
        s
    } else if occurs_at(s, from, 0) {
        to + replaced(s.skip(from.len() as int), from, to)
    } else {
        seq![s[0]] + replaced(s.skip(1), from, to)
    }
}

/// How many characters come before the first white space.
pub open spec fn word_length(s: Seq<char>) -> nat
    decreases s.len(),
{
    if s.len() == 0 || is_space(s[0]) {
        0
    } else {
        1 + word_length(s.skip(1))
    }
}

/// The maximal runs of characters that are not white space, in order.
pub open spec fn words(s: Seq<char>) -> Seq<Seq<char>>
    decreases s.len(),
{
    if s.len() == 0 {
        seq![]
    } else if is_space(s[0]) {
        words(s.skip(1))
    } else {
        let n = word_length(s);
        if 0 < n <= s.len() {
            seq![s.take(n as int)] + words(s.skip(n as int))
        } else {
            seq![]
        }
    }
}

/// The words of `list` with one space between neighbours.
pub open spec fn spaced(list: Seq<Seq<char>>) -> Seq<char>
    decreases list.len(),
{
    if list.len() == 0 {
        seq![]
    } else if list.len() == 1 {
        list[0]
    } else {
        spaced(list.drop_last()).push(' ') + list.last()
    }
}

/// The parts of `list` one after the other.
pub open spec fn concatenated(list: Seq<Seq<char>>) -> Seq<char>
    decreases list.len(),
{
    if list.len() == 0 {
        seq![]
    } else {
        concatenated(list.drop_last()) + list.last()
    }
}

/// The lower-case form of an ASCII letter; any other character unchanged.
pub open spec fn ascii_lower_char(c: char) -> char {
    if 'A' <= c && c <= 'Z' {
        ((c as u8 + 32) as u8) as char
    } else {
        c
    }
}

/// The text with each ASCII letter in lower case.
pub open spec fn ascii_lower(s: Seq<char>) -> Seq<char> {
    s.map_values(|c: char| ascii_lower_char(c))
}

/// Whether `c` is an ASCII letter or digit.
pub open spec fn is_ascii_alnum(c: char) -> bool {
    ('a' <= c && c <= 'z') || ('A' <= c && c <= 'Z') || ('0' <= c && c <= '9')
}

/// The decimal digit of a number below ten.
pub open spec fn digit(d: nat) -> char {
    if d == 0 {
        '0'
    } else if d == 1 {
        '1'
    } else if d == 2 {
        '2'
    } else if d == 3 {
        '3'
    } else if d == 4 {
        '4'
    } else if d == 5 {
        '5'
    } else if d == 6 {
        '6'
    } else if d == 7 {
        '7'
    } else if d == 8 {
        '8'
    } else {
        '9'
    }
}

/// The number in decimal notation, without leading zeros.
pub open spec fn decimal(n: nat) -> Seq<char>
    decreases n,
{
    if n < 10 {
        seq![digit(n)]
    } else {
        decimal(n / 10).push(digit(n % 10))
    }
}

/// A path inside a directory: a name that begins with a slash stands for itself,
/// any other is put behind the directory and one slash.
pub open spec fn joined_path(dir: Seq<char>, name: Seq<char>) -> Seq<char> {
    if name.len() > 0 && name[0] == '/' {
        name
    } else if dir.len() == 0 || dir.last() == '/' {
        dir + name
    } else {
        dir.push('/') + name
    }
}

// ---------------------------------------------------------------------------
// The standard library
// ---------------------------------------------------------------------------

/// `String::push` appends the character to the end of the string.
pub assume_specification[ String::push ](s: &mut String, c: char)
    ensures
        final(s)@ == old(s)@.push(c),
;

/// The Unicode lower-case form of a text, as `str::to_lowercase` gives it.
pub uninterp spec fn unicode_lower(s: Seq<char>) -> Seq<char>;

/// `str::to_lowercase` maps a text to its Unicode lower-case form. The form
/// depends on the text alone; which characters it holds is not stated.
pub assume_specification[ str::to_lowercase ](s: &str) -> (res: String)
    ensures
        res@ == unicode_lower(s@),
;

/// The text that bytes stand for, as `String::from_utf8_lossy` gives it.
pub uninterp spec fn utf8_lossy(bytes: Seq<u8>) -> Seq<char>;

/// `String::from_utf8_lossy` reads bytes as UTF-8, with a replacement character for
/// what is no UTF-8. The text depends on the bytes alone; which characters it holds is
/// not stated.
#[verifier::external_body]
pub(crate) fn lossy_text(bytes: &Vec<u8>) -> (res: String)
    ensures
        res@ == utf8_lossy(bytes@),
{
    String::from_utf8_lossy(bytes).into_owned()
}

// ---------------------------------------------------------------------------
// Executable operations
// ---------------------------------------------------------------------------

/// Whether `c` is white space.
pub fn is_whitespace(c: char) -> (res: bool)
    ensures
        res == is_space(c),
{
    let n: u32 = c as u32;
    (9 <= n && n <= 13) || n == 0x20 || n == 0x85 || n == 0xA0 || n == 0x1680 || (0x2000 <= n && n
        <= 0x200A) || n == 0x2028 || n == 0x2029 || n == 0x202F || n == 0x205F || n == 0x3000
}

/// The characters of a text.
pub fn chars_of(s: &str) -> (res: Vec<char>)
    ensures
        res@ == s@,
{
    let mut out: Vec<char> = Vec::new();
    for c in it: s.chars()
        invariant
            out@ == it.seq().take(it.index()),
            it.seq() == s@,
    {
        out.push(c);
        assert(it.seq().take(it.index() + 1) =~= it.seq().take(it.index()).push(c));
    }
    out
}

/// The text made of the characters from `from` up to but not including `to`.
pub fn text_of(chars: &Vec<char>, from: usize, to: usize) -> (res: String)
    requires
        from <= to <= chars@.len(),
    ensures
        res@ == chars@.subrange(from as int, to as int),
{
    let mut out: String = String::new();
    let mut i: usize = from;
    while i < to
        invariant
            from <= i <= to <= chars@.len(),
            out@ == chars@.subrange(from as int, i as int),
        decreases to - i,
    {
        out.push(chars[i]);
        i = i + 1;
        assert(chars@.subrange(from as int, i as int) =~= chars@.subrange(
            from as int,
            i - 1,
        ).push(chars@[i - 1]));
    }
    out
}

/// The text without leading and trailing white space.
pub fn trim(s: &str) -> (res: String)
    ensures
        res@ == trimmed(s@),
{
    let chars = chars_of(s);
    let len: usize = chars.len();
    let mut lo: usize = 0;
    assert(chars@.skip(0) =~= chars@);
    while lo < len && is_whitespace(chars[lo])
        invariant
            lo <= len,
            len == chars@.len(),
            trim_start(chars@) == trim_start(chars@.skip(lo as int)),
        decreases len - lo,
    {
        assert(chars@.skip(lo as int).skip(1) =~= chars@.skip(lo + 1));
        lo = lo + 1;
    }
    let mut hi: usize = len;
    assert(chars@.subrange(lo as int, len as int) =~= chars@.skip(lo as int));
    while lo < hi && is_whitespace(chars[hi - 1])
        invariant
            lo <= hi <= len,
            len == chars@.len(),
            trim_end(chars@.skip(lo as int)) == trim_end(chars@.subrange(lo as int, hi as int)),
        decreases hi - lo,
    {
        assert(chars@.subrange(lo as int, hi as int).drop_last() =~= chars@.subrange(
            lo as int,
            hi - 1,
        ));
        hi = hi - 1;
    }
    text_of(&chars, lo, hi)
}

/// The text without trailing white space.
pub fn trim_tail(s: &str) -> (res: String)
    ensures
        res@ == trim_end(s@),
{
    let chars = chars_of(s);
    let mut n: usize = chars.len();
    assert(chars@.take(n as int) =~= chars@);
    while n > 0 && is_whitespace(chars[n - 1])
        invariant
            n <= chars@.len(),
            chars@ == s@,
            trim_end(s@) == trim_end(chars@.take(n as int)),
        decreases n,
    {
        assert(chars@.take(n as int).drop_last() =~= chars@.take(n - 1));
        n = n - 1;
    }
    assert(chars@.take(n as int) =~= chars@.subrange(0, n as int));
    text_of(&chars, 0, n)
}

/// Whether nothing is left of the text once it is trimmed.
pub fn blank(s: &str) -> (res: bool)
    ensures
        res == is_blank(s@),
{
    let rest = trim(s);
    rest.as_str().is_empty()
}

/// Whether `pattern` occurs in `chars` at position `at`.
fn matches_at(chars: &Vec<char>, pattern: &Vec<char>, at: usize) -> (res: bool)
    requires
        at <= chars@.len(),
    ensures
        res == occurs_at(chars@, pattern@, at as int),
{
    if pattern.len() > chars.len() - at {
        return false;
    }
    let mut i: usize = 0;
    while i < pattern.len()
        invariant
            i <= pattern@.len(),
            at + pattern@.len() <= chars.len(),
            forall|j: int| 0 <= j < i ==> chars@[at + j] == #[trigger] pattern@[j],
        decreases pattern@.len() - i,
    {
        if chars[at + i] != pattern[i] {
            assert(chars@.subrange(at as int, at + pattern@.len())[i as int] != pattern@[i as int]);
            return false;
        }
        i = i + 1;
    }
    assert(chars@.subrange(at as int, at + pattern@.len()) =~= pattern@);
    true
}

/// The text with every occurrence of `from` replaced by `to`.
pub fn replace_all(s: &str, from: &str, to: &str) -> (res: String)
    requires
        from@.len() > 0,
    ensures
        res@ == replaced(s@, from@, to@),
{
    let chars = chars_of(s);
    let pattern = chars_of(from);
    let mut out: String = String::new();
    let mut i: usize = 0;
    assert(chars@.skip(0) =~= chars@);
    while i < chars.len()
        invariant
            i <= chars@.len(),
            pattern@ == from@,
            pattern@.len() > 0,
            replaced(chars@, from@, to@) == out@ + replaced(chars@.skip(i as int), from@, to@),
        decreases chars@.len() - i,
    {
        let ghost rest = chars@.skip(i as int);
        assert(rest.len() >= from@.len() ==> rest.subrange(0, from@.len() as int)
            =~= chars@.subrange(i as int, i + from@.len()));
        if matches_at(&chars, &pattern, i) {
            assert(rest.skip(from@.len() as int) =~= chars@.skip(i + from@.len()));
            out.append(to);
            i = i + pattern.len();
            assert(replaced(chars@, from@, to@) =~= out@ + replaced(
                chars@.skip(i as int),
                from@,
                to@,
            ));
        } else {
            proof {
                let tail = chars@.skip(i + 1);
                assert(rest.skip(1) =~= tail);
                if rest.len() < from@.len() {
                    assert(replaced(tail, from@, to@) == tail);
                    assert(rest =~= seq![rest[0]] + tail);
                }
            }
            out.push(chars[i]);
            i = i + 1;
            assert(replaced(chars@, from@, to@) =~= out@ + replaced(
                chars@.skip(i as int),
                from@,
                to@,
            ));
        }
    }
    assert(chars@.skip(i as int) =~= Seq::<char>::empty());
    assert(out@ + replaced(Seq::<char>::empty(), from@, to@) =~= out@);
    out
}

/// The maximal runs of characters that are not white space, in order.
pub fn split_words(s: &str) -> (res: Vec<String>)
    ensures
        res.deep_view() == words(s@),
{
    let chars = chars_of(s);
    let len: usize = chars.len();
    let mut out: Vec<String> = Vec::new();
    let mut i: usize = 0;
    assert(chars@.skip(0) =~= chars@);
    assert(out.deep_view() + words(chars@) =~= words(chars@));
    while i < len
        invariant
            i <= len,
            len == chars@.len(),
            words(chars@) == out.deep_view() + words(chars@.skip(i as int)),
        decreases len - i,
    {
        let ghost rest = chars@.skip(i as int);
        if is_whitespace(chars[i]) {
            assert(rest.skip(1) =~= chars@.skip(i + 1));
            i = i + 1;
        } else {
            let mut j: usize = i;
            while j < len && !is_whitespace(chars[j])
                invariant
                    i <= j <= len,
                    len == chars@.len(),
                    rest == chars@.skip(i as int),
                    word_length(rest) == (j - i) + word_length(chars@.skip(j as int)),
                decreases len - j,
            {
                assert(chars@.skip(j as int).skip(1) =~= chars@.skip(j + 1));
                j = j + 1;
            }
            let ghost before = out.deep_view();
            let word = text_of(&chars, i, j);
            let ghost found = word@;
            assert(found =~= rest.take(j - i));
            out.push(word);
            assert(out.deep_view() =~= before.push(found));
            assert(rest.skip(j - i) =~= chars@.skip(j as int));
            assert(before + (seq![found] + words(chars@.skip(j as int))) =~= before.push(found)
                + words(chars@.skip(j as int)));
            i = j;
        }
    }
    assert(chars@.skip(i as int) =~= Seq::<char>::empty());
    assert(words(chars@) =~= out.deep_view());
    out
}

/// The words of `list` with one space between neighbours.
pub fn join_spaced(list: &Vec<String>) -> (res: String)
    ensures
        res@ == spaced(list.deep_view()),
{
    let mut out: String = String::new();
    let mut i: usize = 0;
    let ghost all = list.deep_view();
    assert(all.take(0) =~= Seq::<Seq<char>>::empty());
    while i < list.len()
        invariant
            i <= list@.len(),
            all == list.deep_view(),
            out@ == spaced(all.take(i as int)),
        decreases list@.len() - i,
    {
        assert(all.take(i + 1).drop_last() =~= all.take(i as int));
        if i > 0 {
            out.push(' ');
        }
        out.append(list[i].as_str());
        assert(out@ =~= spaced(all.take(i + 1)));
        i = i + 1;
    }
    assert(all.take(i as int) =~= all);
    out
}

/// The lower-case form of an ASCII letter; any other character unchanged.
pub fn lower_ascii_char(c: char) -> (res: char)
    ensures
        res == ascii_lower_char(c),
{
    if 'A' <= c && c <= 'Z' {
        (c as u8 + 32) as char
    } else {
        c
    }
}

/// The text with each ASCII letter in lower case.
pub fn lower_ascii(s: &str) -> (res: String)
    ensures
        res@ == ascii_lower(s@),
{
    let chars = chars_of(s);
    let mut out: String = String::new();
    let mut i: usize = 0;
    while i < chars.len()
        invariant
            i <= chars@.len(),
            out@ == ascii_lower(chars@.take(i as int)),
        decreases chars@.len() - i,
    {
        out.push(lower_ascii_char(chars[i]));
        i = i + 1;
        assert(out@ =~= ascii_lower(chars@.take(i as int)));
    }
    assert(chars@.take(i as int) =~= chars@);
    out
}

/// Whether `c` is an ASCII letter or digit.
pub fn ascii_alnum(c: char) -> (res: bool)
    ensures
        res == is_ascii_alnum(c),
{
    ('a' <= c && c <= 'z') || ('A' <= c && c <= 'Z') || ('0' <= c && c <= '9')
}

/// Whether `pattern` occurs somewhere in `s`.
pub fn contains_text(s: &str, pattern: &str) -> (res: bool)
    ensures
        res == occurs_in(s@, pattern@),
{
    let chars = chars_of(s);
    let wanted = chars_of(pattern);
    let mut i: usize = 0;
    while i < chars.len()
        invariant
            i <= chars@.len(),
            chars@ == s@,
            wanted@ == pattern@,
            forall|at: int| 0 <= at < i ==> !#[trigger] occurs_at(chars@, wanted@, at),
        decreases chars@.len() - i,
    {
        if matches_at(&chars, &wanted, i) {
            return true;
        }
        i = i + 1;
    }
    matches_at(&chars, &wanted, i)
}

/// Whether `s` begins with `prefix`.
pub fn begins_with(s: &str, prefix: &str) -> (res: bool)
    ensures
        res == occurs_at(s@, prefix@, 0),
{
    matches_at(&chars_of(s), &chars_of(prefix), 0)
}

/// Whether two texts hold the same characters.
pub fn same_text(a: &str, b: &str) -> (res: bool)
    ensures
        res == (a@ == b@),
{
    let left = chars_of(a);
    let right = chars_of(b);
    if left.len() != right.len() {
        return false;
    }
    let res = matches_at(&left, &right, 0);
    assert(left@.subrange(0, right@.len() as int) =~= left@);
    res
}

/// The number of characters of a text.
pub fn char_count(s: &str) -> (res: usize)
    ensures
        res == s@.len(),
{
    chars_of(s).len()
}

/// The decimal digit of a number below ten.
fn digit_char(d: u128) -> (res: char)
    requires
        d < 10,
    ensures
        res == digit(d as nat),
{
    if d == 0 {
        '0'
    } else if d == 1 {
        '1'
    } else if d == 2 {
        '2'
    } else if d == 3 {
        '3'
    } else if d == 4 {
        '4'
    } else if d == 5 {
        '5'
    } else if d == 6 {
        '6'
    } else if d == 7 {
        '7'
    } else if d == 8 {
        '8'
    } else {
        '9'
    }
}

/// The number in decimal notation.
pub fn decimal_text(n: u128) -> (res: String)
    ensures
        res@ == decimal(n as nat),
    decreases n,
{
    if n < 10 {
        let mut out: String = String::new();
        out.push(digit_char(n));
        assert(out@ =~= seq![digit(n as nat)]);
        out
    } else {
        let mut out: String = decimal_text(n / 10);
        out.push(digit_char(n % 10));
        out
    }
}

/// A path inside a directory.
pub fn join_path(dir: &str, name: &str) -> (res: String)
    ensures
        res@ == joined_path(dir@, name@),
{
    let file = chars_of(name);
    if file.len() > 0 && file[0] == '/' {
        return name.to_owned();
    }
    let base = chars_of(dir);
    let mut out: String = dir.to_owned();
    if base.len() > 0 && base[base.len() - 1] != '/' {
        out.push('/');
    }
    out.append(name);
    out
}

/// Two texts, one after the other.
pub fn concat2(a: &str, b: &str) -> (res: String)
    ensures
        res@ == a@ + b@,
{
    let mut out: String = a.to_owned();
    out.append(b);
    out
}

/// Three texts, one after the other.
pub fn concat3(a: &str, b: &str, c: &str) -> (res: String)
    ensures
        res@ == a@ + b@ + c@,
{
    let mut out: String = concat2(a, b);
    out.append(c);
    out
}

} // verus!
