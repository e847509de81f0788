//! Text scanning: lines, substrings and whitespace-separated words.
use vstd::prelude::*;
use vstd::utf8::{decode_utf8, valid_utf8};

verus! {

/// Index of the first element of `s` equal to `x`, or `s.len()` when there is none.
pub open spec fn first_index<T>(s: Seq<T>, x: T) -> int
    decreases s.len(),
{
    if s.len() == 0 {
        0
    } else if s[0] == x {
        0
    } else {
        1 + first_index(s.drop_first(), x)
    }
}

/// Removes one trailing carriage return, if any.
pub open spec fn strip_cr<T>(line: Seq<T>, cr: T) -> Seq<T> {
    if line.len() > 0 && line.last() == cr {
        line.drop_last()
    } else {
        line
    }
}

/// The lines of `s`, split the way `BufRead::lines` and `str::lines` split them:
/// at every newline, with a carriage return right before a newline removed, and
/// without an empty line after a final newline.
pub open spec fn lines_of<T>(s: Seq<T>, nl: T, cr: T) -> Seq<Seq<T>>
    decreases s.len(),
{
    if s.len() == 0 {
        Seq::empty()
    } else {
        let i = first_index(s, nl);
        if 0 <= i < s.len() {
            seq![strip_cr(s.take(i), cr)] + lines_of(s.skip(i + 1), nl, cr)
        } else {
            seq![s]
        }
    }
}

pub proof fn lemma_first_index_found<T>(s: Seq<T>, x: T, i: int)
    requires
        0 <= i < s.len(),
        s[i] == x,
        forall|k: int| 0 <= k < i ==> s[k] != x,
    ensures
        first_index(s, x) == i,
    decreases i,
{
    if i > 0 {
        let t = s.drop_first();
        assert forall|k: int| 0 <= k < i - 1 implies t[k] != x by {
            assert(t[k] == s[k + 1]);
        }
        lemma_first_index_found(t, x, i - 1);
    }
}

pub proof fn lemma_first_index_absent<T>(s: Seq<T>, x: T)
    requires
        forall|k: int| 0 <= k < s.len() ==> s[k] != x,
    ensures
        first_index(s, x) == s.len(),
    decreases s.len(),
{
    if s.len() > 0 {
        let t = s.drop_first();
        assert forall|k: int| 0 <= k < t.len() implies t[k] != x by {
            assert(t[k] == s[k + 1]);
        }
        lemma_first_index_absent(t, x);
    }
}

/// `first_index` lies in `0..=s.len()`; below `s.len()` it points at the first `x`.
pub proof fn lemma_first_index_props<T>(s: Seq<T>, x: T)
    ensures
        0 <= first_index(s, x) <= s.len(),
        first_index(s, x) < s.len() ==> s[first_index(s, x)] == x,
        forall|k: int| 0 <= k < first_index(s, x) ==> s[k] != x,
    decreases s.len(),
{
    if s.len() > 0 && s[0] != x {
        let t = s.drop_first();
        lemma_first_index_props(t, x);
        assert forall|k: int| 0 <= k < first_index(s, x) implies s[k] != x by {
            if k > 0 {
                assert(s[k] == t[k - 1]);
            }
        }
    }
}

/// Splitting at the first newline: the line before it, then the lines of the rest.
pub proof fn lemma_lines_step<T>(s: Seq<T>, nl: T, cr: T, i: int)
    requires
        0 <= i < s.len(),
        s[i] == nl,
        forall|k: int| 0 <= k < i ==> s[k] != nl,
    ensures
        lines_of(s, nl, cr) == seq![strip_cr(s.take(i), cr)] + lines_of(s.skip(i + 1), nl, cr),
{
    lemma_first_index_found(s, nl, i);
}

/// A nonempty sequence without newline is a single line.
pub proof fn lemma_lines_last<T>(s: Seq<T>, nl: T, cr: T)
    requires
        s.len() > 0,
        forall|k: int| 0 <= k < s.len() ==> s[k] != nl,
    ensures
        lines_of(s, nl, cr) == seq![s],
{
    lemma_first_index_absent(s, nl);
}

/// The views of a vector of vectors.
pub open spec fn seqs_of<T>(v: Seq<Vec<T>>) -> Seq<Seq<T>> {
    v.map_values(|l: Vec<T>| l@)
}

/// A unit of text that lines are split into: a character or a byte.
trait LineUnit: Copy + Sized {
    /// The unit that ends a line.
    spec fn newline() -> Self;

    /// The unit that may come just before a newline and is then dropped.
    spec fn carriage_return() -> Self;

    fn is_newline(&self) -> (r: bool)
        ensures
            r == (*self == Self::newline()),
    ;

    fn is_carriage_return(&self) -> (r: bool)
        ensures
            r == (*self == Self::carriage_return()),
    ;
}

impl LineUnit for char {
    spec fn newline() -> char {
        '\n'
    }

    spec fn carriage_return() -> char {
        '\r'
    }

    fn is_newline(&self) -> (r: bool) {
        *self == '\n'
    }

    fn is_carriage_return(&self) -> (r: bool) {
        *self == '\r'
    }
}

impl LineUnit for u8 {
    spec fn newline() -> u8 {
        10u8
    }

    spec fn carriage_return() -> u8 {
        13u8
    }

    fn is_newline(&self) -> (r: bool) {
        *self == 10u8
    }

    fn is_carriage_return(&self) -> (r: bool) {
        *self == 13u8
    }
}

fn strip_carriage_return<T: LineUnit>(line: Vec<T>) -> (r: Vec<T>)
    ensures
        r@ == strip_cr(line@, T::carriage_return()),
{
    let mut line = line;
    if line.len() > 0 && line[line.len() - 1].is_carriage_return() {
        line.pop();
    }
    line
}

fn split_lines<T: LineUnit>(s: &[T]) -> (r: Vec<Vec<T>>)
    ensures
        seqs_of(r@) == lines_of(s@, T::newline(), T::carriage_return()),
{
    let ghost nl = T::newline();
    let ghost cr = T::carriage_return();
    let mut r: Vec<Vec<T>> = Vec::new();
    let mut line: Vec<T> = Vec::new();
    let mut start: usize = 0;
    let mut i: usize = 0;
    assert(s@.skip(0) == s@);
    assert(seqs_of(r@) + lines_of(s@, nl, cr) == lines_of(s@, nl, cr));
    while i < s.len()
        invariant
            nl == T::newline(),
            cr == T::carriage_return(),
            start <= i <= s.len(),
            line@ == s@.subrange(start as int, i as int),
            forall|k: int| start <= k < i ==> s@[k] != nl,
            seqs_of(r@) + lines_of(s@.skip(start as int), nl, cr) == lines_of(s@, nl, cr),
        decreases s.len() - i,
    {
        if s[i].is_newline() {
            let ghost t = s@.skip(start as int);
            proof {
                lemma_lines_step(t, nl, cr, i - start);
                assert(t.take(i - start) == line@);
                assert(t.skip(i - start + 1) == s@.skip(i + 1));
            }
            let l = strip_carriage_return(line);
            let ghost before = r@;
            r.push(l);
            proof {
                assert(seqs_of(r@) == seqs_of(before).push(strip_cr(line@, cr)));
            }
            line = Vec::new();
            start = i + 1;
            assert(line@ == s@.subrange(start as int, (i + 1) as int));
        } else {
            line.push(s[i]);
        }
        i = i + 1;
    }
    if start < s.len() {
        let ghost t = s@.skip(start as int);
        proof {
            lemma_lines_last(t, nl, cr);
            assert(t == line@);
        }
        let ghost before = r@;
        r.push(line);
        proof {
            assert(seqs_of(r@) == seqs_of(before).push(t));
        }
    } else {
        assert(s@.skip(start as int).len() == 0);
    }
    r
}

/// Splits characters into lines, as `str::lines` does.
pub fn char_lines(s: &Vec<char>) -> (r: Vec<Vec<char>>)
    ensures
        seqs_of(r@) == lines_of(s@, '\n', '\r'),
{
    split_lines(s.as_slice())
}

/// Splits bytes into lines, as `BufRead::lines` does before decoding them.
pub fn byte_lines(s: &[u8]) -> (r: Vec<Vec<u8>>)
    ensures
        seqs_of(r@) == lines_of(s@, 10u8, 13u8),
{
    split_lines(s)
}

/// The text of one line of a file: its characters when the line is valid UTF-8,
/// and the empty line otherwise (a line that cannot be read counts as empty).
pub open spec fn decoded_line(line: Seq<u8>) -> Seq<char> {
    if valid_utf8(line) {
        decode_utf8(line)
    } else {
        Seq::empty()
    }
}

/// The lines of a file's contents, as the checks read them.
pub open spec fn file_lines(contents: Seq<u8>) -> Seq<Seq<char>> {
    lines_of(contents, 10u8, 13u8).map_values(|l: Seq<u8>| decoded_line(l))
}

/// `std::str::from_utf8`: the bytes read as a string slice when they are valid
/// UTF-8, and nothing otherwise.
#[verifier::external_body]
fn utf8_str(bytes: &[u8]) -> (r: Option<&str>)
    ensures
        r is Some <==> valid_utf8(bytes@),
        r matches Some(s) ==> s@ == decode_utf8(bytes@),
{
    std::str::from_utf8(bytes).ok()
}

/// Decodes one line of a file.
pub fn decode_line(line: &[u8]) -> (r: Vec<char>)
    ensures
        r@ == decoded_line(line@),
{
    match utf8_str(line) {
        Some(s) => chars_of(s),
        None => Vec::new(),
    }
}

/// Splits a file's contents into decoded lines.
pub fn read_file_lines(contents: &[u8]) -> (r: Vec<Vec<char>>)
    ensures
        seqs_of(r@) == file_lines(contents@),
{
    let raw = byte_lines(contents);
    let mut r: Vec<Vec<char>> = Vec::new();
    let mut i: usize = 0;
    while i < raw.len()
        invariant
            i <= raw.len(),
            seqs_of(raw@) == lines_of(contents@, 10u8, 13u8),
            seqs_of(r@) == seqs_of(raw@).take(i as int).map_values(|l: Seq<u8>| decoded_line(l)),
        decreases raw.len() - i,
    {
        let ghost before = r@;
        let d = decode_line(raw[i].as_slice());
        r.push(d);
        proof {
            assert(seqs_of(raw@)[i as int] == raw@[i as int]@);
            assert(seqs_of(r@) == seqs_of(before).push(d@));
            assert(seqs_of(raw@).take(i + 1) == seqs_of(raw@).take(i as int).push(raw@[i as int]@));
        }
        i = i + 1;
    }
    assert(seqs_of(raw@).take(i as int) == seqs_of(raw@));
    r
}

/// `needle` occurs in `hay` starting at position `i`.
pub open spec fn occurs_at(hay: Seq<char>, needle: Seq<char>, i: int) -> bool {
    &&& 0 <= i
    &&& i + needle.len() <= hay.len()
    &&& hay.subrange(i, i + needle.len()) == needle
}

/// `needle` is a substring of `hay` (as `str::contains` decides it).
pub open spec fn has_substring(hay: Seq<char>, needle: Seq<char>) -> bool {
    exists|i: int| occurs_at(hay, needle, i)
}

pub fn matches_at(hay: &Vec<char>, needle: &Vec<char>, i: usize) -> (r: bool)
    requires
        i + needle@.len() <= hay@.len(),
    ensures
        r == occurs_at(hay@, needle@, i as int),
{
    let mut k: usize = 0;
    assert(hay@.len() == hay.len());
    while k < needle.len()
        invariant
            i + needle@.len() <= hay@.len(),
            hay@.len() <= usize::MAX,
            k <= needle@.len(),
            forall|j: int| 0 <= j < k ==> hay@[i + j] == needle@[j],
        decreases needle.len() - k,
    {
        if hay[i + k] != needle[k] {
            assert(hay@.subrange(i as int, i + needle@.len())[k as int] != needle@[k as int]);
            return false;
        }
        k = k + 1;
    }
    assert(hay@.subrange(i as int, i + needle@.len()) =~= needle@);
    true
}

/// Whether `needle` is a substring of `hay`.
pub fn contains(hay: &Vec<char>, needle: &Vec<char>) -> (r: bool)
    ensures
        r == has_substring(hay@, needle@),
{
    if needle.len() == 0 {
        assert(hay@.subrange(0, 0) =~= needle@);
        assert(occurs_at(hay@, needle@, 0));
        return true;
    }
    if needle.len() > hay.len() {
        return false;
    }
    let last = hay.len() - needle.len();
    let mut i: usize = 0;
    while i <= last
        invariant
            last == hay@.len() - needle@.len(),
            hay@.len() <= usize::MAX,
            needle@.len() > 0,
            i <= last + 1,
            forall|j: int| 0 <= j < i ==> !occurs_at(hay@, needle@, j),
        decreases last + 1 - i,
    {
        if matches_at(hay, needle, i) {
            return true;
        }
        i = i + 1;
    }
    false
}

/// ASCII whitespace, as `u8::is_ascii_whitespace` defines it.
pub open spec fn is_ascii_space(c: char) -> bool {
    c == ' ' || c == '\t' || c == '\n' || c == '\x0C' || c == '\r'
}

/// A word: a nonempty run of characters that are not ASCII whitespace.
pub open spec fn is_word(w: Seq<char>) -> bool {
    &&& w.len() > 0
    &&& forall|k: int| 0 <= k < w.len() ==> !is_ascii_space(w[k])
}

/// `w` occurs at `i` with ASCII whitespace (or an end of the line) on both sides.
pub open spec fn word_at(line: Seq<char>, w: Seq<char>, i: int) -> bool {
    &&& occurs_at(line, w, i)
    &&& (i == 0 || is_ascii_space(line[i - 1]))
    &&& (i + w.len() == line.len() || is_ascii_space(line[i + w.len()]))
}

/// `w` is one of the words that `str::split_ascii_whitespace` yields for `line`:
/// a maximal run of non-whitespace characters is exactly a word bounded by
/// whitespace or by the ends of the line.
pub open spec fn has_word(line: Seq<char>, w: Seq<char>) -> bool {
    is_word(w) && exists|i: int| word_at(line, w, i)
}

fn is_space(c: char) -> (r: bool)
    ensures
        r == is_ascii_space(c),
{
    c == ' ' || c == '\t' || c == '\n' || c == '\x0C' || c == '\r'
}

fn word_shape(w: &Vec<char>) -> (r: bool)
    ensures
        r == is_word(w@),
{
    if w.len() == 0 {
        return false;
    }
    let mut k: usize = 0;
    while k < w.len()
        invariant
            k <= w@.len(),
            forall|j: int| 0 <= j < k ==> !is_ascii_space(w@[j]),
        decreases w.len() - k,
    {
        if is_space(w[k]) {
            return false;
        }
        k = k + 1;
    }
    true
}

/// Whether `word` is one of the whitespace-separated words of `line`.
pub fn contains_word(line: &Vec<char>, word: &Vec<char>) -> (r: bool)
    ensures
        r == has_word(line@, word@),
{
    if !word_shape(word) || word.len() > line.len() {
        return false;
    }
    let last = line.len() - word.len();
    let mut i: usize = 0;
    while i <= last
        invariant
            last == line@.len() - word@.len(),
            line@.len() <= usize::MAX,
            is_word(word@),
            i <= last + 1,
            forall|j: int| 0 <= j < i ==> !word_at(line@, word@, j),
        decreases last + 1 - i,
    {
        let before_ok = i == 0 || is_space(line[i - 1]);
        let after_ok = i == last || is_space(line[i + word.len()]);
        if matches_at(line, word, i) && before_ok && after_ok {
            assert(word_at(line@, word@, i as int));
            return true;
        }
        i = i + 1;
    }
    false
}

/// What `String::from_utf8_lossy` makes of the bytes.
pub uninterp spec fn utf8_lossy(bytes: Seq<u8>) -> Seq<char>;

/// `String::from_utf8_lossy`: the bytes read as UTF-8, each invalid sequence
/// replaced by U+FFFD; bytes that are valid UTF-8 are read as they are.
#[verifier::external_body]
fn lossy_string(bytes: &[u8]) -> (r: String)
    ensures
        r@ == utf8_lossy(bytes@),
        valid_utf8(bytes@) ==> r@ == decode_utf8(bytes@),
{
    String::from_utf8_lossy(bytes).into_owned()
}

/// The text of a command's output: its characters when it is valid UTF-8, and
/// what `String::from_utf8_lossy` makes of it otherwise.
pub open spec fn output_text(stdout: Seq<u8>) -> Seq<char> {
    if valid_utf8(stdout) {
        decode_utf8(stdout)
    } else {
        utf8_lossy(stdout)
    }
}

/// The lines of a command's output, as the checks read them.
pub open spec fn output_lines(stdout: Seq<u8>) -> Seq<Seq<char>> {
    lines_of(output_text(stdout), '\n', '\r')
}

/// Splits a command's output into lines.
pub fn read_output_lines(stdout: &[u8]) -> (r: Vec<Vec<char>>)
    ensures
        seqs_of(r@) == output_lines(stdout@),
        valid_utf8(stdout@) ==> seqs_of(r@) == lines_of(decode_utf8(stdout@), '\n', '\r'),
{
    let text = lossy_string(stdout);
    let chars = chars_of(text.as_str());
    char_lines(&chars)
}

/// The characters of a string slice, in order.
pub fn chars_of(s: &str) -> (r: Vec<char>)
    ensures
        r@ == s@,
{
    let mut r: Vec<char> = Vec::new();
    for c in it: s.chars()
        invariant
            r@ == it.seq().take(it.index() as int),
    {
        r.push(c);
    }
    r
}

} // verus!
