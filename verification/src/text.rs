//! Character-level text handling: decoding, whitespace trimming, line
//! splitting, substring search and joining.

use vstd::prelude::*;

verus! {

/// Unicode `White_Space`, the property that `char::is_whitespace` tests.
pub open spec fn is_white_space(c: char) -> bool {
    ||| ('\t' <= c && c <= '\r')
    ||| c == ' '
    ||| c == '\u{85}'
    ||| c == '\u{a0}'
    ||| c == '\u{1680}'
    ||| ('\u{2000}' <= c && c <= '\u{200a}')
    ||| c == '\u{2028}'
    ||| c == '\u{2029}'
    ||| c == '\u{202f}'
    ||| c == '\u{205f}'
    ||| c == '\u{3000}'
}

/// `char::is_whitespace`.
pub fn white_space(c: char) -> (r: bool)
    ensures
        r == is_white_space(c),
{
    ('\t' <= c && c <= '\r') || c == ' ' || c == '\u{85}' || c == '\u{a0}' || c == '\u{1680}'
        || ('\u{2000}' <= c && c <= '\u{200a}') || c == '\u{2028}' || c == '\u{2029}'
        || c == '\u{202f}' || c == '\u{205f}' || c == '\u{3000}'
}

/// The characters of a string, in order.
pub fn chars_of(s: &str) -> (r: Vec<char>)
    ensures
        r@ == s@,
{
    let mut r: Vec<char> = Vec::new();
    for c in it: s.chars()
        invariant
            r@ == it.seq().take(it.index()),
            it.seq() == s@,
    {
        r.push(c);
    }
    r
}


/// `String::from_iter` over chars: the string made of the given characters.
#[verifier::external_body]
pub(crate) fn string_of(cs: &[char]) -> (r: String)
    ensures
        r@ == cs@,
{
    cs.iter().collect()
}

/// What `String::from_utf8_lossy` makes of a byte string: each maximal
/// invalid sequence becomes U+FFFD, the rest is decoded as UTF-8.
pub uninterp spec fn utf8_lossy(bytes: Seq<u8>) -> Seq<char>;

/// `String::from_utf8_lossy`: its result is named `utf8_lossy`; on valid
/// UTF-8 it is the plain decoding, as std documents. What it gives for
/// invalid input beyond that name is not stated.
#[verifier::external_body]
pub(crate) fn decode_lossy(bytes: &[u8]) -> (r: String)
    ensures
        r@ == utf8_lossy(bytes@),
        vstd::utf8::valid_utf8(bytes@) ==> r@ == vstd::utf8::decode_utf8(bytes@),
{
    String::from_utf8_lossy(bytes).into_owned()
}

/// The text of a byte string decoded as `String::from_utf8_lossy` does:
/// valid UTF-8 decoded plainly, anything else as `utf8_lossy` names it.
pub open spec fn decoded_text(bytes: Seq<u8>) -> Seq<char> {
    if vstd::utf8::valid_utf8(bytes) {
        vstd::utf8::decode_utf8(bytes)
    } else {
        utf8_lossy(bytes)
    }
}

/// `str::trim_start`: leading white space removed.
pub open spec fn trim_start(s: Seq<char>) -> Seq<char>
    decreases s.len(),
{
    if s.len() > 0 && is_white_space(s[0]) {
        trim_start(s.drop_first())
    } else {
        s
    }
}

/// `str::trim_end`: trailing white space removed.
pub open spec fn trim_end(s: Seq<char>) -> Seq<char>
    decreases s.len(),
{
    if s.len() > 0 && is_white_space(s.last()) {
        trim_end(s.drop_last())
    } else {
        s
    }
}

/// `str::trim`: leading and trailing white space removed.
pub open spec fn trim(s: Seq<char>) -> Seq<char> {
    trim_end(trim_start(s))
}

proof fn lemma_trim_start_skip(s: Seq<char>, i: int)
    requires
        0 <= i <= s.len(),
        forall|k: int| 0 <= k < i ==> is_white_space(#[trigger] s[k]),
        i == s.len() || !is_white_space(s[i]),
    ensures
        trim_start(s) == s.skip(i),
    decreases i,
{
    if i > 0 {
        lemma_trim_start_skip(s.drop_first(), i - 1);
    }
}

proof fn lemma_trim_end_take(s: Seq<char>, j: int)
    requires
        0 <= j <= s.len(),
        forall|k: int| j <= k < s.len() ==> is_white_space(#[trigger] s[k]),
        j == 0 || !is_white_space(s[j - 1]),
    ensures
        trim_end(s) == s.take(j),
    decreases s.len() - j,
{
    if j < s.len() {
        lemma_trim_end_take(s.drop_last(), j);
    }
}

/// The characters `s[from..to]`.
pub fn slice_chars(s: &Vec<char>, from: usize, to: usize) -> (r: Vec<char>)
    requires
        from <= to <= s.len(),
    ensures
        r@ == s@.subrange(from as int, to as int),
{
    let mut r: Vec<char> = Vec::new();
    let mut k = from;
    while k < to
        invariant
            from <= k <= to <= s.len(),
            r@ == s@.subrange(from as int, k as int),
        decreases to - k,
    {
        r.push(s[k]);
        k = k + 1;
    }
    r
}

/// `str::trim` on a character vector.
pub fn trim_chars(s: &Vec<char>) -> (r: Vec<char>)
    ensures
        r@ == trim(s@),
{
    let mut i: usize = 0;
    while i < s.len() && white_space(s[i])
        invariant
            i <= s.len(),
            forall|k: int| 0 <= k < i ==> is_white_space(#[trigger] s@[k]),
        decreases s.len() - i,
    {
        i = i + 1;
    }
    proof {
        lemma_trim_start_skip(s@, i as int);
    }
    let ghost t = s@.skip(i as int);
    let mut j: usize = s.len();
    while j > i && white_space(s[j - 1])
        invariant
            i <= j <= s.len(),
            t == s@.skip(i as int),
            forall|k: int| j <= k < s.len() ==> is_white_space(#[trigger] s@[k]),
        decreases j - i,
    {
        j = j - 1;
    }
    proof {
        lemma_trim_end_take(t, j - i);
    }
    slice_chars(s, i, j)
}


/// A line without the `'\r'` of a `"\r\n"` ending.
pub open spec fn strip_cr(line: Seq<char>) -> Seq<char> {
    if line.len() > 0 && line.last() == '\r' {
        line.drop_last()
    } else {
        line
    }
}

/// The finished lines of `s` and the unfinished last one, reading `s` from
/// the left: a `'\n'` ends the current line (dropping a `'\r'` just before it).
pub open spec fn line_scan(s: Seq<char>) -> (Seq<Seq<char>>, Seq<char>)
    decreases s.len(),
{
    if s.len() == 0 {
        (seq![], seq![])
    } else {
        let (done, cur) = line_scan(s.drop_last());
        if s.last() == '\n' {
            (done.push(strip_cr(cur)), seq![])
        } else {
            (done, cur.push(s.last()))
        }
    }
}

/// `str::lines`: the lines of `s`, split at `"\n"` or `"\r\n"`; a final
/// empty line (after a last line ending, or in an empty string) is not one.
pub open spec fn lines(s: Seq<char>) -> Seq<Seq<char>> {
    let (done, cur) = line_scan(s);
    if cur.len() == 0 {
        done
    } else {
        done.push(cur)
    }
}

/// The lines of `s`, each trimmed of white space.
pub open spec fn trimmed_lines(s: Seq<char>) -> Seq<Seq<char>> {
    lines(s).map_values(|l: Seq<char>| trim(l))
}

/// The views of a vector of character vectors.
pub open spec fn views(v: Seq<Vec<char>>) -> Seq<Seq<char>> {
    v.map_values(|x: Vec<char>| x@)
}

fn strip_cr_chars(line: Vec<char>) -> (r: Vec<char>)
    ensures
        r@ == strip_cr(line@),
{
    let mut line = line;
    if line.len() > 0 && line[line.len() - 1] == '\r' {
        line.pop();
    }
    line
}

/// `str::lines` on a character vector.
pub fn lines_of(s: &Vec<char>) -> (r: Vec<Vec<char>>)
    ensures
        views(r@) == lines(s@),
{
    let mut done: Vec<Vec<char>> = Vec::new();
    let mut cur: Vec<char> = Vec::new();
    let mut i: usize = 0;
    while i < s.len()
        invariant
            i <= s.len(),
            line_scan(s@.take(i as int)) == (views(done@), cur@),
        decreases s.len() - i,
    {
        let c = s[i];
        assert(s@.take(i + 1).drop_last() =~= s@.take(i as int));
        if c == '\n' {
            let line = strip_cr_chars(cur);
            done.push(line);
            cur = Vec::new();
        } else {
            cur.push(c);
        }
        i = i + 1;
    }
    assert(s@.take(i as int) =~= s@);
    if cur.len() > 0 {
        done.push(cur);
    }
    done
}

/// The lines of `s`, each trimmed of white space.
pub fn trimmed_lines_of(s: &Vec<char>) -> (r: Vec<Vec<char>>)
    ensures
        views(r@) == trimmed_lines(s@),
{
    let ls = lines_of(s);
    let mut r: Vec<Vec<char>> = Vec::new();
    let mut k: usize = 0;
    while k < ls.len()
        invariant
            k <= ls.len(),
            views(ls@) == lines(s@),
            views(r@) == trimmed_lines(s@).take(k as int),
        decreases ls.len() - k,
    {
        let t = trim_chars(&ls[k]);
        let ghost before = r@;
        r.push(t);
        assert(views(r@) =~= views(before).push(t@));
        k = k + 1;
    }
    r
}

/// Whether `needle` occurs in `hay` at position `i`.
pub open spec fn occurs_at(hay: Seq<char>, needle: Seq<char>, i: int) -> bool {
    0 <= i && i + needle.len() <= hay.len() && hay.subrange(i, i + needle.len()) == needle
}

/// `str::contains` with a string pattern.
pub open spec fn contains(hay: Seq<char>, needle: Seq<char>) -> bool {
    exists|i: int| occurs_at(hay, needle, i)
}

/// Whether two character vectors hold the same characters.
pub fn same_chars(a: &Vec<char>, b: &Vec<char>) -> (r: bool)
    ensures
        r == (a@ == b@),
{
    if a.len() != b.len() {
        return false;
    }
    let mut k: usize = 0;
    while k < a.len()
        invariant
            k <= a.len() == b.len(),
            a@.take(k as int) == b@.take(k as int),
        decreases a.len() - k,
    {
        if a[k] != b[k] {
            return false;
        }
        k = k + 1;
    }
    assert(a@.take(k as int) =~= a@);
    assert(b@.take(k as int) =~= b@);
    true
}

fn occurs_at_exec(hay: &Vec<char>, needle: &Vec<char>, i: usize) -> (r: bool)
    requires
        i + needle.len() <= hay.len(),
    ensures
        r == occurs_at(hay@, needle@, i as int),
{
    let mut k: usize = 0;
    while k < needle.len()
        invariant
            k <= needle.len(),
            i + needle.len() <= hay.len(),
            forall|m: int| 0 <= m < k ==> hay@[i + m] == needle@[m],
        decreases needle.len() - k,
    {
        if hay[i + k] != needle[k] {
            return false;
        }
        k = k + 1;
    }
    assert(hay@.subrange(i as int, i + needle.len()) =~= needle@);
    true
}

/// `str::contains` on character vectors.
pub fn contains_chars(hay: &Vec<char>, needle: &Vec<char>) -> (r: bool)
    ensures
        r == contains(hay@, needle@),
{
    if needle.len() > hay.len() {
        return false;
    }
    let last = hay.len() - needle.len();
    let mut i: usize = 0;
    loop
        invariant
            i <= last,
            last + needle.len() == hay.len(),
            forall|j: int| 0 <= j < i ==> !occurs_at(hay@, needle@, j),
        ensures
            forall|j: int| 0 <= j <= last ==> !occurs_at(hay@, needle@, j),
        decreases last - i,
    {
        if occurs_at_exec(hay, needle, i) {
            return true;
        }
        if i == last {
            break;
        }
        i = i + 1;
    }
    false
}

/// The parts joined, with a `'\n'` between neighbours (`[T]::join("\n")`).
pub open spec fn join_lines(parts: Seq<Seq<char>>) -> Seq<char>
    decreases parts.len(),
{
    if parts.len() == 0 {
        seq![]
    } else if parts.len() == 1 {
        parts[0]
    } else {
        join_lines(parts.drop_last()) + seq!['\n'] + parts.last()
    }
}

/// `[String]::join("\n")` on character vectors.
pub fn join_lines_of(parts: &Vec<Vec<char>>) -> (r: Vec<char>)
    ensures
        r@ == join_lines(views(parts@)),
{
    let mut r: Vec<char> = Vec::new();
    let mut k: usize = 0;
    while k < parts.len()
        invariant
            k <= parts.len(),
            r@ == join_lines(views(parts@).take(k as int)),
        decreases parts.len() - k,
    {
        let ghost before = views(parts@).take(k as int);
        assert(views(parts@).take(k + 1).drop_last() =~= before);
        if k > 0 {
            r.push('\n');
        }
        let part = &parts[k];
        let mut m: usize = 0;
        let ghost start = r@;
        while m < part.len()
            invariant
                m <= part.len(),
                r@ == start + part@.take(m as int),
            decreases part.len() - m,
        {
            r.push(part[m]);
            m = m + 1;
        }
        k = k + 1;
    }
    assert(views(parts@).take(k as int) =~= views(parts@));
    r
}


/// The view of an optional string.
pub open spec fn opt_view(o: Option<String>) -> Option<Seq<char>> {
    match o {
        Some(s) => Some(s@),
        None => None,
    }
}

/// The views of a sequence of strings.
pub open spec fn strings_view(v: Seq<String>) -> Seq<Seq<char>> {
    v.map_values(|s: String| s@)
}

/// The pieces of `s` between occurrences of `sep`, reading from the left.
pub open spec fn split_scan(s: Seq<char>, sep: char) -> (Seq<Seq<char>>, Seq<char>)
    decreases s.len(),
{
    if s.len() == 0 {
        (seq![], seq![])
    } else {
        let (done, cur) = split_scan(s.drop_last(), sep);
        if s.last() == sep {
            (done.push(cur), seq![])
        } else {
            (done, cur.push(s.last()))
        }
    }
}

/// `str::split` with a character: every piece, empty ones included, so
/// there is always one more piece than separators.
pub open spec fn split_on(s: Seq<char>, sep: char) -> Seq<Seq<char>> {
    let (done, cur) = split_scan(s, sep);
    done.push(cur)
}

/// `str::split` with a character, on a character vector.
pub fn split_chars(s: &Vec<char>, sep: char) -> (r: Vec<Vec<char>>)
    ensures
        views(r@) == split_on(s@, sep),
{
    let mut done: Vec<Vec<char>> = Vec::new();
    let mut cur: Vec<char> = Vec::new();
    let mut i: usize = 0;
    while i < s.len()
        invariant
            i <= s.len(),
            split_scan(s@.take(i as int), sep) == (views(done@), cur@),
        decreases s.len() - i,
    {
        let c = s[i];
        assert(s@.take(i + 1).drop_last() =~= s@.take(i as int));
        if c == sep {
            done.push(cur);
            cur = Vec::new();
        } else {
            cur.push(c);
        }
        i = i + 1;
    }
    assert(s@.take(i as int) =~= s@);
    done.push(cur);
    done
}

/// Lexicographic order of character sequences (`a <= b`), the order of
/// `str` and, as UTF-8 keeps code point order, of their bytes.
pub open spec fn lex_le(a: Seq<char>, b: Seq<char>) -> bool
    decreases a.len(),
{
    if a.len() == 0 {
        true
    } else if b.len() == 0 {
        false
    } else if a[0] != b[0] {
        a[0] < b[0]
    } else {
        lex_le(a.drop_first(), b.drop_first())
    }
}

proof fn lemma_lex_le_step(a: Seq<char>, b: Seq<char>, k: int)
    requires
        0 <= k < a.len(),
        k < b.len(),
        a[k] == b[k],
    ensures
        lex_le(a.skip(k), b.skip(k)) == lex_le(a.skip(k + 1), b.skip(k + 1)),
{
    assert(a.skip(k).drop_first() =~= a.skip(k + 1));
    assert(b.skip(k).drop_first() =~= b.skip(k + 1));
}

/// `a <= b` in lexicographic order.
pub fn lex_le_chars(a: &Vec<char>, b: &Vec<char>) -> (r: bool)
    ensures
        r == lex_le(a@, b@),
{
    let mut k: usize = 0;
    assert(a@.skip(0) =~= a@);
    assert(b@.skip(0) =~= b@);
    while k < a.len()
        invariant
            k <= a.len(),
            k <= b.len(),
            lex_le(a@, b@) == lex_le(a@.skip(k as int), b@.skip(k as int)),
        decreases a.len() - k,
    {
        if k == b.len() {
            return false;
        }
        if a[k] != b[k] {
            return a[k] < b[k];
        }
        proof {
            lemma_lex_le_step(a@, b@, k as int);
        }
        k = k + 1;
    }
    true
}


/// The lines of a byte string decoded leniently as UTF-8, each trimmed.
pub open spec fn output_lines(bytes: Seq<u8>) -> Seq<Seq<char>> {
    trimmed_lines(decoded_text(bytes))
}

/// Strings made of character vectors.
pub fn strings_of(parts: &Vec<Vec<char>>) -> (r: Vec<String>)
    ensures
        strings_view(r@) == views(parts@),
{
    let mut r: Vec<String> = Vec::new();
    let mut k: usize = 0;
    while k < parts.len()
        invariant
            k <= parts.len(),
            strings_view(r@) == views(parts@).take(k as int),
        decreases parts.len() - k,
    {
        let ghost before = r@;
        r.push(string_of(parts[k].as_slice()));
        assert(strings_view(r@) =~= strings_view(before).push(parts@[k as int]@));
        k = k + 1;
    }
    r
}

/// The trimmed lines of program output, decoded leniently as UTF-8 (as
/// `String::from_utf8_lossy(..).lines()` with `str::trim` on each).
pub fn output_lines_of(bytes: &[u8]) -> (r: Vec<String>)
    ensures
        strings_view(r@) == output_lines(bytes@),
{
    let text = decode_lossy(bytes);
    let cs = chars_of(text.as_str());
    let ls = trimmed_lines_of(&cs);
    strings_of(&ls)
}


/// `lex_le` is a total order: reflexive, total and transitive.
pub proof fn lemma_lex_le_total(a: Seq<char>, b: Seq<char>)
    ensures
        lex_le(a, a),
        lex_le(a, b) || lex_le(b, a),
    decreases a.len(),
{
    if a.len() > 0 {
        lemma_lex_le_total(a.drop_first(), a.drop_first());
        if b.len() > 0 && a[0] == b[0] {
            lemma_lex_le_total(a.drop_first(), b.drop_first());
        }
    }
}

/// `lex_le` is transitive.
pub proof fn lemma_lex_le_transitive(a: Seq<char>, b: Seq<char>, c: Seq<char>)
    requires
        lex_le(a, b),
        lex_le(b, c),
    ensures
        lex_le(a, c),
    decreases a.len(),
{
    if a.len() > 0 && b.len() > 0 && c.len() > 0 && a[0] == b[0] && b[0] == c[0] {
        lemma_lex_le_transitive(a.drop_first(), b.drop_first(), c.drop_first());
    }
}


proof fn lemma_encode_concat(x: Seq<char>, y: Seq<char>)
    ensures
        vstd::utf8::encode_utf8(x + y) == vstd::utf8::encode_utf8(x) + vstd::utf8::encode_utf8(y),
    decreases x.len(),
{
    if x.len() == 0 {
        assert(x + y =~= y);
    } else {
        lemma_encode_concat(x.drop_first(), y);
        assert((x + y).drop_first() =~= x.drop_first() + y);
        assert((x + y)[0] == x[0]);
    }
}

/// Two valid UTF-8 byte strings joined by a newline byte are valid UTF-8,
/// and decode to the two texts joined by `'\n'`.
pub proof fn lemma_decode_newline_join(a: Seq<u8>, b: Seq<u8>)
    requires
        vstd::utf8::valid_utf8(a),
        vstd::utf8::valid_utf8(b),
    ensures
        vstd::utf8::valid_utf8(a + seq![10u8] + b),
        decoded_text(a + seq![10u8] + b) == decoded_text(a) + seq!['\n'] + decoded_text(b),
{
    let x = vstd::utf8::decode_utf8(a);
    let y = vstd::utf8::decode_utf8(b);
    vstd::utf8::decode_utf8_encode_utf8(a);
    vstd::utf8::decode_utf8_encode_utf8(b);
    let nl: Seq<char> = seq!['\n'];
    assert(('\n' as u32) == 10u32);
    assert((10u32 & 0x7Fu32) as u8 == 10u8) by (bit_vector);
    assert(nl.drop_first() =~= Seq::<char>::empty());
    assert(nl[0] as u32 == 10u32);
    assert(vstd::utf8::has_width_1_encoding(10u32));
    assert(vstd::utf8::encode_scalar(10u32) =~= seq![10u8]);
    assert(vstd::utf8::encode_utf8(Seq::<char>::empty()) =~= Seq::<u8>::empty());
    assert(vstd::utf8::encode_utf8(nl) =~= seq![10u8]);
    lemma_encode_concat(x, nl);
    lemma_encode_concat(x + nl, y);
    let all = x + nl + y;
    assert(vstd::utf8::encode_utf8(all) =~= a + seq![10u8] + b);
    vstd::utf8::encode_utf8_valid_utf8(all);
    vstd::utf8::encode_utf8_decode_utf8(all);
}

proof fn lemma_trim_start_drop_ws_last(c: Seq<char>)
    requires
        c.len() > 0,
        is_white_space(c.last()),
    ensures
        trim_start(c).len() == 0 ==> trim_start(c.drop_last()).len() == 0,
        trim_start(c).len() > 0 ==> trim_start(c.drop_last()) == trim_start(c).drop_last()
            && trim_start(c).last() == c.last(),
    decreases c.len(),
{
    if is_white_space(c[0]) {
        if c.len() > 1 {
            let d = c.drop_first();
            assert(d.last() == c.last());
            lemma_trim_start_drop_ws_last(d);
            assert(c.drop_last().drop_first() =~= d.drop_last());
            assert(c.drop_last()[0] == c[0]);
            assert(trim_start(c) == trim_start(d));
            assert(trim_start(c.drop_last()) == trim_start(d.drop_last()));
        } else {
            assert(c.drop_first().len() == 0);
            assert(c.drop_last().len() == 0);
            assert(trim_start(c) == trim_start(c.drop_first()));
            assert(trim_start(c).len() == 0);
            assert(trim_start(c.drop_last()).len() == 0);
        }
    } else {
        assert(c.len() > 1);
        assert(c.drop_last()[0] == c[0]);
        assert(trim_start(c) == c);
        assert(trim_start(c.drop_last()) == c.drop_last());
        assert(trim_start(c).last() == c.last());
    }
}

/// Trimming does not see a trailing white space character.
pub proof fn lemma_trim_drop_ws_last(c: Seq<char>)
    requires
        c.len() > 0,
        is_white_space(c.last()),
    ensures
        trim(c.drop_last()) == trim(c),
{
    lemma_trim_start_drop_ws_last(c);
    if trim_start(c).len() == 0 {
        assert(trim_start(c.drop_last()) =~= trim_start(c));
    }
}

/// A line and the same line without the `'\r'` of a `"\r\n"` ending trim alike.
pub proof fn lemma_trim_strip_cr(c: Seq<char>)
    ensures
        trim(strip_cr(c)) == trim(c),
{
    if c.len() > 0 && c.last() == '\r' {
        lemma_trim_drop_ws_last(c);
    }
}

proof fn lemma_line_scan_append(p: Seq<char>, y: Seq<char>)
    requires
        line_scan(p).1.len() == 0,
    ensures
        line_scan(p + y) == (line_scan(p).0 + line_scan(y).0, line_scan(y).1),
    decreases y.len(),
{
    if y.len() == 0 {
        assert(p + y =~= p);
        assert(line_scan(p).0 + line_scan(y).0 =~= line_scan(p).0);
        assert(line_scan(p).1 =~= line_scan(y).1);
    } else {
        lemma_line_scan_append(p, y.drop_last());
        assert((p + y).drop_last() =~= p + y.drop_last());
        assert((p + y).last() == y.last());
        let (d, c) = line_scan(y.drop_last());
        if y.last() == '\n' {
            assert(line_scan(p).0 + d.push(strip_cr(c)) =~= (line_scan(p).0 + d).push(strip_cr(c)));
        }
    }
}

/// The lines of `x + "\n" + y`: those of `x` with the last one ended, then
/// those of `y`.
pub proof fn lemma_lines_newline_join(x: Seq<char>, y: Seq<char>)
    ensures
        lines(x + seq!['\n'] + y) == line_scan(x).0.push(strip_cr(line_scan(x).1)) + lines(y),
{
    let p = x + seq!['\n'];
    assert(p.drop_last() =~= x);
    assert(p.last() == '\n');
    lemma_line_scan_append(p, y);
    let (d, c) = line_scan(p);
    let (dy, cy) = line_scan(y);
    if cy.len() > 0 {
        assert((d + dy).push(cy) =~= d + dy.push(cy));
    }
}

} // verus!
