use vstd::prelude::*;

use crate::text::{chars_of, lemma_trim_shape, string_of, trim, trim_chars, whitespace};

verus! {

// ---------------------------------------------------------------------
// The first line of a text.
// ---------------------------------------------------------------------

/// The characters of `s` before its first line feed.
pub open spec fn until_newline(s: Seq<char>) -> Seq<char>
    decreases s.len(),
{
    if s.len() == 0 {
        s
    } else if s[0] == '\n' {
        Seq::empty()
    } else {
        seq![s[0]] + until_newline(s.drop_first())
    }
}

/// The first line of `s`, as `str::lines` yields it: the text before the first
/// line feed, without a carriage return that ends it; `None` for an empty text.
pub open spec fn first_line(s: Seq<char>) -> Option<Seq<char>> {
    if s.len() == 0 {
        None
    } else {
        let l = until_newline(s);
        if l.len() < s.len() && l.len() > 0 && l.last() == '\r' {
            Some(l.drop_last())
        } else {
            Some(l)
        }
    }
}

/// Title source used when the text has no line.
pub const UNTITLED: &'static str = "Untitled";

/// The line a new note is named after: the first line of its content, or
/// `Untitled` when the content is empty.
pub open spec fn title_line(content: Seq<char>) -> Seq<char> {
    match first_line(content) {
        Some(l) => l,
        None => UNTITLED@,
    }
}

proof fn lemma_until_newline(s: Seq<char>, i: int)
    requires
        0 <= i <= s.len(),
        forall|j: int| 0 <= j < i ==> s[j] != '\n',
        i == s.len() || s[i] == '\n',
    ensures
        until_newline(s) == s.take(i),
    decreases i,
{
    if i == 0 {
        assert(s.take(0) =~= Seq::<char>::empty());
    } else {
        lemma_until_newline(s.drop_first(), i - 1);
        assert(s.take(i) =~= seq![s[0]] + s.drop_first().take(i - 1));
    }
}

/// The first line of a text is what comes before its first line feed (less
/// a carriage return that ends it), and a text without line feed is one line.
pub proof fn lemma_first_line_before_newline(line: Seq<char>, rest: Seq<char>)
    requires
        forall|i: int| 0 <= i < line.len() ==> line[i] != '\n',
    ensures
        line.len() == 0 || line.last() != '\r' ==> first_line(line + "\n"@ + rest) == Some(line),
        line.len() > 0 ==> first_line(line + "\r\n"@ + rest) == Some(line),
        line.len() > 0 ==> first_line(line) == Some(line),
{
    reveal_strlit("\n");
    reveal_strlit("\r\n");
    let s = line + "\n"@ + rest;
    lemma_until_newline(s, line.len() as int);
    assert(s.take(line.len() as int) =~= line);
    let t = line + "\r\n"@ + rest;
    let lr = line.push('\r');
    assert forall|j: int| 0 <= j < lr.len() implies t[j] != '\n' by {
        if j < line.len() {
            assert(t[j] == line[j]);
        }
    }
    lemma_until_newline(t, lr.len() as int);
    assert(t.take(lr.len() as int) =~= lr);
    assert(lr.drop_last() =~= line);
    lemma_until_newline(line, line.len() as int);
    assert(line.take(line.len() as int) =~= line);
}

/// The line a new note named after `content` takes its name from.
pub fn title_line_of(content: &Vec<char>) -> (r: Vec<char>)
    ensures
        r@ == title_line(content@),
{
    if content.len() == 0 {
        proof {
            reveal_strlit("Untitled");
        }
        return chars_of(UNTITLED);
    }
    let mut i: usize = 0;
    while i < content.len() && content[i] != '\n'
        invariant
            i <= content.len(),
            forall|j: int| 0 <= j < i ==> content@[j] != '\n',
        decreases content.len() - i,
    {
        i = i + 1;
    }
    proof {
        lemma_until_newline(content@, i as int);
    }
    let mut end = i;
    if i < content.len() && i > 0 && content[i - 1] == '\r' {
        end = i - 1;
    }
    let mut r: Vec<char> = Vec::new();
    let mut k: usize = 0;
    while k < end
        invariant
            k <= end <= i <= content.len(),
            r@ == content@.take(k as int),
        decreases end - k,
    {
        r.push(content[k]);
        k = k + 1;
    }
    assert(r@ =~= title_line(content@));
    r
}

// ---------------------------------------------------------------------
// Characters a note's file name may hold.
// ---------------------------------------------------------------------

/// The result of std's `char::is_alphanumeric` (Unicode `Alphabetic` or `Numeric`).
pub uninterp spec fn alphanumeric(c: char) -> bool;

/// An ASCII letter or digit.
pub open spec fn ascii_alphanumeric(c: char) -> bool {
    let v = c as u32;
    (48 <= v && v <= 57) || (65 <= v && v <= 90) || (97 <= v && v <= 122)
}

/// A letter or digit: among ASCII characters exactly `0-9`, `A-Z` and `a-z`;
/// beyond ASCII, what std's `char::is_alphanumeric` says.
pub open spec fn letter_or_digit(c: char) -> bool {
    if (c as u32) < 0x80 {
        ascii_alphanumeric(c)
    } else {
        alphanumeric(c)
    }
}

/// std's `char::is_alphanumeric`. The contract claims that the answer is the
/// named `alphanumeric(c)`, and that on ASCII it holds exactly for `0-9`,
/// `A-Z` and `a-z` (the ASCII characters with the Unicode `Alphabetic` or
/// `Numeric` property).
#[verifier::external_body]
fn is_alphanumeric(c: char) -> (r: bool)
    ensures
        r == alphanumeric(c),
        (c as u32) < 0x80 ==> (r <==> ascii_alphanumeric(c)),
{
    c.is_alphanumeric()
}

/// A character kept in a note's file name: a letter or digit, a space, `-` or `_`.
pub open spec fn allowed_in_name(c: char) -> bool {
    letter_or_digit(c) || c == ' ' || c == '-' || c == '_'
}

/// `c` as a file name holds it, `alnum` telling whether `c` is a letter or digit.
pub open spec fn name_char_with(c: char, alnum: bool) -> char {
    if alnum || c == ' ' || c == '-' || c == '_' {
        c
    } else {
        '_'
    }
}

/// `c`, or `_` in its place when a file name may not hold it.
pub open spec fn name_char(c: char) -> char {
    name_char_with(c, letter_or_digit(c))
}

/// `c` as a file name holds it, given whether `c` is a letter or digit:
/// letters, digits, spaces, `-` and `_` stay, anything else becomes `_`.
pub fn name_char_for(c: char, alnum: bool) -> (r: char)
    ensures
        r == name_char_with(c, alnum),
{
    if alnum || c == ' ' || c == '-' || c == '_' {
        c
    } else {
        '_'
    }
}

/// `s` with every character that a file name may not hold replaced by `_`.
pub open spec fn sanitize(s: Seq<char>) -> Seq<char> {
    s.map_values(|c: char| name_char(c))
}

/// Replaces each character of `line` that a file name may not hold by `_`.
pub fn sanitize_chars(line: &Vec<char>) -> (r: Vec<char>)
    ensures
        r@ == sanitize(line@),
{
    let mut r: Vec<char> = Vec::new();
    let mut i: usize = 0;
    while i < line.len()
        invariant
            i <= line.len(),
            r@ == sanitize(line@.take(i as int)),
        decreases line.len() - i,
    {
        let c = line[i];
        let alnum = is_alphanumeric(c);
        r.push(name_char_for(c, alnum));
        assert(sanitize(line@.take(i + 1)) =~= sanitize(line@.take(i as int)).push(
            name_char(line@[i as int]),
        ));
        i = i + 1;
    }
    assert(line@.take(line.len() as int) =~= line@);
    r
}

/// Every character of a sanitized text may stand in a file name.
pub proof fn lemma_sanitize_allowed(s: Seq<char>)
    ensures
        sanitize(s).len() == s.len(),
        forall|i: int| 0 <= i < s.len() ==> allowed_in_name(#[trigger] sanitize(s)[i]),
{
}

/// Sanitizing twice gives what sanitizing once gives.
pub proof fn lemma_sanitize_idempotent(s: Seq<char>)
    ensures
        sanitize(sanitize(s)) == sanitize(s),
{
    assert(allowed_in_name('_'));
    assert(sanitize(sanitize(s)) =~= sanitize(s));
}

/// A text of allowed characters is left as it is.
pub proof fn lemma_sanitize_clean(s: Seq<char>)
    requires
        forall|i: int| 0 <= i < s.len() ==> allowed_in_name(#[trigger] s[i]),
    ensures
        sanitize(s) == s,
{
    assert(sanitize(s) =~= s);
}

// ---------------------------------------------------------------------
// Lengths in UTF-8 bytes.
// ---------------------------------------------------------------------

/// Bytes of `c` in UTF-8 (what `char::len_utf8` returns).
pub open spec fn char_width(c: char) -> nat {
    if (c as u32) < 0x80 {
        1
    } else if (c as u32) < 0x800 {
        2
    } else if (c as u32) < 0x10000 {
        3
    } else {
        4
    }
}

/// Bytes of `s` in UTF-8 (what `str::len` returns).
pub open spec fn utf8_len(s: Seq<char>) -> nat
    decreases s.len(),
{
    if s.len() == 0 {
        0
    } else {
        char_width(s[0]) + utf8_len(s.drop_first())
    }
}

/// The longest prefix of `s` that takes at most `n` bytes.
pub open spec fn byte_prefix(s: Seq<char>, n: nat) -> Seq<char>
    decreases s.len(),
{
    if s.len() == 0 || char_width(s[0]) > n {
        Seq::empty()
    } else {
        seq![s[0]] + byte_prefix(s.drop_first(), (n - char_width(s[0])) as nat)
    }
}

fn width_of(c: char) -> (w: usize)
    ensures
        w == char_width(c),
{
    let v = c as u32;
    if v < 0x80 {
        1
    } else if v < 0x800 {
        2
    } else if v < 0x10000 {
        3
    } else {
        4
    }
}

pub proof fn lemma_utf8_append(a: Seq<char>, b: Seq<char>)
    ensures
        utf8_len(a + b) == utf8_len(a) + utf8_len(b),
    decreases a.len(),
{
    if a.len() == 0 {
        assert(a + b =~= b);
    } else {
        lemma_utf8_append(a.drop_first(), b);
        assert((a + b).drop_first() =~= a.drop_first() + b);
    }
}

proof fn lemma_utf8_take_step(s: Seq<char>, i: int)
    requires
        0 <= i < s.len(),
    ensures
        utf8_len(s.take(i + 1)) == utf8_len(s.take(i)) + char_width(s[i]),
{
    assert(s.take(i + 1) =~= s.take(i) + seq![s[i]]);
    lemma_utf8_append(s.take(i), seq![s[i]]);
    let one = seq![s[i]];
    assert(one.drop_first() =~= Seq::<char>::empty());
    assert(utf8_len(one.drop_first()) == 0);
    assert(utf8_len(one) == char_width(s[i]));
}

/// An ASCII text takes one byte per character.
pub proof fn lemma_utf8_ascii(s: Seq<char>)
    requires
        forall|i: int| 0 <= i < s.len() ==> (#[trigger] s[i] as u32) < 0x80,
    ensures
        utf8_len(s) == s.len(),
    decreases s.len(),
{
    if s.len() > 0 {
        assert forall|i: int| 0 <= i < s.drop_first().len() implies (
        #[trigger] s.drop_first()[i] as u32) < 0x80 by {
            assert(s.drop_first()[i] == s[i + 1]);
        }
        lemma_utf8_ascii(s.drop_first());
    }
}

/// The bytes of a part of a text are at most those of the whole.
pub proof fn lemma_utf8_subrange(s: Seq<char>, a: int, b: int)
    requires
        0 <= a <= b <= s.len(),
    ensures
        utf8_len(s.subrange(a, b)) <= utf8_len(s),
{
    assert(s =~= s.take(a) + s.subrange(a, b) + s.skip(b));
    lemma_utf8_append(s.take(a) + s.subrange(a, b), s.skip(b));
    lemma_utf8_append(s.take(a), s.subrange(a, b));
}

/// `byte_prefix` is a prefix, of at most `n` bytes, and it holds the first
/// character when that one fits.
pub proof fn lemma_byte_prefix(s: Seq<char>, n: nat)
    ensures
        byte_prefix(s, n).len() <= s.len(),
        byte_prefix(s, n) == s.take(byte_prefix(s, n).len() as int),
        utf8_len(byte_prefix(s, n)) <= n,
        s.len() > 0 && char_width(s[0]) <= n ==> byte_prefix(s, n).len() > 0,
    decreases s.len(),
{
    if s.len() == 0 || char_width(s[0]) > n {
        assert(s.take(0) =~= Seq::<char>::empty());
    } else {
        let rest = byte_prefix(s.drop_first(), (n - char_width(s[0])) as nat);
        lemma_byte_prefix(s.drop_first(), (n - char_width(s[0])) as nat);
        assert(s.take(byte_prefix(s, n).len() as int) =~= seq![s[0]] + s.drop_first().take(
            rest.len() as int,
        ));
        assert((seq![s[0]] + rest).drop_first() =~= rest);
    }
}

/// Whether `s` takes more than `n` bytes.
fn exceeds_bytes(s: &Vec<char>, n: usize) -> (r: bool)
    requires
        n < 1_000_000,
    ensures
        r == (utf8_len(s@) > n),
{
    let mut used: usize = 0;
    let mut i: usize = 0;
    while i < s.len()
        invariant
            i <= s.len(),
            n < 1_000_000,
            used == utf8_len(s@.take(i as int)),
            used <= n,
        decreases s.len() - i,
    {
        proof {
            lemma_utf8_take_step(s@, i as int);
        }
        used = used + width_of(s[i]);
        i = i + 1;
        if used > n {
            proof {
                assert(s@ =~= s@.take(i as int) + s@.skip(i as int));
                lemma_utf8_append(s@.take(i as int), s@.skip(i as int));
            }
            return true;
        }
    }
    assert(s@.take(i as int) =~= s@);
    false
}

/// The longest prefix of `s` of at most `n` bytes, with its length in bytes.
fn byte_prefix_chars(s: &Vec<char>, n: usize) -> (r: (Vec<char>, usize))
    ensures
        r.0@ == byte_prefix(s@, n as nat),
        r.1 == utf8_len(r.0@),
{
    let mut out: Vec<char> = Vec::new();
    let mut used: usize = 0;
    let mut i: usize = 0;
    assert(s@.skip(0) =~= s@);
    assert(Seq::<char>::empty() + byte_prefix(s@, n as nat) =~= byte_prefix(s@, n as nat));
    while i < s.len() && width_of(s[i]) <= n - used
        invariant
            i <= s.len(),
            used <= n,
            out@ == s@.take(i as int),
            used == utf8_len(out@),
            byte_prefix(s@, n as nat) == out@ + byte_prefix(s@.skip(i as int), (n - used) as nat),
        decreases s.len() - i,
    {
        proof {
            lemma_utf8_take_step(s@, i as int);
            assert(s@.skip(i as int).drop_first() =~= s@.skip(i + 1));
            assert(out@ + byte_prefix(s@.skip(i as int), (n - used) as nat) =~= out@.push(s@[i as int])
                + byte_prefix(s@.skip(i + 1), (n - used - char_width(s@[i as int])) as nat));
        }
        used = used + width_of(s[i]);
        out.push(s[i]);
        i = i + 1;
        assert(out@ =~= s@.take(i as int));
    }
    assert(byte_prefix(s@.skip(i as int), (n - used) as nat) =~= Seq::<char>::empty());
    assert(out@ + Seq::<char>::empty() =~= out@);
    (out, used)
}

// ---------------------------------------------------------------------
// The title of a new note.
// ---------------------------------------------------------------------

/// Most bytes of a new note's title.
pub const TITLE_MAX_BYTES: usize = 80;

/// The first line of the content, sanitized and trimmed.
pub open spec fn clean_line(content: Seq<char>) -> Seq<char> {
    trim(sanitize(title_line(content)))
}

/// Whether the title can be cut: a clean line longer than the limit is cut at
/// byte 80, which must fall between two characters (slicing a `str` elsewhere
/// panics).
pub open spec fn title_cut_ok(content: Seq<char>) -> bool {
    let t = clean_line(content);
    utf8_len(t) <= TITLE_MAX_BYTES || utf8_len(byte_prefix(t, TITLE_MAX_BYTES as nat))
        == TITLE_MAX_BYTES
}

/// The title of a new note with `content`: the clean first line, cut to its
/// first 80 bytes and trimmed again when it is longer. Empty when the first
/// line holds nothing usable.
pub open spec fn note_title(content: Seq<char>) -> Seq<char> {
    let t = clean_line(content);
    if utf8_len(t) > TITLE_MAX_BYTES {
        trim(byte_prefix(t, TITLE_MAX_BYTES as nat))
    } else {
        t
    }
}

/// The title for `content`, or `None` when it would have to be cut inside a
/// character.
pub fn checked_note_title(content: &str) -> (r: Option<String>)
    ensures
        r is Some <==> title_cut_ok(content@),
        r matches Some(t) ==> t@ == note_title(content@),
{
    let chars = chars_of(content);
    let line = title_line_of(&chars);
    let safe = sanitize_chars(&line);
    let t = trim_chars(&safe);
    if exceeds_bytes(&t, TITLE_MAX_BYTES) {
        let (cut, bytes) = byte_prefix_chars(&t, TITLE_MAX_BYTES);
        if bytes != TITLE_MAX_BYTES {
            return None;
        }
        let cut = trim_chars(&cut);
        Some(string_of(&cut))
    } else {
        Some(string_of(&t))
    }
}

/// A title holds only characters allowed in a file name, takes at most 80
/// bytes, and neither starts nor ends with whitespace; it is empty only when
/// the clean first line is.
pub proof fn lemma_note_title_shape(content: Seq<char>)
    requires
        title_cut_ok(content),
    ensures
        forall|i: int|
            0 <= i < note_title(content).len() ==> allowed_in_name(#[trigger] note_title(content)[i]),
        utf8_len(note_title(content)) <= TITLE_MAX_BYTES,
        note_title(content).len() > 0 ==> !whitespace(note_title(content)[0]) && !whitespace(
            note_title(content).last(),
        ),
        note_title(content).len() == 0 <==> clean_line(content).len() == 0,
{
    let line = title_line(content);
    let safe = sanitize(line);
    lemma_sanitize_allowed(line);
    let t = clean_line(content);
    let (a, b) = lemma_trim_shape(safe);
    assert forall|i: int| 0 <= i < t.len() implies allowed_in_name(#[trigger] t[i]) by {
        assert(t[i] == safe[a + i]);
    }
    if utf8_len(t) > TITLE_MAX_BYTES {
        let p = byte_prefix(t, TITLE_MAX_BYTES as nat);
        lemma_byte_prefix(t, TITLE_MAX_BYTES as nat);
        let (c, d) = lemma_trim_shape(p);
        assert forall|i: int|
            0 <= i < note_title(content).len() implies allowed_in_name(
            #[trigger] note_title(content)[i],
        ) by {
            assert(note_title(content)[i] == p[c + i]);
            assert(p[c + i] == t[c + i]);
        }
        lemma_utf8_subrange(p, c, d);
        assert(t.len() > 0);
        assert(!whitespace(t[0]));
        assert(p[0] == t[0]);
        assert(char_width(t[0]) <= 4);
    } else {
        lemma_utf8_subrange(safe, a, b);
        if t.len() > 0 {
            assert(!whitespace(t[0]));
        }
    }
}

/// Characters that would let a file name leave its folder, name another
/// folder level or a hidden or special file, or that file systems refuse.
pub open spec fn path_char(c: char) -> bool {
    c == '/' || c == '\\' || c == '.' || c == ':' || c == '<' || c == '>' || c == '?' || c == '*'
        || c == '|' || c == '"'
}

/// No character allowed in a name is one of those.
pub proof fn lemma_allowed_not_path_char(c: char)
    requires
        allowed_in_name(c),
    ensures
        !path_char(c),
{
}

/// A note's title holds no slash, backslash, dot, colon, `<`, `>`, `?`, `*`, `|` or `"`.
pub proof fn lemma_note_title_no_path_char(content: Seq<char>)
    requires
        title_cut_ok(content),
    ensures
        forall|i: int| 0 <= i < note_title(content).len() ==> !path_char(#[trigger] note_title(content)[i]),
{
    lemma_note_title_shape(content);
    assert forall|i: int| 0 <= i < note_title(content).len() implies !path_char(
        #[trigger] note_title(content)[i],
    ) by {
        lemma_allowed_not_path_char(note_title(content)[i]);
    }
}

/// A first line of allowed characters that does not start or end with
/// whitespace and fits in 80 bytes is the title as it is.
pub proof fn lemma_clean_line_kept(content: Seq<char>)
    requires
        first_line(content) matches Some(l) && l.len() > 0 && utf8_len(l) <= TITLE_MAX_BYTES && (
        forall|i: int| 0 <= i < l.len() ==> allowed_in_name(#[trigger] l[i])) && !whitespace(l[0])
            && !whitespace(l.last()),
    ensures
        title_cut_ok(content),
        first_line(content) matches Some(l) && note_title(content) == l,
{
    let l = title_line(content);
    lemma_sanitize_clean(l);
    let (a, b) = lemma_trim_shape(l);
    assert(l.subrange(0, l.len() as int) =~= l);
}

} // verus!
