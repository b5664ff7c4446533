use vstd::prelude::*;

verus! {

/// A local date and time as chrono formats it: the calendar date, the time of
/// day with its nanoseconds, and the offset from UTC in seconds.
pub struct LocalInstant {
    pub year: i32,
    pub month: u32,
    pub day: u32,
    pub hour: u32,
    pub minute: u32,
    pub second: u32,
    pub nanosecond: u32,
    pub utc_offset_seconds: i32,
}

/// Whether chrono renders a local date-time with `fmt` without error: its
/// parser finds no invalid item in `fmt` and every item can be printed (`%#z`,
/// for one, parses but cannot). With a date, a time and an offset all present
/// this depends on `fmt` alone.
pub uninterp spec fn strftime_renders(fmt: Seq<char>) -> bool;

/// The text chrono renders for the local date-time `at` with `fmt`, when it
/// renders it.
pub uninterp spec fn strftime_render(fmt: Seq<char>, at: LocalInstant) -> Seq<char>;

/// Format of the timestamp that `{timestamp}` stands for in the append template.
pub const ENTRY_STAMP_FORMAT: &'static str = "%Y-%m-%d %H:%M";

/// Format of the title given to a new note whose first line has no usable character.
pub const UNTITLED_NOTE_FORMAT: &'static str = "Note %Y-%m-%d %H%M%S";

/// Format of the suffix added to a new note's name when the name is taken.
pub const TAKEN_NAME_FORMAT: &'static str = "%H%M%S";

/// A specifier of the plain numeric kind: year, month, day, hour, minute, second.
pub open spec fn simple_spec(c: char) -> bool {
    c == 'Y' || c == 'm' || c == 'd' || c == 'H' || c == 'M' || c == 'S'
}

/// A format made of plain characters and the specifiers `%Y %m %d %H %M %S`
/// only (no padding modifier). chrono parses each plain run into a literal or
/// a space item and each of these specifiers into a zero-padded number.
pub open spec fn simple_format(fmt: Seq<char>) -> bool
    decreases fmt.len(),
{
    if fmt.len() == 0 {
        true
    } else if fmt[0] == '%' {
        fmt.len() >= 2 && simple_spec(fmt[1]) && simple_format(fmt.skip(2))
    } else {
        simple_format(fmt.drop_first())
    }
}

/// An ASCII digit.
pub open spec fn ascii_digit(c: char) -> bool {
    48 <= (c as u32) && (c as u32) <= 57
}

/// How chrono renders a year with `%Y`: four digits for years 0 to 9999,
/// otherwise a sign and at least four digits (chrono's years lie within
/// -262143..=262143, so at most six).
pub open spec fn year_text(y: Seq<char>) -> bool {
    ||| y.len() == 4 && forall|i: int| 0 <= i < 4 ==> ascii_digit(#[trigger] y[i])
    ||| 5 <= y.len() <= 7 && (y[0] == '+' || y[0] == '-') && forall|i: int|
        1 <= i < y.len() ==> ascii_digit(#[trigger] y[i])
}

/// `t` renders the simple format `fmt`: its plain characters as they are,
/// `%Y` as a year, and `%m %d %H %M %S` as two digits each.
pub open spec fn simple_rendering(t: Seq<char>, fmt: Seq<char>) -> bool
    decreases fmt.len(),
{
    if fmt.len() == 0 {
        t.len() == 0
    } else if fmt[0] == '%' {
        if fmt.len() < 2 {
            false
        } else if fmt[1] == 'Y' {
            exists|k: int|
                4 <= k <= t.len() && year_text(#[trigger] t.take(k)) && simple_rendering(
                    t.skip(k),
                    fmt.skip(2),
                )
        } else {
            t.len() >= 2 && ascii_digit(t[0]) && ascii_digit(t[1]) && simple_rendering(
                t.skip(2),
                fmt.skip(2),
            )
        }
    } else {
        t.len() > 0 && t[0] == fmt[0] && simple_rendering(t.drop_first(), fmt.drop_first())
    }
}

/// A character that a rendering of a simple format `fmt` may hold: never `%`;
/// a digit, a year's sign, or a character of `fmt`.
pub open spec fn time_char(c: char, fmt: Seq<char>) -> bool {
    c != '%' && (ascii_digit(c) || c == '+' || c == '-' || fmt.contains(c))
}

/// What holds of every rendering `t` of `fmt`, whatever the time: a format
/// without `%` renders as itself; a simple format renders as
/// `simple_rendering` says.
pub open spec fn time_text(t: Seq<char>, fmt: Seq<char>) -> bool {
    &&& !fmt.contains('%') ==> t == fmt
    &&& simple_format(fmt) ==> simple_rendering(t, fmt)
}

/// `t` is what chrono renders with `fmt` at some local date-time.
pub open spec fn rendering_of(t: Seq<char>, fmt: Seq<char>) -> bool {
    &&& time_text(t, fmt)
    &&& exists|at: LocalInstant| t == #[trigger] strftime_render(fmt, at)
}

/// Calls `chrono::Local::now().format(fmt)` and renders it with
/// `DelayedFormat::write_to` into a new `String`, `None` when that fails. The
/// contract claims: it fails exactly when `strftime_renders(fmt)` is false; the
/// text is the named `strftime_render(fmt, at)` for the instant `at` that the
/// clock gave; a format without `%` renders as itself and a simple one always
/// renders, to digits, signs and the format's own characters (literal, space
/// and zero-padded numeric items of a local date-time never fail), with `%Y`
/// as a year and the other numeric specifiers as two digits. Left
/// unsaid: chrono's `Local` panics when the machine's time-zone data gives no
/// offset for the current instant, which depends on the machine rather than on
/// `fmt`.
#[verifier::external_body]
fn local_now_formatted(fmt: &str) -> (r: Option<String>)
    ensures
        r is Some <==> strftime_renders(fmt@),
        r matches Some(t) ==> exists|at: LocalInstant| t@ == #[trigger] strftime_render(fmt@, at),
        r matches Some(t) ==> time_text(t@, fmt@),
        simple_format(fmt@) ==> r is Some,
{
    let mut text = String::new();
    match chrono::Local::now().format(fmt).write_to(&mut text) {
        Ok(()) => Some(text),
        Err(_) => None,
    }
}

/// The current local time rendered with the strftime format `fmt`; `None`
/// when chrono cannot render that format.
pub fn local_time_text(fmt: &str) -> (r: Option<String>)
    ensures
        r is Some <==> strftime_renders(fmt@),
        r matches Some(t) ==> rendering_of(t@, fmt@),
        simple_format(fmt@) ==> r is Some,
{
    local_now_formatted(fmt)
}

/// The plugin's own formats, and the default daily-note format, are simple.
pub proof fn lemma_fixed_formats_simple()
    ensures
        simple_format(ENTRY_STAMP_FORMAT@),
        simple_format(UNTITLED_NOTE_FORMAT@),
        simple_format(TAKEN_NAME_FORMAT@),
        simple_format("%Y-%m-%d"@),
{
    reveal_strlit("%Y-%m-%d %H:%M");
    reveal_strlit("Note %Y-%m-%d %H%M%S");
    reveal_strlit("%H%M%S");
    reveal_strlit("%Y-%m-%d");
    reveal_with_fuel(simple_format, 25);
    let a = ENTRY_STAMP_FORMAT@;
    assert(simple_format(a.skip(14)));
    assert(simple_format(a.skip(11)));
    assert(simple_format(a.skip(9)));
    assert(simple_format(a.skip(6)));
    assert(simple_format(a.skip(3)));
    let b = UNTITLED_NOTE_FORMAT@;
    assert(simple_format(b.skip(18)));
    assert(simple_format(b.skip(16)));
    assert(simple_format(b.skip(14)));
    assert(simple_format(b.skip(11)));
    assert(simple_format(b.skip(8)));
    assert(simple_format(b.skip(5)));
    let c = TAKEN_NAME_FORMAT@;
    assert(simple_format(c.skip(4)));
    assert(simple_format(c.skip(2)));
    let d = "%Y-%m-%d"@;
    assert(simple_format(d.skip(6)));
    assert(simple_format(d.skip(3)));
}

/// A rendering of a simple format is at least as long as the format and at
/// most four times as long, and each of its characters is a `time_char`.
pub proof fn lemma_simple_rendering_facts(t: Seq<char>, fmt: Seq<char>)
    requires
        simple_format(fmt),
        simple_rendering(t, fmt),
    ensures
        fmt.len() <= t.len() <= 4 * fmt.len(),
        forall|i: int| 0 <= i < t.len() ==> time_char(#[trigger] t[i], fmt),
    decreases fmt.len(),
{
    if fmt.len() == 0 {
    } else if fmt[0] == '%' {
        let rest = fmt.skip(2);
        let k: int = if fmt[1] == 'Y' {
            choose|k: int|
                4 <= k <= t.len() && year_text(#[trigger] t.take(k)) && simple_rendering(
                    t.skip(k),
                    rest,
                )
        } else {
            2
        };
        lemma_simple_rendering_facts(t.skip(k), rest);
        assert forall|i: int| 0 <= i < t.len() implies time_char(#[trigger] t[i], fmt) by {
            if i < k {
                if fmt[1] == 'Y' {
                    assert(t[i] == t.take(k)[i]);
                }
            } else {
                assert(t[i] == t.skip(k)[i - k]);
                assert(time_char(t.skip(k)[i - k], rest));
                if rest.contains(t[i]) {
                    let j = choose|j: int| 0 <= j < rest.len() && rest[j] == t[i];
                    assert(fmt[j + 2] == rest[j]);
                }
            }
        }
    } else {
        let rest = fmt.drop_first();
        lemma_simple_rendering_facts(t.drop_first(), rest);
        assert forall|i: int| 0 <= i < t.len() implies time_char(#[trigger] t[i], fmt) by {
            if i == 0 {
                assert(fmt.contains(fmt[0]));
            } else {
                assert(t[i] == t.drop_first()[i - 1]);
                assert(time_char(t.drop_first()[i - 1], rest));
                if rest.contains(t[i]) {
                    let j = choose|j: int| 0 <= j < rest.len() && rest[j] == t[i];
                    assert(fmt[j + 1] == rest[j]);
                }
            }
        }
    }
}

/// A simple format that ends in a specifier renders to a text ending in a digit.
pub proof fn lemma_simple_rendering_ends_in_digit(t: Seq<char>, fmt: Seq<char>)
    requires
        simple_format(fmt),
        simple_rendering(t, fmt),
        fmt.len() >= 2,
        fmt[fmt.len() - 2] == '%',
    ensures
        t.len() > 0,
        ascii_digit(t.last()),
    decreases fmt.len(),
{
    lemma_simple_rendering_facts(t, fmt);
    if fmt[0] == '%' {
        let rest = fmt.skip(2);
        let k: int = if fmt[1] == 'Y' {
            choose|k: int|
                4 <= k <= t.len() && year_text(#[trigger] t.take(k)) && simple_rendering(
                    t.skip(k),
                    rest,
                )
        } else {
            2
        };
        if fmt.len() == 2 {
            lemma_simple_rendering_facts(t.skip(k), rest);
            assert(t.skip(k).len() == 0);
            if fmt[1] == 'Y' {
                assert(t.take(k) =~= t);
                assert(t.last() == t.take(k)[k - 1]);
            }
        } else if fmt.len() == 3 {
            assert(fmt[1] == '%');
        } else {
            assert(rest[rest.len() - 2] == fmt[fmt.len() - 2]);
            lemma_simple_rendering_ends_in_digit(t.skip(k), rest);
            assert(t.last() == t.skip(k).last());
        }
    } else {
        let rest = fmt.drop_first();
        assert(rest[rest.len() - 2] == fmt[fmt.len() - 2]);
        lemma_simple_rendering_ends_in_digit(t.drop_first(), rest);
        assert(t.last() == t.drop_first().last());
    }
}

/// A rendering of a simple format holds no character that is absent from the
/// format and is not a digit or a sign.
pub proof fn lemma_time_text_avoids(t: Seq<char>, fmt: Seq<char>, c: char)
    requires
        time_text(t, fmt),
        simple_format(fmt),
        !fmt.contains(c),
        !ascii_digit(c),
        c != '+',
        c != '-',
    ensures
        forall|i: int| 0 <= i < t.len() ==> t[i] != c,
{
    lemma_simple_rendering_facts(t, fmt);
    assert forall|i: int| 0 <= i < t.len() implies t[i] != c by {
        assert(time_char(t[i], fmt));
    }
}

} // verus!
