use vstd::prelude::*;

use crate::config::{is_default_for, updated, ConfigUpdate, ObsidianConfig};
use crate::json::{first_present, get, update_from_document, JsonValue};
use crate::notes::{daily_location, entry_text, inbox_location, vault_check};
use crate::protocol::{send_plan, PlanView};
use crate::text::{
    lemma_replace_absent,
    lemma_replace_front,
    lemma_replace_prefix,
    replace_all,
    whitespace,
};
use crate::titles::{
    allowed_in_name,
    clean_line,
    lemma_clean_line_kept,
    lemma_first_line_before_newline,
    note_title,
    title_cut_ok,
    utf8_len,
};

verus! {

/// Which vault is used: an empty vault path is refused with
/// `Vault path not configured`, a path that names no directory with
/// `Vault not found: <path>`, and any other path is the vault as it is.
pub proof fn lemma_vault_usable_iff_set_directory(vault_path: Seq<char>, vault_is_dir: bool)
    ensures
        vault_path.len() == 0 ==> vault_check(vault_path, vault_is_dir) == Err::<Seq<char>, Seq<
            char,
        >>("Vault path not configured"@),
        vault_path.len() > 0 && !vault_is_dir ==> vault_check(vault_path, vault_is_dir) == Err::<
            Seq<char>,
            Seq<char>,
        >("Vault not found: "@ + vault_path),
        vault_path.len() > 0 && vault_is_dir ==> vault_check(vault_path, vault_is_dir) == Ok::<
            Seq<char>,
            Seq<char>,
        >(vault_path),
{
}

/// A value given for a setting becomes that setting's value; a setting given
/// no value keeps the one it had.
pub proof fn lemma_update_sets_given_values(c: ObsidianConfig, u: ConfigUpdate)
    ensures
        u.vault_path matches Some(v) ==> updated(c, u).vault_path == v,
        u.vault_path is None ==> updated(c, u).vault_path == c.vault_path,
        u.daily_notes_folder matches Some(v) ==> updated(c, u).daily_notes_folder == v,
        u.daily_notes_folder is None ==> updated(c, u).daily_notes_folder == c.daily_notes_folder,
        u.daily_notes_format matches Some(v) ==> updated(c, u).daily_notes_format == v,
        u.daily_notes_format is None ==> updated(c, u).daily_notes_format == c.daily_notes_format,
        u.inbox_note matches Some(v) ==> updated(c, u).inbox_note == v,
        u.inbox_note is None ==> updated(c, u).inbox_note == c.inbox_note,
        u.append_template matches Some(v) ==> updated(c, u).append_template == v,
        u.append_template is None ==> updated(c, u).append_template == c.append_template,
{
}

/// With a usable vault, the daily note for the date text `today` is
/// `<vault>/<daily notes folder>/<today>.md`, and a send to `daily-note`
/// appends the entry for the content there.
pub proof fn lemma_daily_note_in_configured_folder(
    config: ObsidianConfig,
    vault_is_dir: bool,
    content: Seq<char>,
    stamp: Seq<char>,
    today: Seq<char>,
    untitled: Seq<char>,
)
    requires
        config.vault_path@.len() > 0,
        vault_is_dir,
    ensures
        daily_location(config, vault_is_dir, today) == Ok::<
            (Seq<char>, Seq<Seq<char>>),
            Seq<char>,
        >((config.vault_path@, seq![config.daily_notes_folder@, today + ".md"@])),
        send_plan(config, vault_is_dir, "daily-note"@, content, stamp, today, untitled) == (
        PlanView::Append {
            note: (config.vault_path@, seq![config.daily_notes_folder@, today + ".md"@]),
            entry: entry_text(config.append_template@, stamp, content),
        }),
{
}

/// With a usable vault, the inbox note is `<vault>/<inbox note>`, and a send
/// to `inbox` appends the entry for the content there.
pub proof fn lemma_inbox_is_configured_note(
    config: ObsidianConfig,
    vault_is_dir: bool,
    content: Seq<char>,
    stamp: Seq<char>,
    today: Seq<char>,
    untitled: Seq<char>,
)
    requires
        config.vault_path@.len() > 0,
        vault_is_dir,
    ensures
        inbox_location(config, vault_is_dir) == Ok::<(Seq<char>, Seq<Seq<char>>), Seq<char>>(
            (config.vault_path@, seq![config.inbox_note@]),
        ),
        send_plan(config, vault_is_dir, "inbox"@, content, stamp, today, untitled) == (
        PlanView::Append {
            note: (config.vault_path@, seq![config.inbox_note@]),
            entry: entry_text(config.append_template@, stamp, content),
        }),
{
    reveal_strlit("inbox");
    reveal_strlit("daily-note");
    assert("inbox"@.len() != "daily-note"@.len());
}

/// A new note is written with the content exactly as it was sent, in the
/// vault, at `<vault>/<title>.md`; with a usable vault a send to `new-note`
/// always plans such a note.
pub proof fn lemma_new_note_keeps_content(
    config: ObsidianConfig,
    vault_is_dir: bool,
    target: Seq<char>,
    content: Seq<char>,
    stamp: Seq<char>,
    today: Seq<char>,
    untitled: Seq<char>,
)
    ensures
        send_plan(config, vault_is_dir, target, content, stamp, today, untitled) matches PlanView::CreateNote {
            content: c,
            ..
        } ==> c == content,
        send_plan(config, vault_is_dir, target, content, stamp, today, untitled) matches PlanView::CreateNote {
            vault,
            title,
            first_choice,
            ..
        } ==> vault == config.vault_path@ && first_choice == (
            config.vault_path@,
            seq![title + ".md"@],
        ),
        target == "new-note"@ && config.vault_path@.len() > 0 && vault_is_dir ==> send_plan(
            config,
            vault_is_dir,
            target,
            content,
            stamp,
            today,
            untitled,
        ) is CreateNote,
{
    reveal_strlit("new-note");
    reveal_strlit("daily-note");
    reveal_strlit("inbox");
    assert("new-note"@.len() != "daily-note"@.len());
    assert("new-note"@.len() != "inbox"@.len());
}

/// A first line that is already a good file name (letters, digits, spaces,
/// `-` and `_`, no whitespace at either end, at most 80 bytes) is the new
/// note's title as it is: the note is `<vault>/<line>.md` and holds the whole
/// content, that line included.
pub proof fn lemma_new_note_titled_by_first_line(
    config: ObsidianConfig,
    vault_is_dir: bool,
    line: Seq<char>,
    rest: Seq<char>,
    content: Seq<char>,
    stamp: Seq<char>,
    today: Seq<char>,
    untitled: Seq<char>,
)
    requires
        config.vault_path@.len() > 0,
        vault_is_dir,
        line.len() > 0,
        utf8_len(line) <= 80,
        forall|i: int| 0 <= i < line.len() ==> allowed_in_name(#[trigger] line[i]),
        !whitespace(line[0]),
        !whitespace(line.last()),
        content == line || content == line + "\n"@ + rest || content == line + "\r\n"@ + rest,
    ensures
        title_cut_ok(content),
        send_plan(config, vault_is_dir, "new-note"@, content, stamp, today, untitled) == (
        PlanView::CreateNote {
            vault: config.vault_path@,
            title: line,
            first_choice: (config.vault_path@, seq![line + ".md"@]),
            content,
        }),
{
    reveal_strlit("new-note");
    reveal_strlit("daily-note");
    reveal_strlit("inbox");
    assert("new-note"@.len() != "daily-note"@.len());
    assert("new-note"@.len() != "inbox"@.len());
    assert forall|i: int| 0 <= i < line.len() implies line[i] != '\n' by {
        assert(allowed_in_name(line[i]));
    }
    assert(line.last() != '\r') by {
        assert(allowed_in_name(line[line.len() - 1]));
    }
    lemma_first_line_before_newline(line, rest);
    lemma_clean_line_kept(content);
    assert(note_title(content) == line);
    assert(clean_line(content).len() > 0);
}

/// In an entry, the `{content}` placeholder is replaced by the content sent:
/// a template `<a>{content}<b>` gives `<a><content><b>` (for `a`, `b` without
/// other placeholders).
pub proof fn lemma_entry_inserts_content(
    a: Seq<char>,
    b: Seq<char>,
    stamp: Seq<char>,
    content: Seq<char>,
)
    requires
        forall|i: int| 0 <= i < a.len() ==> a[i] != '{',
        forall|i: int| 0 <= i < b.len() ==> b[i] != '{',
    ensures
        entry_text(a + "{content}"@ + b, stamp, content) == a + content + b,
{
    reveal_strlit("{content}");
    reveal_strlit("{timestamp}");
    let ts = "{timestamp}"@;
    let ct = "{content}"@;
    assert(ts.len() == 11 && ts[0] == '{' && ts[1] == 't');
    assert(ct.len() == 9 && ct[0] == '{' && ct[1] == 'c');
    let tail = ct + b;
    assert(a + ct + b =~= a + tail);
    lemma_replace_prefix(a, tail, ts, stamp);
    // `{content}` does not start `{timestamp}`.
    assert(tail.drop_first() =~= ct.drop_first() + b);
    assert forall|i: int| 0 <= i < tail.drop_first().len() implies tail.drop_first()[i] != ts[0] by {
        if i < 8 {
            assert(tail.drop_first()[i] == ct[i + 1]);
        } else {
            assert(tail.drop_first()[i] == b[i - 8]);
        }
    }
    lemma_replace_absent(tail.drop_first(), ts, stamp);
    if tail.len() >= ts.len() {
        assert(tail.take(11)[1] != ts[1]);
        assert(tail =~= seq![tail[0]] + tail.drop_first());
    }
    assert(replace_all(tail, ts, stamp) == tail);
    lemma_replace_prefix(a, tail, ct, content);
    lemma_replace_front(b, ct, content);
    lemma_replace_absent(b, ct, content);
    assert(a + (content + b) =~= a + content + b);
}

/// In an entry, the `{timestamp}` placeholder is replaced by the time text:
/// a template `<a>{timestamp}<b>` gives `<a><stamp><b>` (for `a`, `b` and a
/// time text without `{`).
pub proof fn lemma_entry_inserts_stamp(
    a: Seq<char>,
    b: Seq<char>,
    stamp: Seq<char>,
    content: Seq<char>,
)
    requires
        forall|i: int| 0 <= i < a.len() ==> a[i] != '{',
        forall|i: int| 0 <= i < b.len() ==> b[i] != '{',
        forall|i: int| 0 <= i < stamp.len() ==> stamp[i] != '{',
    ensures
        entry_text(a + "{timestamp}"@ + b, stamp, content) == a + stamp + b,
{
    reveal_strlit("{content}");
    reveal_strlit("{timestamp}");
    let ts = "{timestamp}"@;
    let ct = "{content}"@;
    assert(ts.len() == 11 && ts[0] == '{');
    assert(ct.len() == 9 && ct[0] == '{');
    assert(a + ts + b =~= a + (ts + b));
    lemma_replace_prefix(a, ts + b, ts, stamp);
    lemma_replace_front(b, ts, stamp);
    lemma_replace_absent(b, ts, stamp);
    let x = a + stamp + b;
    assert(a + (stamp + b) =~= x);
    assert forall|i: int| 0 <= i < x.len() implies x[i] != ct[0] by {
        if i < a.len() {
            assert(x[i] == a[i]);
        } else if i < a.len() + stamp.len() {
            assert(x[i] == stamp[i - a.len()]);
        } else {
            assert(x[i] == b[i - a.len() - stamp.len()]);
        }
    }
    lemma_replace_absent(x, ct, content);
}

/// The settings used when none were saved: the given vault, daily notes in
/// `Daily Notes` named `%Y-%m-%d`, the inbox `Inbox.md`, and entries made of
/// a rule, the time in italics and the content.
pub proof fn lemma_default_settings(c: ObsidianConfig, vault_path: Seq<char>)
    requires
        is_default_for(c, vault_path),
    ensures
        c.vault_path@ == vault_path,
        c.daily_notes_folder@ == "Daily Notes"@,
        c.daily_notes_format@ == "%Y-%m-%d"@,
        c.inbox_note@ == "Inbox.md"@,
        c.append_template@ == "\n---\n*{timestamp}*\n{content}\n"@,
{
}

/// A `set_config` request sets each setting whose key its `values` hold as a
/// string, to that string, and leaves alone each setting whose key is absent
/// or holds anything else.
pub proof fn lemma_update_reads_string_values(values: JsonValue)
    ensures
        get(values, "vault_path"@) matches Some(JsonValue::Text(s)) ==> update_from_document(
            values,
        ).vault_path == Some(s),
        !(get(values, "vault_path"@) matches Some(JsonValue::Text(_))) ==> update_from_document(
            values,
        ).vault_path is None,
        get(values, "daily_notes_folder"@) matches Some(JsonValue::Text(s)) ==> update_from_document(
            values,
        ).daily_notes_folder == Some(s),
        !(get(values, "daily_notes_folder"@) matches Some(JsonValue::Text(_)))
            ==> update_from_document(values).daily_notes_folder is None,
        get(values, "daily_notes_format"@) matches Some(JsonValue::Text(s)) ==> update_from_document(
            values,
        ).daily_notes_format == Some(s),
        !(get(values, "daily_notes_format"@) matches Some(JsonValue::Text(_)))
            ==> update_from_document(values).daily_notes_format is None,
        get(values, "inbox_note"@) matches Some(JsonValue::Text(s)) ==> update_from_document(
            values,
        ).inbox_note == Some(s),
        !(get(values, "inbox_note"@) matches Some(JsonValue::Text(_))) ==> update_from_document(
            values,
        ).inbox_note is None,
        get(values, "append_template"@) matches Some(JsonValue::Text(s)) ==> update_from_document(
            values,
        ).append_template == Some(s),
        !(get(values, "append_template"@) matches Some(JsonValue::Text(_))) ==> update_from_document(
            values,
        ).append_template is None,
{
}

/// The vault offered by default is the first listed path: when some vault
/// has a path, the first such one; none when no vault has one.
pub proof fn lemma_first_listed_vault(paths: Seq<Option<String>>)
    ensures
        first_present(paths) is None <==> forall|i: int| 0 <= i < paths.len() ==> paths[i] is None,
        first_present(paths) is Some ==> exists|i: int|
            0 <= i < paths.len() && paths[i] == first_present(paths) && forall|j: int|
                0 <= j < i ==> paths[j] is None,
    decreases paths.len(),
{
    if paths.len() > 0 && paths[0] is None {
        let rest = paths.drop_first();
        lemma_first_listed_vault(rest);
        if first_present(rest) is Some {
            let i = choose|i: int|
                0 <= i < rest.len() && rest[i] == first_present(rest) && forall|j: int|
                    0 <= j < i ==> rest[j] is None;
            assert(paths[i + 1] == rest[i]);
            assert forall|j: int| 0 <= j < i + 1 implies paths[j] is None by {
                if j > 0 {
                    assert(paths[j] == rest[j - 1]);
                }
            }
        } else {
            assert forall|i: int| 0 <= i < paths.len() implies paths[i] is None by {
                if i > 0 {
                    assert(paths[i] == rest[i - 1]);
                }
            }
        }
    }
}

} // verus!
