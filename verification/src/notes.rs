use vstd::prelude::*;

use crate::clock::{
    lemma_fixed_formats_simple,
    lemma_time_text_avoids,
    local_time_text,
    rendering_of,
    simple_format,
    strftime_renders,
    ENTRY_STAMP_FORMAT,
};
use crate::config::{ObsidianConfig, DEFAULT_APPEND_TEMPLATE};
use crate::paths::{path1, path2, path_of, FsPath};
use crate::text::{
    chars_of,
    concat,
    lemma_replace_absent,
    lemma_replace_front,
    lemma_replace_prefix,
    replace_all,
    replace_chars,
    string_of,
};

verus! {

/// Error when no vault path is set.
pub const VAULT_NOT_CONFIGURED: &'static str = "Vault path not configured";

/// Start of the error when the vault path is not a directory.
pub const VAULT_NOT_FOUND: &'static str = "Vault not found: ";

/// Placeholder for the time in the append template.
pub const TIMESTAMP_PLACEHOLDER: &'static str = "{timestamp}";

/// Placeholder for the sent text in the append template.
pub const CONTENT_PLACEHOLDER: &'static str = "{content}";

/// Extension of a note's file.
pub const NOTE_EXTENSION: &'static str = ".md";

/// The text of a `Result` of strings.
pub open spec fn text_result(r: Result<String, String>) -> Result<Seq<char>, Seq<char>> {
    match r {
        Ok(s) => Ok(s@),
        Err(e) => Err(e@),
    }
}

/// The content of a `Result` holding a location.
pub open spec fn path_result(r: Result<FsPath, String>) -> Result<
    (Seq<char>, Seq<Seq<char>>),
    Seq<char>,
> {
    match r {
        Ok(p) => Ok(p@),
        Err(e) => Err(e@),
    }
}

/// Which vault the notes go to: the configured path when it is set and names
/// a directory, else the error that says what is wrong.
pub open spec fn vault_check(vault_path: Seq<char>, vault_is_dir: bool) -> Result<
    Seq<char>,
    Seq<char>,
> {
    if vault_path.len() == 0 {
        Err(VAULT_NOT_CONFIGURED@)
    } else if !vault_is_dir {
        Err(VAULT_NOT_FOUND@ + vault_path)
    } else {
        Ok(vault_path)
    }
}

/// The vault of `config`; `vault_is_dir` tells whether its path names a directory.
pub fn resolve_vault_path(config: &ObsidianConfig, vault_is_dir: bool) -> (r: Result<String, String>)
    ensures
        text_result(r) == vault_check(config.vault_path@, vault_is_dir),
{
    if config.vault_path.as_str().is_empty() {
        return Err(String::from_str(VAULT_NOT_CONFIGURED));
    }
    if !vault_is_dir {
        return Err(concat(VAULT_NOT_FOUND, config.vault_path.as_str()));
    }
    Ok(config.vault_path.clone())
}

/// Where the inbox note is: the inbox note's name below the vault.
pub open spec fn inbox_location(config: ObsidianConfig, vault_is_dir: bool) -> Result<
    (Seq<char>, Seq<Seq<char>>),
    Seq<char>,
> {
    match vault_check(config.vault_path@, vault_is_dir) {
        Ok(v) => Ok(path_of(v, seq![config.inbox_note@])),
        Err(e) => Err(e),
    }
}

/// The location of the inbox note, or why there is none.
pub fn inbox_note_path(config: &ObsidianConfig, vault_is_dir: bool) -> (r: Result<FsPath, String>)
    ensures
        path_result(r) == inbox_location(*config, vault_is_dir),
{
    let vault = resolve_vault_path(config, vault_is_dir)?;
    Ok(path1(vault.as_str(), config.inbox_note.as_str()))
}

/// Where the daily note is, `today` being the date rendered with the
/// daily-note format: `<vault>/<daily notes folder>/<today>.md`.
pub open spec fn daily_location(config: ObsidianConfig, vault_is_dir: bool, today: Seq<char>) -> Result<
    (Seq<char>, Seq<Seq<char>>),
    Seq<char>,
> {
    match vault_check(config.vault_path@, vault_is_dir) {
        Ok(v) => Ok(path_of(v, seq![config.daily_notes_folder@, today + NOTE_EXTENSION@])),
        Err(e) => Err(e),
    }
}

/// The location of the daily note for the date text `today`.
pub fn daily_note_at(config: &ObsidianConfig, vault_is_dir: bool, today: &str) -> (r: Result<
    FsPath,
    String,
>)
    ensures
        path_result(r) == daily_location(*config, vault_is_dir, today@),
{
    let vault = resolve_vault_path(config, vault_is_dir)?;
    let file = concat(today, NOTE_EXTENSION);
    Ok(path2(vault.as_str(), config.daily_notes_folder.as_str(), file.as_str()))
}

/// The location of today's daily note, or why there is none. `None` exactly
/// when the vault is usable but chrono cannot render the date with the
/// daily-note format.
pub fn daily_note_path(config: &ObsidianConfig, vault_is_dir: bool) -> (r: Option<
    Result<FsPath, String>,
>)
    ensures
        vault_check(config.vault_path@, vault_is_dir) is Err ==> (r matches Some(res) && path_result(
            res,
        ) == daily_location(*config, vault_is_dir, Seq::empty())),
        vault_check(config.vault_path@, vault_is_dir) is Ok ==> (r is Some <==> strftime_renders(
            config.daily_notes_format@,
        )),
        simple_format(config.daily_notes_format@) ==> r is Some,
        vault_check(config.vault_path@, vault_is_dir) is Ok && strftime_renders(
            config.daily_notes_format@,
        ) ==> (r matches Some(Ok(_))),
        r matches Some(Ok(p)) ==> exists|today: Seq<char>|
            rendering_of(today, config.daily_notes_format@) && #[trigger] daily_location(
                *config,
                vault_is_dir,
                today,
            ) == Ok::<(Seq<char>, Seq<Seq<char>>), Seq<char>>(p@),
{
    if resolve_vault_path(config, vault_is_dir).is_err() {
        let r = daily_note_at(config, vault_is_dir, "");
        return Some(r);
    }
    match local_time_text(config.daily_notes_format.as_str()) {
        Some(today) => {
            let r = daily_note_at(config, vault_is_dir, today.as_str());
            Some(r)
        },
        None => None,
    }
}

/// The entry appended to a note: the template with every `{timestamp}`
/// replaced by `stamp`, then every `{content}` replaced by `content`.
pub open spec fn entry_text(template: Seq<char>, stamp: Seq<char>, content: Seq<char>) -> Seq<char> {
    replace_all(
        replace_all(template, TIMESTAMP_PLACEHOLDER@, stamp),
        CONTENT_PLACEHOLDER@,
        content,
    )
}

/// Renders the append template with the given time text and content.
pub fn render_entry(template: &str, stamp: &str, content: &str) -> (r: String)
    ensures
        r@ == entry_text(template@, stamp@, content@),
{
    proof {
        reveal_strlit("{timestamp}");
        reveal_strlit("{content}");
    }
    let t = chars_of(template);
    let ts_pat = chars_of(TIMESTAMP_PLACEHOLDER);
    let ct_pat = chars_of(CONTENT_PLACEHOLDER);
    let stamp_chars = chars_of(stamp);
    let content_chars = chars_of(content);
    let once = replace_chars(&t, &ts_pat, &stamp_chars);
    let twice = replace_chars(&once, &ct_pat, &content_chars);
    string_of(&twice)
}

/// The entry for `content`, stamped with the current local time rendered
/// with `%Y-%m-%d %H:%M`.
pub fn format_entry(config: &ObsidianConfig, content: &str) -> (r: String)
    ensures
        exists|stamp: Seq<char>|
            rendering_of(stamp, ENTRY_STAMP_FORMAT@) && r@ == #[trigger] entry_text(
                config.append_template@,
                stamp,
                content@,
            ),
{
    proof {
        lemma_fixed_formats_simple();
    }
    match local_time_text(ENTRY_STAMP_FORMAT) {
        Some(stamp) => render_entry(config.append_template.as_str(), stamp.as_str(), content),
        None => vstd::pervasive::unreached(),
    }
}

/// A template without `{` is the entry as it is, whatever the time and content.
pub proof fn lemma_plain_template_entry(template: Seq<char>, stamp: Seq<char>, content: Seq<char>)
    requires
        forall|i: int| 0 <= i < template.len() ==> template[i] != '{',
    ensures
        entry_text(template, stamp, content) == template,
{
    reveal_strlit("{timestamp}");
    reveal_strlit("{content}");
    assert(TIMESTAMP_PLACEHOLDER@[0] == '{');
    assert(CONTENT_PLACEHOLDER@[0] == '{');
    lemma_replace_absent(template, TIMESTAMP_PLACEHOLDER@, stamp);
    lemma_replace_absent(template, CONTENT_PLACEHOLDER@, content);
}

/// With the default template, an entry is a rule, the time in italics and
/// the content: `\n---\n*<stamp>*\n<content>\n`. (The time text of
/// `%Y-%m-%d %H:%M` holds no `{`.)
pub proof fn lemma_default_template_entry(stamp: Seq<char>, content: Seq<char>)
    requires
        forall|i: int| 0 <= i < stamp.len() ==> stamp[i] != '{',
    ensures
        entry_text(DEFAULT_APPEND_TEMPLATE@, stamp, content) == "\n---\n*"@ + stamp + "*\n"@
            + content + "\n"@,
{
    reveal_strlit("\n---\n*{timestamp}*\n{content}\n");
    reveal_strlit("{timestamp}");
    reveal_strlit("{content}");
    reveal_strlit("\n---\n*");
    reveal_strlit("*\n");
    reveal_strlit("\n");
    let a = "\n---\n*"@;
    let b = "*\n"@;
    let c = "\n"@;
    let p1 = TIMESTAMP_PLACEHOLDER@;
    let p2 = CONTENT_PLACEHOLDER@;
    assert(p1.len() == 11 && p1[0] == '{');
    assert(p2.len() == 9 && p2[0] == '{');
    assert(a.len() == 6 && b.len() == 2 && c.len() == 1);
    let t = DEFAULT_APPEND_TEMPLATE@;
    assert(t =~= a + (p1 + (b + (p2 + c))));
    // The timestamp placeholder.
    lemma_replace_prefix(a, p1 + (b + (p2 + c)), p1, stamp);
    lemma_replace_front(b + (p2 + c), p1, stamp);
    lemma_replace_prefix(b, p2 + c, p1, stamp);
    assert((p2 + c).len() < p1.len());
    assert(replace_all(p2 + c, p1, stamp) == p2 + c);
    let x = replace_all(t, p1, stamp);
    assert(x =~= (a + stamp) + (b + (p2 + c)));
    // The content placeholder.
    assert forall|i: int| 0 <= i < (a + stamp).len() implies (a + stamp)[i] != p2[0] by {
        if i >= a.len() {
            assert((a + stamp)[i] == stamp[i - a.len()]);
        }
    }
    lemma_replace_prefix(a + stamp, b + (p2 + c), p2, content);
    lemma_replace_prefix(b, p2 + c, p2, content);
    lemma_replace_front(c, p2, content);
    lemma_replace_absent(c, p2, content);
    assert(replace_all(x, p2, content) =~= a + stamp + b + content + c);
}

/// An entry stamped by `format_entry` with the default template is a rule,
/// the time in italics and the content.
pub proof fn lemma_default_entry_of_stamp(stamp: Seq<char>, content: Seq<char>)
    requires
        rendering_of(stamp, ENTRY_STAMP_FORMAT@),
    ensures
        entry_text(DEFAULT_APPEND_TEMPLATE@, stamp, content) == "\n---\n*"@ + stamp + "*\n"@
            + content + "\n"@,
{
    lemma_fixed_formats_simple();
    reveal_strlit("%Y-%m-%d %H:%M");
    assert(!ENTRY_STAMP_FORMAT@.contains('{')) by {
        assert forall|i: int| 0 <= i < ENTRY_STAMP_FORMAT@.len() implies ENTRY_STAMP_FORMAT@[i]
            != '{' by {}
    }
    lemma_time_text_avoids(stamp, ENTRY_STAMP_FORMAT@, '{');
    lemma_default_template_entry(stamp, content);
}

} // verus!
