use vstd::prelude::*;

use crate::clock::{
    ascii_digit,
    lemma_fixed_formats_simple,
    lemma_simple_rendering_ends_in_digit,
    lemma_simple_rendering_facts,
    simple_rendering,
    time_char,
    local_time_text,
    rendering_of,
    strftime_renders,
    ENTRY_STAMP_FORMAT,
    TAKEN_NAME_FORMAT,
    UNTITLED_NOTE_FORMAT,
};
use crate::config::ObsidianConfig;
use crate::notes::{
    daily_location,
    daily_note_at,
    entry_text,
    inbox_location,
    inbox_note_path,
    render_entry,
    resolve_vault_path,
    vault_check,
    NOTE_EXTENSION,
};
use crate::paths::{path1, path_of, FsPath};
use crate::text::{concat, same_text, whitespace};
use crate::titles::{
    checked_note_title,
    clean_line,
    allowed_in_name,
    lemma_note_title_no_path_char,
    lemma_note_title_shape,
    lemma_utf8_ascii,
    note_title,
    path_char,
    title_cut_ok,
    utf8_len,
    TITLE_MAX_BYTES,
};

verus! {

// ---------------------------------------------------------------------
// get_info
// ---------------------------------------------------------------------

/// The plugin's name as clipygo shows it.
pub const PLUGIN_NAME: &'static str = "Obsidian";

/// The plugin's description.
pub const PLUGIN_DESCRIPTION: &'static str = "Send clipboard content to your Obsidian vault";

/// The plugin's author.
pub const PLUGIN_AUTHOR: &'static str = "clipygo";

/// The plugin's home page.
pub const PLUGIN_LINK: &'static str = "https://github.com/it-atelier-gn/clipygo-plugin-obsidian";

/// What the plugin says of itself.
pub struct InfoResponse {
    pub name: String,
    pub version: String,
    pub description: String,
    pub author: String,
    pub link: Option<String>,
}

/// The answer to `get_info`; `version` is the plugin's version.
pub fn info_response(version: &str) -> (r: InfoResponse)
    ensures
        r.name@ == PLUGIN_NAME@,
        r.version@ == version@,
        r.description@ == PLUGIN_DESCRIPTION@,
        r.author@ == PLUGIN_AUTHOR@,
        r.link matches Some(l) && l@ == PLUGIN_LINK@,
{
    InfoResponse {
        name: String::from_str(PLUGIN_NAME),
        version: String::from_str(version),
        description: String::from_str(PLUGIN_DESCRIPTION),
        author: String::from_str(PLUGIN_AUTHOR),
        link: Some(String::from_str(PLUGIN_LINK)),
    }
}

// ---------------------------------------------------------------------
// get_targets
// ---------------------------------------------------------------------

/// Icon of every target: a one-pixel PNG, in base64.
pub const ICON: &'static str = "iVBORw0KGgoAAAANSUhEUgAAAAEAAAABCAYAAAAfFcSJAAAADUlEQVR42mNk+M/wHwAEBgIApD5fRAAAAABJRU5ErkJggg==";

/// Target that appends to today's daily note.
pub const DAILY_NOTE_TARGET: &'static str = "daily-note";

/// Target that appends to the inbox note.
pub const INBOX_TARGET: &'static str = "inbox";

/// Target that creates a new note.
pub const NEW_NOTE_TARGET: &'static str = "new-note";

/// Start of the description of the inbox target, before the inbox note's name.
pub const INBOX_DESCRIPTION_PREFIX: &'static str = "Append to ";

/// A place that clipboard content can be sent to.
pub struct Target {
    pub id: String,
    pub provider: String,
    pub formats: Vec<String>,
    pub title: String,
    pub description: String,
    pub image: String,
}

/// `t` is the target `id` of this plugin, with the given title and description.
pub open spec fn is_target(t: Target, id: Seq<char>, title: Seq<char>, description: Seq<char>) -> bool {
    &&& t.id@ == id
    &&& t.provider@ == PLUGIN_NAME@
    &&& t.formats@.len() == 1
    &&& t.formats@[0]@ == "text"@
    &&& t.title@ == title
    &&& t.description@ == description
    &&& t.image@ == ICON@
}

fn make_target(id: &str, title: &str, description: String) -> (t: Target)
    ensures
        is_target(t, id@, title@, description@),
{
    let mut formats: Vec<String> = Vec::new();
    formats.push(String::from_str("text"));
    Target {
        id: String::from_str(id),
        provider: String::from_str(PLUGIN_NAME),
        formats,
        title: String::from_str(title),
        description,
        image: String::from_str(ICON),
    }
}

/// The targets offered: none while the vault is unusable, else the daily
/// note, the inbox and a new note, in that order.
pub fn targets_response(config: &ObsidianConfig, vault_is_dir: bool) -> (r: Vec<Target>)
    ensures
        vault_check(config.vault_path@, vault_is_dir) is Err ==> r.len() == 0,
        vault_check(config.vault_path@, vault_is_dir) is Ok ==> {
            &&& r.len() == 3
            &&& is_target(
                r@[0],
                DAILY_NOTE_TARGET@,
                "Daily Note"@,
                "Append to today's daily note"@,
            )
            &&& is_target(
                r@[1],
                INBOX_TARGET@,
                "Inbox"@,
                INBOX_DESCRIPTION_PREFIX@ + config.inbox_note@,
            )
            &&& is_target(
                r@[2],
                NEW_NOTE_TARGET@,
                "New Note"@,
                "Create a new note from clipboard"@,
            )
        },
{
    let mut targets: Vec<Target> = Vec::new();
    if resolve_vault_path(config, vault_is_dir).is_ok() {
        targets.push(
            make_target(
                DAILY_NOTE_TARGET,
                "Daily Note",
                String::from_str("Append to today's daily note"),
            ),
        );
        targets.push(
            make_target(
                INBOX_TARGET,
                "Inbox",
                concat(INBOX_DESCRIPTION_PREFIX, config.inbox_note.as_str()),
            ),
        );
        targets.push(
            make_target(
                NEW_NOTE_TARGET,
                "New Note",
                String::from_str("Create a new note from clipboard"),
            ),
        );
    }
    targets
}

// ---------------------------------------------------------------------
// get_config_schema
// ---------------------------------------------------------------------

/// One setting of the settings form.
pub struct SchemaProperty {
    pub key: String,
    pub value_type: String,
    pub title: String,
    pub description: String,
}

/// The settings form and the current settings.
pub struct ConfigSchemaResponse {
    pub instructions: String,
    pub schema_type: String,
    pub title: String,
    pub properties: Vec<SchemaProperty>,
    pub values: ObsidianConfig,
}

/// Text shown above the settings form.
pub const SCHEMA_INSTRUCTIONS: &'static str = "Configure your Obsidian vault path and note settings.\nThe vault path is auto-detected from Obsidian's config if possible.";

/// `p` is the string setting `key` with the given title and description.
pub open spec fn is_property(p: SchemaProperty, key: Seq<char>, title: Seq<char>, description: Seq<char>) -> bool {
    &&& p.key@ == key
    &&& p.value_type@ == "string"@
    &&& p.title@ == title
    &&& p.description@ == description
}

fn make_property(key: &str, title: &str, description: &str) -> (p: SchemaProperty)
    ensures
        is_property(p, key@, title@, description@),
{
    SchemaProperty {
        key: String::from_str(key),
        value_type: String::from_str("string"),
        title: String::from_str(title),
        description: String::from_str(description),
    }
}

/// The answer to `get_config_schema`: the five string settings, in order, and
/// the values in use.
pub fn config_schema_response(config: ObsidianConfig) -> (r: ConfigSchemaResponse)
    ensures
        r.values == config,
        r.instructions@ == SCHEMA_INSTRUCTIONS@,
        r.schema_type@ == "object"@,
        r.title@ == "Obsidian Plugin"@,
        r.properties.len() == 5,
        is_property(
            r.properties@[0],
            "vault_path"@,
            "Vault Path"@,
            "Path to your Obsidian vault directory"@,
        ),
        is_property(
            r.properties@[1],
            "daily_notes_folder"@,
            "Daily Notes Folder"@,
            "Subfolder for daily notes (relative to vault root)"@,
        ),
        is_property(
            r.properties@[2],
            "daily_notes_format"@,
            "Daily Notes Format"@,
            "Date format for daily note filenames (strftime)"@,
        ),
        is_property(
            r.properties@[3],
            "inbox_note"@,
            "Inbox Note"@,
            "Filename for the inbox note (relative to vault root)"@,
        ),
        is_property(
            r.properties@[4],
            "append_template"@,
            "Append Template"@,
            "Template for appended entries. Use {timestamp} and {content}"@,
        ),
{
    let mut properties: Vec<SchemaProperty> = Vec::new();
    properties.push(
        make_property("vault_path", "Vault Path", "Path to your Obsidian vault directory"),
    );
    properties.push(
        make_property(
            "daily_notes_folder",
            "Daily Notes Folder",
            "Subfolder for daily notes (relative to vault root)",
        ),
    );
    properties.push(
        make_property(
            "daily_notes_format",
            "Daily Notes Format",
            "Date format for daily note filenames (strftime)",
        ),
    );
    properties.push(
        make_property(
            "inbox_note",
            "Inbox Note",
            "Filename for the inbox note (relative to vault root)",
        ),
    );
    properties.push(
        make_property(
            "append_template",
            "Append Template",
            "Template for appended entries. Use {timestamp} and {content}",
        ),
    );
    ConfigSchemaResponse {
        instructions: String::from_str(SCHEMA_INSTRUCTIONS),
        schema_type: String::from_str("object"),
        title: String::from_str("Obsidian Plugin"),
        properties,
        values: config,
    }
}

// ---------------------------------------------------------------------
// send
// ---------------------------------------------------------------------

/// Start of the error for a target this plugin does not offer.
pub const UNKNOWN_TARGET: &'static str = "Unknown target: ";

/// What sending content to a target comes to, before the file system is touched.
pub enum SendPlan {
    /// Append `entry` to the note at `note`, creating it and its folders if needed.
    Append { note: FsPath, entry: String },
    /// Write `content` to a new note titled `title` in `vault`: at `first_choice`
    /// unless a file is there already (then see `taken_note_path`).
    CreateNote { vault: String, title: String, first_choice: FsPath, content: String },
    /// Nothing to write; the send fails with `error`.
    Fail { error: String },
}

/// The content of a `SendPlan`.
pub enum PlanView {
    Append { note: (Seq<char>, Seq<Seq<char>>), entry: Seq<char> },
    CreateNote {
        vault: Seq<char>,
        title: Seq<char>,
        first_choice: (Seq<char>, Seq<Seq<char>>),
        content: Seq<char>,
    },
    Fail { error: Seq<char> },
}

impl View for SendPlan {
    type V = PlanView;

    open spec fn view(&self) -> PlanView {
        match self {
            SendPlan::Append { note, entry } => PlanView::Append { note: note@, entry: entry@ },
            SendPlan::CreateNote { vault, title, first_choice, content } => PlanView::CreateNote {
                vault: vault@,
                title: title@,
                first_choice: first_choice@,
                content: content@,
            },
            SendPlan::Fail { error } => PlanView::Fail { error: error@ },
        }
    }
}

/// The title of a new note: the note title of its content, or `untitled` (the
/// time-stamped fallback) when the content's first line has nothing usable.
pub open spec fn chosen_title(content: Seq<char>, untitled: Seq<char>) -> Seq<char> {
    if clean_line(content).len() == 0 {
        untitled
    } else {
        note_title(content)
    }
}

/// The plan for sending `content` to `target`, given the entry's time text
/// `stamp`, the date text `today` of the daily note and the fallback title
/// `untitled`.
pub open spec fn send_plan(
    config: ObsidianConfig,
    vault_is_dir: bool,
    target: Seq<char>,
    content: Seq<char>,
    stamp: Seq<char>,
    today: Seq<char>,
    untitled: Seq<char>,
) -> PlanView {
    if target == DAILY_NOTE_TARGET@ {
        match daily_location(config, vault_is_dir, today) {
            Ok(p) => PlanView::Append {
                note: p,
                entry: entry_text(config.append_template@, stamp, content),
            },
            Err(e) => PlanView::Fail { error: e },
        }
    } else if target == INBOX_TARGET@ {
        match inbox_location(config, vault_is_dir) {
            Ok(p) => PlanView::Append {
                note: p,
                entry: entry_text(config.append_template@, stamp, content),
            },
            Err(e) => PlanView::Fail { error: e },
        }
    } else if target == NEW_NOTE_TARGET@ {
        match vault_check(config.vault_path@, vault_is_dir) {
            Ok(v) => {
                let t = chosen_title(content, untitled);
                PlanView::CreateNote {
                    vault: v,
                    title: t,
                    first_choice: path_of(v, seq![t + NOTE_EXTENSION@]),
                    content,
                }
            },
            Err(e) => PlanView::Fail { error: e },
        }
    } else {
        PlanView::Fail { error: UNKNOWN_TARGET@ + target }
    }
}

/// Inputs on which sending cannot proceed without a panic: a new note whose
/// title would be cut inside a character.
pub open spec fn send_cut_fails(
    config: ObsidianConfig,
    vault_is_dir: bool,
    target: Seq<char>,
    content: Seq<char>,
) -> bool {
    target == NEW_NOTE_TARGET@ && vault_check(config.vault_path@, vault_is_dir) is Ok
        && !title_cut_ok(content)
}

/// The plan for sending `content` to `target_id`, with the time texts given.
pub fn plan_send_at(
    config: &ObsidianConfig,
    vault_is_dir: bool,
    target_id: &str,
    content: &str,
    stamp: &str,
    today: &str,
    untitled: &str,
) -> (r: SendPlan)
    requires
        !send_cut_fails(*config, vault_is_dir, target_id@, content@),
    ensures
        r@ == send_plan(*config, vault_is_dir, target_id@, content@, stamp@, today@, untitled@),
{
    if same_text(target_id, DAILY_NOTE_TARGET) {
        match daily_note_at(config, vault_is_dir, today) {
            Ok(note) => SendPlan::Append {
                note,
                entry: render_entry(config.append_template.as_str(), stamp, content),
            },
            Err(error) => SendPlan::Fail { error },
        }
    } else if same_text(target_id, INBOX_TARGET) {
        match inbox_note_path(config, vault_is_dir) {
            Ok(note) => SendPlan::Append {
                note,
                entry: render_entry(config.append_template.as_str(), stamp, content),
            },
            Err(error) => SendPlan::Fail { error },
        }
    } else if same_text(target_id, NEW_NOTE_TARGET) {
        match resolve_vault_path(config, vault_is_dir) {
            Ok(vault) => {
                let title = match checked_note_title(content) {
                    Some(t) => {
                        if t.as_str().is_empty() {
                            String::from_str(untitled)
                        } else {
                            t
                        }
                    },
                    None => vstd::pervasive::unreached(),
                };
                proof {
                    crate::titles::lemma_note_title_shape(content@);
                }
                let file = concat(title.as_str(), NOTE_EXTENSION);
                let first_choice = path1(vault.as_str(), file.as_str());
                SendPlan::CreateNote { vault, title, first_choice, content: String::from_str(content) }
            },
            Err(error) => SendPlan::Fail { error },
        }
    } else {
        SendPlan::Fail { error: concat(UNKNOWN_TARGET, target_id) }
    }
}

/// Every location that a send writes to has the configured vault as its base
/// (the parts below it come from the settings and the content's title).
pub proof fn lemma_plans_stay_in_vault(
    config: ObsidianConfig,
    vault_is_dir: bool,
    target: Seq<char>,
    content: Seq<char>,
    stamp: Seq<char>,
    today: Seq<char>,
    untitled: Seq<char>,
)
    ensures
        send_plan(config, vault_is_dir, target, content, stamp, today, untitled) matches PlanView::Append {
            note,
            ..
        } ==> note.0 == config.vault_path@,
        send_plan(config, vault_is_dir, target, content, stamp, today, untitled) matches PlanView::CreateNote {
            vault,
            first_choice,
            ..
        } ==> vault == config.vault_path@ && first_choice.0 == config.vault_path@,
{
}

/// A character of the fallback title's format, other than `%`, is an ASCII
/// letter, a space or `-`.
proof fn lemma_untitled_format_chars(j: int)
    requires
        0 <= j < UNTITLED_NOTE_FORMAT@.len(),
        UNTITLED_NOTE_FORMAT@[j] != '%',
    ensures
        allowed_in_name(UNTITLED_NOTE_FORMAT@[j]),
        !path_char(UNTITLED_NOTE_FORMAT@[j]),
        (UNTITLED_NOTE_FORMAT@[j] as u32) < 0x80,
{
    reveal_strlit("Note %Y-%m-%d %H%M%S");
    let f = UNTITLED_NOTE_FORMAT@;
    assert(f.len() == 20);
    assert(j == 0 || j == 1 || j == 2 || j == 3 || j == 4 || j == 5 || j == 6 || j == 7 || j == 8
        || j == 9 || j == 10 || j == 11 || j == 12 || j == 13 || j == 14 || j == 15 || j == 16
        || j == 17 || j == 18 || j == 19);
}

/// The title of a new note, and so its file name before `.md`, is never
/// empty, takes at most 80 bytes, neither starts nor ends with whitespace, and
/// holds only letters, digits, spaces, `-`, `_` (and `+`, the sign of a year
/// after 9999 in the time-stamped fallback title); in particular no slash,
/// backslash, dot, colon, `<`, `>`, `?`, `*`, `|` or `"`: the note lands
/// directly in the vault, under a name of its own.
pub proof fn lemma_new_note_name_safe(
    config: ObsidianConfig,
    vault_is_dir: bool,
    target: Seq<char>,
    content: Seq<char>,
    stamp: Seq<char>,
    today: Seq<char>,
    untitled: Seq<char>,
)
    requires
        !send_cut_fails(config, vault_is_dir, target, content),
        stamps_fit(config, vault_is_dir, target, content, stamp, today, untitled),
    ensures
        send_plan(config, vault_is_dir, target, content, stamp, today, untitled) matches PlanView::CreateNote {
            title,
            first_choice,
            ..
        } ==> {
            &&& title.len() > 0
            &&& utf8_len(title) <= TITLE_MAX_BYTES
            &&& !whitespace(title[0])
            &&& !whitespace(title.last())
            &&& forall|i: int|
                0 <= i < title.len() ==> (allowed_in_name(#[trigger] title[i]) || title[i] == '+')
                    && !path_char(title[i])
            &&& first_choice.1.len() == 1
            &&& first_choice.1[0] == title + NOTE_EXTENSION@
        },
{
    if target == NEW_NOTE_TARGET@ && vault_check(config.vault_path@, vault_is_dir) is Ok {
        lemma_targets_distinct();
        if clean_line(content).len() == 0 {
            lemma_fixed_formats_simple();
            reveal_strlit("Note %Y-%m-%d %H%M%S");
            let f = UNTITLED_NOTE_FORMAT@;
            assert(f.len() == 20);
            assert(rendering_of(untitled, f));
            assert(simple_rendering(untitled, f));
            lemma_simple_rendering_facts(untitled, f);
            assert forall|i: int| 0 <= i < untitled.len() implies (allowed_in_name(
                #[trigger] untitled[i],
            ) || untitled[i] == '+') && !path_char(untitled[i]) && (untitled[i] as u32) < 0x80 by {
                assert(time_char(untitled[i], f));
                if f.contains(untitled[i]) && !ascii_digit(untitled[i]) && untitled[i] != '+'
                    && untitled[i] != '-' {
                    let k = choose|k: int| 0 <= k < f.len() && f[k] == untitled[i];
                    lemma_untitled_format_chars(k);
                }
            }
            lemma_utf8_ascii(untitled);
            assert(f[0] == 'N');
            assert(untitled[0] == 'N');
            assert(f[f.len() - 2] == '%');
            lemma_simple_rendering_ends_in_digit(untitled, f);
        } else {
            lemma_note_title_no_path_char(content);
            lemma_note_title_shape(content);
        }
    }
}

/// A send to a target the plugin does not offer is refused with
/// `Unknown target: <target>`, whatever the settings and the content.
pub proof fn lemma_unknown_target_refused(
    config: ObsidianConfig,
    vault_is_dir: bool,
    target: Seq<char>,
    content: Seq<char>,
    stamp: Seq<char>,
    today: Seq<char>,
    untitled: Seq<char>,
)
    requires
        target != DAILY_NOTE_TARGET@,
        target != INBOX_TARGET@,
        target != NEW_NOTE_TARGET@,
    ensures
        send_plan(config, vault_is_dir, target, content, stamp, today, untitled) == (PlanView::Fail {
            error: UNKNOWN_TARGET@ + target,
        }),
{
}

/// A send to any target of the plugin is refused, with the vault error and
/// before anything is written, when the vault is unusable.
pub proof fn lemma_unusable_vault_refused(
    config: ObsidianConfig,
    vault_is_dir: bool,
    target: Seq<char>,
    content: Seq<char>,
    stamp: Seq<char>,
    today: Seq<char>,
    untitled: Seq<char>,
)
    requires
        vault_check(config.vault_path@, vault_is_dir) is Err,
    ensures
        send_plan(config, vault_is_dir, target, content, stamp, today, untitled) is Fail,
        target == DAILY_NOTE_TARGET@ || target == INBOX_TARGET@ || target == NEW_NOTE_TARGET@
            ==> send_plan(config, vault_is_dir, target, content, stamp, today, untitled) == (
        PlanView::Fail { error: vault_check(config.vault_path@, vault_is_dir)->Err_0 }),
{
}

/// Inputs on which no plan can be made: a new note whose title would be cut
/// inside a character (slicing a `str` there panics), or a daily note whose
/// date chrono cannot render with the daily-note format.
pub open spec fn send_fails(
    config: ObsidianConfig,
    vault_is_dir: bool,
    target: Seq<char>,
    content: Seq<char>,
) -> bool {
    ||| send_cut_fails(config, vault_is_dir, target, content)
    ||| target == DAILY_NOTE_TARGET@ && vault_check(config.vault_path@, vault_is_dir) is Ok
        && !strftime_renders(config.daily_notes_format@)
}

/// The time texts of a plan are renderings of the formats they come from:
/// the entry's time for the daily note and the inbox, the date of the daily
/// note, the fallback title of a new note.
pub open spec fn stamps_fit(
    config: ObsidianConfig,
    vault_is_dir: bool,
    target: Seq<char>,
    content: Seq<char>,
    stamp: Seq<char>,
    today: Seq<char>,
    untitled: Seq<char>,
) -> bool {
    let vault_ok = vault_check(config.vault_path@, vault_is_dir) is Ok;
    &&& (target == DAILY_NOTE_TARGET@ || target == INBOX_TARGET@) ==> rendering_of(
        stamp,
        ENTRY_STAMP_FORMAT@,
    )
    &&& (target == DAILY_NOTE_TARGET@ && vault_ok) ==> rendering_of(
        today,
        config.daily_notes_format@,
    )
    &&& (target == NEW_NOTE_TARGET@ && vault_ok && clean_line(content).len() == 0)
        ==> rendering_of(untitled, UNTITLED_NOTE_FORMAT@)
}

/// The three target names differ.
proof fn lemma_targets_distinct()
    ensures
        DAILY_NOTE_TARGET@ != INBOX_TARGET@,
        DAILY_NOTE_TARGET@ != NEW_NOTE_TARGET@,
        INBOX_TARGET@ != NEW_NOTE_TARGET@,
{
    reveal_strlit("daily-note");
    reveal_strlit("inbox");
    reveal_strlit("new-note");
    assert(DAILY_NOTE_TARGET@.len() == 10);
    assert(INBOX_TARGET@.len() == 5);
    assert(NEW_NOTE_TARGET@.len() == 8);
}

/// The plan for sending `content` to `target_id`, reading the clock for the
/// time texts that the target needs; `None` exactly on `send_fails` inputs.
pub fn plan_send(config: &ObsidianConfig, vault_is_dir: bool, target_id: &str, content: &str) -> (r:
    Option<SendPlan>)
    ensures
        r is None <==> send_fails(*config, vault_is_dir, target_id@, content@),
        r matches Some(p) ==> exists|stamp: Seq<char>, today: Seq<char>, untitled: Seq<char>|
            stamps_fit(*config, vault_is_dir, target_id@, content@, stamp, today, untitled) && p@
                == #[trigger] send_plan(
                *config,
                vault_is_dir,
                target_id@,
                content@,
                stamp,
                today,
                untitled,
            ),
{
    proof {
        lemma_targets_distinct();
        lemma_fixed_formats_simple();
    }
    let vault_ok = resolve_vault_path(config, vault_is_dir).is_ok();
    let is_daily = same_text(target_id, DAILY_NOTE_TARGET);
    let is_inbox = same_text(target_id, INBOX_TARGET);
    let is_new = same_text(target_id, NEW_NOTE_TARGET);
    let mut stamp = String::new();
    let mut today = String::new();
    let mut untitled = String::new();
    if is_daily || is_inbox {
        match local_time_text(ENTRY_STAMP_FORMAT) {
            Some(s) => {
                stamp = s;
            },
            None => {
                return None;
            },
        }
    }
    if is_daily && vault_ok {
        match local_time_text(config.daily_notes_format.as_str()) {
            Some(s) => {
                today = s;
            },
            None => {
                return None;
            },
        }
    }
    if is_new && vault_ok {
        match checked_note_title(content) {
            Some(t) => {
                proof {
                    crate::titles::lemma_note_title_shape(content@);
                }
                if t.as_str().is_empty() {
                    match local_time_text(UNTITLED_NOTE_FORMAT) {
                        Some(s) => {
                            untitled = s;
                        },
                        None => {
                            return None;
                        },
                    }
                }
            },
            None => {
                return None;
            },
        }
    }
    let plan = plan_send_at(
        config,
        vault_is_dir,
        target_id,
        content,
        stamp.as_str(),
        today.as_str(),
        untitled.as_str(),
    );
    Some(plan)
}

/// Where a new note titled `title` goes when a file already has the name
/// `<title>.md`: `<vault>/<title> <stamp>.md`.
pub open spec fn taken_location(vault: Seq<char>, title: Seq<char>, stamp: Seq<char>) -> (
    Seq<char>,
    Seq<Seq<char>>,
) {
    path_of(vault, seq![title + " "@ + stamp + NOTE_EXTENSION@])
}

/// A new note never goes where a note already is: the location used when the
/// first choice is taken differs from that first choice, whatever the time.
pub proof fn lemma_taken_location_differs(vault: Seq<char>, title: Seq<char>, stamp: Seq<char>)
    ensures
        taken_location(vault, title, stamp) != path_of(vault, seq![title + NOTE_EXTENSION@]),
{
    reveal_strlit(" ");
    let taken = title + " "@ + stamp + NOTE_EXTENSION@;
    let first = title + NOTE_EXTENSION@;
    assert(taken.len() != first.len());
    assert(taken_location(vault, title, stamp).1[0] == taken);
    assert(path_of(vault, seq![first]).1[0] == first);
}

/// The location for a new note whose first choice is taken, with the time text `stamp`.
pub fn taken_note_path_at(vault: &str, title: &str, stamp: &str) -> (r: FsPath)
    ensures
        r@ == taken_location(vault@, title@, stamp@),
{
    let a = concat(title, " ");
    let b = concat(a.as_str(), stamp);
    let file = concat(b.as_str(), NOTE_EXTENSION);
    path1(vault, file.as_str())
}

/// The location for a new note whose first choice is taken, stamped with the
/// local time rendered with `%H%M%S`.
pub fn taken_note_path(vault: &str, title: &str) -> (r: FsPath)
    ensures
        exists|stamp: Seq<char>|
            rendering_of(stamp, TAKEN_NAME_FORMAT@) && r@ == #[trigger] taken_location(
                vault@,
                title@,
                stamp,
            ),
{
    proof {
        lemma_fixed_formats_simple();
    }
    match local_time_text(TAKEN_NAME_FORMAT) {
        Some(stamp) => taken_note_path_at(vault, title, stamp.as_str()),
        None => vstd::pervasive::unreached(),
    }
}

/// Where a new note planned as `CreateNote` is written: its first choice, or
/// when a file is there already (`taken`), the time-stamped location.
pub fn new_note_location(vault: &str, title: &str, first_choice: FsPath, taken: bool) -> (r: FsPath)
    ensures
        !taken ==> r == first_choice,
        taken ==> exists|stamp: Seq<char>|
            rendering_of(stamp, TAKEN_NAME_FORMAT@) && r@ == #[trigger] taken_location(
                vault@,
                title@,
                stamp,
            ),
{
    if taken {
        taken_note_path(vault, title)
    } else {
        first_choice
    }
}

/// The answer to `send` and `set_config`.
pub struct SendResponse {
    pub success: bool,
    pub error: Option<String>,
}

/// The answer for the outcome of a send: success, or failure with its error.
pub fn send_response(outcome: Result<(), String>) -> (r: SendResponse)
    ensures
        r.success == outcome is Ok,
        outcome matches Err(e) ==> r.error == Some(e),
        outcome is Ok ==> r.error is None,
{
    match outcome {
        Ok(()) => SendResponse { success: true, error: None },
        Err(e) => SendResponse { success: false, error: Some(e) },
    }
}

} // verus!
