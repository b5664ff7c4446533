use vstd::prelude::*;

use crate::paths::{path2, path_of, FsPath};

verus! {

/// The plugin's settings.
pub struct ObsidianConfig {
    /// Path of the Obsidian vault directory.
    pub vault_path: String,
    /// Folder of the daily notes, relative to the vault.
    pub daily_notes_folder: String,
    /// strftime format of a daily note's file name (without `.md`).
    pub daily_notes_format: String,
    /// File name of the inbox note, relative to the vault.
    pub inbox_note: String,
    /// Template of an appended entry, with `{timestamp}` and `{content}` placeholders.
    pub append_template: String,
}

/// Default folder of the daily notes.
pub const DEFAULT_DAILY_NOTES_FOLDER: &'static str = "Daily Notes";

/// Default file-name format of the daily notes.
pub const DEFAULT_DAILY_NOTES_FORMAT: &'static str = "%Y-%m-%d";

/// Default inbox note.
pub const DEFAULT_INBOX_NOTE: &'static str = "Inbox.md";

/// Default append template.
pub const DEFAULT_APPEND_TEMPLATE: &'static str = "\n---\n*{timestamp}*\n{content}\n";

/// The settings used when none were saved: the given vault and the defaults of
/// every other setting.
pub open spec fn is_default_for(c: ObsidianConfig, vault_path: Seq<char>) -> bool {
    &&& c.vault_path@ == vault_path
    &&& c.daily_notes_folder@ == DEFAULT_DAILY_NOTES_FOLDER@
    &&& c.daily_notes_format@ == DEFAULT_DAILY_NOTES_FORMAT@
    &&& c.inbox_note@ == DEFAULT_INBOX_NOTE@
    &&& c.append_template@ == DEFAULT_APPEND_TEMPLATE@
}

impl ObsidianConfig {
    /// The default settings, with `vault_path` as the vault (the vault that
    /// Obsidian lists first, or an empty path when none was found).
    pub fn with_vault_path(vault_path: String) -> (r: Self)
        ensures
            is_default_for(r, vault_path@),
            r.vault_path == vault_path,
    {
        ObsidianConfig {
            vault_path,
            daily_notes_folder: String::from_str(DEFAULT_DAILY_NOTES_FOLDER),
            daily_notes_format: String::from_str(DEFAULT_DAILY_NOTES_FORMAT),
            inbox_note: String::from_str(DEFAULT_INBOX_NOTE),
            append_template: String::from_str(DEFAULT_APPEND_TEMPLATE),
        }
    }

    /// A copy of these settings.
    pub fn duplicate(&self) -> (r: Self)
        ensures
            r == *self,
    {
        ObsidianConfig {
            vault_path: self.vault_path.clone(),
            daily_notes_folder: self.daily_notes_folder.clone(),
            daily_notes_format: self.daily_notes_format.clone(),
            inbox_note: self.inbox_note.clone(),
            append_template: self.append_template.clone(),
        }
    }
}

/// New values for some settings; a setting that is `None` keeps its value.
pub struct ConfigUpdate {
    pub vault_path: Option<String>,
    pub daily_notes_folder: Option<String>,
    pub daily_notes_format: Option<String>,
    pub inbox_note: Option<String>,
    pub append_template: Option<String>,
}

/// The new value of a setting.
pub open spec fn updated_value(new: Option<String>, current: String) -> String {
    match new {
        Some(v) => v,
        None => current,
    }
}

/// The settings `c` after `u`.
pub open spec fn updated(c: ObsidianConfig, u: ConfigUpdate) -> ObsidianConfig {
    ObsidianConfig {
        vault_path: updated_value(u.vault_path, c.vault_path),
        daily_notes_folder: updated_value(u.daily_notes_folder, c.daily_notes_folder),
        daily_notes_format: updated_value(u.daily_notes_format, c.daily_notes_format),
        inbox_note: updated_value(u.inbox_note, c.inbox_note),
        append_template: updated_value(u.append_template, c.append_template),
    }
}

/// An update that changes nothing.
pub open spec fn is_empty_update(u: ConfigUpdate) -> bool {
    &&& u.vault_path is None
    &&& u.daily_notes_folder is None
    &&& u.daily_notes_format is None
    &&& u.inbox_note is None
    &&& u.append_template is None
}

fn apply_value(new: Option<String>, current: &mut String)
    ensures
        *final(current) == updated_value(new, *old(current)),
{
    if let Some(v) = new {
        *current = v;
    }
}

impl ObsidianConfig {
    /// Sets each setting that `update` gives and keeps the others.
    pub fn apply_update(&mut self, update: ConfigUpdate)
        ensures
            *final(self) == updated(*old(self), update),
    {
        let ConfigUpdate {
            vault_path,
            daily_notes_folder,
            daily_notes_format,
            inbox_note,
            append_template,
        } = update;
        apply_value(vault_path, &mut self.vault_path);
        apply_value(daily_notes_folder, &mut self.daily_notes_folder);
        apply_value(daily_notes_format, &mut self.daily_notes_format);
        apply_value(inbox_note, &mut self.inbox_note);
        apply_value(append_template, &mut self.append_template);
    }
}

/// Applying the same update twice gives what applying it once gives.
pub proof fn lemma_update_idempotent(c: ObsidianConfig, u: ConfigUpdate)
    ensures
        updated(updated(c, u), u) == updated(c, u),
{
}

/// An update that gives no value changes nothing.
pub proof fn lemma_empty_update(c: ObsidianConfig, u: ConfigUpdate)
    requires
        is_empty_update(u),
    ensures
        updated(c, u) == c,
{
}

/// Of two updates applied in turn, the later value of each setting wins.
pub proof fn lemma_later_update_wins(c: ObsidianConfig, u: ConfigUpdate, w: ConfigUpdate)
    ensures
        updated(updated(c, u), w).vault_path == updated_value(
            w.vault_path,
            updated_value(u.vault_path, c.vault_path),
        ),
        w.vault_path is Some ==> updated(updated(c, u), w).vault_path == updated(c, w).vault_path,
        w.daily_notes_folder is Some ==> updated(updated(c, u), w).daily_notes_folder == updated(
            c,
            w,
        ).daily_notes_folder,
        w.daily_notes_format is Some ==> updated(updated(c, u), w).daily_notes_format == updated(
            c,
            w,
        ).daily_notes_format,
        w.inbox_note is Some ==> updated(updated(c, u), w).inbox_note == updated(
            c,
            w,
        ).inbox_note,
        w.append_template is Some ==> updated(updated(c, u), w).append_template == updated(
            c,
            w,
        ).append_template,
{
}

/// The settings read at start-up: those saved, when the saved file could be
/// read and parsed, else the defaults with the vault that `detect_vault`
/// finds (an empty vault path when it finds none). `detect_vault` is only
/// called when nothing was saved.
pub fn load_config<F: FnOnce() -> Option<String>>(saved: Option<ObsidianConfig>, detect_vault: F) -> (r:
    ObsidianConfig)
    requires
        saved is None ==> detect_vault.requires(()),
    ensures
        saved matches Some(c) ==> r == c,
        saved is None ==> exists|found: Option<String>|
            #[trigger] detect_vault.ensures((), found) && is_default_for(
                r,
                match found {
                    Some(v) => v@,
                    None => Seq::<char>::empty(),
                },
            ),
{
    match saved {
        Some(c) => c,
        None => {
            let found = detect_vault();
            let vault = match found {
                Some(ref v) => v.clone(),
                None => String::new(),
            };
            let r = ObsidianConfig::with_vault_path(vault);
            assert(detect_vault.ensures((), found));
            r
        },
    }
}

/// The settings in use: those in `cache` when it holds some, else those that
/// `load` gives, which are then kept in `cache`. `load` is only called when
/// the cache is empty.
pub fn get_config<F: FnOnce() -> ObsidianConfig>(cache: &mut Option<ObsidianConfig>, load: F) -> (r:
    ObsidianConfig)
    requires
        *old(cache) is None ==> load.requires(()),
    ensures
        *old(cache) matches Some(c) ==> r == c && *final(cache) == *old(cache),
        *old(cache) is None ==> load.ensures((), r) && *final(cache) == Some(r),
{
    match cache {
        Some(c) => c.duplicate(),
        None => {
            let c = load();
            let r = c.duplicate();
            *cache = Some(c);
            r
        },
    }
}

/// Applies `update` to the settings in use (those in `cache`, else those that
/// `load` gives), keeps the result in `cache` as the settings in use, and
/// returns it to be saved.
pub fn set_config<F: FnOnce() -> ObsidianConfig>(
    cache: &mut Option<ObsidianConfig>,
    update: ConfigUpdate,
    load: F,
) -> (r: ObsidianConfig)
    requires
        *old(cache) is None ==> load.requires(()),
    ensures
        *final(cache) == Some(r),
        *old(cache) matches Some(c) ==> r == updated(c, update),
        *old(cache) is None ==> exists|loaded: ObsidianConfig|
            #[trigger] load.ensures((), loaded) && r == updated(loaded, update),
{
    let mut config = get_config(cache, load);
    config.apply_update(update);
    let r = config.duplicate();
    *cache = Some(config);
    r
}

/// Name of the plugin's folder in the user's configuration directory.
pub const CONFIG_FOLDER: &'static str = "clipygo-plugin-obsidian";

/// Name of the settings file in that folder.
pub const CONFIG_FILE: &'static str = "config.json";

/// Where the settings are saved, given the user's configuration directory.
pub open spec fn config_location(config_dir: Seq<char>) -> (Seq<char>, Seq<Seq<char>>) {
    path_of(config_dir, seq![CONFIG_FOLDER@, CONFIG_FILE@])
}

/// The location of the settings file: `<config dir>/clipygo-plugin-obsidian/config.json`.
/// The configuration directory is asked of `config_dir` once, and kept in
/// `cache` once it is known; `None` when it is not known.
pub fn config_file_path<F: FnOnce() -> Option<String>>(cache: &mut Option<String>, config_dir: F) -> (r:
    Option<FsPath>)
    requires
        *old(cache) is None ==> config_dir.requires(()),
    ensures
        *old(cache) matches Some(d) ==> *final(cache) == *old(cache) && (r matches Some(p) && p@
            == config_location(d@)),
        *old(cache) is None ==> exists|found: Option<String>|
            #[trigger] config_dir.ensures((), found) && *final(cache) == found && match found {
                Some(d) => r matches Some(p) && p@ == config_location(d@),
                None => r is None,
            },
{
    if cache.is_none() {
        let found = config_dir();
        assert(config_dir.ensures((), found));
        *cache = found;
    }
    match cache {
        Some(d) => Some(path2(d.as_str(), CONFIG_FOLDER, CONFIG_FILE)),
        None => None,
    }
}

} // verus!
