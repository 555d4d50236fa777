//! Loading the configuration from the text of its file: field by field, under a tolerant
//! and under a strict policy.

use crate::config::{default_margin, default_model, field_defaults, Config, ConfigModel};
use crate::paths::{config_file_in, optional_text};
use crate::source::{
    lookup, optional_texts, parse_table, table_entries, toml_document, Entry, Field,
};
use crate::text::texts;
use toml::Table;
use vstd::prelude::*;

verus! {

/// Why a strict load failed.
#[derive(Clone, Debug, PartialEq, Eq)]
pub enum LoadError {
    /// There is no configuration file, or it cannot be read.
    ConfigUnreadable,
    /// The file is no TOML document, or a key holds a value of the wrong type; the text
    /// says which.
    ConfigMalformed(String),
}

/// The mathematical value of a [`LoadError`].
pub enum LoadErrorModel {
    ConfigUnreadable,
    ConfigMalformed(Seq<char>),
}

impl View for LoadError {
    type V = LoadErrorModel;

    open spec fn view(&self) -> LoadErrorModel {
        match self {
            LoadError::ConfigUnreadable => LoadErrorModel::ConfigUnreadable,
            LoadError::ConfigMalformed(details) => LoadErrorModel::ConfigMalformed(details@),
        }
    }
}

/// What a failed load says to the user.
pub open spec fn error_message(error: LoadErrorModel) -> Seq<char> {
    match error {
        LoadErrorModel::ConfigUnreadable => "configuration file is missing or unreadable"@,
        LoadErrorModel::ConfigMalformed(details) => "configuration file is malformed: "@
            + details,
    }
}

impl LoadError {
    /// The error in words.
    pub fn message(&self) -> (text: String)
        ensures
            text@ == error_message(self@),
    {
        match self {
            LoadError::ConfigUnreadable => "configuration file is missing or unreadable".to_owned(),
            LoadError::ConfigMalformed(details) => {
                let mut text = "configuration file is malformed: ".to_owned();
                text.append(details.as_str());
                text
            },
        }
    }
}

/// What a tolerant load hands back: always a configuration, and a line for the operator
/// when the file had to be set aside.
#[derive(Clone, Debug, PartialEq, Eq)]
pub struct Loaded {
    pub config: Config,
    pub diagnostic: Option<String>,
}

/// The kinds of value that a key of the configuration file can hold.
pub enum FieldKind {
    /// A string.
    Text,
    /// An integer from 0 to 4294967295.
    Size,
    /// An integer from -2147483648 to 2147483647.
    Margin,
    /// A boolean.
    Flag,
    /// An array of strings.
    List,
}

/// Whether every item of an array is a string.
pub open spec fn all_text(items: Seq<Option<Seq<char>>>) -> bool {
    forall|i: int| 0 <= i < items.len() ==> (#[trigger] items[i]) is Some
}

/// The strings of an array of strings.
pub open spec fn list_texts(items: Seq<Option<Seq<char>>>) -> Seq<Seq<char>> {
    items.map_values(|item: Option<Seq<char>>| item->0)
}

/// Whether `entry` is a value of the kind `kind`.
pub open spec fn fits(entry: Entry, kind: FieldKind) -> bool {
    match kind {
        FieldKind::Text => entry is Text,
        FieldKind::Size => entry matches Entry::Integer(n) && 0 <= n <= u32::MAX,
        FieldKind::Margin => entry matches Entry::Integer(n) && i32::MIN <= n <= i32::MAX,
        FieldKind::Flag => entry is Flag,
        FieldKind::List => entry matches Entry::List(items) && all_text(items),
    }
}

/// Whether the document has `key` and holds a value of the kind `kind` under it.
pub open spec fn given(entries: Map<Seq<char>, Entry>, key: Seq<char>, kind: FieldKind) -> bool {
    entries.contains_key(key) && fits(entries[key], kind)
}

/// Whether the document has `key` but holds a value of another kind than `kind` under it.
pub open spec fn misfit(entries: Map<Seq<char>, Entry>, key: Seq<char>, kind: FieldKind) -> bool {
    entries.contains_key(key) && !fits(entries[key], kind)
}

/// The string under `key`, or `default` if the key is absent or holds no string.
pub open spec fn text_or(entries: Map<Seq<char>, Entry>, key: Seq<char>, default: Seq<char>) -> Seq<char> {
    if given(entries, key, FieldKind::Text) {
        entries[key]->Text_0
    } else {
        default
    }
}

/// The string under `key`, if the key is there and holds one.
pub open spec fn optional_text_at(entries: Map<Seq<char>, Entry>, key: Seq<char>) -> Option<Seq<char>> {
    if given(entries, key, FieldKind::Text) {
        Some(entries[key]->Text_0)
    } else {
        None
    }
}

/// The size under `key`, or `default` if the key is absent or holds no size.
pub open spec fn size_or(entries: Map<Seq<char>, Entry>, key: Seq<char>, default: u32) -> u32 {
    if given(entries, key, FieldKind::Size) {
        entries[key]->Integer_0 as u32
    } else {
        default
    }
}

/// The margin under `key`, if the key is there and holds one.
pub open spec fn margin_at(entries: Map<Seq<char>, Entry>, key: Seq<char>) -> Option<i32> {
    if given(entries, key, FieldKind::Margin) {
        Some(entries[key]->Integer_0 as i32)
    } else {
        None
    }
}

/// The boolean under `key`, or `default` if the key is absent or holds no boolean.
pub open spec fn flag_or(entries: Map<Seq<char>, Entry>, key: Seq<char>, default: bool) -> bool {
    if given(entries, key, FieldKind::Flag) {
        entries[key]->Flag_0
    } else {
        default
    }
}

/// The array of strings under `key`, or `default` if the key is absent or holds none.
pub open spec fn list_or(
    entries: Map<Seq<char>, Entry>,
    key: Seq<char>,
    default: Seq<Seq<char>>,
) -> Seq<Seq<char>> {
    if given(entries, key, FieldKind::List) {
        list_texts(entries[key]->List_0)
    } else {
        default
    }
}

/// The configuration that a document gives over the defaults `d`, field by field: what
/// the document holds under the field's key if that is a value of the field's kind, and
/// the field of `d` otherwise. The monitor and the four margins have no default: without
/// a value in the document they are absent. Keys that name no field are not looked at.
pub open spec fn merged_over(entries: Map<Seq<char>, Entry>, d: ConfigModel) -> ConfigModel {
    ConfigModel {
        title: text_or(entries, "title"@, d.title),
        title_size: size_or(entries, "title_size"@, d.title_size),
        tasks: list_or(entries, "tasks"@, d.tasks),
        note_path: text_or(entries, "note_path"@, d.note_path),
        monitor_name: optional_text_at(entries, "monitor_name"@),
        anchor_bottom: flag_or(entries, "anchor_bottom"@, d.anchor_bottom),
        anchor_right: flag_or(entries, "anchor_right"@, d.anchor_right),
        margin_top: margin_at(entries, "margin_top"@),
        margin_bottom: margin_at(entries, "margin_bottom"@),
        margin_left: margin_at(entries, "margin_left"@),
        margin_right: margin_at(entries, "margin_right"@),
        background_color: text_or(entries, "background_color"@, d.background_color),
        text_color: text_or(entries, "text_color"@, d.text_color),
        border_color: text_or(entries, "border_color"@, d.border_color),
        font_size: size_or(entries, "font_size"@, d.font_size),
        border_width: size_or(entries, "border_width"@, d.border_width),
        border_radius: size_or(entries, "border_radius"@, d.border_radius),
        font_family: list_or(entries, "font_family"@, d.font_family),
    }
}

/// The configuration that a document gives over the defaults of the fields.
pub open spec fn merged(entries: Map<Seq<char>, Entry>, config_dir: Seq<char>) -> ConfigModel {
    merged_over(entries, field_defaults(config_dir))
}

/// The margins as the window gets them: where none of the four is given, the bottom and
/// the right margin are 40; where any is given, all four stay as they are.
pub open spec fn normalized(config: ConfigModel) -> ConfigModel {
    if config.margin_top is None && config.margin_bottom is None && config.margin_left is None
        && config.margin_right is None {
        ConfigModel { margin_bottom: Some(40i32), margin_right: Some(40i32), ..config }
    } else {
        config
    }
}

/// The configuration that a parsed document stands for.
pub open spec fn config_of(entries: Map<Seq<char>, Entry>, config_dir: Seq<char>) -> ConfigModel {
    normalized(merged(entries, config_dir))
}

/// `first` if there is one, else `key` if `bad`.
pub open spec fn or_misfit(first: Option<Seq<char>>, bad: bool, key: Seq<char>) -> Option<Seq<char>> {
    if first is Some {
        first
    } else if bad {
        Some(key)
    } else {
        None
    }
}

/// The first key, in the order of the fields, under which the document holds a value of
/// the wrong kind.
pub open spec fn first_misfit(entries: Map<Seq<char>, Entry>) -> Option<Seq<char>> {
    let m = None;
    let m = or_misfit(m, misfit(entries, "title"@, FieldKind::Text), "title"@);
    let m = or_misfit(m, misfit(entries, "title_size"@, FieldKind::Size), "title_size"@);
    let m = or_misfit(m, misfit(entries, "tasks"@, FieldKind::List), "tasks"@);
    let m = or_misfit(m, misfit(entries, "note_path"@, FieldKind::Text), "note_path"@);
    let m = or_misfit(m, misfit(entries, "monitor_name"@, FieldKind::Text), "monitor_name"@);
    let m = or_misfit(m, misfit(entries, "anchor_bottom"@, FieldKind::Flag), "anchor_bottom"@);
    let m = or_misfit(m, misfit(entries, "anchor_right"@, FieldKind::Flag), "anchor_right"@);
    let m = or_misfit(m, misfit(entries, "margin_top"@, FieldKind::Margin), "margin_top"@);
    let m = or_misfit(m, misfit(entries, "margin_bottom"@, FieldKind::Margin), "margin_bottom"@);
    let m = or_misfit(m, misfit(entries, "margin_left"@, FieldKind::Margin), "margin_left"@);
    let m = or_misfit(m, misfit(entries, "margin_right"@, FieldKind::Margin), "margin_right"@);
    let m = or_misfit(
        m,
        misfit(entries, "background_color"@, FieldKind::Text),
        "background_color"@,
    );
    let m = or_misfit(m, misfit(entries, "text_color"@, FieldKind::Text), "text_color"@);
    let m = or_misfit(m, misfit(entries, "border_color"@, FieldKind::Text), "border_color"@);
    let m = or_misfit(m, misfit(entries, "font_size"@, FieldKind::Size), "font_size"@);
    let m = or_misfit(m, misfit(entries, "border_width"@, FieldKind::Size), "border_width"@);
    let m = or_misfit(m, misfit(entries, "border_radius"@, FieldKind::Size), "border_radius"@);
    or_misfit(m, misfit(entries, "font_family"@, FieldKind::List), "font_family"@)
}

/// What the strict policy says of a value of the wrong kind under `key`.
pub open spec fn misfit_details(key: Seq<char>) -> Seq<char> {
    "invalid type for key `"@ + key + "`"@
}

/// The line for the operator when the file at `path` is set aside because of `message`.
pub open spec fn diagnostic_text(path: Seq<char>, message: Seq<char>) -> Seq<char> {
    "⚠️ Config Error at \""@ + path + "\": "@ + message
        + "\nUsing fallback defaults for missing or broken fields."@
}

/// The tolerant policy: whatever the file holds, there is a configuration. Without a file,
/// or with one that is no TOML document, every field has its default; otherwise each
/// field is read on its own.
pub open spec fn tolerant_config(source: Option<Seq<char>>, config_dir: Seq<char>) -> ConfigModel {
    match source {
        None => default_model(config_dir),
        Some(text) => match toml_document(text) {
            Err(_) => default_model(config_dir),
            Ok(entries) => config_of(entries, config_dir),
        },
    }
}

/// The line for the operator under the tolerant policy: one exactly when there is a file
/// and it is no TOML document.
pub open spec fn tolerant_diagnostic(source: Option<Seq<char>>, config_dir: Seq<char>) -> Option<
    Seq<char>,
> {
    match source {
        None => None,
        Some(text) => match toml_document(text) {
            Err(message) => Some(diagnostic_text(config_file_in(config_dir), message)),
            Ok(_) => None,
        },
    }
}

/// The strict policy: no file is an error, a file that is no TOML document is an error
/// with the parser's message, a value of the wrong kind under a field's key is an error
/// that names the first such key; otherwise absent fields get their defaults.
pub open spec fn strict_config(source: Option<Seq<char>>, config_dir: Seq<char>) -> Result<
    ConfigModel,
    LoadErrorModel,
> {
    match source {
        None => Err(LoadErrorModel::ConfigUnreadable),
        Some(text) => match toml_document(text) {
            Err(message) => Err(LoadErrorModel::ConfigMalformed(message)),
            Ok(entries) => match first_misfit(entries) {
                Some(key) => Err(LoadErrorModel::ConfigMalformed(misfit_details(key))),
                None => Ok(config_of(entries, config_dir)),
            },
        },
    }
}

fn all_some(items: &Vec<Option<String>>) -> (ok: bool)
    ensures
        ok == all_text(optional_texts(items@)),
{
    let mut i: usize = 0;
    while i < items.len()
        invariant
            i <= items.len(),
            forall|j: int| 0 <= j < i ==> (#[trigger] optional_texts(items@)[j]) is Some,
        decreases items.len() - i,
    {
        if items[i].is_none() {
            assert(optional_texts(items@)[i as int] is None);
            return false;
        }
        i += 1;
    }
    true
}

fn unwrap_texts(items: Vec<Option<String>>) -> (out: Vec<String>)
    requires
        all_text(optional_texts(items@)),
    ensures
        texts(out@) == list_texts(optional_texts(items@)),
{
    let mut out: Vec<String> = Vec::new();
    let mut i: usize = 0;
    while i < items.len()
        invariant
            i <= items.len(),
            all_text(optional_texts(items@)),
            out.len() == i,
            forall|j: int| 0 <= j < i ==> (#[trigger] out[j])@ == items[j]->0@,
        decreases items.len() - i,
    {
        assert(optional_texts(items@)[i as int] is Some);
        match &items[i] {
            Some(text) => out.push(text.clone()),
            None => {},
        }
        i += 1;
    }
    assert(texts(out@) == list_texts(optional_texts(items@)));
    out
}

fn fits_kind(field: &Field, kind: &FieldKind) -> (ok: bool)
    ensures
        ok == fits(field@, *kind),
{
    match kind {
        FieldKind::Text => match field {
            Field::Text(_) => true,
            _ => false,
        },
        FieldKind::Size => match field {
            Field::Integer(n) => 0 <= *n && *n <= 4294967295,
            _ => false,
        },
        FieldKind::Margin => match field {
            Field::Integer(n) => -2147483648 <= *n && *n <= 2147483647,
            _ => false,
        },
        FieldKind::Flag => match field {
            Field::Flag(_) => true,
            _ => false,
        },
        FieldKind::List => match field {
            Field::List(items) => all_some(items),
            _ => false,
        },
    }
}

/// The value under `key` if it is of the kind `kind`.
fn read(table: &Table, key: &str, kind: FieldKind) -> (found: Option<Field>)
    ensures
        found is Some == given(table_entries(*table), key@, kind),
        found matches Some(field) ==> field@ == table_entries(*table)[key@],
{
    match lookup(table, key) {
        Some(field) => if fits_kind(&field, &kind) {
            Some(field)
        } else {
            None
        },
        None => None,
    }
}

fn read_optional_text(table: &Table, key: &str) -> (value: Option<String>)
    ensures
        value.deep_view() == optional_text_at(table_entries(*table), key@),
{
    match read(table, key, FieldKind::Text) {
        Some(Field::Text(text)) => Some(text),
        _ => None,
    }
}

fn read_text(table: &Table, key: &str, default: String) -> (value: String)
    ensures
        value@ == text_or(table_entries(*table), key@, default@),
{
    match read(table, key, FieldKind::Text) {
        Some(Field::Text(text)) => text,
        _ => default,
    }
}

fn read_size(table: &Table, key: &str, default: u32) -> (value: u32)
    ensures
        value == size_or(table_entries(*table), key@, default),
{
    match read(table, key, FieldKind::Size) {
        Some(Field::Integer(n)) => n as u32,
        _ => default,
    }
}

fn read_margin(table: &Table, key: &str) -> (value: Option<i32>)
    ensures
        value == margin_at(table_entries(*table), key@),
{
    match read(table, key, FieldKind::Margin) {
        Some(Field::Integer(n)) => Some(n as i32),
        _ => None,
    }
}

fn read_flag(table: &Table, key: &str, default: bool) -> (value: bool)
    ensures
        value == flag_or(table_entries(*table), key@, default),
{
    match read(table, key, FieldKind::Flag) {
        Some(Field::Flag(b)) => b,
        _ => default,
    }
}

fn read_list(table: &Table, key: &str, default: Vec<String>) -> (value: Vec<String>)
    ensures
        texts(value@) == list_or(table_entries(*table), key@, texts(default@)),
{
    match read(table, key, FieldKind::List) {
        Some(Field::List(items)) => unwrap_texts(items),
        _ => default,
    }
}

/// `first` if there is one, else `key` if the table holds a value of another kind than
/// `kind` under it.
fn note_misfit(first: Option<String>, table: &Table, key: &str, kind: FieldKind) -> (out: Option<
    String,
>)
    ensures
        out.deep_view() == or_misfit(
            first.deep_view(),
            misfit(table_entries(*table), key@, kind),
            key@,
        ),
{
    if first.is_some() {
        return first;
    }
    match lookup(table, key) {
        Some(field) => if fits_kind(&field, &kind) {
            None
        } else {
            Some(key.to_owned())
        },
        None => None,
    }
}

/// The first key, in the order of the fields, under which `table` holds a value of the
/// wrong kind.
pub fn find_misfit(table: &Table) -> (found: Option<String>)
    ensures
        found.deep_view() == first_misfit(table_entries(*table)),
{
    let m: Option<String> = None;
    let m = note_misfit(m, table, "title", FieldKind::Text);
    let m = note_misfit(m, table, "title_size", FieldKind::Size);
    let m = note_misfit(m, table, "tasks", FieldKind::List);
    let m = note_misfit(m, table, "note_path", FieldKind::Text);
    let m = note_misfit(m, table, "monitor_name", FieldKind::Text);
    let m = note_misfit(m, table, "anchor_bottom", FieldKind::Flag);
    let m = note_misfit(m, table, "anchor_right", FieldKind::Flag);
    let m = note_misfit(m, table, "margin_top", FieldKind::Margin);
    let m = note_misfit(m, table, "margin_bottom", FieldKind::Margin);
    let m = note_misfit(m, table, "margin_left", FieldKind::Margin);
    let m = note_misfit(m, table, "margin_right", FieldKind::Margin);
    let m = note_misfit(m, table, "background_color", FieldKind::Text);
    let m = note_misfit(m, table, "text_color", FieldKind::Text);
    let m = note_misfit(m, table, "border_color", FieldKind::Text);
    let m = note_misfit(m, table, "font_size", FieldKind::Size);
    let m = note_misfit(m, table, "border_width", FieldKind::Size);
    let m = note_misfit(m, table, "border_radius", FieldKind::Size);
    note_misfit(m, table, "font_family", FieldKind::List)
}

/// Reads every field from `table`, each on its own, over the defaults `defaults`.
pub fn merge_over(table: &Table, defaults: Config) -> (config: Config)
    ensures
        config@ == merged_over(table_entries(*table), defaults@),
{
    Config {
        title: read_text(table, "title", defaults.title),
        title_size: read_size(table, "title_size", defaults.title_size),
        tasks: read_list(table, "tasks", defaults.tasks),
        note_path: read_text(table, "note_path", defaults.note_path),
        monitor_name: read_optional_text(table, "monitor_name"),
        anchor_bottom: read_flag(table, "anchor_bottom", defaults.anchor_bottom),
        anchor_right: read_flag(table, "anchor_right", defaults.anchor_right),
        margin_top: read_margin(table, "margin_top"),
        margin_bottom: read_margin(table, "margin_bottom"),
        margin_left: read_margin(table, "margin_left"),
        margin_right: read_margin(table, "margin_right"),
        background_color: read_text(table, "background_color", defaults.background_color),
        text_color: read_text(table, "text_color", defaults.text_color),
        border_color: read_text(table, "border_color", defaults.border_color),
        font_size: read_size(table, "font_size", defaults.font_size),
        border_width: read_size(table, "border_width", defaults.border_width),
        border_radius: read_size(table, "border_radius", defaults.border_radius),
        font_family: read_list(table, "font_family", defaults.font_family),
    }
}

/// Reads every field from `table`, each on its own, over the defaults of the fields.
pub fn merge(table: &Table, config_dir: &str) -> (config: Config)
    ensures
        config@ == merged(table_entries(*table), config_dir@),
{
    merge_over(table, Config::default_config(config_dir))
}

/// Applies the rule for margins: where none of the four is given, the bottom and the
/// right margin become 40.
pub fn normalize_margins(config: Config) -> (out: Config)
    ensures
        out@ == normalized(config@),
{
    let mut out = config;
    if out.margin_top.is_none() && out.margin_bottom.is_none() && out.margin_left.is_none()
        && out.margin_right.is_none() {
        out.margin_bottom = Some(default_margin());
        out.margin_right = Some(default_margin());
    }
    out
}

/// The configuration to start with: the one that loaded, or every default where the
/// load failed, so that the overlay comes up whatever the file holds.
pub open spec fn startup_model(
    loaded: Result<ConfigModel, LoadErrorModel>,
    config_dir: Seq<char>,
) -> ConfigModel {
    match loaded {
        Ok(config) => config,
        Err(_) => default_model(config_dir),
    }
}

/// Picks the configuration to start with from the result of the first load.
pub fn startup_config(loaded: Result<Config, LoadError>, config_dir: &str) -> (config: Config)
    ensures
        config@ == startup_model(
            match loaded {
                Ok(config) => Ok(config@),
                Err(error) => Err(error@),
            },
            config_dir@,
        ),
{
    match loaded {
        Ok(config) => config,
        Err(_) => Config::default_config(config_dir),
    }
}

/// The line for the operator when the file at `path` is set aside because of `message`.
fn diagnostic_line(path: &str, message: &str) -> (line: String)
    ensures
        line@ == diagnostic_text(path@, message@),
{
    let mut line = "⚠️ Config Error at \"".to_owned();
    line.append(path);
    line.append("\": ");
    line.append(message);
    line.append("\nUsing fallback defaults for missing or broken fields.");
    line
}

impl Config {
    /// Loads the configuration under the tolerant policy and says what the operator
    /// should be told. `source` is the text of the configuration file, `None` if there
    /// is no file or it cannot be read; `config_dir` is the per-user configuration
    /// directory.
    pub fn load_reporting(source: Option<&str>, config_dir: &str) -> (loaded: Loaded)
        ensures
            loaded.config@ == tolerant_config(optional_text(source), config_dir@),
            loaded.diagnostic.deep_view() == tolerant_diagnostic(
                optional_text(source),
                config_dir@,
            ),
    {
        match source {
            None => Loaded { config: Config::default_config(config_dir), diagnostic: None },
            Some(text) => match parse_table(text) {
                Ok(table) => Loaded {
                    config: normalize_margins(merge(&table, config_dir)),
                    diagnostic: None,
                },
                Err(message) => {
                    let path = Config::get_path(config_dir);
                    Loaded {
                        config: Config::default_config(config_dir),
                        diagnostic: Some(diagnostic_line(path.as_str(), message.as_str())),
                    }
                },
            },
        }
    }

    /// Loads the configuration under the tolerant policy: whatever `source` holds, a
    /// configuration comes back.
    pub fn load(source: Option<&str>, config_dir: &str) -> (config: Config)
        ensures
            config@ == tolerant_config(optional_text(source), config_dir@),
    {
        Config::load_reporting(source, config_dir).config
    }

    /// Loads the configuration under the strict policy: a missing file, a file that is
    /// no TOML document and a value of the wrong kind are errors.
    pub fn load_strict(source: Option<&str>, config_dir: &str) -> (loaded: Result<
        Config,
        LoadError,
    >)
        ensures
            match loaded {
                Ok(config) => strict_config(optional_text(source), config_dir@) == Ok::<
                    _,
                    LoadErrorModel,
                >(config@),
                Err(error) => strict_config(optional_text(source), config_dir@) == Err::<
                    ConfigModel,
                    _,
                >(error@),
            },
    {
        match source {
            None => Err(LoadError::ConfigUnreadable),
            Some(text) => match parse_table(text) {
                Err(message) => Err(LoadError::ConfigMalformed(message)),
                Ok(table) => match find_misfit(&table) {
                    Some(key) => {
                        let mut details = "invalid type for key `".to_owned();
                        details.append(key.as_str());
                        details.append("`");
                        Err(LoadError::ConfigMalformed(details))
                    },
                    None => Ok(normalize_margins(merge(&table, config_dir))),
                },
            },
        }
    }
}


/// `config` with the field that `key` names set back to what `d` holds for it, or to
/// absent for the monitor and the margins; `config` itself where `key` names no field.
pub open spec fn with_default(config: ConfigModel, key: Seq<char>, d: ConfigModel) -> ConfigModel {
    if key == "title"@ {
        ConfigModel { title: d.title, ..config }
    } else if key == "title_size"@ {
        ConfigModel { title_size: d.title_size, ..config }
    } else if key == "tasks"@ {
        ConfigModel { tasks: d.tasks, ..config }
    } else if key == "note_path"@ {
        ConfigModel { note_path: d.note_path, ..config }
    } else if key == "monitor_name"@ {
        ConfigModel { monitor_name: None, ..config }
    } else if key == "anchor_bottom"@ {
        ConfigModel { anchor_bottom: d.anchor_bottom, ..config }
    } else if key == "anchor_right"@ {
        ConfigModel { anchor_right: d.anchor_right, ..config }
    } else if key == "margin_top"@ {
        ConfigModel { margin_top: None, ..config }
    } else if key == "margin_bottom"@ {
        ConfigModel { margin_bottom: None, ..config }
    } else if key == "margin_left"@ {
        ConfigModel { margin_left: None, ..config }
    } else if key == "margin_right"@ {
        ConfigModel { margin_right: None, ..config }
    } else if key == "background_color"@ {
        ConfigModel { background_color: d.background_color, ..config }
    } else if key == "text_color"@ {
        ConfigModel { text_color: d.text_color, ..config }
    } else if key == "border_color"@ {
        ConfigModel { border_color: d.border_color, ..config }
    } else if key == "font_size"@ {
        ConfigModel { font_size: d.font_size, ..config }
    } else if key == "border_width"@ {
        ConfigModel { border_width: d.border_width, ..config }
    } else if key == "border_radius"@ {
        ConfigModel { border_radius: d.border_radius, ..config }
    } else if key == "font_family"@ {
        ConfigModel { font_family: d.font_family, ..config }
    } else {
        config
    }
}

/// The keys of the fields are eighteen different words.
proof fn lemma_keys_differ()
    ensures
        "title"@.len() == 5,
        "tasks"@.len() == 5,
        "title"@[1] == 'i',
        "tasks"@[1] == 'a',
        "title_size"@.len() == 10,
        "margin_top"@.len() == 10,
        "text_color"@.len() == 10,
        "title_size"@[1] == 'i',
        "margin_top"@[1] == 'a',
        "text_color"@[1] == 'e',
        "note_path"@.len() == 9,
        "font_size"@.len() == 9,
        "note_path"@[0] == 'n',
        "font_size"@[0] == 'f',
        "monitor_name"@.len() == 12,
        "margin_right"@.len() == 12,
        "border_color"@.len() == 12,
        "border_width"@.len() == 12,
        "monitor_name"@[0] == 'm',
        "monitor_name"@[1] == 'o',
        "margin_right"@[0] == 'm',
        "margin_right"@[1] == 'a',
        "border_color"@[0] == 'b',
        "border_color"@[7] == 'c',
        "border_width"@[0] == 'b',
        "border_width"@[7] == 'w',
        "anchor_bottom"@.len() == 13,
        "margin_bottom"@.len() == 13,
        "border_radius"@.len() == 13,
        "anchor_bottom"@[0] == 'a',
        "margin_bottom"@[0] == 'm',
        "border_radius"@[0] == 'b',
        "anchor_right"@.len() == 12,
        "anchor_right"@[0] == 'a',
        "margin_left"@.len() == 11,
        "font_family"@.len() == 11,
        "margin_left"@[0] == 'm',
        "font_family"@[0] == 'f',
        "background_color"@.len() == 16,
{
    reveal_strlit("title");
    reveal_strlit("title_size");
    reveal_strlit("tasks");
    reveal_strlit("note_path");
    reveal_strlit("monitor_name");
    reveal_strlit("anchor_bottom");
    reveal_strlit("anchor_right");
    reveal_strlit("margin_top");
    reveal_strlit("margin_bottom");
    reveal_strlit("margin_left");
    reveal_strlit("margin_right");
    reveal_strlit("background_color");
    reveal_strlit("text_color");
    reveal_strlit("border_color");
    reveal_strlit("font_size");
    reveal_strlit("border_width");
    reveal_strlit("border_radius");
    reveal_strlit("font_family");
}

/// Fields are read one by one: where a document lacks a key, the field of that key has
/// its default and every other field is what the document gives for it.
pub proof fn omitted_field_takes_its_default(
    entries: Map<Seq<char>, Entry>,
    key: Seq<char>,
    defaults: ConfigModel,
)
    ensures
        merged_over(entries.remove(key), defaults) == with_default(
            merged_over(entries, defaults),
            key,
            defaults,
        ),
{
    lemma_keys_differ();
    let a = merged_over(entries.remove(key), defaults);
    let b = with_default(merged_over(entries, defaults), key, defaults);
    assert(a.title == b.title);
    assert(a.title_size == b.title_size);
    assert(a.tasks == b.tasks);
    assert(a.note_path == b.note_path);
    assert(a.monitor_name == b.monitor_name);
    assert(a.anchor_bottom == b.anchor_bottom);
    assert(a.anchor_right == b.anchor_right);
    assert(a.margin_top == b.margin_top);
    assert(a.margin_bottom == b.margin_bottom);
    assert(a.margin_left == b.margin_left);
    assert(a.margin_right == b.margin_right);
    assert(a.background_color == b.background_color);
    assert(a.text_color == b.text_color);
    assert(a.border_color == b.border_color);
    assert(a.font_size == b.font_size);
    assert(a.border_width == b.border_width);
    assert(a.border_radius == b.border_radius);
    assert(a.font_family == b.font_family);
}

/// A document without any key gives what no document gives: every default.
pub proof fn empty_document_gives_defaults(config_dir: Seq<char>)
    ensures
        merged(Map::empty(), config_dir) == field_defaults(config_dir),
        merged_over(Map::empty(), default_model(config_dir)) == field_defaults(config_dir),
        config_of(Map::empty(), config_dir) == default_model(config_dir),
        first_misfit(Map::empty()) is None,
{
}

/// The rule for margins: with none of the four given, the bottom and the right margin
/// are 40 and the other two stay absent; with any of them given, nothing is added. No
/// other field is touched, and applying the rule twice changes nothing more.
pub proof fn margins_default_together(config: ConfigModel)
    ensures
        config.margin_top is None && config.margin_bottom is None && config.margin_left is None
            && config.margin_right is None ==> normalized(config) == (ConfigModel {
            margin_top: None,
            margin_bottom: Some(40i32),
            margin_left: None,
            margin_right: Some(40i32),
            ..config
        }),
        config.margin_top is Some || config.margin_bottom is Some || config.margin_left is Some
            || config.margin_right is Some ==> normalized(config) == config,
        normalized(normalized(config)) == normalized(config),
{
}

/// A file that is no TOML document never fails a tolerant load, which gives every
/// default and a line for the operator, and always fails a strict load, with the
/// parser's message.
pub proof fn malformed_source_by_policy(text: Seq<char>, config_dir: Seq<char>)
    requires
        toml_document(text) is Err,
    ensures
        tolerant_config(Some(text), config_dir) == default_model(config_dir),
        tolerant_diagnostic(Some(text), config_dir) is Some,
        strict_config(Some(text), config_dir) == Err::<ConfigModel, _>(
            LoadErrorModel::ConfigMalformed(toml_document(text)->Err_0),
        ),
{
}

/// Where the strict policy gives a configuration, the tolerant policy gives the same.
pub proof fn strict_agrees_with_tolerant(source: Option<Seq<char>>, config_dir: Seq<char>)
    requires
        strict_config(source, config_dir) is Ok,
    ensures
        strict_config(source, config_dir)->Ok_0 == tolerant_config(source, config_dir),
        tolerant_diagnostic(source, config_dir) is None,
{
}

} // verus!
