//! The configuration: its fields and their defaults, comparing two snapshots, and the
//! task list that it holds as markup.

use crate::load::normalized;
use crate::markup::{markup_of, render_titled, Preset, StyleModel, StyleParams};
use crate::paths::{config_file_in, default_note_in, default_note_path, join_path};
use crate::text::{
    copy_texts, same_optional_text, same_texts, terminate_lines, terminated, texts,
};
use vstd::prelude::*;

verus! {

/// Everything the user can tune. A value of this type is a snapshot: it is made anew on
/// every reload and replaced as a whole.
#[derive(Clone, Debug, PartialEq, Eq)]
pub struct Config {
    /// Title above the task list.
    pub title: String,
    /// Size of the title, in points.
    pub title_size: u32,
    /// The task list, one Markdown line each.
    pub tasks: Vec<String>,
    /// Path of the note; a leading `~` stands for the home directory.
    pub note_path: String,
    /// Connector name of the monitor to show the overlay on; `None` pins it to no monitor.
    pub monitor_name: Option<String>,
    /// Whether the overlay sticks to the bottom edge.
    pub anchor_bottom: bool,
    /// Whether the overlay sticks to the right edge.
    pub anchor_right: bool,
    /// Distance from the top edge.
    pub margin_top: Option<i32>,
    /// Distance from the bottom edge.
    pub margin_bottom: Option<i32>,
    /// Distance from the left edge.
    pub margin_left: Option<i32>,
    /// Distance from the right edge.
    pub margin_right: Option<i32>,
    /// Background colour, as written in the file.
    pub background_color: String,
    /// Text colour, as written in the file.
    pub text_color: String,
    /// Colour of the border, of the title and of headings, as written in the file.
    pub border_color: String,
    /// Size of the text, in points.
    pub font_size: u32,
    /// Width of the border, in pixels.
    pub border_width: u32,
    /// Radius of the corners, in pixels.
    pub border_radius: u32,
    /// Font families, most wanted first.
    pub font_family: Vec<String>,
}

/// The mathematical value of a [`Config`]. Two snapshots are structurally equal exactly
/// when their models are equal.
pub struct ConfigModel {
    pub title: Seq<char>,
    pub title_size: u32,
    pub tasks: Seq<Seq<char>>,
    pub note_path: Seq<char>,
    pub monitor_name: Option<Seq<char>>,
    pub anchor_bottom: bool,
    pub anchor_right: bool,
    pub margin_top: Option<i32>,
    pub margin_bottom: Option<i32>,
    pub margin_left: Option<i32>,
    pub margin_right: Option<i32>,
    pub background_color: Seq<char>,
    pub text_color: Seq<char>,
    pub border_color: Seq<char>,
    pub font_size: u32,
    pub border_width: u32,
    pub border_radius: u32,
    pub font_family: Seq<Seq<char>>,
}

impl View for Config {
    type V = ConfigModel;

    open spec fn view(&self) -> ConfigModel {
        ConfigModel {
            title: self.title@,
            title_size: self.title_size,
            tasks: texts(self.tasks@),
            note_path: self.note_path@,
            monitor_name: self.monitor_name.deep_view(),
            anchor_bottom: self.anchor_bottom,
            anchor_right: self.anchor_right,
            margin_top: self.margin_top,
            margin_bottom: self.margin_bottom,
            margin_left: self.margin_left,
            margin_right: self.margin_right,
            background_color: self.background_color@,
            text_color: self.text_color@,
            border_color: self.border_color@,
            font_size: self.font_size,
            border_width: self.border_width,
            border_radius: self.border_radius,
            font_family: texts(self.font_family@),
        }
    }
}

/// The title when the file gives none.
pub open spec fn default_title_text() -> Seq<char> {
    "✨ GLINT"@
}

/// The task list when the file gives none.
pub open spec fn default_task_lines() -> Seq<Seq<char>> {
    seq![
        "⚠️ No valid config found, using defaults."@,
        "Please Check example config at example/config.toml in our github repository"@,
        "🐧 ~/.config/glint/config.toml"@,
    ]
}

/// The font families when the file gives none.
pub open spec fn default_font_families() -> Seq<Seq<char>> {
    seq!["JetBrains Mono"@, "sans-serif"@]
}

/// The default of every field on its own, for the per-user configuration directory
/// `config_dir`. No margin has a default of its own.
pub open spec fn field_defaults(config_dir: Seq<char>) -> ConfigModel {
    ConfigModel {
        title: default_title_text(),
        title_size: 24,
        tasks: default_task_lines(),
        note_path: default_note_in(config_dir),
        monitor_name: None,
        anchor_bottom: true,
        anchor_right: true,
        margin_top: None,
        margin_bottom: None,
        margin_left: None,
        margin_right: None,
        background_color: "#1e1e2e"@,
        text_color: "#cdd6f4"@,
        border_color: "#89b4fa"@,
        font_size: 14,
        border_width: 3,
        border_radius: 16,
        font_family: default_font_families(),
    }
}

/// The configuration in which every field has its default: the defaults of the fields,
/// with the margins that the rule for margins then gives.
pub open spec fn default_model(config_dir: Seq<char>) -> ConfigModel {
    normalized(field_defaults(config_dir))
}

/// Title when the file gives none.
pub fn default_title() -> (title: String)
    ensures
        title@ == default_title_text(),
{
    "✨ GLINT".to_owned()
}

/// Title size when the file gives none.
pub fn default_title_size() -> (size: u32)
    ensures
        size == 24,
{
    24
}

/// Task list when the file gives none: three lines that say so and point to an example.
pub fn default_tasks() -> (tasks: Vec<String>)
    ensures
        texts(tasks@) == default_task_lines(),
{
    let mut tasks: Vec<String> = Vec::new();
    tasks.push("⚠️ No valid config found, using defaults.".to_owned());
    tasks.push(
        "Please Check example config at example/config.toml in our github repository".to_owned(),
    );
    tasks.push("🐧 ~/.config/glint/config.toml".to_owned());
    assert(texts(tasks@) == default_task_lines());
    tasks
}

/// Font families when the file gives none: a monospace face, then any sans-serif one.
pub fn default_font_family() -> (fonts: Vec<String>)
    ensures
        texts(fonts@) == default_font_families(),
{
    let mut fonts: Vec<String> = Vec::new();
    fonts.push("JetBrains Mono".to_owned());
    fonts.push("sans-serif".to_owned());
    assert(texts(fonts@) == default_font_families());
    fonts
}

/// Monitor when the file names none: no pinning.
pub fn default_monitor_name() -> (name: Option<String>)
    ensures
        name is None,
{
    None
}

/// Both anchors are on unless the file switches them off.
pub fn default_true() -> (on: bool)
    ensures
        on,
{
    true
}

/// Distance from the bottom and right edges when the file gives no margin at all.
pub fn default_margin() -> (margin: i32)
    ensures
        margin == 40,
{
    40
}

/// Background colour when the file gives none.
pub fn default_bg() -> (color: String)
    ensures
        color@ == "#1e1e2e"@,
{
    "#1e1e2e".to_owned()
}

/// Text colour when the file gives none.
pub fn default_text() -> (color: String)
    ensures
        color@ == "#cdd6f4"@,
{
    "#cdd6f4".to_owned()
}

/// Text size when the file gives none.
pub fn default_font_size() -> (size: u32)
    ensures
        size == 14,
{
    14
}

/// Border width when the file gives none.
pub fn default_border_width() -> (width: u32)
    ensures
        width == 3,
{
    3
}

/// Border colour when the file gives none.
pub fn default_border_color() -> (color: String)
    ensures
        color@ == "#89b4fa"@,
{
    "#89b4fa".to_owned()
}

/// Corner radius when the file gives none.
pub fn default_border_radius() -> (radius: u32)
    ensures
        radius == 16,
{
    16
}

/// The style that a configuration gives the renderer in the preset `preset`.
pub open spec fn style_of(config: ConfigModel, preset: Preset) -> StyleModel {
    StyleModel {
        title_size: config.title_size,
        accent_color: config.border_color,
        font_family: config.font_family,
        preset,
    }
}

/// The task list of a configuration as markup: the title, then the tasks as Markdown, one
/// line each.
pub open spec fn tasks_markup(config: ConfigModel) -> Seq<char> {
    markup_of(style_of(config, Preset::Tasks), config.title, terminated(config.tasks))
}

/// Whether two optional margins are both absent or the same number.
fn same_margin(a: Option<i32>, b: Option<i32>) -> (same: bool)
    ensures
        same == (a == b),
{
    match a {
        Some(x) => match b {
            Some(y) => x == y,
            None => false,
        },
        None => b.is_none(),
    }
}

impl Config {
    /// The path of the configuration file below the per-user configuration directory.
    pub fn get_path(config_dir: &str) -> (path: String)
        ensures
            path@ == config_file_in(config_dir@),
    {
        join_path(config_dir, "glint/config.toml")
    }

    /// The configuration in which every field has its default.
    pub fn default_config(config_dir: &str) -> (config: Config)
        ensures
            config@ == default_model(config_dir@),
    {
        Config {
            title: default_title(),
            title_size: default_title_size(),
            tasks: default_tasks(),
            note_path: default_note_path(config_dir),
            monitor_name: default_monitor_name(),
            anchor_bottom: default_true(),
            anchor_right: default_true(),
            margin_top: None,
            margin_bottom: Some(default_margin()),
            margin_left: None,
            margin_right: Some(default_margin()),
            background_color: default_bg(),
            text_color: default_text(),
            border_color: default_border_color(),
            font_size: default_font_size(),
            border_width: default_border_width(),
            border_radius: default_border_radius(),
            font_family: default_font_family(),
        }
    }

    /// Structural equality: whether every field of `self` matches the same field of
    /// `other` by value.
    pub fn structurally_equal(&self, other: &Config) -> (same: bool)
        ensures
            same == (self@ == other@),
    {
        self.title == other.title && self.title_size == other.title_size && same_texts(
            &self.tasks,
            &other.tasks,
        ) && self.note_path == other.note_path && same_optional_text(
            &self.monitor_name,
            &other.monitor_name,
        ) && self.anchor_bottom == other.anchor_bottom && self.anchor_right == other.anchor_right
            && same_margin(self.margin_top, other.margin_top) && same_margin(
            self.margin_bottom,
            other.margin_bottom,
        ) && same_margin(self.margin_left, other.margin_left) && same_margin(
            self.margin_right,
            other.margin_right,
        ) && self.background_color == other.background_color && self.text_color
            == other.text_color && self.border_color == other.border_color && self.font_size
            == other.font_size && self.border_width == other.border_width && self.border_radius
            == other.border_radius && same_texts(&self.font_family, &other.font_family)
    }

    /// What the renderer takes from this configuration, in the preset `preset`.
    pub fn style(&self, preset: Preset) -> (style: StyleParams)
        ensures
            style@ == style_of(self@, preset),
    {
        StyleParams {
            title_size: self.title_size,
            accent_color: self.border_color.clone(),
            font_family: copy_texts(&self.font_family),
            preset,
        }
    }

    /// Renders the title and the task list of this configuration as markup, in the
    /// `Tasks` preset.
    pub fn format_markdown(&self) -> (out: String)
        ensures
            out@ == tasks_markup(self@),
    {
        let style = self.style(Preset::Tasks);
        let body = terminate_lines(&self.tasks);
        render_titled(self.title.as_str(), body.as_str(), &style)
    }
}

} // verus!
