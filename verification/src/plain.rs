//! The plain overlay: title and tasks as unformatted text, and a fixed look.

use crate::config::{default_model, Config, ConfigModel};
use crate::layout::{EdgePlan, WindowLayout};
use crate::load::{merge_over, merged_over, normalize_margins, normalized};
use crate::paths::optional_text;
use crate::source::{parse_table, toml_document};
use crate::text::{decimal, join, joined, push_decimal, texts};
use vstd::prelude::*;

verus! {

/// The defaults of the plain overlay: those of every field, but for the task list, which
/// is one task that says where to create the file.
pub open spec fn plain_defaults(config_dir: Seq<char>) -> ConfigModel {
    ConfigModel {
        tasks: seq!["Create ~/.config/glint/config.toml"@],
        ..default_model(config_dir)
    }
}

/// The configuration of the plain overlay. Without a file, or with one that is no TOML
/// document, it is the plain defaults. Otherwise each field is what the document gives
/// for it, or its plain default where the document gives none, and the rule for margins
/// is applied to the result.
pub open spec fn plain_config(source: Option<Seq<char>>, config_dir: Seq<char>) -> ConfigModel {
    match source {
        None => plain_defaults(config_dir),
        Some(text) => match toml_document(text) {
            Err(_) => plain_defaults(config_dir),
            Ok(entries) => normalized(merged_over(entries, plain_defaults(config_dir))),
        },
    }
}

/// The layout of the plain overlay: it sticks to the top where not to the bottom and to
/// the left where not to the right, and keeps the bottom margin from both horizontal
/// edges and the right margin from both vertical ones.
pub open spec fn plain_layout_of(config: ConfigModel) -> WindowLayout {
    WindowLayout {
        top: EdgePlan { anchor: !config.anchor_bottom, margin: config.margin_bottom },
        bottom: EdgePlan { anchor: config.anchor_bottom, margin: config.margin_bottom },
        left: EdgePlan { anchor: !config.anchor_right, margin: config.margin_right },
        right: EdgePlan { anchor: config.anchor_right, margin: config.margin_right },
    }
}

/// The text of the plain overlay: the title, a blank line, and the tasks on a line each.
pub open spec fn label_text_of(config: ConfigModel) -> Seq<char> {
    config.title + "\n\n"@ + joined(config.tasks, "\n"@)
}

/// The style sheet of the plain overlay: background, text colour and text size from the
/// configuration, everything else fixed.
pub open spec fn plain_css_text(config: ConfigModel) -> Seq<char> {
    ".glint-window { \n            background-color: "@
        + config.background_color
        + "; \n            background-image: none; \n            border-radius: 16px; \n            min-width: 200px;\n            box-shadow: none;\n            border: none;\n        } \n        label { \n            color: "@
        + config.text_color
        + "; \n            padding: 30px; \n            font-family: 'JetBrains Mono', 'sans-serif'; \n            font-size: "@
        + decimal(config.font_size as nat)
        + "pt;\n        }"@
}

/// The defaults of the plain overlay.
pub fn default_config(config_dir: &str) -> (config: Config)
    ensures
        config@ == plain_defaults(config_dir@),
{
    let mut config = Config::default_config(config_dir);
    let mut tasks: Vec<String> = Vec::new();
    tasks.push("Create ~/.config/glint/config.toml".to_owned());
    assert(texts(tasks@) == seq!["Create ~/.config/glint/config.toml"@]);
    config.tasks = tasks;
    config
}

/// Loads the configuration of the plain overlay. `source` is the text of the
/// configuration file, `None` if there is no file or it cannot be read.
pub fn get_config(source: Option<&str>, config_dir: &str) -> (config: Config)
    ensures
        config@ == plain_config(optional_text(source), config_dir@),
{
    match source {
        None => default_config(config_dir),
        Some(text) => match parse_table(text) {
            Err(_) => default_config(config_dir),
            Ok(table) => normalize_margins(merge_over(&table, default_config(config_dir))),
        },
    }
}

/// The layout of the plain overlay for `config`.
pub fn plain_layout(config: &Config) -> (layout: WindowLayout)
    ensures
        layout == plain_layout_of(config@),
{
    WindowLayout {
        top: EdgePlan { anchor: !config.anchor_bottom, margin: config.margin_bottom },
        bottom: EdgePlan { anchor: config.anchor_bottom, margin: config.margin_bottom },
        left: EdgePlan { anchor: !config.anchor_right, margin: config.margin_right },
        right: EdgePlan { anchor: config.anchor_right, margin: config.margin_right },
    }
}

/// The text of the plain overlay for `config`.
pub fn label_text(config: &Config) -> (out: String)
    ensures
        out@ == label_text_of(config@),
{
    let tasks = join(&config.tasks, "\n");
    let mut out = String::new();
    out.append(config.title.as_str());
    out.append("\n\n");
    out.append(tasks.as_str());
    out
}

/// Writes the style sheet of the plain overlay for `config`.
pub fn plain_css(config: &Config) -> (out: String)
    ensures
        out@ == plain_css_text(config@),
{
    let mut out = String::new();
    out.append(".glint-window { \n            background-color: ");
    out.append(config.background_color.as_str());
    out.append("; \n            background-image: none; \n            border-radius: 16px; \n            min-width: 200px;\n            box-shadow: none;\n            border: none;\n        } \n        label { \n            color: ");
    out.append(config.text_color.as_str());
    out.append("; \n            padding: 30px; \n            font-family: 'JetBrains Mono', 'sans-serif'; \n            font-size: ");
    push_decimal(&mut out, config.font_size);
    out.append("pt;\n        }");
    assert(out@ == plain_css_text(config@));
    out
}

} // verus!
