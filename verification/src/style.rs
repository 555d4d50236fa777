//! The style sheet of the overlay window, as text for the toolkit.

use crate::config::{Config, ConfigModel};
use crate::text::{decimal, join, joined, push_decimal};
use vstd::prelude::*;

verus! {

/// The style sheet that a configuration asks for: the window's background, border and
/// corner radius, and the label's colour, fonts and size. Colours and font names stand
/// in it as the configuration gives them.
pub open spec fn css_text(config: ConfigModel) -> Seq<char> {
    ".glint-window {\n            background-color: "@
        + config.background_color
        + "; \n            background-image: none; \n            border-radius: "@
        + decimal(config.border_radius as nat)
        + "px; \n            border: "@
        + decimal(config.border_width as nat)
        + "px solid "@
        + config.border_color
        + ";\n            min-width: 300px;\n        } \n        label { \n            color: "@
        + config.text_color
        + "; \n            padding: 25px 30px; \n            font-family: "@
        + joined(config.font_family, ", "@)
        + ";\n            font-size: "@
        + decimal(config.font_size as nat)
        + "pt;\n            margin: 0;\n        }"@
}

/// Writes the style sheet that `config` asks for.
pub fn generate_css(config: &Config) -> (out: String)
    ensures
        out@ == css_text(config@),
{
    let fonts = join(&config.font_family, ", ");
    let mut out = String::new();
    out.append(".glint-window {\n            background-color: ");
    out.append(config.background_color.as_str());
    out.append("; \n            background-image: none; \n            border-radius: ");
    push_decimal(&mut out, config.border_radius);
    out.append("px; \n            border: ");
    push_decimal(&mut out, config.border_width);
    out.append("px solid ");
    out.append(config.border_color.as_str());
    out.append(";\n            min-width: 300px;\n        } \n        label { \n            color: ");
    out.append(config.text_color.as_str());
    out.append("; \n            padding: 25px 30px; \n            font-family: ");
    out.append(fonts.as_str());
    out.append(";\n            font-size: ");
    push_decimal(&mut out, config.font_size);
    out.append("pt;\n            margin: 0;\n        }");
    assert(out@ == css_text(config@));
    out
}

} // verus!
