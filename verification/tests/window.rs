use glint::config::Config;
use glint::layout::{pick_monitor, window_layout, EdgePlan, WindowLayout};
use glint::plain::{default_config, get_config, label_text, plain_css, plain_layout};
use glint::style::generate_css;

fn sample() -> Config {
    let mut config = Config::default_config("/cfg");
    config.background_color = "#101010".to_string();
    config.text_color = "#eeeeee".to_string();
    config.border_color = "rgb(1, 2, 3)".to_string();
    config.border_radius = 0;
    config.border_width = 12;
    config.font_size = 105;
    config.font_family = vec!["Fira Code".to_string(), "monospace".to_string()];
    config
}

#[test]
fn css_matches_the_template() {
    let config = sample();
    let want = format!(
        ".glint-window {{
            background-color: {bg}; 
            background-image: none; 
            border-radius: {b_radius}px; 
            border: {b_width}px solid {b_color};
            min-width: 300px;
        }} 
        label {{ 
            color: {text}; 
            padding: 25px 30px; 
            font-family: {ff};
            font-size: {size}pt;
            margin: 0;
        }}",
        ff = "Fira Code, monospace",
        bg = "#101010",
        b_width = 12,
        b_color = "rgb(1, 2, 3)",
        b_radius = 0,
        text = "#eeeeee",
        size = 105,
    );
    assert_eq!(generate_css(&config), want);
}

#[test]
fn css_with_no_font_has_an_empty_font_list() {
    let mut config = sample();
    config.font_family = Vec::new();
    assert!(generate_css(&config).contains("font-family: ;\n"));
}

#[test]
fn plain_css_matches_the_template() {
    let config = sample();
    let want = format!(
        ".glint-window {{ 
            background-color: {bg}; 
            background-image: none; 
            border-radius: 16px; 
            min-width: 200px;
            box-shadow: none;
            border: none;
        }} 
        label {{ 
            color: {text}; 
            padding: 30px; 
            font-family: 'JetBrains Mono', 'sans-serif'; 
            font-size: {font_size}pt;
        }}",
        bg = "#101010",
        text = "#eeeeee",
        font_size = 105,
    );
    assert_eq!(plain_css(&config), want);
}

#[test]
fn layout_anchors_bottom_and_right_only() {
    let mut config = sample();
    config.anchor_bottom = true;
    config.anchor_right = false;
    config.margin_top = Some(5);
    config.margin_bottom = Some(40);
    config.margin_left = None;
    config.margin_right = Some(-3);
    assert_eq!(
        window_layout(&config),
        WindowLayout {
            top: EdgePlan { anchor: false, margin: Some(5) },
            bottom: EdgePlan { anchor: true, margin: Some(40) },
            left: EdgePlan { anchor: false, margin: None },
            right: EdgePlan { anchor: false, margin: Some(-3) },
        }
    );
}

#[test]
fn plain_layout_mirrors_anchors_and_margins() {
    let mut config = sample();
    config.anchor_bottom = true;
    config.anchor_right = false;
    config.margin_bottom = Some(40);
    config.margin_right = Some(7);
    assert_eq!(
        plain_layout(&config),
        WindowLayout {
            top: EdgePlan { anchor: false, margin: Some(40) },
            bottom: EdgePlan { anchor: true, margin: Some(40) },
            left: EdgePlan { anchor: true, margin: Some(7) },
            right: EdgePlan { anchor: false, margin: Some(7) },
        }
    );
}

#[test]
fn label_text_is_title_and_tasks() {
    let mut config = sample();
    config.title = "T".to_string();
    config.tasks = vec!["a".to_string(), "b".to_string()];
    assert_eq!(label_text(&config), "T\n\na\nb");
    config.tasks = Vec::new();
    assert_eq!(label_text(&config), "T\n\n");
}

#[test]
fn plain_default_config_points_to_the_file() {
    let config = default_config("/cfg");
    let mut want = Config::default_config("/cfg");
    want.tasks = vec!["Create ~/.config/glint/config.toml".to_string()];
    assert_eq!(config, want);
    assert_eq!(config.title, "\u{2728} GLINT");
    assert!(config.anchor_bottom);
    assert!(config.anchor_right);
    assert_eq!(config.margin_bottom, Some(40));
    assert_eq!(config.margin_right, Some(40));
    assert_eq!(config.background_color, "#1e1e2e");
    assert_eq!(config.text_color, "#cdd6f4");
    assert_eq!(config.font_size, 14);
}

#[test]
fn plain_config_with_title_alone_keeps_the_other_defaults() {
    let config = get_config(Some("title = 'Hi'"), "/cfg");
    let mut want = default_config("/cfg");
    want.title = "Hi".to_string();
    assert_eq!(config, want);
    assert_eq!(config.title, "Hi");
    assert_eq!(config.font_size, 14);
    assert_eq!(config.margin_bottom, Some(40));
    assert_eq!(config.margin_right, Some(40));
    assert_eq!(config.tasks, vec!["Create ~/.config/glint/config.toml".to_string()]);
}

#[test]
fn plain_config_reads_each_field_on_its_own() {
    let complete = "title = \"T\"\ntasks = [\"a\"]\nanchor_bottom = false\nanchor_right = true\n\
                    margin_bottom = 1\nmargin_right = 2\nbackground_color = \"#000\"\n\
                    text_color = \"#fff\"\nfont_size = 11\n";
    let mut full = default_config("/cfg");
    full.title = "T".to_string();
    full.tasks = vec!["a".to_string()];
    full.anchor_bottom = false;
    full.margin_bottom = Some(1);
    full.margin_right = Some(2);
    full.background_color = "#000".to_string();
    full.text_color = "#fff".to_string();
    full.font_size = 11;
    assert_eq!(get_config(Some(complete), "/cfg"), full);

    let without_size = complete.replace("font_size = 11\n", "");
    let mut want = full.clone();
    want.font_size = 14;
    assert_eq!(get_config(Some(&without_size), "/cfg"), want);

    let mistyped = complete.replace("font_size = 11", "font_size = \"11\"");
    assert_eq!(get_config(Some(&mistyped), "/cfg"), want);

    let without_tasks = complete.replace("tasks = [\"a\"]\n", "");
    let mut want = full.clone();
    want.tasks = vec!["Create ~/.config/glint/config.toml".to_string()];
    assert_eq!(get_config(Some(&without_tasks), "/cfg"), want);
}

#[test]
fn plain_config_applies_the_margin_rule() {
    let config = get_config(Some("margin_bottom = 5"), "/cfg");
    assert_eq!(config.margin_bottom, Some(5));
    assert_eq!(config.margin_right, None);
    let config = get_config(Some("font_size = 9"), "/cfg");
    assert_eq!(config.margin_bottom, Some(40));
    assert_eq!(config.margin_right, Some(40));
    assert_eq!(config.margin_top, None);
    assert_eq!(config.margin_left, None);
}

#[test]
fn plain_config_falls_back_without_a_document() {
    assert_eq!(get_config(Some("not toml ="), "/cfg"), default_config("/cfg"));
    assert_eq!(get_config(None, "/cfg"), default_config("/cfg"));
    assert_eq!(get_config(Some(""), "/cfg"), default_config("/cfg"));
}

#[test]
fn monitor_is_picked_by_connector_name() {
    let connectors = vec![
        Some("eDP-1".to_string()),
        None,
        Some("DP-2".to_string()),
        Some("DP-2".to_string()),
    ];
    assert_eq!(pick_monitor(&connectors, &Some("DP-2".to_string())), Some(2));
    assert_eq!(pick_monitor(&connectors, &Some("eDP-1".to_string())), Some(0));
    assert_eq!(pick_monitor(&connectors, &Some("HDMI-1".to_string())), None);
    assert_eq!(pick_monitor(&connectors, &None), None);
    assert_eq!(pick_monitor(&Vec::new(), &Some("DP-2".to_string())), None);
}
