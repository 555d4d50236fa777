use glint::config::{
    default_bg, default_border_color, default_border_radius, default_border_width,
    default_font_family, default_font_size, default_margin, default_monitor_name, default_tasks,
    default_text, default_title, default_title_size, default_true, Config,
};
use glint::load::{find_misfit, merge, merge_over, normalize_margins, startup_config, LoadError};
use toml::{Table, Value};

const FULL: [(&str, &str); 18] = [
    ("title", "title = \"T\""),
    ("title_size", "title_size = 30"),
    ("tasks", "tasks = [\"a\", \"b\"]"),
    ("note_path", "note_path = \"~/n.md\""),
    ("monitor_name", "monitor_name = \"DP-1\""),
    ("anchor_bottom", "anchor_bottom = false"),
    ("anchor_right", "anchor_right = false"),
    ("margin_top", "margin_top = 1"),
    ("margin_bottom", "margin_bottom = -2"),
    ("margin_left", "margin_left = 3"),
    ("margin_right", "margin_right = 4"),
    ("background_color", "background_color = \"#000\""),
    ("text_color", "text_color = \"#111\""),
    ("border_color", "border_color = \"#222\""),
    ("font_size", "font_size = 9"),
    ("border_width", "border_width = 1"),
    ("border_radius", "border_radius = 2"),
    ("font_family", "font_family = [\"Mono\"]"),
];

fn document_without(skip: &str) -> String {
    let mut text = String::from("unknown_key = 5\n");
    for (key, line) in FULL {
        if key != skip {
            text.push_str(line);
            text.push('\n');
        }
    }
    text
}

fn full_config() -> Config {
    Config {
        title: "T".to_string(),
        title_size: 30,
        tasks: vec!["a".to_string(), "b".to_string()],
        note_path: "~/n.md".to_string(),
        monitor_name: Some("DP-1".to_string()),
        anchor_bottom: false,
        anchor_right: false,
        margin_top: Some(1),
        margin_bottom: Some(-2),
        margin_left: Some(3),
        margin_right: Some(4),
        background_color: "#000".to_string(),
        text_color: "#111".to_string(),
        border_color: "#222".to_string(),
        font_size: 9,
        border_width: 1,
        border_radius: 2,
        font_family: vec!["Mono".to_string()],
    }
}

fn with_default(mut config: Config, key: &str) -> Config {
    match key {
        "title" => config.title = "\u{2728} GLINT".to_string(),
        "title_size" => config.title_size = 24,
        "tasks" => {
            config.tasks = vec![
                "\u{26a0}\u{fe0f} No valid config found, using defaults.".to_string(),
                "Please Check example config at example/config.toml in our github repository"
                    .to_string(),
                "\u{1f427} ~/.config/glint/config.toml".to_string(),
            ]
        }
        "note_path" => config.note_path = "/cfg/glint/notes.md".to_string(),
        "monitor_name" => config.monitor_name = None,
        "anchor_bottom" => config.anchor_bottom = true,
        "anchor_right" => config.anchor_right = true,
        "margin_top" => config.margin_top = None,
        "margin_bottom" => config.margin_bottom = None,
        "margin_left" => config.margin_left = None,
        "margin_right" => config.margin_right = None,
        "background_color" => config.background_color = "#1e1e2e".to_string(),
        "text_color" => config.text_color = "#cdd6f4".to_string(),
        "border_color" => config.border_color = "#89b4fa".to_string(),
        "font_size" => config.font_size = 14,
        "border_width" => config.border_width = 3,
        "border_radius" => config.border_radius = 16,
        "font_family" => {
            config.font_family = vec!["JetBrains Mono".to_string(), "sans-serif".to_string()]
        }
        _ => {}
    }
    config
}

#[test]
fn defaults_have_their_documented_values() {
    assert_eq!(default_title(), "\u{2728} GLINT");
    assert_eq!(default_title_size(), 24);
    assert_eq!(
        default_tasks(),
        vec![
            "\u{26a0}\u{fe0f} No valid config found, using defaults.".to_string(),
            "Please Check example config at example/config.toml in our github repository"
                .to_string(),
            "\u{1f427} ~/.config/glint/config.toml".to_string(),
        ]
    );
    assert_eq!(default_monitor_name(), None);
    assert!(default_true());
    assert_eq!(default_margin(), 40);
    assert_eq!(default_bg(), "#1e1e2e");
    assert_eq!(default_text(), "#cdd6f4");
    assert_eq!(default_font_size(), 14);
    assert_eq!(default_border_width(), 3);
    assert_eq!(default_border_color(), "#89b4fa");
    assert_eq!(default_border_radius(), 16);
    assert_eq!(default_font_family(), vec!["JetBrains Mono".to_string(), "sans-serif".to_string()]);
}

#[test]
fn default_config_holds_every_default() {
    let config = Config::default_config("/cfg");
    assert_eq!(config.title, default_title());
    assert_eq!(config.title_size, 24);
    assert_eq!(config.tasks, default_tasks());
    assert_eq!(config.note_path, "/cfg/glint/notes.md");
    assert_eq!(config.monitor_name, None);
    assert!(config.anchor_bottom);
    assert!(config.anchor_right);
    assert_eq!(config.margin_top, None);
    assert_eq!(config.margin_bottom, Some(40));
    assert_eq!(config.margin_left, None);
    assert_eq!(config.margin_right, Some(40));
    assert_eq!(config.background_color, "#1e1e2e");
    assert_eq!(config.text_color, "#cdd6f4");
    assert_eq!(config.border_color, "#89b4fa");
    assert_eq!(config.font_size, 14);
    assert_eq!(config.border_width, 3);
    assert_eq!(config.border_radius, 16);
    assert_eq!(config.font_family, default_font_family());
}

#[test]
fn config_path_is_below_the_config_dir() {
    assert_eq!(Config::get_path("/home/u/.config"), "/home/u/.config/glint/config.toml");
    assert_eq!(Config::get_path("."), "./glint/config.toml");
    assert_eq!(Config::get_path("/cfg/"), "/cfg/glint/config.toml");
    assert_eq!(Config::get_path(""), "glint/config.toml");
}

#[test]
fn full_document_sets_every_field() {
    let text = document_without("");
    assert_eq!(Config::load(Some(&text), "/cfg"), full_config());
    assert_eq!(Config::load_strict(Some(&text), "/cfg"), Ok(full_config()));
    let loaded = Config::load_reporting(Some(&text), "/cfg");
    assert_eq!(loaded.config, full_config());
    assert_eq!(loaded.diagnostic, None);
}

#[test]
fn omitted_field_gets_its_default_and_the_others_stay() {
    for (key, _) in FULL {
        let text = document_without(key);
        let want = with_default(full_config(), key);
        assert_eq!(Config::load(Some(&text), "/cfg"), want, "tolerant, without {}", key);
        assert_eq!(Config::load_strict(Some(&text), "/cfg"), Ok(want), "strict, without {}", key);
    }
}

#[test]
fn missing_file_gives_defaults_or_unreadable() {
    assert_eq!(Config::load(None, "/cfg"), Config::default_config("/cfg"));
    let loaded = Config::load_reporting(None, "/cfg");
    assert_eq!(loaded.config, Config::default_config("/cfg"));
    assert_eq!(loaded.diagnostic, None);
    assert_eq!(Config::load_strict(None, "/cfg"), Err(LoadError::ConfigUnreadable));
}

#[test]
fn empty_document_gives_defaults() {
    assert_eq!(Config::load(Some(""), "/cfg"), Config::default_config("/cfg"));
    assert_eq!(Config::load_strict(Some(""), "/cfg"), Ok(Config::default_config("/cfg")));
}

#[test]
fn all_margins_absent_gives_bottom_and_right_forty() {
    let config = Config::load(Some("title = \"x\""), "/cfg");
    assert_eq!(config.margin_bottom, Some(40));
    assert_eq!(config.margin_right, Some(40));
    assert_eq!(config.margin_top, None);
    assert_eq!(config.margin_left, None);
}

#[test]
fn one_margin_present_suppresses_the_margin_defaults() {
    let config = Config::load(Some("margin_top = 7"), "/cfg");
    assert_eq!(config.margin_top, Some(7));
    assert_eq!(config.margin_bottom, None);
    assert_eq!(config.margin_left, None);
    assert_eq!(config.margin_right, None);
    let config = Config::load_strict(Some("margin_left = 0"), "/cfg").unwrap();
    assert_eq!(config.margin_left, Some(0));
    assert_eq!(config.margin_bottom, None);
    assert_eq!(config.margin_right, None);
}

#[test]
fn normalize_margins_applies_the_rule() {
    let mut config = full_config();
    assert_eq!(normalize_margins(config.clone()), config);
    config.margin_top = None;
    config.margin_bottom = None;
    config.margin_left = None;
    assert_eq!(normalize_margins(config.clone()), config);
    config.margin_right = None;
    let mut want = config.clone();
    want.margin_bottom = Some(40);
    want.margin_right = Some(40);
    assert_eq!(normalize_margins(config), want);
    assert_eq!(normalize_margins(want.clone()), want);
}

#[test]
fn malformed_toml_is_tolerated_or_propagated() {
    let text = "title = \"unterminated\ntitle_size = = 3";
    assert_eq!(Config::load(Some(text), "/cfg"), Config::default_config("/cfg"));
    let loaded = Config::load_reporting(Some(text), "/cfg");
    assert_eq!(loaded.config, Config::default_config("/cfg"));
    let line = loaded.diagnostic.expect("a diagnostic");
    assert!(line.starts_with("\u{26a0}\u{fe0f} Config Error at \"/cfg/glint/config.toml\": "));
    assert!(line.ends_with("\nUsing fallback defaults for missing or broken fields."));
    match Config::load_strict(Some(text), "/cfg") {
        Err(LoadError::ConfigMalformed(details)) => {
            assert!(details.contains("TOML parse error"));
            assert!(line.contains(&details));
        }
        other => panic!("expected a malformed configuration, got {:?}", other),
    }
}

#[test]
fn mistyped_field_falls_back_alone_in_tolerant_mode() {
    let cases = [
        "title_size = \"big\"",
        "title_size = -1",
        "title_size = 4294967296",
        "title_size = 24.5",
        "title_size = [1]",
    ];
    for case in cases {
        let text = format!("title = \"T\"\n{}\nfont_size = 9\n", case);
        let config = Config::load(Some(&text), "/cfg");
        assert_eq!(config.title_size, 24, "{}", case);
        assert_eq!(config.title, "T", "{}", case);
        assert_eq!(config.font_size, 9, "{}", case);
        assert_eq!(
            Config::load_strict(Some(&text), "/cfg"),
            Err(LoadError::ConfigMalformed("invalid type for key `title_size`".to_string())),
            "{}",
            case
        );
    }
}

#[test]
fn mistyped_values_of_each_kind() {
    let config = Config::load(
        Some(
            "title = 1\ntasks = [\"a\", 2]\nanchor_bottom = \"no\"\nmargin_top = 2147483648\n\
             monitor_name = true\nfont_family = \"Mono\"\nmargin_left = -2147483648\n",
        ),
        "/cfg",
    );
    assert_eq!(config.title, default_title());
    assert_eq!(config.tasks, default_tasks());
    assert!(config.anchor_bottom);
    assert_eq!(config.margin_top, None);
    assert_eq!(config.margin_left, Some(-2147483648));
    assert_eq!(config.monitor_name, None);
    assert_eq!(config.font_family, default_font_family());
}

#[test]
fn strict_mode_names_the_first_mistyped_key() {
    let text = "font_family = 3\ntasks = 4\nborder_radius = \"r\"\n";
    assert_eq!(
        Config::load_strict(Some(text), "/cfg"),
        Err(LoadError::ConfigMalformed("invalid type for key `tasks`".to_string()))
    );
}

#[test]
fn boundary_sizes_are_accepted() {
    let config =
        Config::load_strict(Some("title_size = 0\nfont_size = 4294967295\ntasks = []"), "/cfg")
            .unwrap();
    assert_eq!(config.title_size, 0);
    assert_eq!(config.font_size, 4294967295);
    assert_eq!(config.tasks, Vec::<String>::new());
}

#[test]
fn structural_equality_compares_every_field() {
    let base = full_config();
    assert!(base.structurally_equal(&base.clone()));
    for (key, _) in FULL {
        let other = with_default(base.clone(), key);
        assert!(!base.structurally_equal(&other), "{}", key);
        assert!(!other.structurally_equal(&base), "{}", key);
        assert!(other.structurally_equal(&other.clone()), "{}", key);
    }
    let mut longer = base.clone();
    longer.tasks.push("c".to_string());
    assert!(!base.structurally_equal(&longer));
}

#[test]
fn load_errors_have_messages() {
    assert_eq!(
        LoadError::ConfigUnreadable.message(),
        "configuration file is missing or unreadable"
    );
    assert_eq!(
        LoadError::ConfigMalformed("invalid type for key `tasks`".to_string()).message(),
        "configuration file is malformed: invalid type for key `tasks`"
    );
}

fn table(entries: Vec<(&str, Value)>) -> Table {
    let mut table = Table::new();
    for (key, value) in entries {
        table.insert(key.to_string(), value);
    }
    table
}

#[test]
fn merge_reads_a_table_written_by_hand() {
    let written = table(vec![
        ("title", Value::String("Hi".to_string())),
        ("font_size", Value::Integer(11)),
        ("anchor_right", Value::Boolean(false)),
        ("tasks", Value::Array(vec![Value::String("a".to_string())])),
        ("margin_left", Value::Integer(-4)),
        ("extra", Value::Integer(1)),
    ]);
    let mut want = Config::default_config("/cfg");
    want.title = "Hi".to_string();
    want.font_size = 11;
    want.anchor_right = false;
    want.tasks = vec!["a".to_string()];
    want.margin_bottom = None;
    want.margin_right = None;
    want.margin_left = Some(-4);
    assert_eq!(merge(&written, "/cfg"), want);
    assert_eq!(find_misfit(&written), None);
}

#[test]
fn merge_of_an_empty_table_leaves_the_margins_absent() {
    let mut want = Config::default_config("/cfg");
    want.margin_bottom = None;
    want.margin_right = None;
    assert_eq!(merge(&Table::new(), "/cfg"), want);
    assert_eq!(normalize_margins(merge(&Table::new(), "/cfg")), Config::default_config("/cfg"));
}

#[test]
fn merge_over_takes_absent_fields_from_the_defaults_given() {
    let mut defaults = Config::default_config("/cfg");
    defaults.title = "fallback".to_string();
    defaults.border_width = 9;
    defaults.monitor_name = Some("ignored".to_string());
    let written = table(vec![("border_width", Value::Integer(2))]);
    let merged = merge_over(&written, defaults);
    assert_eq!(merged.title, "fallback");
    assert_eq!(merged.border_width, 2);
    assert_eq!(merged.monitor_name, None);
    assert_eq!(merged.margin_bottom, None);
}

#[test]
fn merge_skips_values_of_the_wrong_kind() {
    let written = table(vec![
        ("title", Value::Integer(3)),
        ("font_size", Value::Float(1.5)),
        ("tasks", Value::Array(vec![Value::String("a".to_string()), Value::Boolean(true)])),
        ("font_family", Value::Table(Table::new())),
        ("border_radius", Value::Integer(-1)),
    ]);
    let mut want = Config::default_config("/cfg");
    want.margin_bottom = None;
    want.margin_right = None;
    assert_eq!(merge(&written, "/cfg"), want);
}

#[test]
fn find_misfit_names_the_first_field_in_order() {
    let written = table(vec![
        ("font_family", Value::Integer(3)),
        ("border_radius", Value::String("r".to_string())),
        ("note_path", Value::Boolean(true)),
        ("unknown", Value::Boolean(true)),
    ]);
    assert_eq!(find_misfit(&written), Some("note_path".to_string()));
    let written = table(vec![("margin_top", Value::Integer(2147483648))]);
    assert_eq!(find_misfit(&written), Some("margin_top".to_string()));
    assert_eq!(find_misfit(&Table::new()), None);
}

#[test]
fn startup_takes_the_loaded_configuration_or_the_defaults() {
    let loaded = full_config();
    assert_eq!(startup_config(Ok(loaded.clone()), "/cfg"), loaded);
    assert_eq!(
        startup_config(Err(LoadError::ConfigUnreadable), "/cfg"),
        Config::default_config("/cfg")
    );
    assert_eq!(
        startup_config(Err(LoadError::ConfigMalformed("bad".to_string())), "/cfg"),
        Config::default_config("/cfg")
    );
}
