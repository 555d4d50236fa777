use glint::content::{note_content, placeholder};
use glint::paths::{
    app_dir, default_note_path, expand_tilde, join_path, note_dir, roots_in, watch_roots,
    WatchRoots,
};

#[test]
fn join_path_puts_one_separator() {
    assert_eq!(join_path("/a", "b/c"), "/a/b/c");
    assert_eq!(join_path("/a/", "b"), "/a/b");
    assert_eq!(join_path("", "b"), "b");
    assert_eq!(join_path(".", "glint"), "./glint");
    assert_eq!(app_dir("/home/u/.config"), "/home/u/.config/glint");
    assert_eq!(default_note_path("/home/u/.config"), "/home/u/.config/glint/notes.md");
}

#[test]
fn tilde_expands_to_home() {
    assert_eq!(expand_tilde("~/notes/a.md", Some("/home/u")), "/home/u/notes/a.md");
    assert_eq!(expand_tilde("~", Some("/home/u")), "/home/u");
    assert_eq!(expand_tilde("~/", Some("/home/u")), "/home/u/");
}

#[test]
fn tilde_stays_where_it_names_no_home() {
    assert_eq!(expand_tilde("~user/a.md", Some("/home/u")), "~user/a.md");
    assert_eq!(expand_tilde("/abs/~/a.md", Some("/home/u")), "/abs/~/a.md");
    assert_eq!(expand_tilde("a.md", Some("/home/u")), "a.md");
    assert_eq!(expand_tilde("", Some("/home/u")), "");
    assert_eq!(expand_tilde("~\\a.md", Some("/home/u")), "~\\a.md");
}

#[test]
fn tilde_stays_without_a_home() {
    assert_eq!(expand_tilde("~/notes/a.md", None), "~/notes/a.md");
    assert_eq!(expand_tilde("~", None), "~");
}

#[test]
fn note_dir_is_the_path_without_its_last_component() {
    assert_eq!(note_dir("/home/u/notes.md", None), Some("/home/u".to_string()));
    assert_eq!(note_dir("/notes.md", None), Some("/".to_string()));
    assert_eq!(note_dir("notes.md", None), Some(String::new()));
    assert_eq!(note_dir("", None), None);
    assert_eq!(note_dir("/", None), None);
    assert_eq!(note_dir("a/b", None), Some("a".to_string()));
    assert_eq!(note_dir("a/b/", None), Some("a".to_string()));
    assert_eq!(note_dir("a//b", None), Some("a".to_string()));
    assert_eq!(note_dir("~/notes/a.md", Some("/home/u")), Some("/home/u/notes".to_string()));
    assert_eq!(note_dir("~", Some("/home/u")), Some("/home".to_string()));
}

#[test]
fn note_dir_agrees_with_std() {
    let paths = ["", "/", "//", "a", "a/", "/a", "/a/b", "a/b/c.md", "a//b//", "./a", "a/./b", ".."];
    for path in paths {
        let want = std::path::Path::new(path)
            .parent()
            .map(|dir| dir.to_str().unwrap().to_string());
        let got = note_dir(path, None);
        assert_eq!(got, want, "parent of {:?}", path);
        if let Some(dir) = got {
            assert!(path.starts_with(&dir) && dir.len() < path.len(), "parent of {:?}", path);
        }
    }
}

#[test]
fn roots_in_puts_the_app_dir_first() {
    assert_eq!(
        roots_in("/c", Some("/n".to_string())),
        WatchRoots { config_dir: "/c/glint".to_string(), note_dir: Some("/n".to_string()) }
    );
    assert_eq!(
        roots_in("/c/", None),
        WatchRoots { config_dir: "/c/glint".to_string(), note_dir: None }
    );
}

#[test]
fn watch_roots_follow_the_note_path() {
    assert_eq!(
        watch_roots("/home/u/.config", "~/notes/today.md", Some("/home/u")),
        WatchRoots {
            config_dir: "/home/u/.config/glint".to_string(),
            note_dir: Some("/home/u/notes".to_string()),
        }
    );
    assert_eq!(
        watch_roots("/home/u/.config", "/srv/other/n.md", Some("/home/u")),
        WatchRoots {
            config_dir: "/home/u/.config/glint".to_string(),
            note_dir: Some("/srv/other".to_string()),
        }
    );
    assert_eq!(
        watch_roots("/c", "note.md", None),
        WatchRoots { config_dir: "/c/glint".to_string(), note_dir: Some(String::new()) }
    );
    assert_eq!(
        watch_roots("/c", "", None),
        WatchRoots { config_dir: "/c/glint".to_string(), note_dir: None }
    );
}

#[test]
fn placeholder_names_the_path_and_is_the_same_every_time() {
    let first = placeholder("/home/u/notes.md");
    assert_eq!(first, "# Glint\nNo note found. Create one at /home/u/notes.md");
    assert_eq!(placeholder("/home/u/notes.md"), first);
}

#[test]
fn note_content_is_the_text_or_the_placeholder() {
    assert_eq!(note_content(Some("# T\nbody".to_string()), "/n.md"), "# T\nbody");
    assert_eq!(note_content(Some(String::new()), "/n.md"), "");
    assert_eq!(note_content(None, "/n.md"), "# Glint\nNo note found. Create one at /n.md");
}

fn plain_parent(path: &str) -> Option<String> {
    let portable = !path.contains('\\') && !path.contains(':') && !path.starts_with("//");
    let k = path.rfind('/')?;
    let (dir, name) = (&path[..k], &path[k + 1..]);
    let plain = portable
        && !dir.is_empty()
        && !dir.ends_with('/')
        && !dir.ends_with('.')
        && !name.is_empty()
        && name != "."
        && name != "..";
    if plain {
        Some(dir.to_string())
    } else {
        None
    }
}

#[test]
fn note_dir_is_the_plain_parent_where_there_is_one() {
    let parts = ["", "a", "b.md", ".", "..", ".hid", "x.", "~", " ", "\u{e9}t\u{e9}"];
    let mut paths = vec![
        "/home/u/notes.md".to_string(),
        "/home/u/.config/glint/notes.md".to_string(),
        "notes/today.md".to_string(),
        "./notes.md".to_string(),
        "../notes.md".to_string(),
    ];
    for lead in ["", "/", "//"] {
        for a in parts {
            for b in parts {
                for c in parts {
                    paths.push(format!("{}{}/{}/{}", lead, a, b, c));
                    paths.push(format!("{}{}/{}", lead, a, b));
                }
            }
        }
    }
    let mut named = 0;
    for path in &paths {
        if let Some(dir) = plain_parent(path) {
            named += 1;
            assert_eq!(note_dir(path, None), Some(dir), "parent of {:?}", path);
        }
    }
    assert!(named > 100);
    assert_eq!(plain_parent("/home/u/notes.md"), Some("/home/u".to_string()));
    assert_eq!(plain_parent("a//b"), None);
    assert_eq!(plain_parent("a/./b"), None);
    assert_eq!(plain_parent("C:/a/b"), None);
    assert_eq!(plain_parent("a\\b/c"), None);
}
