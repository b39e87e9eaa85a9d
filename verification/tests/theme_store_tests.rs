use theme_store::Theme;
use theme_store::ThemeError;
use theme_store::ThemeFiles;
use theme_store::layout::default_theme;
use theme_store::layout::output_file;
use theme_store::layout::source_files;
use theme_store::layout::theme_dir;
use theme_store::layout::theme_file;

fn custom_files() -> ThemeFiles {
    ThemeFiles {
        favicon: vec![1, 2, 3],
        logo: vec![4, 5],
        main_css: vec![6],
        highlight_css: vec![7, 8],
        main_js: vec![9],
        highlight_js: vec![10, 11],
        base: vec![12],
        index: vec![13, 14],
        post: vec![15],
        tag: vec![16, 17, 18],
    }
}

fn simple_bundle_bytes() -> [Vec<u8>; 10] {
    [
        vec![0x89, 0x50, 0x4e, 0x47],
        vec![0x89, 0x50, 0x4e, 0x47, 0x21],
        b"body{}".to_vec(),
        b"pre{}".to_vec(),
        b"run()".to_vec(),
        b"hl()".to_vec(),
        b"[base]".to_vec(),
        b"[index]".to_vec(),
        b"[post]".to_vec(),
        b"[tag]".to_vec(),
    ]
}

fn slots_of(t: &Theme) -> [Vec<u8>; 10] {
    [
        t.favicon().clone(),
        t.logo().clone(),
        t.main_css().clone(),
        t.highlight_css().clone(),
        t.main_js().clone(),
        t.highlight_js().clone(),
        t.base().clone(),
        t.index().clone(),
        t.post().clone(),
        t.tag().clone(),
    ]
}

#[test]
fn new_store_is_unresolved() {
    let t = Theme::new("/proj");
    assert_eq!(t.root(), "/proj");
    assert_eq!(t.name(), "");
    for slot in slots_of(&t) {
        assert!(slot.is_empty());
    }
}

#[test]
fn default_theme_name_is_simple() {
    assert_eq!(default_theme(), "simple");
}

#[test]
fn default_fallback_populates_bundle() {
    let mut t = Theme::new("/proj");
    let r = t.load_fallback("simple");
    assert!(r.is_ok());
    assert_eq!(t.name(), "simple");
    assert_eq!(slots_of(&t), simple_bundle_bytes());
}

#[test]
fn unknown_theme_not_found_keeps_state() {
    let mut t = Theme::new("/proj");
    t.load_from_dir("custom", custom_files());
    let r = t.load_fallback("missing");
    match r {
        Err(ThemeError::ThemeNotFound(n)) => assert_eq!(n, "missing"),
        _ => panic!("expected ThemeNotFound"),
    }
    assert_eq!(t.name(), "custom");
    assert_eq!(slots_of(&t)[0], vec![1, 2, 3]);
    assert_eq!(slots_of(&t)[9], vec![16, 17, 18]);
}

#[test]
fn unknown_theme_on_fresh_store_keeps_it_unresolved() {
    let mut t = Theme::new("/proj");
    let r = t.load_fallback("nonexistent-theme");
    match r {
        Err(ThemeError::ThemeNotFound(n)) => assert_eq!(n, "nonexistent-theme"),
        _ => panic!("expected ThemeNotFound"),
    }
    assert_eq!(t.name(), "");
    for slot in slots_of(&t) {
        assert!(slot.is_empty());
    }
}

#[test]
fn complete_read_outcome_commits_all_slots() {
    let mut t = Theme::new("/proj");
    let r = t.load_read_outcome("custom", Ok(custom_files()));
    assert!(r.is_ok());
    assert_eq!(t.name(), "custom");
    assert_eq!(slots_of(&t)[0], vec![1, 2, 3]);
    assert_eq!(slots_of(&t)[5], vec![10, 11]);
}

#[test]
fn read_failure_keeps_state_and_reports_io() {
    let mut t = Theme::new("/proj");
    t.load_from_dir("custom", custom_files());
    let cause = std::io::Error::new(std::io::ErrorKind::NotFound, "no favicon");
    let r = t.load_read_outcome("other", Err(cause));
    match r {
        Err(ThemeError::Io(_)) => {}
        _ => panic!("expected an I/O error"),
    }
    assert_eq!(t.name(), "custom");
    assert_eq!(slots_of(&t)[0], vec![1, 2, 3]);
    assert_eq!(slots_of(&t)[9], vec![16, 17, 18]);
}

#[test]
fn load_from_dir_replaces_previous_theme() {
    let mut t = Theme::new("/proj");
    t.load_fallback("simple").unwrap();
    t.load_from_dir("custom", custom_files());
    assert_eq!(t.name(), "custom");
    assert_eq!(t.favicon(), &vec![1, 2, 3]);
    assert_eq!(t.tag(), &vec![16, 17, 18]);
}

#[test]
fn clear_resets_state() {
    let mut t = Theme::new("/proj");
    t.load_fallback("simple").unwrap();
    t.clear();
    assert_eq!(t.root(), "/proj");
    assert_eq!(t.name(), "");
    for slot in slots_of(&t) {
        assert!(slot.is_empty());
    }
}

#[test]
fn path_helpers_build_the_fixed_layout() {
    assert_eq!(theme_dir("/r", "t"), "/r/_themes/t");
    assert_eq!(theme_file("/r", "t", "static/css/main.css"), "/r/_themes/t/static/css/main.css");
    assert_eq!(output_file("/r", "static/js/main.js"), "/r/_builds/static/js/main.js");
}

#[test]
fn source_files_lists_all_ten_paths_in_slot_order() {
    let paths = source_files("/r", "t");
    let expect = [
        "/r/_themes/t/static/img/favicon.png",
        "/r/_themes/t/static/img/logo.png",
        "/r/_themes/t/static/css/main.css",
        "/r/_themes/t/static/css/highlight.css",
        "/r/_themes/t/static/js/main.js",
        "/r/_themes/t/static/js/highlight.js",
        "/r/_themes/t/templates/base.tpl",
        "/r/_themes/t/templates/index.tpl",
        "/r/_themes/t/templates/post.tpl",
        "/r/_themes/t/templates/tag.tpl",
    ];
    assert_eq!(paths.len(), 10);
    for (got, want) in paths.iter().zip(expect.iter()) {
        assert_eq!(got, want);
    }
}

#[test]
fn source_plan_writes_all_ten_assets_under_the_theme_dir() {
    let mut t = Theme::new("/proj");
    t.load_from_dir("mytheme", custom_files());
    let plan = t.init_dir_writes();
    assert_eq!(plan.len(), 10);
    let expect_paths = source_files("/proj", "mytheme");
    let files = custom_files();
    let expect_contents = [
        files.favicon,
        files.logo,
        files.main_css,
        files.highlight_css,
        files.main_js,
        files.highlight_js,
        files.base,
        files.index,
        files.post,
        files.tag,
    ];
    for (i, w) in plan.iter().enumerate() {
        assert_eq!(w.path, expect_paths[i]);
        assert_eq!(w.contents, expect_contents[i]);
    }
}

#[test]
fn source_plan_is_the_same_on_every_call() {
    let mut t = Theme::new("/proj");
    t.load_from_dir("mytheme", custom_files());
    let first = t.init_dir_writes();
    let second = t.init_dir_writes();
    assert_eq!(first.len(), second.len());
    for (a, b) in first.iter().zip(second.iter()) {
        assert_eq!(a.path, b.path);
        assert_eq!(a.contents, b.contents);
    }
}

#[test]
fn source_round_trip_reproduces_slot_contents() {
    let mut t = Theme::new("/proj");
    t.load_from_dir("mytheme", custom_files());
    let plan = t.init_dir_writes();
    let mut contents: Vec<Vec<u8>> = plan.into_iter().map(|w| w.contents).collect();
    let files = ThemeFiles {
        tag: contents.pop().unwrap(),
        post: contents.pop().unwrap(),
        index: contents.pop().unwrap(),
        base: contents.pop().unwrap(),
        highlight_js: contents.pop().unwrap(),
        main_js: contents.pop().unwrap(),
        highlight_css: contents.pop().unwrap(),
        main_css: contents.pop().unwrap(),
        logo: contents.pop().unwrap(),
        favicon: contents.pop().unwrap(),
    };
    let mut fresh = Theme::new("/proj");
    fresh.load_from_dir("mytheme", files);
    assert_eq!(fresh.name(), t.name());
    assert_eq!(slots_of(&fresh), slots_of(&t));
}

#[test]
fn output_plan_writes_exactly_the_six_static_assets() {
    let mut t = Theme::new("/proj");
    t.load_from_dir("mytheme", custom_files());
    let plan = t.export_static_writes();
    assert_eq!(plan.len(), 6);
    let expect = [
        ("/proj/_builds/static/img/favicon.png", vec![1u8, 2, 3]),
        ("/proj/_builds/static/img/logo.png", vec![4, 5]),
        ("/proj/_builds/static/css/main.css", vec![6]),
        ("/proj/_builds/static/css/highlight.css", vec![7, 8]),
        ("/proj/_builds/static/js/main.js", vec![9]),
        ("/proj/_builds/static/js/highlight.js", vec![10, 11]),
    ];
    for (w, (path, contents)) in plan.iter().zip(expect.iter()) {
        assert_eq!(&w.path, path);
        assert_eq!(&w.contents, contents);
        assert!(w.path.starts_with("/proj/_builds/static/"));
        assert!(!w.path.contains("templates"));
    }
}

#[test]
fn output_plan_of_unresolved_store_writes_empty_files() {
    let t = Theme::new("/proj");
    let plan = t.export_static_writes();
    assert_eq!(plan.len(), 6);
    for w in plan.iter() {
        assert!(w.contents.is_empty());
    }
}

#[test]
fn simple_scenario_under_proj_root() {
    let mut t = Theme::new("/proj");
    let r = t.load_fallback("simple");
    assert!(r.is_ok());
    assert_eq!(t.name(), "simple");
    assert_eq!(slots_of(&t), simple_bundle_bytes());
    let plan = t.export_static_writes();
    assert_eq!(plan.len(), 6);
    assert_eq!(plan[0].path, "/proj/_builds/static/img/favicon.png");
    assert_eq!(plan[0].contents, vec![0x89, 0x50, 0x4e, 0x47]);
    assert_eq!(plan[2].path, "/proj/_builds/static/css/main.css");
    assert_eq!(plan[2].contents, b"body{}".to_vec());
    for w in plan.iter() {
        assert!(w.path.starts_with("/proj/_builds/static/"));
        assert!(!w.path.contains("templates"));
    }
}
