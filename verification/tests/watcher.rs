use docserve::watcher::{ChangeEvent, WatchTarget};

fn strings(items: &[&str]) -> Vec<String> {
    items.iter().map(|s| s.to_string()).collect()
}

fn target() -> WatchTarget {
    WatchTarget::new("/work".to_string(), strings(&["/extra"]), "/work/target".to_string())
}

fn event(paths: &[&str]) -> ChangeEvent {
    ChangeEvent { paths: strings(paths) }
}

#[test]
fn roots_start_with_the_workspace() {
    let t = WatchTarget::new(
        "/work".to_string(),
        strings(&["/extra/a", "/extra/b"]),
        "/work/target".to_string(),
    );
    assert_eq!(t.roots(), &strings(&["/work", "/extra/a", "/extra/b"]));
    assert_eq!(t.excluded(), "/work/target");
}

#[test]
fn roots_hold_each_path_once() {
    let t = WatchTarget::new(
        "/work".to_string(),
        strings(&["/a", "/work", "/b", "/a", "/a", "/c", "/b"]),
        "/work/target".to_string(),
    );
    assert_eq!(t.roots(), &strings(&["/work", "/a", "/b", "/c"]));
}

#[test]
fn roots_without_extra_paths() {
    let t = WatchTarget::new("/work".to_string(), Vec::new(), "/work/target".to_string());
    assert_eq!(t.roots(), &strings(&["/work"]));
}

#[test]
fn excludes_the_output_subtree() {
    let t = target();
    assert!(t.excludes("/work/target"));
    assert!(t.excludes("/work/target/doc/mypkg/index.html"));
    assert!(!t.excludes("/work/src/lib.rs"));
    assert!(!t.excludes("/work/target2/doc"));
    assert!(!t.excludes("/extra/target"));
}

#[test]
fn a_change_in_the_sources_triggers() {
    let t = target();
    assert!(t.triggers(&event(&["/work/src/lib.rs"])));
    assert!(t.triggers(&event(&["/extra/notes.md"])));
}

#[test]
fn a_change_in_the_output_does_not_trigger() {
    let t = target();
    assert!(!t.triggers(&event(&["/work/target/doc/mypkg/index.html"])));
    assert!(!t.triggers(&event(&["/work/target/doc/a.html", "/work/target/doc/b.html"])));
    assert!(!t.triggers(&event(&["/work/target"])));
}

#[test]
fn a_rename_across_the_border_triggers() {
    let t = target();
    assert!(t.triggers(&event(&["/work/target/doc/a.html", "/work/src/a.html"])));
    assert!(t.triggers(&event(&["/work/src/a.html", "/work/target/doc/a.html"])));
}

#[test]
fn a_rename_inside_the_output_does_not_trigger() {
    let t = target();
    assert!(!t.triggers(&event(&["/work/target/doc/a.html", "/work/target/doc/b.html"])));
}

#[test]
fn an_event_without_paths_triggers() {
    assert!(target().triggers(&event(&[])));
}
