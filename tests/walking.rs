use find_rs::args::Options;
use find_rs::config::SearchConfig;
use find_rs::walk::{digits, progress_column, Descent, EntryKind, Walk};

fn name_config(name: &str) -> SearchConfig {
    let o = Options { help: None, path: None, name: Some(name.to_string()), regex: None, mime: None };
    SearchConfig::from_options(&o).unwrap()
}

#[test]
fn every_visit_is_counted() {
    let c = name_config("a");
    let mut w = Walk::new();
    assert_eq!(w.count(), 0);
    let v1 = w.visit(&c, "a.txt", "root/a.txt", EntryKind::Other);
    let v2 = w.visit(&c, "b", "root/b", EntryKind::Directory);
    let v3 = w.visit(&c, "c.png", "root/b/c.png", EntryKind::Other);
    assert_eq!(w.count(), 3);
    assert_eq!((v1.number, v2.number, v3.number), (1, 2, 3));
    assert!(v1.reported && !v2.reported && !v3.reported);
    assert_eq!(v1.mime, "text/plain");
    assert_eq!(v3.mime, "image/png");
}

#[test]
fn descent_by_kind() {
    let c = name_config("x");
    let mut w = Walk::new();
    let d = w.visit(&c, "d", "root/d", EntryKind::Directory).descent;
    assert!(matches!(&d, Descent::Into(p) if p == "root/d"));
    assert_eq!(d.settle(false).as_deref(), Some("root/d"));
    let f = w.visit(&c, "f", "root/f", EntryKind::Other).descent;
    assert!(matches!(f, Descent::Stay));
    assert_eq!(f.settle(true), None);
}

#[test]
fn symlink_followed_by_own_path() {
    let c = name_config("x");
    let mut w = Walk::new();
    let l = w.visit(&c, "link", "root/link", EntryKind::Symlink).descent;
    assert!(matches!(&l, Descent::IfLinkedDir(p) if p == "root/link"));
    assert_eq!(l.settle(true).as_deref(), Some("root/link"));
    let broken = w.visit(&c, "dead", "root/dead", EntryKind::Symlink).descent;
    assert_eq!(broken.settle(false), None);
}

#[test]
fn counter_digits() {
    assert_eq!(digits(0), 1);
    assert_eq!(digits(9), 1);
    assert_eq!(digits(10), 2);
    assert_eq!(digits(12345), 5);
    assert_eq!(digits(usize::MAX), usize::MAX.to_string().len());
}

#[test]
fn counter_column() {
    assert_eq!(progress_column(80, 123), 77);
    assert_eq!(progress_column(3, 123), 0);
    assert_eq!(progress_column(4, 123), 1);
    assert_eq!(progress_column(0, 5), 0);
}

#[test]
fn unmatched_entries_still_counted() {
    let c = name_config("nothing-like-this");
    let mut w = Walk::new();
    for i in 0..5 {
        let path = format!("root/f{}", i);
        let v = w.visit(&c, &path[5..], &path, EntryKind::Other);
        assert!(!v.reported);
    }
    assert_eq!(w.count(), 5);
}
