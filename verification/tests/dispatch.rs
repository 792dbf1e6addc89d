use tide_disco::dispatch::{join, split, DispatchError, Module, Trie};

fn segs(s: &[&str]) -> Vec<String> {
    s.iter().map(|x| x.to_string()).collect()
}

#[test]
fn test_empty_trie() {
    let t = Trie::<()>::default();
    assert_eq!(t.iter().iter().next(), None);
    assert_eq!(t.get(&segs(&["mod"])), None);
}

#[test]
fn test_branch_trie() {
    let mut t = Trie::default();

    let mod_a = Module { prefix: segs(&["mod", "a"]), versions: vec![(0, 0)] };
    let mod_b = Module { prefix: segs(&["mod", "b"]), versions: vec![(1, 1)] };

    t.insert(segs(&["mod", "a"]), 0, 0).unwrap();
    t.insert(segs(&["mod", "b"]), 1, 1).unwrap();

    assert_eq!(t.iter().iter().collect::<Vec<_>>(), [&mod_a, &mod_b]);

    assert_eq!(t.search(&segs(&["mod", "a", "route"])), Some(&mod_a));
    assert_eq!(t.get(&segs(&["mod", "a"])), Some(&mod_a));
    assert_eq!(t.get(&segs(&["mod", "a", "route"])), None);

    assert_eq!(t.search(&segs(&["mod", "b", "route"])), Some(&mod_b));
    assert_eq!(t.get(&segs(&["mod", "b"])), Some(&mod_b));
    assert_eq!(t.get(&segs(&["mod", "b", "route"])), None);

    // Cannot register a module which is a prefix or suffix of the already registered modules.
    t.insert(segs(&["mod"]), 0, 0).unwrap_err();
    t.insert(Vec::<String>::new(), 0, 0).unwrap_err();
    t.insert(segs(&["mod", "a", "b"]), 0, 0).unwrap_err();
}

#[test]
fn test_null_prefix() {
    let mut t = Trie::default();

    let module = Module { prefix: vec![], versions: vec![(0, 0)] };
    t.insert(Vec::<String>::new(), 0, 0).unwrap();

    assert_eq!(t.iter().iter().collect::<Vec<_>>(), [&module]);
    assert_eq!(t.search(&segs(&["anything"])), Some(&module));
    assert_eq!(t.get(&Vec::<String>::new()), Some(&module));
    assert_eq!(t.get(&segs(&["anything"])), None);

    // Any other module has the null module as a prefix and is thus not allowed.
    t.insert(segs(&["anything"]), 1, 1).unwrap_err();
}

#[test]
fn duplicate_version_is_refused_with_its_prefix() {
    let mut t = Trie::default();
    t.insert(segs(&["api", "v"]), 1, "one").unwrap();
    t.insert(segs(&["api", "v"]), 2, "two").unwrap();
    let err = t.insert(segs(&["api", "v"]), 1, "again").unwrap_err();
    assert_eq!(err, DispatchError::ModuleAlreadyExists { prefix: "api/v".to_string(), version: 1 });
    assert_eq!(err.message(), "duplicate module api/v v1");
    let m = t.get(&segs(&["api", "v"])).unwrap();
    assert_eq!(m.versions, vec![(1, "one"), (2, "two")]);
    assert_eq!(m.latest(), (2, &"two"));
    assert_eq!(m.version(1), Some(&"one"));
    assert_eq!(m.version(3), None);
    assert_eq!(m.path(), "api/v");
}

#[test]
fn conflicting_prefixes_report_both_paths() {
    let mut t = Trie::default();
    t.insert(segs(&["mod"]), 0, 0).unwrap();
    let err = t.insert(segs(&["mod", "sub", "x"]), 0, 0).unwrap_err();
    assert_eq!(
        err,
        DispatchError::ConflictingModules { prefix: "mod".to_string(), conflict: "mod/sub/x".to_string() }
    );
    assert_eq!(err.message(), "module mod cannot be a prefix of module mod/sub/x");
}

#[test]
fn modules_are_listed_in_order_of_prefix() {
    let mut t = Trie::default();
    t.insert(segs(&["b"]), 0, 'b').unwrap();
    t.insert(segs(&["a", "z"]), 0, 'z').unwrap();
    t.insert(segs(&["a", "c"]), 0, 'c').unwrap();
    let order: Vec<String> = t.iter().iter().map(|m| m.path()).collect();
    assert_eq!(order, vec!["a/c", "a/z", "b"]);
    assert!(!t.is_singleton());
}

#[test]
fn split_and_join_paths() {
    assert_eq!(split("/prefix/"), vec!["prefix".to_string()]);
    assert_eq!(split("a//b/"), vec!["a".to_string(), "b".to_string()]);
    assert_eq!(split(""), Vec::<String>::new());
    assert_eq!(join("a/", "/b"), "a/b");
    assert_eq!(join("", "b"), "b");
    assert_eq!(join("a", ""), "a");
    assert_eq!(join("//a//", "///b/c//"), "a/b/c");
    assert_eq!(join("///", "/"), "");
}
