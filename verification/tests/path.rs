use cnix::path::{join_path, lock_path};
use std::path::Path;

#[test]
fn names_are_joined_as_std_joins_them() {
    for base in ["", "/", "dir", "dir/", "/a/b", "/a/b/"] {
        for name in ["", "x", "x/y", "/x", "./x", "../x"] {
            let expected = Path::new(base).join(name);
            assert_eq!(join_path(base, name), expected.to_str().unwrap());
        }
    }
    assert_eq!(join_path("/project", "devenv.yaml"), "/project/devenv.yaml");
    assert_eq!(join_path("/project", "/etc"), "/etc");
}

#[test]
fn locks_take_the_place_of_the_extension() {
    assert_eq!(lock_path("/gc/shell"), "/gc/shell.lock");
    assert_eq!(lock_path("/gc/shell.old"), "/gc/shell.lock");
    assert_eq!(lock_path("/gc/17.5-shell"), "/gc/17.lock");
    assert_eq!(lock_path("/gc.d/.shell"), "/gc.d/.shell.lock");
    assert_eq!(lock_path("a."), "a.lock");
    assert_eq!(lock_path("a..b"), "a..lock");
    assert_eq!(lock_path("...a"), "...lock");
}

/// Every text of up to six of the characters that matter to a path.
fn short_paths() -> Vec<String> {
    let mut all = vec![String::new()];
    let mut last = all.clone();
    for _ in 0..6 {
        let mut longer = vec![];
        for text in &last {
            for c in ['a', 'b', '.', '/'] {
                longer.push(format!("{}{}", text, c));
            }
        }
        all.extend(longer.iter().cloned());
        last = longer;
    }
    all
}

#[test]
fn locks_of_short_paths() {
    for path in short_paths() {
        let at = path.rfind('/').map_or(0, |i| i + 1);
        let (directory, name) = path.split_at(at);
        let stem = match name.rfind('.') {
            None | Some(0) => name,
            Some(dot) => &name[..dot],
        };
        if !name.is_empty() && name != "." && name != ".." && stem != "." {
            assert_eq!(lock_path(&path), format!("{}{}.lock", directory, stem));
        }
    }
}

#[test]
fn joins_of_short_paths() {
    for path in short_paths() {
        for base in ["", "/", "a", "a/b/"] {
            assert_eq!(join_path(base, &path), Path::new(base).join(&path).to_str().unwrap());
            assert_eq!(join_path(&path, base), Path::new(&path).join(base).to_str().unwrap());
        }
    }
}
