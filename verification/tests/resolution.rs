use pw_pathux::str_path::{
    str_path_absolute, str_path_components, str_path_current_dir, str_path_current_dir_or_panic,
    str_path_current_dir_or_rel_home_panic, str_path_current_dir_rel_home, str_path_file_name,
    str_path_is_absolute, str_path_is_relative, str_path_is_relative_to_home, str_path_join,
    str_path_parent, str_path_simple_relative, str_path_simple_relative_home,
    str_path_starts_with, Environment, PathError, StrPath, StringPathBuf,
    ToStringPath,
};

const SAMPLES: [&str; 22] = [
    "",
    "/",
    "//",
    ".",
    "..",
    "~",
    "~/",
    "~/SRC",
    "~x/y",
    "/~",
    "./~",
    "a",
    "a/b",
    "/a",
    "/a/b/",
    "//a///b//",
    "a/./b",
    "./a",
    "././a",
    "../a",
    "/home/peter/SRC/GITHUB",
    "/home/peter/Documents/x",
];

fn env(cwd: Option<&str>, home: Option<&str>) -> Environment {
    Environment::new(cwd.map(String::from), home.map(String::from))
}

fn peter() -> Environment {
    env(Some("/home/peter/SRC"), Some("/home/peter"))
}

fn ok(text: &str) -> Result<String, PathError> {
    Ok(text.to_string())
}

#[test]
fn anchoring_partitions_the_path_texts() {
    for text in SAMPLES {
        let kinds = [
            str_path_is_absolute(text),
            str_path_is_relative(text),
            str_path_is_relative_to_home(text),
        ];
        assert_eq!(
            kinds.iter().filter(|k| **k).count(),
            1,
            "for {:?}: {:?}",
            text,
            kinds
        );
        assert!(!(kinds[0] && kinds[2]));
        assert_eq!(kinds[0], text.starts_with('/'));
        assert_eq!(text.path_is_absolute(), kinds[0]);
        assert_eq!(text.path_is_relative(), kinds[1]);
        assert_eq!(text.path_is_relative_to_home(), kinds[2]);
    }
}

#[test]
fn anchoring_examples() {
    assert!(str_path_is_relative(""));
    assert!(str_path_is_relative("."));
    assert!(str_path_is_relative("~x"));
    assert!(str_path_is_relative("a/~"));
    assert!(str_path_is_relative_to_home("~"));
    assert!(str_path_is_relative_to_home("~//x"));
    assert!(str_path_is_absolute("/~"));
    assert!(!str_path_is_relative_to_home("/~"));
}

#[test]
fn absolute_of_home_relative() {
    let e = env(None, Some("/home/peter"));
    assert_eq!(str_path_absolute("~/SRC", &e), ok("/home/peter/SRC"));
    assert_eq!(str_path_absolute("~", &e), ok("/home/peter"));
    assert_eq!(str_path_absolute("~/a//b/", &e), ok("/home/peter/a/b"));
    assert_eq!(str_path_absolute("~/./..", &e), ok("/home/peter/./.."));
    assert_eq!("~/SRC".path_absolute(&e), ok("/home/peter/SRC"));
}

#[test]
fn absolute_of_relative() {
    let e = env(Some("/home/peter/SRC"), None);
    assert_eq!(str_path_absolute("GITHUB", &e), ok("/home/peter/SRC/GITHUB"));
    assert_eq!(str_path_absolute("./GITHUB", &e), ok("/home/peter/SRC/GITHUB"));
    assert_eq!(str_path_absolute("./././x", &e), ok("/home/peter/SRC/x"));
    assert_eq!(str_path_absolute("", &e), ok("/home/peter/SRC"));
    assert_eq!(str_path_absolute(".", &e), ok("/home/peter/SRC"));
    assert_eq!(str_path_absolute("../x", &e), ok("/home/peter/SRC/../x"));
    assert_eq!(str_path_absolute("a/./b", &e), ok("/home/peter/SRC/a/./b"));
    assert_eq!(str_path_absolute("~x", &e), ok("/home/peter/SRC/~x"));
}

#[test]
fn absolute_of_absolute_is_the_text_itself() {
    let nothing = env(None, None);
    assert_eq!(str_path_absolute("/home/peter/SRC", &nothing), ok("/home/peter/SRC"));
    assert_eq!(str_path_absolute("//a///b//", &nothing), ok("//a///b//"));
    assert_eq!(str_path_absolute("/", &nothing), ok("/"));
    assert_eq!(str_path_absolute("/a/./../b", &peter()), ok("/a/./../b"));
}

#[test]
fn absolute_inserts_exactly_one_separator() {
    let e = env(Some("/work/"), Some("/home/peter//"));
    assert_eq!(str_path_absolute("a", &e), ok("/work/a"));
    assert_eq!(str_path_absolute("~/a", &e), ok("/home/peter//a"));
    let root = env(Some("/"), Some("/"));
    assert_eq!(str_path_absolute("a/b", &root), ok("/a/b"));
    assert_eq!(str_path_absolute("~/a", &root), ok("/a"));
    assert_eq!(str_path_absolute("~", &root), ok("/"));
}

#[test]
fn absolute_needs_the_directory_it_resolves_against() {
    let no_home = env(Some("/work"), None);
    let no_cwd = env(None, Some("/home/peter"));
    assert_eq!(
        str_path_absolute("~/SRC", &no_home),
        Err(PathError::EnvironmentUnavailable)
    );
    assert_eq!(
        str_path_absolute("SRC", &no_cwd),
        Err(PathError::EnvironmentUnavailable)
    );
    assert_eq!(str_path_absolute("SRC", &no_home), ok("/work/SRC"));
    assert_eq!(str_path_absolute("~/SRC", &no_cwd), ok("/home/peter/SRC"));
}

#[test]
fn absolute_gives_an_absolute_path_text() {
    let e = peter();
    for text in SAMPLES {
        let a = str_path_absolute(text, &e).unwrap();
        assert!(str_path_is_absolute(&a), "for {:?}: {:?}", text, a);
        assert!(a.starts_with('/'));
    }
}

#[test]
fn absolute_is_idempotent() {
    let e = peter();
    for text in SAMPLES {
        let once = str_path_absolute(text, &e).unwrap();
        let twice = str_path_absolute(&once, &e).unwrap();
        assert_eq!(twice, once, "for {:?}", text);
    }
}

#[test]
fn simple_relative_examples() {
    let e = peter();
    assert_eq!(str_path_simple_relative("/home/peter/SRC/GITHUB", &e), ok("GITHUB"));
    assert_eq!(str_path_simple_relative("/home/peter/SRC", &e), ok(""));
    assert_eq!(str_path_simple_relative("/home/peter/SRC/", &e), ok(""));
    assert_eq!(str_path_simple_relative("/home//peter/SRC/a//b/", &e), ok("a/b"));
    assert_eq!(str_path_simple_relative("x/y", &e), ok("x/y"));
    assert_eq!(str_path_simple_relative("./x", &e), ok("x"));
    assert_eq!(str_path_simple_relative("", &e), ok(""));
    assert_eq!(str_path_simple_relative("../x", &e), ok("../x"));
    assert_eq!(str_path_simple_relative("~/SRC/a", &e), ok("a"));
    assert_eq!("~/SRC/a".path_simple_relative(&e), ok("a"));
}

#[test]
fn simple_relative_compares_components_not_characters() {
    let e = peter();
    assert_eq!(
        str_path_simple_relative("/home/peter/SRCX", &e),
        Err(PathError::PrefixMismatch)
    );
    assert_eq!(
        str_path_simple_relative("/home/peter/SR", &e),
        Err(PathError::PrefixMismatch)
    );
}

#[test]
fn simple_relative_failures() {
    let e = peter();
    assert_eq!(str_path_simple_relative("/etc/hosts", &e), Err(PathError::PrefixMismatch));
    assert_eq!(str_path_simple_relative("/home/peter", &e), Err(PathError::PrefixMismatch));
    assert_eq!(str_path_simple_relative("/", &e), Err(PathError::PrefixMismatch));
    assert_eq!(str_path_simple_relative("~/Documents", &e), Err(PathError::PrefixMismatch));
    let no_cwd = env(None, Some("/home/peter"));
    assert_eq!(
        str_path_simple_relative("x", &no_cwd),
        Err(PathError::EnvironmentUnavailable)
    );
    assert_eq!(
        str_path_simple_relative("/home/peter/SRC", &no_cwd),
        Err(PathError::PrefixMismatch)
    );
    let no_home = env(Some("/home/peter/SRC"), None);
    assert_eq!(
        str_path_simple_relative("~/SRC/a", &no_home),
        Err(PathError::EnvironmentUnavailable)
    );
}

#[test]
fn simple_relative_of_the_absolute_form_is_the_same() {
    let e = peter();
    for text in SAMPLES {
        let a = str_path_absolute(text, &e).unwrap();
        assert_eq!(
            str_path_simple_relative(&a, &e),
            str_path_simple_relative(text, &e),
            "for {:?}",
            text
        );
        assert_eq!(
            str_path_simple_relative_home(&a, &e),
            str_path_simple_relative_home(text, &e),
            "for {:?}",
            text
        );
    }
}

#[test]
fn relative_to_home_examples() {
    let e = peter();
    assert_eq!(str_path_simple_relative_home("/home/peter/SRC", &e), ok("~/SRC"));
    assert_eq!(str_path_simple_relative_home("/home/peter", &e), ok("~"));
    assert_eq!(str_path_simple_relative_home("/home/peter/", &e), ok("~"));
    assert_eq!(str_path_simple_relative_home("x", &e), ok("~/SRC/x"));
    assert_eq!(str_path_simple_relative_home("~/a//b", &e), ok("~/a/b"));
    assert_eq!(str_path_simple_relative_home("~", &e), ok("~"));
    assert_eq!(
        str_path_simple_relative_home("/etc", &e),
        Err(PathError::PrefixMismatch)
    );
    assert_eq!(
        str_path_simple_relative_home("/home/peterx", &e),
        Err(PathError::PrefixMismatch)
    );
    let no_home = env(Some("/home/peter/SRC"), None);
    assert_eq!(
        str_path_simple_relative_home("/home/peter", &no_home),
        Err(PathError::PrefixMismatch)
    );
    assert_eq!(
        str_path_simple_relative_home("~/x", &no_home),
        Err(PathError::EnvironmentUnavailable)
    );
}

#[test]
fn relative_to_home_is_relative_to_home() {
    let e = peter();
    for text in SAMPLES {
        if let Ok(r) = str_path_simple_relative_home(text, &e) {
            assert!(str_path_is_relative_to_home(&r), "for {:?}: {:?}", text, r);
        }
    }
}

#[test]
fn join_examples() {
    assert_eq!(str_path_join("/home", "peter"), "/home/peter");
    assert_eq!(str_path_join("/home/", "peter"), "/home/peter");
    assert_eq!(str_path_join("/home//", "peter"), "/home//peter");
    assert_eq!(str_path_join("a", "b//c/"), "a/b/c");
    assert_eq!(str_path_join("", "b"), "b");
    assert_eq!(str_path_join("/", "b"), "/b");
    assert_eq!(str_path_join("a", ""), "a");
    assert_eq!(str_path_join("a", "./b/.."), "a/./b/..");
    assert_eq!(str_path_join("a", "~/b"), "a/~/b");
    assert_eq!("/home".path_join("peter"), "/home/peter");
}

#[test]
fn join_with_an_absolute_child_is_the_child() {
    assert_eq!(str_path_join("peter", "/home/peter/SRC"), "/home/peter/SRC");
    assert_eq!(str_path_join("/a/b", "/"), "/");
    assert_eq!(str_path_join("/a/b", "//x//y/"), "//x//y/");
    assert_eq!(str_path_join("", "/x"), "/x");
}

#[test]
fn path_push_joins_in_place() {
    let mut path = "/home/".to_string();
    path.path_push("peter//SRC/");
    assert_eq!(path, "/home/peter/SRC");
    path.path_push("");
    assert_eq!(path, "/home/peter/SRC");
    path.path_push("/etc");
    assert_eq!(path, "/etc");
    let mut empty = String::new();
    empty.path_push("a");
    assert_eq!(empty, "a");
}

#[test]
fn file_name_examples() {
    assert_eq!(str_path_file_name("/home/peter"), Some("peter".to_string()));
    assert_eq!(str_path_file_name("/"), None);
    assert_eq!(str_path_file_name(""), None);
    assert_eq!(str_path_file_name("."), None);
    assert_eq!(str_path_file_name(".."), None);
    assert_eq!(str_path_file_name("./.."), None);
    assert_eq!(str_path_file_name("/.."), None);
    assert_eq!(str_path_file_name("~"), None);
    assert_eq!(str_path_file_name("~/x"), Some("x".to_string()));
    assert_eq!(str_path_file_name("a/b/"), Some("b".to_string()));
    assert_eq!(str_path_file_name("a/b/."), Some("b".to_string()));
    assert_eq!(str_path_file_name("a/.."), Some("a".to_string()));
    assert_eq!(str_path_file_name("x.tar.gz"), Some("x.tar.gz".to_string()));
    assert_eq!("/home/peter".path_file_name(), Some("peter".to_string()));
}

#[test]
fn parent_examples() {
    assert_eq!(str_path_parent("/home"), Some("/".to_string()));
    assert_eq!(str_path_parent("/"), None);
    assert_eq!(str_path_parent("//"), None);
    assert_eq!(str_path_parent(""), None);
    assert_eq!(str_path_parent("peter"), Some("".to_string()));
    assert_eq!(str_path_parent("."), Some("".to_string()));
    assert_eq!(str_path_parent("~"), Some("".to_string()));
    assert_eq!(str_path_parent("~/x"), Some("~".to_string()));
    assert_eq!(str_path_parent("a/b"), Some("a".to_string()));
    assert_eq!(str_path_parent("a//b/"), Some("a".to_string()));
    assert_eq!(str_path_parent("/a/b/c"), Some("/a/b".to_string()));
    assert_eq!(str_path_parent("/.."), Some("/".to_string()));
    assert_eq!(str_path_parent("a/.."), Some("a".to_string()));
    assert_eq!("/home/peter".path_parent(), Some("/home".to_string()));
}

#[test]
fn starts_with_examples() {
    assert!(str_path_starts_with("/home/peter", "/home"));
    assert!(str_path_starts_with("/home/peter", "/home/"));
    assert!(str_path_starts_with("/home/peter", "/"));
    assert!(str_path_starts_with("/home/peter", "/home/peter"));
    assert!(str_path_starts_with("a/b", ""));
    assert!(str_path_starts_with("~/a", "~"));
    assert!(!str_path_starts_with("/home/peter", "/ho"));
    assert!(!str_path_starts_with("/home/peter", "home"));
    assert!(!str_path_starts_with("/home", "/home/peter"));
    assert!(!str_path_starts_with("a/~", "~"));
    assert!("/home/peter".path_starts_with("/home"));
}

#[test]
fn current_dir_forms() {
    let e = peter();
    assert_eq!(str_path_current_dir(&e), ok("/home/peter/SRC"));
    assert_eq!(str_path_current_dir_or_panic(&e), "/home/peter/SRC");
    assert_eq!(str_path_current_dir_rel_home(&e), ok("~/SRC"));
    assert_eq!(str_path_current_dir_or_rel_home_panic(&e), "~/SRC");
    let at_home = env(Some("/home/peter"), Some("/home/peter/"));
    assert_eq!(str_path_current_dir_rel_home(&at_home), ok("~"));
    let elsewhere = env(Some("/tmp"), Some("/home/peter"));
    assert_eq!(
        str_path_current_dir_rel_home(&elsewhere),
        Err(PathError::PrefixMismatch)
    );
    let no_cwd = env(None, Some("/home/peter"));
    assert_eq!(
        str_path_current_dir(&no_cwd),
        Err(PathError::EnvironmentUnavailable)
    );
    assert_eq!(
        str_path_current_dir_rel_home(&no_cwd),
        Err(PathError::EnvironmentUnavailable)
    );
    let no_home = env(Some("/tmp"), None);
    assert_eq!(
        str_path_current_dir_rel_home(&no_home),
        Err(PathError::PrefixMismatch)
    );
}

#[test]
fn file_name_joined_to_parent_is_the_rendered_path() {
    for text in ["a", "a/b", "/a", "/a/b/", "//a///b//", "./a", "../a", "~/SRC", "a/./b"] {
        let name = str_path_file_name(text).unwrap();
        let dir = str_path_parent(text).unwrap();
        assert_eq!(
            str_path_join(&dir, &name),
            str_path_components(text).to_string_path(),
            "for {:?}",
            text
        );
    }
}

#[test]
fn join_of_a_relative_child_concatenates_components() {
    for base in ["", "/", "a", "/a/b/", "~", "./x"] {
        for child in ["", "c", "c/d/", "./c", "../c", "c//./d"] {
            let mut expected = str_path_components(base);
            expected.extend(str_path_components(child));
            assert_eq!(
                str_path_components(&str_path_join(base, child)),
                expected,
                "for {:?} and {:?}",
                base,
                child
            );
        }
    }
}

#[test]
fn only_the_empty_text_has_no_components() {
    for text in SAMPLES {
        assert_eq!(str_path_components(text).is_empty(), text.is_empty());
    }
}
