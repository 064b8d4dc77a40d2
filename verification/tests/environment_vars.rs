use sidecar_supervisor::environment::{
    configure_python_env, list_has_entry, EnvVar, BACKEND_PORT_VARIABLE, SEARCH_PATH_VARIABLE,
};
use sidecar_supervisor::platform::Platform;
use sidecar_supervisor::port::get_backend_port_from_env;

fn var(name: &str, value: &str) -> EnvVar {
    EnvVar { name: name.to_string(), value: value.to_string() }
}

fn chars(text: &str) -> Vec<char> {
    text.chars().collect()
}

#[test]
fn port_and_search_path_are_set_in_an_empty_environment() {
    assert_eq!(
        configure_python_env("/srv/python-backend", 8778, None, Platform::Unix),
        vec![var("BIOFORGER_BACKEND_PORT", "8778"), var("PYTHONPATH", "/srv/python-backend")]
    );
    assert_eq!(
        configure_python_env("/srv/python-backend", 8778, Some(""), Platform::Unix),
        vec![var("BIOFORGER_BACKEND_PORT", "8778"), var("PYTHONPATH", "/srv/python-backend")]
    );
    assert_eq!(
        configure_python_env("/srv/python-backend", 8778, Some("  \t"), Platform::Unix),
        vec![var("BIOFORGER_BACKEND_PORT", "8778"), var("PYTHONPATH", "/srv/python-backend")]
    );
}

#[test]
fn backend_directory_is_put_in_front_of_the_search_path() {
    assert_eq!(
        configure_python_env("/srv/b", 9001, Some("/usr/lib/py:/home/u/py"), Platform::Unix),
        vec![var("BIOFORGER_BACKEND_PORT", "9001"), var("PYTHONPATH", "/srv/b:/usr/lib/py:/home/u/py")]
    );
    assert_eq!(
        configure_python_env("C:\\b", 9001, Some("C:\\py;D:\\py"), Platform::Windows),
        vec![var("BIOFORGER_BACKEND_PORT", "9001"), var("PYTHONPATH", "C:\\b;C:\\py;D:\\py")]
    );
}

#[test]
fn backend_directory_is_not_put_on_the_search_path_twice() {
    for path in ["/srv/b", "/srv/b:/usr/lib/py", "/usr/lib/py:/srv/b", "/a::/srv/b:/c", ":/srv/b"] {
        assert_eq!(
            configure_python_env("/srv/b", 8778, Some(path), Platform::Unix),
            vec![var("BIOFORGER_BACKEND_PORT", "8778")]
        );
    }
}

#[test]
fn configuring_twice_leaves_the_search_path_as_the_first_call_made_it() {
    for before in [None, Some(""), Some("/usr/lib/py"), Some("/x:/y")] {
        let first = configure_python_env("/srv/b", 8778, before, Platform::Unix);
        assert_eq!(first.len(), 2);
        assert_eq!(first[1].name, "PYTHONPATH");
        let after = first[1].value.clone();
        let second = configure_python_env("/srv/b", 8778, Some(&after), Platform::Unix);
        assert_eq!(second, vec![var("BIOFORGER_BACKEND_PORT", "8778")]);
        assert_eq!(after.matches("/srv/b").count(), 1);
    }
}

#[test]
fn similar_directories_are_told_apart() {
    assert_eq!(
        configure_python_env("/srv/b", 8778, Some("/srv/bb:/srv:/srv/b/c: /srv/b"), Platform::Unix),
        vec![
            var("BIOFORGER_BACKEND_PORT", "8778"),
            var("PYTHONPATH", "/srv/b:/srv/bb:/srv:/srv/b/c: /srv/b"),
        ]
    );
    assert_eq!(
        configure_python_env("/srv/b", 8778, Some("/srv/b;/x"), Platform::Unix),
        vec![var("BIOFORGER_BACKEND_PORT", "8778"), var("PYTHONPATH", "/srv/b:/srv/b;/x")]
    );
}

#[test]
fn blank_directory_is_never_found_on_the_search_path() {
    assert_eq!(
        configure_python_env("", 8778, Some("/a::/b"), Platform::Unix),
        vec![var("BIOFORGER_BACKEND_PORT", "8778"), var("PYTHONPATH", ":/a::/b")]
    );
    assert_eq!(
        configure_python_env(" ", 8778, Some("/a: :/b"), Platform::Unix),
        vec![var("BIOFORGER_BACKEND_PORT", "8778"), var("PYTHONPATH", " :/a: :/b")]
    );
}

#[test]
fn directory_that_holds_the_separator_is_put_in_front_again() {
    let first = configure_python_env("/a:b", 8778, Some("/x"), Platform::Unix);
    assert_eq!(first[1], var("PYTHONPATH", "/a:b:/x"));
    let second = configure_python_env("/a:b", 8778, Some("/a:b:/x"), Platform::Unix);
    assert_eq!(second[1], var("PYTHONPATH", "/a:b:/a:b:/x"));
}

#[test]
fn entries_of_a_list_are_the_runs_between_separators() {
    assert!(list_has_entry(&chars("a:b:c"), ':', &chars("b")));
    assert!(list_has_entry(&chars("a:b:c"), ':', &chars("a")));
    assert!(list_has_entry(&chars("a:b:c"), ':', &chars("c")));
    assert!(!list_has_entry(&chars("a:b:c"), ':', &chars("a:b")));
    assert!(!list_has_entry(&chars("a:b:c"), ':', &chars("")));
    assert!(list_has_entry(&chars("a::c"), ':', &chars("")));
    assert!(list_has_entry(&chars(""), ':', &chars("")));
    assert!(list_has_entry(&chars("a:"), ':', &chars("")));
    assert!(!list_has_entry(&chars("abc"), ':', &chars("b")));
}

#[test]
fn variable_names_are_the_documented_ones() {
    assert_eq!(BACKEND_PORT_VARIABLE, "BIOFORGER_BACKEND_PORT");
    assert_eq!(SEARCH_PATH_VARIABLE, "PYTHONPATH");
}

fn by_the_standard_library(dir: &str, path: &str, sep: char) -> Option<String> {
    let exists = path.split(sep).any(|item| !item.trim().is_empty() && item == dir);
    if exists {
        None
    } else if path.trim().is_empty() {
        Some(dir.to_string())
    } else {
        Some(format!("{}{}{}", dir, sep, path))
    }
}

#[test]
fn search_path_is_merged_as_splitting_and_trimming_merges_it() {
    let dirs = ["", " ", "/srv/b", "b", "/a:b", "\u{a0}", "a b"];
    let paths = ["", " ", ":", "::", "/srv/b", "/x:/srv/b", "/srv/b:/x", "b:", ":b", "a b: ", "\t", "/a:b"];
    for dir in dirs {
        for path in paths {
            let vars = configure_python_env(dir, 1, Some(path), Platform::Unix);
            let set = vars.iter().find(|v| v.name == "PYTHONPATH").map(|v| v.value.clone());
            assert_eq!(set, by_the_standard_library(dir, path, ':'));
            assert_eq!(vars[0], var("BIOFORGER_BACKEND_PORT", "1"));
        }
    }
}

#[test]
fn port_set_in_the_environment_is_read_back() {
    for port in [1u16, 9, 10, 80, 8080, 8778, 9001, 65535] {
        let vars = configure_python_env("/srv/b", port, None, Platform::Unix);
        assert_eq!(vars[0].name, "BIOFORGER_BACKEND_PORT");
        assert_eq!(get_backend_port_from_env(Some(&vars[0].value)), port);
    }
}
