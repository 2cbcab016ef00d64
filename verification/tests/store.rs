use dr_core::config::Profile;
use dr_core::host::Host;
use dr_core::secrets::{Mask, Secret};
use dr_core::store::ProfileStore;

fn profile(username: &str, word: &str) -> Profile {
    let host = match Host::parse("https://localhost:8081") {
        Ok(host) => host,
        Err(error) => panic!("{}", error.to_string()),
    };
    Profile::new(username, Secret::Pwd(Mask::from(word)), host)
}

#[test]
fn store_new_holds_nothing() {
    let store = ProfileStore::new();
    assert!(store.get("default").is_none());
    assert!(store.get("").is_none());
}

#[test]
fn store_get_finds_what_was_inserted() {
    let mut store = ProfileStore::new();
    store.insert(String::from("default"), profile("a", "1"));
    store.insert(String::from("other"), profile("b", "2"));
    store.insert(String::new(), profile("c", "3"));
    assert_eq!(store.get("default").map(|p| p.username.as_str()), Some("a"));
    assert_eq!(store.get("other").map(|p| p.username.as_str()), Some("b"));
    assert_eq!(store.get("").map(|p| p.username.as_str()), Some("c"));
    assert!(store.get("missing").is_none());
    assert!(store.get("Default").is_none());
    assert!(store.get("default ").is_none());
}

#[test]
fn store_insert_replaces_under_the_same_name() {
    let mut store = ProfileStore::new();
    store.insert(String::from("default"), profile("a", "1"));
    store.insert(String::from("other"), profile("b", "2"));
    store.insert(String::from("default"), profile("z", "26"));
    assert_eq!(store.get("default").map(|p| p.username.as_str()), Some("z"));
    assert_eq!(store.get("other").map(|p| p.username.as_str()), Some("b"));
    match store.get("default") {
        Some(found) => match found.secret.clone() {
            Secret::Pwd(mask) => assert_eq!(mask.unwrap(), "26"),
            Secret::Token(_) => panic!("a password became a token"),
        },
        None => panic!("the profile is gone"),
    }
}

#[test]
fn store_names_lists_each_name_once() {
    let mut store = ProfileStore::new();
    assert!(store.names().is_empty());
    store.insert(String::from("default"), profile("a", "1"));
    store.insert(String::from("other"), profile("b", "2"));
    store.insert(String::from("default"), profile("z", "26"));
    store.insert(String::new(), profile("c", "3"));
    let mut names = store.names();
    names.sort();
    assert_eq!(names, vec!["", "default", "other"]);
}
