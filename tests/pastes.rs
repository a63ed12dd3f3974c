use icpbin_backend::paste::{
    IcpPasteError, PasteData, PasteDataCreator, PasteDataUpdater, _create_tags,
    _get_file_extension, DELETE_TEMPLATE,
};
use icpbin_backend::store::{PasteStore, FOUR_HOUR_IN_SEC};
use icpbin_backend::user::{IcpUserError, UserProfileCreator, UserProfileUpdater};

fn s(v: &str) -> String {
    v.to_string()
}

fn creator(name: &str, ttl: u32, tags: &str, short_url: Option<&str>) -> PasteDataCreator {
    PasteDataCreator {
        short_url: short_url.map(|c| c.to_string()),
        name: s(name),
        description: s("about it"),
        content: s("hello"),
        expire_date: ttl,
        tags: s(tags),
    }
}

fn profile(name: &str) -> UserProfileCreator {
    UserProfileCreator { name: s(name), gravatar: s("img"), bio: s("bio") }
}

fn no_change() -> PasteDataUpdater {
    PasteDataUpdater { name: None, description: None, content: None, tags: None }
}

fn names(v: &[PasteData]) -> Vec<String> {
    v.iter().map(|p| p.name.clone()).collect()
}

#[test]
fn tags_split_on_any_whitespace() {
    assert_eq!(_create_tags(s("  rust\tverus \n  code ")), vec![s("rust"), s("verus"), s("code")]);
    assert_eq!(_create_tags(s("a\u{3000}b")), vec![s("a"), s("b")]);
    assert_eq!(_create_tags(s("one")), vec![s("one")]);
}

#[test]
fn tags_of_blank_text_are_empty() {
    assert!(_create_tags(s("")).is_empty());
    assert!(_create_tags(s(" \t \n")).is_empty());
}

#[test]
fn extension_is_after_last_dot() {
    assert_eq!(_get_file_extension("notes.txt"), Some("txt"));
    assert_eq!(_get_file_extension("notes.txt.bak"), Some("bak"));
    assert_eq!(_get_file_extension("archive."), Some(""));
    assert_eq!(_get_file_extension(".bashrc"), Some("bashrc"));
    assert_eq!(_get_file_extension("README"), None);
    assert_eq!(_get_file_extension(""), None);
}

#[test]
fn created_paste_is_readable_at_version_one() {
    let mut store = PasteStore::new();
    store.create_new_profile(&s("alice"), profile("Alice")).unwrap();
    let p = store.create_new_paste(&s("alice"), creator("a.rs", 60, " x  y x ", None)).unwrap();
    assert_eq!(p.version, 1);
    assert_eq!(p.id, 0);
    assert_eq!(p.creator, Some(s("alice")));
    assert_eq!(p.expire_date, 60);
    let got = store.get_paste_by_index(p.id).unwrap();
    assert_eq!(got.version, 1);
    assert_eq!(got.tags, vec![s("x"), s("y"), s("x")]);
    assert_eq!(got.name, s("a.rs"));
    assert_eq!(got.content, s("hello"));
    assert_eq!(got.description, s("about it"));
}

#[test]
fn ids_count_up_from_zero() {
    let mut store = PasteStore::new();
    for i in 0..3u64 {
        let p = store.create_new_paste(&s("anon"), creator("f", 60, "", None)).unwrap();
        assert_eq!(p.id, i);
    }
    assert!(matches!(store.get_paste_by_index(3), Err(IcpPasteError::PasteNotFound)));
}

#[test]
fn second_paste_with_same_short_code_is_refused() {
    let mut store = PasteStore::new();
    let first = store.create_new_paste(&s("anon"), creator("one", 60, "", Some("abcd"))).unwrap();
    let second = store.create_new_paste(&s("anon"), creator("two", 60, "", Some("abcd")));
    assert!(matches!(second, Err(IcpPasteError::ShortUrlAlreadyExist)));
    let resolved = store.find_paste_by_short_url(&s("abcd")).unwrap();
    assert_eq!(resolved.id, first.id);
    assert_eq!(resolved.name, s("one"));
    assert!(store._is_short_url_exist(&s("abcd")));
    assert!(store.get_paste_by_index(1).is_err());
}

#[test]
fn short_code_length_is_checked() {
    let mut store = PasteStore::new();
    let short = store.create_new_paste(&s("anon"), creator("x", 60, "", Some("abc")));
    assert!(matches!(short, Err(IcpPasteError::ShortUrlShouldBeBetween4And10)));
    let long = store.create_new_paste(&s("anon"), creator("x", 60, "", Some("abcdefghijk")));
    assert!(matches!(long, Err(IcpPasteError::ShortUrlShouldBeBetween4And10)));
    assert!(store.create_new_paste(&s("anon"), creator("x", 60, "", Some("abcd"))).is_ok());
    assert!(store.create_new_paste(&s("anon"), creator("x", 60, "", Some("abcdefghij"))).is_ok());
    assert!(!store._is_short_url_exist(&s("abc")));
    assert!(matches!(store.find_paste_by_short_url(&s("zzzz")), Err(IcpPasteError::PasteNotFound)));
}

#[test]
fn expire_date_of_identified_user_is_checked() {
    let mut store = PasteStore::new();
    store.create_new_profile(&s("bob"), profile("Bob")).unwrap();
    let low = store.create_new_paste(&s("bob"), creator("x", 29, "", None));
    assert!(matches!(low, Err(IcpPasteError::WrongExpireDate)));
    let high = store.create_new_paste(&s("bob"), creator("x", 31536001, "", None));
    assert!(matches!(high, Err(IcpPasteError::WrongExpireDate)));
    assert_eq!(store.create_new_paste(&s("bob"), creator("x", 30, "", None)).unwrap().expire_date, 30);
    let year = store.create_new_paste(&s("bob"), creator("x", 31536000, "", None)).unwrap();
    assert_eq!(year.expire_date, 31536000);
    assert_eq!(store.get_self_info(&s("bob")).unwrap().paste_indexs, vec![0, 1]);
}

#[test]
fn anonymous_paste_lives_four_hours() {
    let mut store = PasteStore::new();
    let p = store.create_new_paste(&s("nobody"), creator("x", 31536000, "", None)).unwrap();
    assert_eq!(p.expire_date, FOUR_HOUR_IN_SEC);
    assert_eq!(p.expire_date, 14400);
    assert_eq!(p.creator, None);
    let q = store.create_new_paste(&s("nobody"), creator("x", 1, "", None)).unwrap();
    assert_eq!(q.expire_date, 14400);
}

#[test]
fn rejected_updates_change_nothing() {
    let mut store = PasteStore::new();
    store.create_new_profile(&s("alice"), profile("Alice")).unwrap();
    store.create_new_profile(&s("mallory"), profile("Mallory")).unwrap();
    store.create_new_paste(&s("alice"), creator("mine", 60, "t", None)).unwrap();
    store.create_new_paste(&s("someone"), creator("anon", 60, "t", None)).unwrap();
    let update = || PasteDataUpdater {
        name: Some(s("hacked")),
        description: None,
        content: Some(s("hacked")),
        tags: None,
    };
    assert!(matches!(store.update_paste(&s("mallory"), 0, update()), Err(IcpPasteError::PasteIsNotAccessable)));
    assert!(matches!(store.update_paste(&s("someone"), 0, update()), Err(IcpPasteError::PasteIsNotAccessable)));
    assert!(matches!(store.update_paste(&s("alice"), 1, update()), Err(IcpPasteError::PasteIsNotAccessable)));
    assert!(matches!(store.update_paste(&s("alice"), 7, update()), Err(IcpPasteError::PasteNotFound)));
    let p = store.get_paste_by_index(0).unwrap();
    assert_eq!((p.name.as_str(), p.content.as_str(), p.version), ("mine", "hello", 1));
    let q = store.get_paste_by_index(1).unwrap();
    assert_eq!((q.name.as_str(), q.content.as_str(), q.version), ("anon", "hello", 1));
}

#[test]
fn owner_updates_only_given_fields() {
    let mut store = PasteStore::new();
    store.create_new_profile(&s("alice"), profile("Alice")).unwrap();
    store.create_new_paste(&s("alice"), creator("a.txt", 60, "old", None)).unwrap();
    let upd = PasteDataUpdater { name: None, description: None, content: Some(s("new")), tags: Some(s("p q")) };
    let p = store.update_paste(&s("alice"), 0, upd).unwrap();
    assert_eq!(p.version, 2);
    assert_eq!(p.name, s("a.txt"));
    assert_eq!(p.content, s("new"));
    assert_eq!(p.description, s("about it"));
    assert_eq!(p.tags, vec![s("p"), s("q")]);
    let p = store.update_paste(&s("alice"), 0, no_change()).unwrap();
    assert_eq!(p.version, 3);
    assert_eq!(store.get_paste_by_index(0).unwrap().version, 3);
}

#[test]
fn recent_pastes_newest_first_and_capped() {
    let mut store = PasteStore::new();
    assert!(store.get_last_n_paste(None).is_empty());
    for i in 0..12 {
        store.create_new_paste(&s("anon"), creator(&format!("p{}", i), 60, "", None)).unwrap();
    }
    assert_eq!(names(&store.get_last_n_paste(Some(3))), vec![s("p11"), s("p10"), s("p9")]);
    assert_eq!(store.get_last_n_paste(Some(200)).len(), 10);
    assert_eq!(store.get_last_n_paste(Some(11)).len(), 10);
    let all = store.get_last_n_paste(None);
    assert_eq!(all.len(), 10);
    assert_eq!(all[0].name, s("p11"));
    assert_eq!(all[9].name, s("p2"));
    assert!(store.get_last_n_paste(Some(0)).is_empty());
}

#[test]
fn recent_pastes_of_small_store() {
    let mut store = PasteStore::new();
    store.create_new_paste(&s("anon"), creator("a", 60, "", None)).unwrap();
    store.create_new_paste(&s("anon"), creator("b", 60, "", None)).unwrap();
    assert_eq!(names(&store.get_last_n_paste(Some(2))), vec![s("b"), s("a")]);
    assert_eq!(names(&store.get_last_n_paste(Some(5))), vec![s("b"), s("a")]);
}

#[test]
fn find_by_extension_matches_last_suffix_only() {
    let mut store = PasteStore::new();
    store.create_new_paste(&s("anon"), creator("notes.txt", 60, "", None)).unwrap();
    store.create_new_paste(&s("anon"), creator("notes.txt.bak", 60, "", None)).unwrap();
    store.create_new_paste(&s("anon"), creator("txt", 60, "", None)).unwrap();
    store.create_new_paste(&s("anon"), creator("b.txt", 60, "", None)).unwrap();
    assert_eq!(names(&store.find_paste_by_extension(&s("txt"))), vec![s("notes.txt"), s("b.txt")]);
    assert_eq!(names(&store.find_paste_by_extension(&s("bak"))), vec![s("notes.txt.bak")]);
    assert!(store.find_paste_by_extension(&s("rs")).is_empty());
}

#[test]
fn find_by_tag_and_name() {
    let mut store = PasteStore::new();
    store.create_new_paste(&s("anon"), creator("one", 60, "rust web", None)).unwrap();
    store.create_new_paste(&s("anon"), creator("two", 60, "go", None)).unwrap();
    store.create_new_paste(&s("anon"), creator("one", 60, "rust", None)).unwrap();
    let rust = store.find_paste_by_tag(&s("rust"));
    assert_eq!(rust.iter().map(|p| p.id).collect::<Vec<_>>(), vec![0, 2]);
    assert!(store.find_paste_by_tag(&s("ru")).is_empty());
    let ones = store.find_paste_by_name(&s("one"));
    assert_eq!(ones.iter().map(|p| p.id).collect::<Vec<_>>(), vec![0, 2]);
    assert!(store.find_paste_by_name(&s("on")).is_empty());
}

#[test]
fn expiry_tombstones_current_state() {
    let mut store = PasteStore::new();
    store.create_new_profile(&s("alice"), profile("Alice")).unwrap();
    let p = store.create_new_paste(&s("alice"), creator("doc.md", 30, "a b", Some("alias"))).unwrap();
    assert_eq!(p.expire_date, 30);
    let upd = PasteDataUpdater { name: None, description: Some(s("edited")), content: Some(s("changed")), tags: None };
    store.update_paste(&s("alice"), p.id, upd).unwrap();
    store.expire_paste(p.id);
    let got = store.get_paste_by_index(p.id).unwrap();
    assert_eq!(got.name, s(DELETE_TEMPLATE));
    assert_eq!(got.content, s("DELETE"));
    assert!(got.tags.is_empty());
    assert_eq!(got.id, p.id);
    assert_eq!(got.creator, Some(s("alice")));
    assert_eq!(got.version, 2);
    assert_eq!(got.description, s("edited"));
    assert_eq!(store.find_paste_by_short_url(&s("alias")).unwrap().id, p.id);
    assert_eq!(store.get_paste_by_user(&s("alice"), None).unwrap().len(), 1);
    store.expire_paste(99);
    assert_eq!(store.get_last_n_paste(None).len(), 1);
}

#[test]
fn clear_keeps_identity() {
    let mut p = PasteData::create(4, Some(s("me")), creator("n", 60, "t u", None));
    p.clear();
    assert_eq!((p.id, p.name.as_str(), p.content.as_str()), (4, "DELETE", "DELETE"));
    assert!(p.tags.is_empty());
    assert_eq!(p.creator, Some(s("me")));
    assert_eq!(p.description, s("about it"));
}

#[test]
fn pastes_by_user() {
    let mut store = PasteStore::new();
    store.create_new_profile(&s("alice"), profile("Alice")).unwrap();
    store.create_new_profile(&s("bob"), profile("Bob")).unwrap();
    store.create_new_paste(&s("alice"), creator("a1", 60, "", None)).unwrap();
    store.create_new_paste(&s("bob"), creator("b1", 60, "", None)).unwrap();
    store.create_new_paste(&s("alice"), creator("a2", 60, "", None)).unwrap();
    assert_eq!(names(&store.get_paste_by_user(&s("alice"), None).unwrap()), vec![s("a1"), s("a2")]);
    assert_eq!(names(&store.get_paste_by_user(&s("alice"), Some(s("bob"))).unwrap()), vec![s("b1")]);
    assert!(matches!(store.get_paste_by_user(&s("carol"), None), Err(IcpPasteError::PasteNotFound)));
    assert!(matches!(store.get_paste_by_user(&s("alice"), Some(s("x"))), Err(IcpPasteError::PasteNotFound)));
}

#[test]
fn profile_lifecycle() {
    let mut store = PasteStore::new();
    assert!(matches!(store.get_self_info(&s("alice")), Err(IcpUserError::UserNotFound)));
    let upd = UserProfileUpdater { name: Some(s("A")), gravatar: None, bio: None };
    assert!(matches!(store.update_user_profile(&s("alice"), upd), Err(IcpUserError::UserNotFound)));
    let p = store.create_new_profile(&s("alice"), profile("Alice")).unwrap();
    assert_eq!((p.id.as_str(), p.name.as_str(), p.gravatar.as_str(), p.bio.as_str()), ("alice", "Alice", "img", "bio"));
    assert!(p.paste_indexs.is_empty());
    let again = store.create_new_profile(&s("alice"), profile("Other"));
    assert!(matches!(again, Err(IcpUserError::UserAlreadyExist)));
    assert_eq!(store.get_self_info(&s("alice")).unwrap().name, s("Alice"));
    let upd = UserProfileUpdater { name: None, gravatar: Some(s("pic")), bio: Some(s("hi")) };
    let q = store.update_user_profile(&s("alice"), upd).unwrap();
    assert_eq!((q.name.as_str(), q.gravatar.as_str(), q.bio.as_str()), ("Alice", "pic", "hi"));
    assert_eq!(store.get_self_info(&s("alice")).unwrap().bio, s("hi"));
}
