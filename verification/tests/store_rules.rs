use deck_session::registry::ActionManager;
use deck_session::settings::SettingsMap;
use deck_session::store::SessionStore;

fn s(text: &str) -> String {
    text.to_string()
}

fn blob(pairs: &[(&str, &str)]) -> SettingsMap {
    let mut m = SettingsMap::new();
    for (k, v) in pairs {
        m.insert(s(k), s(v));
    }
    m
}

#[test]
fn settings_map_insert_replaces_and_keeps_place() {
    let mut m = blob(&[("a", "1"), ("b", "2")]);
    m.insert(s("a"), s("3"));
    assert_eq!(m.len(), 2);
    assert_eq!(m.key_at(0), "a");
    assert_eq!(m.value_at(0), "3");
    assert_eq!(m.key_at(1), "b");
    assert_eq!(m.get(&s("a")), Some(s("3")));
    assert_eq!(m.get(&s("zz")), None);
}

#[test]
fn latest_settings_for_a_context_stay() {
    let mut store = SessionStore::new();
    assert!(store.settings(&s("c1")).is_none());
    store.update_instances_settings(s("c1"), blob(&[("a", "1"), ("b", "2")]));
    store.update_instances_settings(s("c2"), blob(&[("x", "true")]));
    store.update_instances_settings(s("c1"), blob(&[("b", "9")]));
    let c1 = store.settings(&s("c1")).unwrap();
    assert_eq!(c1.len(), 1);
    assert_eq!(c1.get(&s("b")), Some(s("9")));
    assert_eq!(c1.get(&s("a")), None);
    let c2 = store.settings(&s("c2")).unwrap();
    assert_eq!(c2.get(&s("x")), Some(s("true")));
}

#[test]
fn global_merge_overwrites_given_keys_and_keeps_the_others() {
    let mut store = SessionStore::new();
    store.update_global_settings(&blob(&[("a", "1"), ("b", "2")]));
    store.update_global_settings(&blob(&[("b", "3"), ("c", "4")]));
    let g = store.global_settings();
    assert_eq!(g.len(), 3);
    assert_eq!(g.get(&s("a")), Some(s("1")));
    assert_eq!(g.get(&s("b")), Some(s("3")));
    assert_eq!(g.get(&s("c")), Some(s("4")));
}

#[test]
fn global_merge_is_idempotent() {
    let update = blob(&[("b", "3"), ("c", "4")]);
    let mut once = SessionStore::new();
    once.update_global_settings(&blob(&[("a", "1"), ("b", "2")]));
    once.update_global_settings(&update);
    let mut twice = SessionStore::new();
    twice.update_global_settings(&blob(&[("a", "1"), ("b", "2")]));
    twice.update_global_settings(&update);
    twice.update_global_settings(&update);
    let a = once.global_settings();
    let b = twice.global_settings();
    assert_eq!(a.len(), b.len());
    let mut i = 0;
    while i < a.len() {
        assert_eq!(b.get(a.key_at(i)), Some(a.value_at(i).clone()));
        i += 1;
    }
}

#[test]
fn global_merges_of_disjoint_updates_commute() {
    let first = blob(&[("x", "1")]);
    let second = blob(&[("y", "2")]);
    let mut ab = SessionStore::new();
    ab.update_global_settings(&first);
    ab.update_global_settings(&second);
    let mut ba = SessionStore::new();
    ba.update_global_settings(&second);
    ba.update_global_settings(&first);
    let a = ab.global_settings();
    let b = ba.global_settings();
    assert_eq!(a.len(), 2);
    assert_eq!(b.len(), 2);
    assert_eq!(a.get(&s("x")), b.get(&s("x")));
    assert_eq!(a.get(&s("y")), b.get(&s("y")));
}

#[test]
fn appear_then_disappear_leaves_the_context_nowhere() {
    let mut store = SessionStore::new();
    store.appear(s("h1"), s("c1"));
    store.appear(s("h1"), s("c2"));
    store.appear(s("h2"), s("c3"));
    assert_eq!(store.contexts_of(&s("h1")), vec![s("c1"), s("c2")]);
    store.disappear(&s("c1"));
    assert_eq!(store.contexts_of(&s("h1")), vec![s("c2")]);
    assert_eq!(store.contexts_of(&s("h2")), vec![s("c3")]);
    assert!(store.contexts_of(&s("nobody")).is_empty());
}

#[test]
fn a_context_is_visible_under_one_handler_at_a_time() {
    let mut store = SessionStore::new();
    store.appear(s("h1"), s("c1"));
    store.appear(s("h2"), s("c1"));
    assert!(store.contexts_of(&s("h1")).is_empty());
    assert_eq!(store.contexts_of(&s("h2")), vec![s("c1")]);
    store.disappear(&s("c1"));
    assert!(store.contexts_of(&s("h2")).is_empty());
}

#[test]
fn appearing_twice_lists_the_context_once_and_last() {
    let mut store = SessionStore::new();
    store.appear(s("h1"), s("c1"));
    store.appear(s("h1"), s("c2"));
    store.appear(s("h1"), s("c1"));
    assert_eq!(store.contexts_of(&s("h1")), vec![s("c2"), s("c1")]);
}

#[test]
fn disappearing_of_an_unknown_context_changes_nothing() {
    let mut store = SessionStore::new();
    store.appear(s("h1"), s("c1"));
    store.disappear(&s("c9"));
    assert_eq!(store.contexts_of(&s("h1")), vec![s("c1")]);
}

#[test]
fn registry_resolves_and_last_registration_wins() {
    let manager = ActionManager::new().register(vec![
        (s("a"), 1u32),
        (s("shared"), 2u32),
        (s("a"), 3u32),
    ]);
    assert_eq!(manager.len(), 2);
    assert_eq!(manager.get(&s("a")), Some(&3u32));
    assert_eq!(manager.shared(), Some(&2u32));
    assert_eq!(manager.get(&s("b")), None);
    assert_eq!(manager.position(&s("shared")), Some(1));
    assert_eq!(manager.id_at(0), "a");
    assert_eq!(manager.handler_at(1), &2u32);
}

#[test]
fn registry_without_catch_all() {
    let manager = ActionManager::new().register(vec![(s("a"), 1u32)]);
    assert_eq!(manager.shared(), None);
    let empty: ActionManager<u32> = ActionManager::new();
    assert_eq!(empty.len(), 0);
}
