use amoeba::query::EngineCollection;
use amoeba::query::EngineKind;
use amoeba::query::QueryConfig;
use amoeba::query::QueryEngine;
use amoeba::query::content_search::Rga;
use amoeba::query::file_search::Fzf;
use amoeba::query::mock_engine::MockEngine;
use amoeba::query::wikipedia::WikipediaEngine;

fn engine() -> QueryEngine {
    QueryEngine::new(&QueryConfig { pool_size: 2 }, EngineCollection::standard())
}

#[test]
fn single_session_only_latest_current() {
    let mut e = engine();
    let mut handles = Vec::new();
    for q in ["alpha", "beta", "gamma"] {
        let plan = e.query(q, &None).expect("non-blank query plans a session");
        handles.push(plan.session);
    }
    assert_eq!(handles, vec![0, 1, 2]);
    assert!(!e.match_receiver(handles[0]));
    assert!(!e.match_receiver(handles[1]));
    assert!(e.match_receiver(handles[2]));
    assert_eq!(e.responses(), Some(handles[2]));
}

#[test]
fn clear_is_idempotent() {
    let mut e = engine();
    assert_eq!(e.responses(), None);
    e.clear_query();
    assert_eq!(e.responses(), None);
    e.clear_query();
    assert_eq!(e.responses(), None);
    assert_eq!(e.sessions_started(), 0);
}

#[test]
fn clear_discards_current_session() {
    let mut e = engine();
    let plan = e.query("something", &None).unwrap();
    assert!(e.match_receiver(plan.session));
    e.clear_query();
    assert!(!e.match_receiver(plan.session));
    assert_eq!(e.responses(), None);
}

#[test]
fn blank_query_routes_to_clear() {
    let mut e = engine();
    let plan = e.query("real", &None).unwrap();
    assert!(e.match_receiver(plan.session));
    assert_eq!(e.query("   \t ", &None), None);
    assert_eq!(e.responses(), None);
    assert_eq!(e.query("", &None), None);
    assert_eq!(e.responses(), None);
    assert_eq!(e.sessions_started(), 1);
}

#[test]
fn filter_routes_to_matching_providers_only() {
    let mut e = engine();
    let plan = e.query("q", &Some("@mk".to_string())).unwrap();
    assert_eq!(plan.engines, vec![EngineKind::Mock(MockEngine)]);
    let plan = e.query("q", &Some("@fzf".to_string())).unwrap();
    assert_eq!(plan.engines, vec![EngineKind::Fzf(Fzf)]);
    let plan = e.query("q", &Some("@rg".to_string())).unwrap();
    assert_eq!(plan.engines, vec![EngineKind::Rga(Rga)]);
    let plan = e.query("q", &Some("@wi".to_string())).unwrap();
    assert_eq!(plan.engines, vec![EngineKind::Wikipedia(WikipediaEngine)]);
}

#[test]
fn unknown_filter_routes_nowhere() {
    let mut e = engine();
    let plan = e.query("q", &Some("@zz".to_string())).unwrap();
    assert_eq!(plan.engines, Vec::new());
}

#[test]
fn no_filter_routes_to_all_providers_in_registration_order() {
    let mut e = engine();
    let plan = e.query("q", &None).unwrap();
    assert_eq!(
        plan.engines,
        vec![
            EngineKind::Mock(MockEngine),
            EngineKind::Wikipedia(WikipediaEngine),
            EngineKind::Fzf(Fzf),
            EngineKind::Rga(Rga),
        ]
    );
}

#[test]
fn registry_groups_by_prefix_in_order() {
    let mut c = EngineCollection::new();
    c.register(EngineKind::Mock(MockEngine));
    c.register(EngineKind::Fzf(Fzf::new()));
    c.register(EngineKind::Mock(MockEngine));
    assert_eq!(c.entries.len(), 2);
    assert_eq!(c.entries[0].prefix, "@mk");
    assert_eq!(
        c.entries[0].engines,
        vec![EngineKind::Mock(MockEngine), EngineKind::Mock(MockEngine)]
    );
    assert_eq!(c.entries[1].prefix, "@fzf");
    assert_eq!(c.entries[1].engines, vec![EngineKind::Fzf(Fzf)]);
}

#[test]
fn icons_follow_the_filter() {
    let e = engine();
    assert_eq!(e.icon(&None), "\u{f0349}");
    assert_eq!(e.icon(&Some("@mk".to_string())), "\u{f0911}");
    assert_eq!(e.icon(&Some("@wi".to_string())), "\u{f05ac}");
    assert_eq!(e.icon(&Some("@fzf".to_string())), "\u{f15b}");
    assert_eq!(e.icon(&Some("@rg".to_string())), "\u{f021e}");
    assert_eq!(e.icon(&Some("@zz".to_string())), "\u{f4f4}");
}

#[test]
fn pool_size_respects_configuration() {
    let e = QueryEngine::new(&QueryConfig { pool_size: 7 }, EngineCollection::standard());
    assert_eq!(e.pool_size, 7);
    let detected = QueryEngine::new(&QueryConfig { pool_size: 0 }, EngineCollection::standard());
    assert!(detected.pool_size >= 1);
    assert_eq!(QueryConfig::default().pool_size, 0);
}

#[test]
fn provider_names_and_prefixes() {
    assert_eq!(MockEngine.name(), "mock_engine");
    assert_eq!(MockEngine.prefix(), "@mk");
    assert_eq!(Fzf::new().name(), "fzf");
    assert_eq!(Fzf::new().prefix(), "@fzf");
    assert_eq!(Rga::new().name(), "rga");
    assert_eq!(Rga::new().prefix(), "@rg");
    assert_eq!(WikipediaEngine::new().name(), "wikipedia");
    assert_eq!(WikipediaEngine::new().prefix(), "@wi");
}
