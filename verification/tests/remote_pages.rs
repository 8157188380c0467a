use market_sync::api::{paginate, AppListQuery, DbSearch, RankingQuery};
use market_sync::config::{ApiConfig, AppConfig, Config, DatabaseConfig, ServeConfig};
use market_sync::query::AppQuery;
use market_sync::rating::{extract_star_info, CardEntry, LayoutCard, RatingLookup};
use market_sync::raw::{api_release_type_default, hot_default, main_device_codes_default,
    rate_num_default};
use market_sync::remote::{default_sub_entity_prefix, response_ok, skip_rating_lookup};
use market_sync::substance::{collect_substance, SubstanceCard, SubstanceData, SubstanceEntry};

fn card(card_type: &str, entries: Vec<CardEntry>) -> LayoutCard {
    LayoutCard { card_type: card_type.to_string(), entries }
}

fn star_entry(payload: Option<&str>) -> CardEntry {
    CardEntry { star_info: payload.map(|s| s.to_string()) }
}

#[test]
fn missing_comment_card_is_not_available() {
    let cards = vec![
        card("fl.card.banner", vec![star_entry(Some("ignored"))]),
        card("fl.card.detail", vec![]),
    ];
    assert!(matches!(extract_star_info(&cards), RatingLookup::NotAvailable));
    assert!(matches!(extract_star_info(&Vec::new()), RatingLookup::NotAvailable));
}

#[test]
fn comment_card_yields_its_star_payload() {
    let cards = vec![
        card("fl.card.banner", vec![]),
        card("fl.card.comment", vec![star_entry(Some("{\"averageRating\":\"2.9\"}"))]),
        card("fl.card.comment", vec![star_entry(Some("later card loses"))]),
    ];
    match extract_star_info(&cards) {
        RatingLookup::Found(s) => assert_eq!(s, "{\"averageRating\":\"2.9\"}"),
        RatingLookup::NotAvailable => panic!("expected a payload"),
    }
}

#[test]
fn comment_card_without_payload_is_not_available() {
    let empty_entries = vec![card("fl.card.comment", vec![])];
    assert!(matches!(extract_star_info(&empty_entries), RatingLookup::NotAvailable));
    let no_star = vec![card("fl.card.comment", vec![star_entry(None)])];
    assert!(matches!(extract_star_info(&no_star), RatingLookup::NotAvailable));
}

#[test]
fn responses_need_a_2xx_status_and_a_body() {
    assert!(response_ok(200, 10));
    assert!(response_ok(299, 1));
    assert!(!response_ok(300, 10));
    assert!(!response_ok(404, 10));
    assert!(!response_ok(200, 0));
    assert!(!response_ok(199, 10));
}

#[test]
fn sub_entities_skip_the_rating_lookup() {
    let prefix = default_sub_entity_prefix();
    assert!(skip_rating_lookup("com.atomicservice.5765880207855314153", prefix));
    assert!(!skip_rating_lookup("com.tencent.hm.qqmusic", prefix));
    assert!(!skip_rating_lookup("com", prefix));
}

fn substance_entry() -> SubstanceEntry {
    SubstanceEntry {
        app_id: None,
        title: None,
        sub_title: None,
        name: None,
        ref_apps: None,
        ref_apps_short: None,
    }
}

#[test]
fn vertical_cards_list_entities_directly() {
    let mut e1 = substance_entry();
    e1.app_id = Some("C100".to_string());
    let mut e2 = substance_entry();
    e2.app_id = Some("C200".to_string());
    let cards = vec![SubstanceCard {
        card_type: "com.huawei.hmsapp.appgallery.verticallistcard".to_string(),
        entries: vec![e1, substance_entry(), e2],
    }];
    let data = collect_substance("S1", &cards);
    assert_eq!(data.id, "S1");
    assert_eq!(data.title, "");
    let names: Vec<&str> = data.data.iter().map(|q| q.name()).collect();
    assert_eq!(names, vec!["C100", "C200"]);
}

#[test]
fn landing_cards_set_titles_and_references() {
    let mut first = substance_entry();
    first.title = Some("Topic".to_string());
    first.sub_title = Some("Sub".to_string());
    first.ref_apps = Some(vec!["C1".to_string(), "C2".to_string()]);
    let cards = vec![SubstanceCard {
        card_type: "com.huawei.hmos.appgallery.scenariolistcard.landing".to_string(),
        entries: vec![first, substance_entry()],
    }];
    let data = collect_substance("S2", &cards);
    assert_eq!(data.title, "Topic");
    assert_eq!(data.sub_title.as_deref(), Some("Sub"));
    assert_eq!(data.name, None);
    let names: Vec<&str> = data.data.iter().map(|q| q.name()).collect();
    assert_eq!(names, vec!["C1", "C2"]);
}

#[test]
fn big_cards_overwrite_titles_and_collect_short_references() {
    let mut e1 = substance_entry();
    e1.title = Some("Old".to_string());
    e1.ref_apps_short = Some(vec!["C1".to_string()]);
    let mut e2 = substance_entry();
    e2.title = Some("New".to_string());
    e2.name = Some("N".to_string());
    let unknown = SubstanceCard { card_type: "something.else".to_string(), entries: vec![] };
    let cards = vec![
        unknown,
        SubstanceCard {
            card_type: "com.huawei.hmsapp.appgallery.subjectappbigcard.landing".to_string(),
            entries: vec![e1, e2],
        },
    ];
    let data = collect_substance("S3", &cards);
    assert_eq!(data.title, "New");
    assert_eq!(data.name.as_deref(), Some("N"));
    assert_eq!(data.sub_title, None);
    let names: Vec<&str> = data.data.iter().map(|q| q.name()).collect();
    assert_eq!(names, vec!["C1"]);
}

#[test]
fn say_my_name_joins_the_title_fields() {
    let full = SubstanceData {
        id: "S".to_string(),
        title: "Topic".to_string(),
        sub_title: Some("Sub".to_string()),
        name: Some("N".to_string()),
        data: Vec::new(),
    };
    assert_eq!(full.say_my_name(), "Topic - Sub (N)");
    let bare = SubstanceData {
        id: "S".to_string(),
        title: "Topic".to_string(),
        sub_title: None,
        name: None,
        data: Vec::new(),
    };
    assert_eq!(bare.say_my_name(), "Topic");
}

#[test]
fn queries_carry_their_addressing_scheme() {
    let by_id = AppQuery::app_id("C100");
    assert_eq!(by_id.name(), "C100");
    assert_eq!(by_id.app_info_type(), "appId");
    assert_eq!(by_id.app_db_name(), "app_id");
    let by_pkg = AppQuery::pkg_name("com.example.app");
    assert_eq!(by_pkg.name(), "com.example.app");
    assert_eq!(by_pkg.app_info_type(), "pkgName");
    assert_eq!(by_pkg.app_db_name(), "pkg_name");
}

#[test]
fn pagination_matches_ceiling_division() {
    assert_eq!(paginate(100, 2, 10), (10, 10));
    assert_eq!(paginate(101, 1, 10), (0, 11));
    assert_eq!(paginate(0, 1, 10), (0, 0));
    assert_eq!(paginate(5, 3, 0), (0, 0));
    assert_eq!(paginate(5, 0, 10), (0, 1));
}

#[test]
fn searches_wrap_fuzzy_values() {
    let exact = DbSearch::exact("name".to_string(), "maps".to_string());
    assert_eq!(exact.search_value(), "maps");
    let fuzzy = DbSearch::fuzzy("name".to_string(), "maps".to_string());
    assert_eq!(fuzzy.search_value(), "%maps%");
    let built = DbSearch::new("app_id".to_string(), "C1".to_string(), true);
    assert!(built.is_exact);
}

fn list_query() -> AppListQuery {
    AppListQuery {
        sort: None,
        desc: None,
        search_key: None,
        search_value: None,
        search_exact: None,
        page_size: None,
        detail: None,
    }
}

#[test]
fn list_queries_validate_their_parameters() {
    let mut q = list_query();
    assert!(!q.is_valid_sort());
    assert_eq!(q.sort_key(), "created_at");
    q.sort = Some("download_count".to_string());
    assert!(q.is_valid_sort());
    assert_eq!(q.sort_key(), "download_count");
    q.sort = Some("evil; drop table".to_string());
    assert!(!q.is_valid_sort());
    assert_eq!(q.sort_key(), "created_at");
    assert_eq!(q.page_size(None), 100);
    q.page_size = Some(500);
    assert_eq!(q.page_size(Some(200)), 200);
    assert_eq!(q.page_size(Some(1000)), 500);
    assert!(q.detail());
    q.detail = Some(false);
    assert!(!q.detail());
}

#[test]
fn search_options_need_a_valid_key_and_a_value() {
    let mut q = list_query();
    assert!(q.search_option().is_none());
    q.search_key = Some("pkg_name".to_string());
    assert!(q.search_option().is_none());
    q.search_value = Some("com.example".to_string());
    let s = q.search_option().expect("search");
    assert_eq!(s.key, "pkg_name");
    assert_eq!(s.value, "com.example");
    assert!(!s.is_exact);
    q.search_exact = Some(true);
    assert!(q.search_option().expect("search").is_exact);
    q.search_key = Some("password".to_string());
    assert!(q.search_option().is_none());
}

#[test]
fn ranking_query_defaults_to_ten() {
    let q = RankingQuery::default();
    assert_eq!(q.limit, Some(10));
    assert!(q.exclude_pattern.is_none());
    assert!(q.time_range.is_none());
}

#[test]
fn config_getters_expose_their_sections() {
    let cfg = Config {
        database: DatabaseConfig { url: "postgres://localhost/market".to_string(), max_connect: 16 },
        app: AppConfig {
            packages: vec!["com.example.a".to_string()],
            locale: "zh_CN".to_string(),
        },
        api: ApiConfig {
            api_url: "https://api.example.invalid".to_string(),
            timeout_seconds: 30,
            interval_seconds: 3600,
        },
        serve: ServeConfig { url: "127.0.0.1".to_string(), port: 8080 },
    };
    assert_eq!(cfg.database_url(), "postgres://localhost/market");
    assert_eq!(cfg.db_max_connect(), 16);
    assert_eq!(cfg.packages().len(), 1);
    assert_eq!(cfg.locale(), "zh_CN");
    assert_eq!(cfg.api_url(), "https://api.example.invalid");
    assert_eq!(cfg.api_timeout_seconds(), 30);
    assert_eq!(cfg.api_interval(), 3600);
    assert_eq!(cfg.serve_url(), "127.0.0.1");
    assert_eq!(cfg.serve_port(), 8080);
}

#[test]
fn tolerant_decoding_defaults() {
    assert_eq!(hot_default(), "0.0");
    assert_eq!(rate_num_default(), "0");
    assert_eq!(api_release_type_default(), "Release");
    assert_eq!(main_device_codes_default(), vec![0u8]);
}
