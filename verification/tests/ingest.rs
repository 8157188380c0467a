use market_sync::raw::{RawJsonData, RawRatingData};
use market_sync::records::{AppMetric, AppRaw};
use market_sync::store::{plan_ingest, ChangeAwareStore};

fn make_doc(app_id: &str, name: &str, version: &str) -> RawJsonData {
    RawJsonData {
        app_id: app_id.to_string(),
        alliance_app_id: "1001".to_string(),
        name: name.to_string(),
        pkg_name: format!("com.example.{}", app_id),
        dev_id: "d1".to_string(),
        developer_name: "Dev".to_string(),
        dev_en_name: "Dev EN".to_string(),
        supplier: "Supplier".to_string(),
        kind_id: "13".to_string(),
        kind_name: "Tools".to_string(),
        tag_name: None,
        kind_type_id: "2".to_string(),
        kind_type_name: "App".to_string(),
        icon_url: "https://example.invalid/icon.png".to_string(),
        brief_desc: "brief".to_string(),
        description: "description".to_string(),
        privacy_url: "https://example.invalid/privacy".to_string(),
        ctype: 0,
        detail_id: "detail|x".to_string(),
        app_level: 2,
        jocat_id: 1,
        iap: 0,
        hms: 1,
        tariff_type: "free".to_string(),
        packing_type: 4,
        order_app: false,
        denpend_gms: 0,
        denpend_hms: 1,
        force_update: 0,
        img_tag: "1".to_string(),
        is_pay: "0".to_string(),
        is_disciplined: 0,
        is_shelves: 1,
        submit_type: 0,
        delete_archive: 0,
        charging: 0,
        button_grey: 0,
        app_gift: 0,
        free_days: 0,
        pay_install_type: 0,
        version: version.to_string(),
        version_code: 1000,
        size_bytes: 12345678,
        sha256: "cafebabe".to_string(),
        hot_score: "4.5".to_string(),
        rate_num: "321".to_string(),
        download_count: "10000".to_string(),
        price: "0".to_string(),
        release_date: 1700000000000,
        new_features: "features".to_string(),
        upgrade_msg: "upgrade".to_string(),
        target_sdk: "12".to_string(),
        min_sdk: "9".to_string(),
        compile_sdk_version: 50001,
        min_hmos_api_level: 50001,
        api_release_type: "Release".to_string(),
        main_device_codes: vec![0],
        release_countries: vec!["CN".to_string()],
    }
}

fn make_rating(avg: &str, total: i32) -> RawRatingData {
    RawRatingData {
        average_rating: avg.to_string(),
        star_1_rating_count: 10,
        star_2_rating_count: 20,
        star_3_rating_count: 30,
        star_4_rating_count: 40,
        star_5_rating_count: 50,
        my_star_rating: 0,
        total_star_rating_count: total,
        only_star_count: 5,
        full_average_rating: "5.0".to_string(),
        source_type: "USER_RATING".to_string(),
    }
}

#[test]
fn first_ingest_writes_everything() {
    let mut store = ChangeAwareStore::new();
    let flags = store.ingest(make_doc("X1", "App", "1.0"), Some(make_rating("4.1", 100)), 100);
    assert_eq!(flags, (true, true, true));
    assert_eq!(store.infos.len(), 1);
    assert_eq!(store.metrics.len(), 1);
    assert_eq!(store.ratings.len(), 1);
    assert_eq!(store.snapshots.len(), 1);
    assert!(store.app_exists("X1"));
    assert_eq!(store.get_app_created_at("X1"), Some(100));
}

#[test]
fn reingest_identical_is_noop() {
    let mut store = ChangeAwareStore::new();
    store.ingest(make_doc("X1", "App", "1.0"), Some(make_rating("4.1", 100)), 100);
    let flags = store.ingest(make_doc("X1", "App", "1.0"), Some(make_rating("4.1", 100)), 200);
    assert_eq!(flags, (false, false, false));
    assert_eq!(store.snapshots.len(), 1);
    assert_eq!(store.infos.len(), 1);
    assert_eq!(store.metrics.len(), 1);
    assert_eq!(store.ratings.len(), 1);
}

#[test]
fn reingest_without_rating_is_noop_for_rating() {
    let mut store = ChangeAwareStore::new();
    let flags = store.ingest(make_doc("X1", "App", "1.0"), None, 100);
    assert_eq!(flags, (true, true, false));
    assert_eq!(store.ratings.len(), 0);
    let flags = store.ingest(make_doc("X1", "App", "1.0"), None, 200);
    assert_eq!(flags, (false, false, false));
    assert_eq!(store.ratings.len(), 0);
    assert_eq!(store.snapshots.len(), 1);
}

#[test]
fn version_bump_appends_metric_only() {
    let mut store = ChangeAwareStore::new();
    let first = store.ingest(make_doc("X1", "App", "1.0"), None, 100);
    assert_eq!(first, (true, true, false));
    let second = store.ingest(make_doc("X1", "App", "1.1"), None, 200);
    assert_eq!(second.0, false);
    assert_eq!(second.1, true);
    // one descriptive row, two metric rows, two snapshots
    assert_eq!(store.count_all_apps(), 1);
    assert_eq!(store.metrics.len(), 2);
    assert_eq!(store.snapshots.len(), 2);
    assert_eq!(store.infos[0].name, "App");
    let last = store.get_app_last_metric("X1").expect("metric row");
    assert_eq!(last.version, "1.1");
}

#[test]
fn name_change_updates_info_only() {
    let mut store = ChangeAwareStore::new();
    store.ingest(make_doc("X1", "App", "1.0"), None, 100);
    let flags = store.ingest(make_doc("X1", "Renamed", "1.0"), None, 200);
    assert_eq!(flags, (true, false, false));
    assert_eq!(store.infos.len(), 1);
    assert_eq!(store.infos[0].name, "Renamed");
    assert_eq!(store.metrics.len(), 1);
    assert_eq!(store.snapshots.len(), 2);
}

#[test]
fn created_at_survives_updates() {
    let mut store = ChangeAwareStore::new();
    store.ingest(make_doc("X1", "App", "1.0"), None, 100);
    store.ingest(make_doc("X1", "App", "1.1"), None, 200);
    store.ingest(make_doc("X1", "Renamed", "1.1"), None, 300);
    assert_eq!(store.get_app_created_at("X1"), Some(100));
    assert_eq!(store.infos[0].created_at, 100);
}

#[test]
fn rating_change_appends_rating_and_snapshot() {
    let mut store = ChangeAwareStore::new();
    store.ingest(make_doc("X1", "App", "1.0"), Some(make_rating("4.1", 100)), 100);
    let flags = store.ingest(make_doc("X1", "App", "1.0"), Some(make_rating("4.2", 101)), 200);
    assert_eq!(flags, (false, false, true));
    assert_eq!(store.ratings.len(), 2);
    assert_eq!(store.snapshots.len(), 2);
    assert!(store.is_same_rating("X1", &make_rating("4.2", 101)));
    assert!(!store.is_same_rating("X1", &make_rating("4.1", 100)));
}

#[test]
fn is_same_data_tracks_latest_snapshot() {
    let mut store = ChangeAwareStore::new();
    assert!(!store.is_same_data("X1", &make_doc("X1", "App", "1.0")));
    store.ingest(make_doc("X1", "App", "1.0"), None, 100);
    assert!(store.is_same_data("X1", &make_doc("X1", "App", "1.0")));
    assert!(!store.is_same_data("X1", &make_doc("X1", "App", "1.1")));
}

#[test]
fn counts_split_sub_entities() {
    let mut store = ChangeAwareStore::new();
    let mut atomic = make_doc("A1", "Meta", "1.0");
    atomic.pkg_name = "com.atomicservice.12345".to_string();
    store.ingest(atomic, None, 100);
    store.ingest(make_doc("X1", "App", "1.0"), None, 100);
    let counts = store.count_apps("com.atomicservice.");
    assert_eq!(counts.total, 2);
    assert_eq!(counts.apps, 1);
    assert_eq!(counts.atomic_services, 1);
    assert_eq!(store.count_all_apps(), 2);
    assert_eq!(store.count_atomic_services("com.atomicservice."), 1);
}

#[test]
fn listings_are_distinct() {
    let mut store = ChangeAwareStore::new();
    let mut a = make_doc("A1", "App A", "1.0");
    a.pkg_name = "com.example.shared".to_string();
    let mut b = make_doc("B1", "App B", "1.0");
    b.pkg_name = "com.example.shared".to_string();
    store.ingest(a, None, 100);
    store.ingest(b, None, 100);
    let ids = store.get_all_app_ids();
    assert_eq!(ids, vec!["A1".to_string(), "B1".to_string()]);
    let pkgs = store.get_all_pkg_names();
    assert_eq!(pkgs, vec!["com.example.shared".to_string()]);
}

#[test]
fn plan_without_baseline_writes_everything() {
    let doc = make_doc("X1", "App", "1.0");
    let plan = plan_ingest(doc, None, None, None, None, 100);
    assert!(plan.info_changed && plan.metric_changed && !plan.rating_changed);
    let info = plan.write_info.expect("info row");
    assert_eq!(info.app_id, "X1");
    assert_eq!(info.kind_id, 13);
    assert!(!info.iap && info.hms);
    assert_eq!(info.created_at, 100);
    let metric = plan.write_metric.expect("metric row");
    assert_eq!(metric.download_count, 10000);
    assert_eq!(metric.target_sdk, 12);
    assert!(plan.write_rating.is_none());
    let snap = plan.write_snapshot.expect("snapshot");
    assert_eq!(snap.app_id, "X1");
    assert_eq!(snap.created_at, 100);
}

#[test]
fn plan_against_matching_baseline_writes_nothing() {
    let doc = make_doc("X1", "App", "1.0");
    let baseline = AppRaw::from_raw_datas(make_doc("X1", "App", "1.0"), None, 50);
    let info = market_sync::records::AppInfo::from_raw_data(&make_doc("X1", "App", "1.0"), 50);
    let metric = AppMetric::from_raw_data(&make_doc("X1", "App", "1.0"), 50);
    let plan = plan_ingest(doc, None, Some(&baseline), Some(&info), Some(&metric), 100);
    assert!(!plan.info_changed && !plan.metric_changed && !plan.rating_changed);
    assert!(plan.write_snapshot.is_none());
}
