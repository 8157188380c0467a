//! Change-aware persistence: decides, per fetched entity, which of the four
//! record kinds actually need new rows, by comparing against what is already
//! stored.
//!
//! [`plan_ingest`] is the pure decision: given the stored baseline rows and a
//! freshly fetched document it produces exactly the rows to write.  A host
//! process drives its relational store with such plans.
//! [`ChangeAwareStore`] is an in-memory store applying the same plans, so the
//! whole ingest path is available (and testable) without any backing service.

use vstd::prelude::*;
use crate::raw::{RawJsonData, RawRatingData, raw_data_eq, raw_rating_eq, same_raw_data,
    same_raw_rating};
use crate::records::{AppInfo, AppMetric, AppRating, AppRaw, is_info_projection,
    is_metric_projection, is_rating_projection, opt_rating_eq};
use crate::text::{opt_str_eq, parse_i32_spec, parse_i64_spec, starts_with};
use crate::text::str_starts_with;

verus! {

/// The four record collections, keyed by the entity's canonical identifier.
/// Descriptive rows are upserted in place; metric, rating and snapshot rows
/// are append-only histories.
#[derive(Debug)]
pub struct ChangeAwareStore {
    pub infos: Vec<AppInfo>,
    pub metrics: Vec<AppMetric>,
    pub ratings: Vec<AppRating>,
    pub snapshots: Vec<AppRaw>,
}

/// Index of the last descriptive row with the given key, or -1.
pub open spec fn last_info_index(s: Seq<AppInfo>, key: Seq<char>) -> int
    decreases s.len(),
{
    if s.len() == 0 {
        -1
    } else if s.last().app_id@ == key {
        s.len() as int - 1
    } else {
        last_info_index(s.drop_last(), key)
    }
}

/// Index of the last metric row with the given key, or -1.
pub open spec fn last_metric_index(s: Seq<AppMetric>, key: Seq<char>) -> int
    decreases s.len(),
{
    if s.len() == 0 {
        -1
    } else if s.last().app_id@ == key {
        s.len() as int - 1
    } else {
        last_metric_index(s.drop_last(), key)
    }
}

/// Index of the last snapshot with the given key, or -1.
pub open spec fn last_snapshot_index(s: Seq<AppRaw>, key: Seq<char>) -> int
    decreases s.len(),
{
    if s.len() == 0 {
        -1
    } else if s.last().app_id@ == key {
        s.len() as int - 1
    } else {
        last_snapshot_index(s.drop_last(), key)
    }
}

pub proof fn lemma_last_info_index(s: Seq<AppInfo>, key: Seq<char>)
    ensures
        -1 <= last_info_index(s, key) < s.len(),
        last_info_index(s, key) >= 0 ==> s[last_info_index(s, key)].app_id@ == key,
        forall|j: int|
            last_info_index(s, key) < j < s.len() ==> (#[trigger] s[j]).app_id@ != key,
    decreases s.len(),
{
    if s.len() > 0 {
        lemma_last_info_index(s.drop_last(), key);
        assert(forall|j: int| 0 <= j < s.len() - 1 ==> #[trigger] s[j] == s.drop_last()[j]);
    }
}

pub proof fn lemma_last_metric_index(s: Seq<AppMetric>, key: Seq<char>)
    ensures
        -1 <= last_metric_index(s, key) < s.len(),
        last_metric_index(s, key) >= 0 ==> s[last_metric_index(s, key)].app_id@ == key,
        forall|j: int|
            last_metric_index(s, key) < j < s.len() ==> (#[trigger] s[j]).app_id@ != key,
    decreases s.len(),
{
    if s.len() > 0 {
        lemma_last_metric_index(s.drop_last(), key);
        assert(forall|j: int| 0 <= j < s.len() - 1 ==> #[trigger] s[j] == s.drop_last()[j]);
    }
}

pub proof fn lemma_last_snapshot_index(s: Seq<AppRaw>, key: Seq<char>)
    ensures
        -1 <= last_snapshot_index(s, key) < s.len(),
        last_snapshot_index(s, key) >= 0 ==> s[last_snapshot_index(s, key)].app_id@ == key,
        forall|j: int|
            last_snapshot_index(s, key) < j < s.len() ==> (#[trigger] s[j]).app_id@ != key,
    decreases s.len(),
{
    if s.len() > 0 {
        lemma_last_snapshot_index(s.drop_last(), key);
        assert(forall|j: int| 0 <= j < s.len() - 1 ==> #[trigger] s[j] == s.drop_last()[j]);
    }
}

/// Descriptive rows carry one logical row per entity.
pub open spec fn store_wf(s: ChangeAwareStore) -> bool {
    forall|i: int, j: int|
        0 <= i < j < s.infos@.len() ==> (#[trigger] s.infos@[i]).app_id@ != (
        #[trigger] s.infos@[j]).app_id@
}

/// The stored descriptive row for `key`, if any.
pub open spec fn spec_info_row(s: ChangeAwareStore, key: Seq<char>) -> Option<AppInfo> {
    let i = last_info_index(s.infos@, key);
    if i >= 0 {
        Option::Some(s.infos@[i])
    } else {
        Option::None
    }
}

/// The latest stored metric row for `key`, if any.
pub open spec fn spec_last_metric(s: ChangeAwareStore, key: Seq<char>) -> Option<AppMetric> {
    let i = last_metric_index(s.metrics@, key);
    if i >= 0 {
        Option::Some(s.metrics@[i])
    } else {
        Option::None
    }
}

/// The latest stored snapshot for `key`, if any: the comparison baseline for
/// the next fetch.
pub open spec fn spec_last_snapshot(s: ChangeAwareStore, key: Seq<char>) -> Option<AppRaw> {
    let i = last_snapshot_index(s.snapshots@, key);
    if i >= 0 {
        Option::Some(s.snapshots@[i])
    } else {
        Option::None
    }
}

/// The value behind an optional reference.
pub open spec fn opt_deref<T>(o: Option<&T>) -> Option<T> {
    match o {
        Option::Some(x) => Option::Some(*x),
        Option::None => Option::None,
    }
}

/// The new document is structurally equal to the baseline snapshot's one.
pub open spec fn doc_unchanged(snap: Option<AppRaw>, d: RawJsonData) -> bool {
    match snap {
        Option::Some(s) => raw_data_eq(s.raw_json_data, d),
        Option::None => false,
    }
}

/// The stored descriptive row `a` carries exactly what projecting document
/// `d` would store (timestamps aside).
pub open spec fn info_matches_doc(a: AppInfo, d: RawJsonData) -> bool {
    &&& a.app_id@ == d.app_id@
    &&& a.alliance_app_id@ == d.alliance_app_id@
    &&& a.name@ == d.name@
    &&& a.pkg_name@ == d.pkg_name@
    &&& a.dev_id@ == d.dev_id@
    &&& a.developer_name@ == d.developer_name@
    &&& a.dev_en_name@ == d.dev_en_name@
    &&& a.supplier@ == d.supplier@
    &&& a.kind_id == parse_i32_spec(d.kind_id@)
    &&& a.kind_name@ == d.kind_name@
    &&& opt_str_eq(a.tag_name, d.tag_name)
    &&& a.kind_type_id == parse_i32_spec(d.kind_type_id@)
    &&& a.kind_type_name@ == d.kind_type_name@
    &&& a.icon_url@ == d.icon_url@
    &&& a.brief_desc@ == d.brief_desc@
    &&& a.description@ == d.description@
    &&& a.privacy_url@ == d.privacy_url@
    &&& a.ctype == d.ctype
    &&& a.detail_id@ == d.detail_id@
    &&& a.app_level == d.app_level
    &&& a.jocat_id == d.jocat_id
    &&& a.iap == (d.iap != 0)
    &&& a.hms == (d.hms != 0)
    &&& a.tariff_type@ == d.tariff_type@
    &&& a.packing_type == d.packing_type
    &&& a.order_app == d.order_app
    &&& a.denpend_gms == (d.denpend_gms != 0)
    &&& a.denpend_hms == (d.denpend_hms != 0)
    &&& a.force_update == (d.force_update != 0)
    &&& a.img_tag@ == d.img_tag@
    &&& a.is_pay == (d.is_pay@ == "1"@)
    &&& a.is_disciplined == (d.is_disciplined != 0)
    &&& a.is_shelves == (d.is_shelves != 0)
    &&& a.submit_type == d.submit_type
    &&& a.delete_archive == (d.delete_archive != 0)
    &&& a.charging == (d.charging != 0)
    &&& a.button_grey == (d.button_grey != 0)
    &&& a.app_gift == (d.app_gift != 0)
    &&& a.free_days == d.free_days
    &&& a.pay_install_type == d.pay_install_type
}

/// The stored metric row `m` carries exactly what projecting document `d`
/// would store (row id and timestamp aside).
pub open spec fn metric_matches_doc(m: AppMetric, d: RawJsonData) -> bool {
    &&& m.app_id@ == d.app_id@
    &&& m.version@ == d.version@
    &&& m.version_code == d.version_code
    &&& m.size_bytes == d.size_bytes
    &&& m.sha256@ == d.sha256@
    &&& m.info_score@ == d.hot_score@
    &&& m.info_rate_count == parse_i64_spec(d.rate_num@)
    &&& m.download_count == parse_i64_spec(d.download_count@)
    &&& m.price@ == d.price@
    &&& m.release_date == d.release_date
    &&& m.new_features@ == d.new_features@
    &&& m.upgrade_msg@ == d.upgrade_msg@
    &&& m.target_sdk == parse_i32_spec(d.target_sdk@)
    &&& m.minsdk == parse_i32_spec(d.min_sdk@)
    &&& m.compile_sdk_version == d.compile_sdk_version
    &&& m.min_hmos_api_level == d.min_hmos_api_level
    &&& m.api_release_type@ == d.api_release_type@
}

/// Whether ingesting `d` must write a new descriptive row.
pub open spec fn spec_info_changed(
    snap: Option<AppRaw>,
    li: Option<AppInfo>,
    d: RawJsonData,
) -> bool {
    if doc_unchanged(snap, d) {
        false
    } else {
        match li {
            Option::Some(i) => !info_matches_doc(i, d),
            Option::None => true,
        }
    }
}

/// Whether ingesting `d` must append a new metric row.
pub open spec fn spec_metric_changed(
    snap: Option<AppRaw>,
    lm: Option<AppMetric>,
    d: RawJsonData,
) -> bool {
    if doc_unchanged(snap, d) {
        false
    } else {
        match lm {
            Option::Some(m) => !metric_matches_doc(m, d),
            Option::None => true,
        }
    }
}

/// Whether ingesting with rating payload `star` must append a new rating
/// row: the payload is present and differs from the baseline snapshot's one.
pub open spec fn spec_rating_changed(snap: Option<AppRaw>, star: Option<RawRatingData>) -> bool {
    match star {
        Option::None => false,
        Option::Some(s) => match snap {
            Option::None => true,
            Option::Some(sn) => match sn.raw_json_star {
                Option::None => true,
                Option::Some(p) => !raw_rating_eq(p, s),
            },
        },
    }
}

/// The creation timestamp a descriptive row keeps: the original one where the
/// entity already existed, else the ingest time.
pub open spec fn spec_created_at(li: Option<AppInfo>, now: i64) -> i64 {
    match li {
        Option::Some(i) => i.created_at,
        Option::None => now,
    }
}

/// What one ingest call writes: the three change flags and exactly the rows
/// whose content differs from the stored baseline.
#[derive(Debug)]
pub struct IngestPlan {
    pub info_changed: bool,
    pub metric_changed: bool,
    pub rating_changed: bool,
    pub write_info: Option<AppInfo>,
    pub write_metric: Option<AppMetric>,
    pub write_rating: Option<AppRating>,
    pub write_snapshot: Option<AppRaw>,
}

/// Decides what ingesting `data` (with optional rating payload `star`) must
/// write, given the stored baseline: the latest snapshot, the descriptive
/// row, and the latest metric row for the entity.
///
/// A snapshot is part of the plan exactly when at least one derived row is,
/// which ties the append-only raw history to genuine downstream writes.
#[verifier::rlimit(100)]
pub fn plan_ingest(
    data: RawJsonData,
    star: Option<RawRatingData>,
    last_snapshot: Option<&AppRaw>,
    last_info: Option<&AppInfo>,
    last_metric: Option<&AppMetric>,
    now: i64,
) -> (r: IngestPlan)
    ensures
        r.info_changed == spec_info_changed(opt_deref(last_snapshot), opt_deref(last_info), data),
        r.metric_changed == spec_metric_changed(
            opt_deref(last_snapshot),
            opt_deref(last_metric),
            data,
        ),
        r.rating_changed == spec_rating_changed(opt_deref(last_snapshot), star),
        (r.write_info is Some) == r.info_changed,
        (r.write_metric is Some) == r.metric_changed,
        (r.write_rating is Some) == r.rating_changed,
        (r.write_snapshot is Some) == (r.info_changed || r.metric_changed || r.rating_changed),
        r.write_info matches Some(i) ==> is_info_projection(
            data,
            spec_created_at(opt_deref(last_info), now),
            i,
        ),
        r.write_metric matches Some(m) ==> is_metric_projection(data, now, m),
        r.write_rating matches Some(x) ==> (star matches Some(s) && is_rating_projection(
            data,
            s,
            now,
            x,
        )),
        r.write_snapshot matches Some(sn) ==> sn.id == 0 && sn.app_id@ == data.app_id@
            && sn.raw_json_data == data && sn.raw_json_star == star && sn.created_at == now,
{
    let same_doc = match last_snapshot {
        Some(s) => same_raw_data(&s.raw_json_data, &data),
        None => false,
    };
    let mut info_changed: bool = false;
    let mut metric_changed: bool = false;
    let mut write_info: Option<AppInfo> = None;
    let mut write_metric: Option<AppMetric> = None;
    if !same_doc {
        let created_at = match last_info {
            Some(i) => i.created_at,
            None => now,
        };
        let info = AppInfo::from_raw_data(&data, created_at);
        info_changed = match last_info {
            Some(i) => !crate::records::same_app_info(i, &info),
            None => true,
        };
        if info_changed {
            write_info = Some(info);
        }
        let metric = AppMetric::from_raw_data(&data, now);
        metric_changed = match last_metric {
            Some(m) => !crate::records::same_app_metric(m, &metric),
            None => true,
        };
        if metric_changed {
            write_metric = Some(metric);
        }
    }
    let rating_changed = match &star {
        None => false,
        Some(rs) => match last_snapshot {
            None => true,
            Some(snap) => match &snap.raw_json_star {
                None => true,
                Some(prev) => !same_raw_rating(prev, rs),
            },
        },
    };
    let write_rating = if rating_changed {
        match &star {
            Some(rs) => Some(AppRating::from_raw_star(&data, rs, now)),
            None => None,
        }
    } else {
        None
    };
    let write_snapshot = if info_changed || metric_changed || rating_changed {
        Some(AppRaw::from_raw_datas(data, star, now))
    } else {
        None
    };
    IngestPlan {
        info_changed,
        metric_changed,
        rating_changed,
        write_info,
        write_metric,
        write_rating,
        write_snapshot,
    }
}

/// The relation between a store before and after one ingest of `data` with
/// rating payload `star` at time `now`, returning the flags `r`.
pub open spec fn ingest_rel(
    pre: ChangeAwareStore,
    data: RawJsonData,
    star: Option<RawRatingData>,
    now: i64,
    post: ChangeAwareStore,
    r: (bool, bool, bool),
) -> bool {
    let key = data.app_id@;
    let snap = spec_last_snapshot(pre, key);
    let li = spec_info_row(pre, key);
    let lm = spec_last_metric(pre, key);
    &&& r.0 == spec_info_changed(snap, li, data)
    &&& r.1 == spec_metric_changed(snap, lm, data)
    &&& r.2 == spec_rating_changed(snap, star)
    &&& if r.0 {
        let idx = last_info_index(pre.infos@, key);
        if idx >= 0 {
            &&& post.infos@.len() == pre.infos@.len()
            &&& is_info_projection(data, pre.infos@[idx].created_at, post.infos@[idx])
            &&& forall|j: int|
                0 <= j < pre.infos@.len() && j != idx ==> post.infos@[j] == pre.infos@[j]
        } else {
            &&& post.infos@.len() == pre.infos@.len() + 1
            &&& post.infos@.drop_last() == pre.infos@
            &&& is_info_projection(data, now, post.infos@.last())
        }
    } else {
        post.infos@ == pre.infos@
    }
    &&& if r.1 {
        &&& post.metrics@.len() == pre.metrics@.len() + 1
        &&& post.metrics@.drop_last() == pre.metrics@
        &&& is_metric_projection(data, now, post.metrics@.last())
    } else {
        post.metrics@ == pre.metrics@
    }
    &&& if r.2 {
        &&& post.ratings@.len() == pre.ratings@.len() + 1
        &&& post.ratings@.drop_last() == pre.ratings@
        &&& (star matches Some(s) && is_rating_projection(data, s, now, post.ratings@.last()))
    } else {
        post.ratings@ == pre.ratings@
    }
    &&& if r.0 || r.1 || r.2 {
        &&& post.snapshots@.len() == pre.snapshots@.len() + 1
        &&& post.snapshots@.drop_last() == pre.snapshots@
        &&& post.snapshots@.last().id == 0
        &&& post.snapshots@.last().app_id@ == key
        &&& post.snapshots@.last().raw_json_data == data
        &&& post.snapshots@.last().raw_json_star == star
        &&& post.snapshots@.last().created_at == now
    } else {
        post.snapshots@ == pre.snapshots@
    }
}

/// The two documents project to the same descriptive row content.
pub open spec fn info_part_eq(d1: RawJsonData, d2: RawJsonData) -> bool {
    &&& d1.app_id@ == d2.app_id@
    &&& d1.alliance_app_id@ == d2.alliance_app_id@
    &&& d1.name@ == d2.name@
    &&& d1.pkg_name@ == d2.pkg_name@
    &&& d1.dev_id@ == d2.dev_id@
    &&& d1.developer_name@ == d2.developer_name@
    &&& d1.dev_en_name@ == d2.dev_en_name@
    &&& d1.supplier@ == d2.supplier@
    &&& parse_i32_spec(d1.kind_id@) == parse_i32_spec(d2.kind_id@)
    &&& d1.kind_name@ == d2.kind_name@
    &&& opt_str_eq(d1.tag_name, d2.tag_name)
    &&& parse_i32_spec(d1.kind_type_id@) == parse_i32_spec(d2.kind_type_id@)
    &&& d1.kind_type_name@ == d2.kind_type_name@
    &&& d1.icon_url@ == d2.icon_url@
    &&& d1.brief_desc@ == d2.brief_desc@
    &&& d1.description@ == d2.description@
    &&& d1.privacy_url@ == d2.privacy_url@
    &&& d1.ctype == d2.ctype
    &&& d1.detail_id@ == d2.detail_id@
    &&& d1.app_level == d2.app_level
    &&& d1.jocat_id == d2.jocat_id
    &&& (d1.iap != 0) == (d2.iap != 0)
    &&& (d1.hms != 0) == (d2.hms != 0)
    &&& d1.tariff_type@ == d2.tariff_type@
    &&& d1.packing_type == d2.packing_type
    &&& d1.order_app == d2.order_app
    &&& (d1.denpend_gms != 0) == (d2.denpend_gms != 0)
    &&& (d1.denpend_hms != 0) == (d2.denpend_hms != 0)
    &&& (d1.force_update != 0) == (d2.force_update != 0)
    &&& d1.img_tag@ == d2.img_tag@
    &&& (d1.is_pay@ == "1"@) == (d2.is_pay@ == "1"@)
    &&& (d1.is_disciplined != 0) == (d2.is_disciplined != 0)
    &&& (d1.is_shelves != 0) == (d2.is_shelves != 0)
    &&& d1.submit_type == d2.submit_type
    &&& (d1.delete_archive != 0) == (d2.delete_archive != 0)
    &&& (d1.charging != 0) == (d2.charging != 0)
    &&& (d1.button_grey != 0) == (d2.button_grey != 0)
    &&& (d1.app_gift != 0) == (d2.app_gift != 0)
    &&& d1.free_days == d2.free_days
    &&& d1.pay_install_type == d2.pay_install_type
}

/// The two documents project to the same metric row content.
pub open spec fn metric_part_eq(d1: RawJsonData, d2: RawJsonData) -> bool {
    &&& d1.app_id@ == d2.app_id@
    &&& d1.version@ == d2.version@
    &&& d1.version_code == d2.version_code
    &&& d1.size_bytes == d2.size_bytes
    &&& d1.sha256@ == d2.sha256@
    &&& d1.hot_score@ == d2.hot_score@
    &&& parse_i64_spec(d1.rate_num@) == parse_i64_spec(d2.rate_num@)
    &&& parse_i64_spec(d1.download_count@) == parse_i64_spec(d2.download_count@)
    &&& d1.price@ == d2.price@
    &&& d1.release_date == d2.release_date
    &&& d1.new_features@ == d2.new_features@
    &&& d1.upgrade_msg@ == d2.upgrade_msg@
    &&& parse_i32_spec(d1.target_sdk@) == parse_i32_spec(d2.target_sdk@)
    &&& parse_i32_spec(d1.min_sdk@) == parse_i32_spec(d2.min_sdk@)
    &&& d1.compile_sdk_version == d2.compile_sdk_version
    &&& d1.min_hmos_api_level == d2.min_hmos_api_level
    &&& d1.api_release_type@ == d2.api_release_type@
}

/// The stored rows of the entity explain its latest snapshot: whenever a
/// snapshot exists, a descriptive row and a metric row exist and carry the
/// snapshot document's projections.
pub open spec fn key_consistent(s: ChangeAwareStore, key: Seq<char>) -> bool {
    match spec_last_snapshot(s, key) {
        Option::Some(sn) => {
            &&& match spec_info_row(s, key) {
                Option::Some(i) => info_matches_doc(i, sn.raw_json_data),
                Option::None => false,
            }
            &&& match spec_last_metric(s, key) {
                Option::Some(m) => metric_matches_doc(m, sn.raw_json_data),
                Option::None => false,
            }
        },
        Option::None => true,
    }
}

pub proof fn lemma_raw_data_eq_trans(a: RawJsonData, b: RawJsonData, c: RawJsonData)
    requires
        raw_data_eq(a, b),
        raw_data_eq(b, c),
    ensures
        raw_data_eq(a, c),
{
}

pub proof fn lemma_raw_rating_eq_trans(a: RawRatingData, b: RawRatingData, c: RawRatingData)
    requires
        raw_rating_eq(a, b),
        raw_rating_eq(b, c),
    ensures
        raw_rating_eq(a, c),
{
}

/// Structurally equal documents project to the same row contents.
pub proof fn lemma_raw_data_eq_parts(d1: RawJsonData, d2: RawJsonData)
    requires
        raw_data_eq(d1, d2),
    ensures
        info_part_eq(d1, d2),
        metric_part_eq(d1, d2),
{
}

/// A row matching a document matches every document with the same
/// descriptive content.
pub proof fn lemma_info_matches_transfer(a: AppInfo, d1: RawJsonData, d2: RawJsonData)
    requires
        info_matches_doc(a, d1),
        info_part_eq(d1, d2),
    ensures
        info_matches_doc(a, d2),
{
}

pub proof fn lemma_metric_matches_transfer(m: AppMetric, d1: RawJsonData, d2: RawJsonData)
    requires
        metric_matches_doc(m, d1),
        metric_part_eq(d1, d2),
    ensures
        metric_matches_doc(m, d2),
{
}

/// A row matching two documents witnesses that their metric content agrees.
pub proof fn lemma_metric_matches_both(m: AppMetric, d1: RawJsonData, d2: RawJsonData)
    requires
        metric_matches_doc(m, d1),
        metric_matches_doc(m, d2),
    ensures
        metric_part_eq(d1, d2),
{
}

/// A freshly projected descriptive row matches its document.
pub proof fn lemma_info_projection_matches(d: RawJsonData, c: i64, r: AppInfo)
    requires
        is_info_projection(d, c, r),
    ensures
        info_matches_doc(r, d),
{
}

pub proof fn lemma_metric_projection_matches(d: RawJsonData, c: i64, r: AppMetric)
    requires
        is_metric_projection(d, c, r),
    ensures
        metric_matches_doc(r, d),
{
}

/// If `s[i]` carries the key and nothing after it does, `i` is the last
/// index for the key.
pub proof fn lemma_last_info_index_witness(s: Seq<AppInfo>, key: Seq<char>, i: int)
    requires
        0 <= i < s.len(),
        s[i].app_id@ == key,
        forall|j: int| i < j < s.len() ==> (#[trigger] s[j]).app_id@ != key,
    ensures
        last_info_index(s, key) == i,
    decreases s.len(),
{
    if i < s.len() - 1 {
        assert(s.drop_last()[i] == s[i]);
        assert(forall|j: int|
            i < j < s.len() - 1 ==> #[trigger] s.drop_last()[j] == s[j]);
        lemma_last_info_index_witness(s.drop_last(), key, i);
    }
}


/// How many descriptive rows carry a package name with prefix `p`.
pub open spec fn count_with_prefix(s: Seq<AppInfo>, p: Seq<char>) -> int
    decreases s.len(),
{
    if s.len() == 0 {
        0
    } else {
        count_with_prefix(s.drop_last(), p) + if starts_with(s.last().pkg_name@, p) {
            1int
        } else {
            0int
        }
    }
}

pub proof fn lemma_count_with_prefix_bound(s: Seq<AppInfo>, p: Seq<char>)
    ensures
        0 <= count_with_prefix(s, p) <= s.len(),
    decreases s.len(),
{
    if s.len() > 0 {
        lemma_count_with_prefix_bound(s.drop_last(), p);
    }
}

/// How the stored entities split into ordinary applications and
/// sub-entities.
#[derive(Debug)]
pub struct AppCounts {
    pub total: usize,
    pub apps: usize,
    pub atomic_services: usize,
}

/// Re-ingesting a document immediately after it was ingested (the same
/// entity document, and the same rating payload) reports
/// `(false, false, false)` and appends no snapshot; the store is unchanged.
pub proof fn lemma_reingest_unchanged(
    s0: ChangeAwareStore,
    d1: RawJsonData,
    star1: Option<RawRatingData>,
    n1: i64,
    s1: ChangeAwareStore,
    r1: (bool, bool, bool),
    d2: RawJsonData,
    star2: Option<RawRatingData>,
    n2: i64,
    s2: ChangeAwareStore,
    r2: (bool, bool, bool),
)
    requires
        ingest_rel(s0, d1, star1, n1, s1, r1),
        ingest_rel(s1, d2, star2, n2, s2, r2),
        raw_data_eq(d1, d2),
        opt_rating_eq(star1, star2),
    ensures
        r2 == (false, false, false),
        s2.infos@ == s1.infos@,
        s2.metrics@ == s1.metrics@,
        s2.ratings@ == s1.ratings@,
        s2.snapshots@ == s1.snapshots@,
{
    let key = d1.app_id@;
    assert(d2.app_id@ == key);
    if r1.0 || r1.1 || r1.2 {
        let sn = s1.snapshots@.last();
        assert(last_snapshot_index(s1.snapshots@, key) == s1.snapshots@.len() - 1);
        assert(spec_last_snapshot(s1, key) == Option::Some(sn));
        assert(raw_data_eq(sn.raw_json_data, d2));
        assert(!spec_info_changed(spec_last_snapshot(s1, key), spec_info_row(s1, key), d2));
        match star2 {
            Option::Some(x2) => {
                let x1 = star1->Some_0;
                assert(raw_rating_eq(x1, x2));
                assert(!spec_rating_changed(spec_last_snapshot(s1, key), star2));
            },
            Option::None => {},
        }
    } else {
        assert(s1.infos@ == s0.infos@);
        assert(s1.metrics@ == s0.metrics@);
        assert(s1.snapshots@ == s0.snapshots@);
        let snap0 = spec_last_snapshot(s0, key);
        let li0 = spec_info_row(s0, key);
        let lm0 = spec_last_metric(s0, key);
        assert(spec_last_snapshot(s1, key) == snap0);
        assert(spec_info_row(s1, key) == li0);
        assert(spec_last_metric(s1, key) == lm0);
        if doc_unchanged(snap0, d1) {
            lemma_raw_data_eq_trans(snap0->Some_0.raw_json_data, d1, d2);
            assert(doc_unchanged(snap0, d2));
        } else {
            lemma_raw_data_eq_parts(d1, d2);
            match li0 {
                Option::Some(i) => {
                    lemma_info_matches_transfer(i, d1, d2);
                },
                Option::None => {},
            }
            match lm0 {
                Option::Some(m) => {
                    lemma_metric_matches_transfer(m, d1, d2);
                },
                Option::None => {},
            }
        }
        match star1 {
            Option::Some(x1) => {
                let x2 = star2->Some_0;
                match snap0 {
                    Option::Some(sn) => {
                        match sn.raw_json_star {
                            Option::Some(p) => {
                                lemma_raw_rating_eq_trans(p, x1, x2);
                            },
                            Option::None => {},
                        }
                    },
                    Option::None => {},
                }
            },
            Option::None => {},
        }
    }
}

/// Ingesting a document and then a second one for the same entity that
/// differs only in metric content (their descriptive projections agree, the
/// metric projections do not) reports `metric_changed` and not
/// `info_changed` on the second ingest.  The store must explain its latest
/// snapshot for the entity (see [`key_consistent`]); an empty store does.
pub proof fn lemma_metric_only_change(
    s0: ChangeAwareStore,
    d1: RawJsonData,
    star1: Option<RawRatingData>,
    n1: i64,
    s1: ChangeAwareStore,
    r1: (bool, bool, bool),
    d2: RawJsonData,
    star2: Option<RawRatingData>,
    n2: i64,
    s2: ChangeAwareStore,
    r2: (bool, bool, bool),
)
    requires
        ingest_rel(s0, d1, star1, n1, s1, r1),
        ingest_rel(s1, d2, star2, n2, s2, r2),
        info_part_eq(d1, d2),
        !metric_part_eq(d1, d2),
        key_consistent(s0, d1.app_id@),
    ensures
        !r2.0,
        r2.1,
{
    let key = d1.app_id@;
    assert(d2.app_id@ == key);
    let snap0 = spec_last_snapshot(s0, key);
    let li0 = spec_info_row(s0, key);
    let lm0 = spec_last_metric(s0, key);
    lemma_last_info_index(s0.infos@, key);
    lemma_last_metric_index(s0.metrics@, key);
    // After the first ingest the descriptive row and the latest metric row
    // both carry d1's projections.
    let li1 = spec_info_row(s1, key);
    let lm1 = spec_last_metric(s1, key);
    if r1.0 {
        let idx = last_info_index(s0.infos@, key);
        if idx >= 0 {
            lemma_last_info_index(s0.infos@, key);
            assert(forall|j: int|
                idx < j < s1.infos@.len() ==> (#[trigger] s1.infos@[j]).app_id@ != key);
            lemma_last_info_index_witness(s1.infos@, key, idx);
            lemma_info_projection_matches(d1, s0.infos@[idx].created_at, s1.infos@[idx]);
            assert(li1 == Option::Some(s1.infos@[idx]));
        } else {
            assert(s1.infos@.last().app_id@ == key);
            assert(last_info_index(s1.infos@, key) == s1.infos@.len() - 1);
            lemma_info_projection_matches(d1, n1, s1.infos@.last());
            assert(li1 == Option::Some(s1.infos@.last()));
        }
    } else {
        assert(s1.infos@ == s0.infos@);
        assert(li1 == li0);
        if doc_unchanged(snap0, d1) {
            let sn = snap0->Some_0;
            assert(info_matches_doc(li0->Some_0, sn.raw_json_data));
            lemma_raw_data_eq_parts(sn.raw_json_data, d1);
            lemma_info_matches_transfer(li0->Some_0, sn.raw_json_data, d1);
        }
    }
    assert(li1 matches Option::Some(i) && info_matches_doc(i, d1));
    if r1.1 {
        assert(s1.metrics@.last().app_id@ == key);
        assert(last_metric_index(s1.metrics@, key) == s1.metrics@.len() - 1);
        lemma_metric_projection_matches(d1, n1, s1.metrics@.last());
        assert(lm1 == Option::Some(s1.metrics@.last()));
    } else {
        assert(s1.metrics@ == s0.metrics@);
        assert(lm1 == lm0);
        if doc_unchanged(snap0, d1) {
            let sn = snap0->Some_0;
            assert(metric_matches_doc(lm0->Some_0, sn.raw_json_data));
            lemma_raw_data_eq_parts(sn.raw_json_data, d1);
            lemma_metric_matches_transfer(lm0->Some_0, sn.raw_json_data, d1);
        }
    }
    assert(lm1 matches Option::Some(m) && metric_matches_doc(m, d1));
    // The baseline snapshot after the first ingest cannot equal d2.
    let snap1 = spec_last_snapshot(s1, key);
    if r1.0 || r1.1 || r1.2 {
        assert(last_snapshot_index(s1.snapshots@, key) == s1.snapshots@.len() - 1);
        assert(snap1 == Option::Some(s1.snapshots@.last()));
        if doc_unchanged(snap1, d2) {
            lemma_raw_data_eq_parts(d1, d2);
            assert(false);
        }
    } else {
        assert(s1.snapshots@ == s0.snapshots@);
        assert(snap1 == snap0);
        if doc_unchanged(snap1, d2) {
            let sn = snap0->Some_0;
            let m = lm1->Some_0;
            lemma_raw_data_eq_parts(sn.raw_json_data, d2);
            assert(metric_matches_doc(m, sn.raw_json_data));
            lemma_metric_matches_transfer(m, sn.raw_json_data, d2);
            lemma_metric_matches_both(m, d1, d2);
            assert(false);
        }
    }
    assert(!doc_unchanged(snap1, d2));
    // Second ingest: the descriptive row still matches, the metric row no
    // longer does.
    lemma_info_matches_transfer(li1->Some_0, d1, d2);
    assert(!r2.0);
    if metric_matches_doc(lm1->Some_0, d2) {
        lemma_metric_matches_both(lm1->Some_0, d1, d2);
        assert(false);
    }
    assert(r2.1);
}

/// Ingest never leaves "a snapshot exists, but no derived row explains it":
/// from a consistent store, the stored rows of the entity always carry the
/// latest snapshot's projections afterwards.
pub proof fn lemma_ingest_keeps_consistency(
    s0: ChangeAwareStore,
    d: RawJsonData,
    star: Option<RawRatingData>,
    now: i64,
    s1: ChangeAwareStore,
    r: (bool, bool, bool),
)
    requires
        ingest_rel(s0, d, star, now, s1, r),
        key_consistent(s0, d.app_id@),
    ensures
        key_consistent(s1, d.app_id@),
{
    let key = d.app_id@;
    let snap0 = spec_last_snapshot(s0, key);
    let li0 = spec_info_row(s0, key);
    let lm0 = spec_last_metric(s0, key);
    lemma_last_info_index(s0.infos@, key);
    lemma_last_metric_index(s0.metrics@, key);
    let li1 = spec_info_row(s1, key);
    let lm1 = spec_last_metric(s1, key);
    if r.0 {
        let idx = last_info_index(s0.infos@, key);
        if idx >= 0 {
            assert(forall|j: int|
                idx < j < s1.infos@.len() ==> (#[trigger] s1.infos@[j]).app_id@ != key);
            lemma_last_info_index_witness(s1.infos@, key, idx);
            lemma_info_projection_matches(d, s0.infos@[idx].created_at, s1.infos@[idx]);
            assert(li1 == Option::Some(s1.infos@[idx]));
        } else {
            assert(last_info_index(s1.infos@, key) == s1.infos@.len() - 1);
            lemma_info_projection_matches(d, now, s1.infos@.last());
            assert(li1 == Option::Some(s1.infos@.last()));
        }
        assert(li1 matches Option::Some(i) && info_matches_doc(i, d));
    } else {
        assert(s1.infos@ == s0.infos@);
        assert(li1 == li0);
        if !doc_unchanged(snap0, d) {
            assert(li0 matches Option::Some(i) && info_matches_doc(i, d));
        }
    }
    if r.1 {
        assert(last_metric_index(s1.metrics@, key) == s1.metrics@.len() - 1);
        lemma_metric_projection_matches(d, now, s1.metrics@.last());
        assert(lm1 == Option::Some(s1.metrics@.last()));
        assert(lm1 matches Option::Some(m) && metric_matches_doc(m, d));
    } else {
        assert(s1.metrics@ == s0.metrics@);
        assert(lm1 == lm0);
        if !doc_unchanged(snap0, d) {
            assert(lm0 matches Option::Some(m) && metric_matches_doc(m, d));
        }
    }
    let snap1 = spec_last_snapshot(s1, key);
    if r.0 || r.1 || r.2 {
        assert(last_snapshot_index(s1.snapshots@, key) == s1.snapshots@.len() - 1);
        assert(snap1 == Option::Some(s1.snapshots@.last()));
        assert(snap1->Some_0.raw_json_data == d);
        if doc_unchanged(snap0, d) {
            let sn0 = snap0->Some_0;
            lemma_raw_data_eq_parts(sn0.raw_json_data, d);
            if !r.0 {
                lemma_info_matches_transfer(li0->Some_0, sn0.raw_json_data, d);
            }
            if !r.1 {
                lemma_metric_matches_transfer(lm0->Some_0, sn0.raw_json_data, d);
            }
        }
    } else {
        assert(s1.snapshots@ == s0.snapshots@);
        assert(snap1 == snap0);
        match snap0 {
            Option::Some(sn) => {
                assert(info_matches_doc(li0->Some_0, sn.raw_json_data));
                assert(metric_matches_doc(lm0->Some_0, sn.raw_json_data));
            },
            Option::None => {},
        }
    }
}

impl ChangeAwareStore {
    /// An empty store.
    pub fn new() -> (r: ChangeAwareStore)
        ensures
            r.infos@.len() == 0,
            r.metrics@.len() == 0,
            r.ratings@.len() == 0,
            r.snapshots@.len() == 0,
            store_wf(r),
    {
        ChangeAwareStore { infos: Vec::new(), metrics: Vec::new(), ratings: Vec::new(),
            snapshots: Vec::new() }
    }

    /// Index of the descriptive row for `app_id`.
    fn find_info_index(&self, app_id: &str) -> (r: Option<usize>)
        ensures
            r matches Some(i) ==> 0 <= i < self.infos@.len() && i == last_info_index(
                self.infos@,
                app_id@,
            ),
            r is None ==> last_info_index(self.infos@, app_id@) == -1,
    {
        let n = self.infos.len();
        let mut i: usize = 0;
        let mut best: Option<usize> = None;
        while i < n
            invariant
                n == self.infos@.len(),
                i <= n,
                best matches Some(b) ==> 0 <= b < i && b == last_info_index(
                    self.infos@.subrange(0, i as int),
                    app_id@,
                ),
                best is None ==> last_info_index(self.infos@.subrange(0, i as int), app_id@)
                    == -1,
            decreases n - i,
        {
            proof {
                assert(self.infos@.subrange(0, i + 1).drop_last() =~= self.infos@.subrange(
                    0,
                    i as int,
                ));
                assert(self.infos@.subrange(0, i + 1).last() == self.infos@[i as int]);
            }
            if self.infos[i].app_id.eq(&app_id.to_owned()) {
                best = Some(i);
            }
            i = i + 1;
        }
        proof {
            assert(self.infos@.subrange(0, n as int) =~= self.infos@);
        }
        best
    }

    /// Index of the latest metric row for `app_id`.
    fn find_last_metric_index(&self, app_id: &str) -> (r: Option<usize>)
        ensures
            r matches Some(i) ==> 0 <= i < self.metrics@.len() && i == last_metric_index(
                self.metrics@,
                app_id@,
            ),
            r is None ==> last_metric_index(self.metrics@, app_id@) == -1,
    {
        let n = self.metrics.len();
        let mut i: usize = 0;
        let mut best: Option<usize> = None;
        while i < n
            invariant
                n == self.metrics@.len(),
                i <= n,
                best matches Some(b) ==> 0 <= b < i && b == last_metric_index(
                    self.metrics@.subrange(0, i as int),
                    app_id@,
                ),
                best is None ==> last_metric_index(self.metrics@.subrange(0, i as int), app_id@)
                    == -1,
            decreases n - i,
        {
            proof {
                assert(self.metrics@.subrange(0, i + 1).drop_last() =~= self.metrics@.subrange(
                    0,
                    i as int,
                ));
                assert(self.metrics@.subrange(0, i + 1).last() == self.metrics@[i as int]);
            }
            if self.metrics[i].app_id.eq(&app_id.to_owned()) {
                best = Some(i);
            }
            i = i + 1;
        }
        proof {
            assert(self.metrics@.subrange(0, n as int) =~= self.metrics@);
        }
        best
    }

    /// Index of the latest snapshot for `app_id`.
    fn find_last_snapshot_index(&self, app_id: &str) -> (r: Option<usize>)
        ensures
            r matches Some(i) ==> 0 <= i < self.snapshots@.len() && i == last_snapshot_index(
                self.snapshots@,
                app_id@,
            ),
            r is None ==> last_snapshot_index(self.snapshots@, app_id@) == -1,
    {
        let n = self.snapshots.len();
        let mut i: usize = 0;
        let mut best: Option<usize> = None;
        while i < n
            invariant
                n == self.snapshots@.len(),
                i <= n,
                best matches Some(b) ==> 0 <= b < i && b == last_snapshot_index(
                    self.snapshots@.subrange(0, i as int),
                    app_id@,
                ),
                best is None ==> last_snapshot_index(
                    self.snapshots@.subrange(0, i as int),
                    app_id@,
                ) == -1,
            decreases n - i,
        {
            proof {
                assert(self.snapshots@.subrange(0, i + 1).drop_last() =~= self.snapshots@.subrange(
                    0,
                    i as int,
                ));
                assert(self.snapshots@.subrange(0, i + 1).last() == self.snapshots@[i as int]);
            }
            if self.snapshots[i].app_id.eq(&app_id.to_owned()) {
                best = Some(i);
            }
            i = i + 1;
        }
        proof {
            assert(self.snapshots@.subrange(0, n as int) =~= self.snapshots@);
        }
        best
    }

    /// Whether a descriptive row for `app_id` exists.
    pub fn app_exists(&self, app_id: &str) -> (r: bool)
        ensures
            r == (spec_info_row(*self, app_id@) is Some),
    {
        self.find_info_index(app_id).is_some()
    }

    /// The stored descriptive row for `app_id`.
    pub fn get_app_info(&self, app_id: &str) -> (r: Option<&AppInfo>)
        ensures
            opt_deref(r) == spec_info_row(*self, app_id@),
    {
        match self.find_info_index(app_id) {
            Some(i) => Some(&self.infos[i]),
            None => None,
        }
    }

    /// The creation timestamp of the entity's descriptive row, if any.
    pub fn get_app_created_at(&self, app_id: &str) -> (r: Option<i64>)
        ensures
            r == match spec_info_row(*self, app_id@) {
                Option::Some(i) => Option::Some(i.created_at),
                Option::None => Option::None::<i64>,
            },
    {
        match self.find_info_index(app_id) {
            Some(i) => Some(self.infos[i].created_at),
            None => None,
        }
    }

    /// The latest stored metric row for `app_id`.
    pub fn get_app_last_metric(&self, app_id: &str) -> (r: Option<&AppMetric>)
        ensures
            opt_deref(r) == spec_last_metric(*self, app_id@),
    {
        match self.find_last_metric_index(app_id) {
            Some(i) => Some(&self.metrics[i]),
            None => None,
        }
    }

    /// The entity document of the latest stored snapshot for `app_id`.
    pub fn get_last_raw_json_data(&self, app_id: &str) -> (r: Option<&RawJsonData>)
        ensures
            match spec_last_snapshot(*self, app_id@) {
                Option::Some(sn) => r matches Some(d) && *d == sn.raw_json_data,
                Option::None => r is None,
            },
    {
        match self.find_last_snapshot_index(app_id) {
            Some(i) => Some(&self.snapshots[i].raw_json_data),
            None => None,
        }
    }

    /// The rating document of the latest stored snapshot for `app_id`, if
    /// that snapshot carried one.
    pub fn get_last_raw_json_star(&self, app_id: &str) -> (r: Option<&RawRatingData>)
        ensures
            match spec_last_snapshot(*self, app_id@) {
                Option::Some(sn) => opt_deref(r) == sn.raw_json_star,
                Option::None => r is None,
            },
    {
        match self.find_last_snapshot_index(app_id) {
            Some(i) => {
                match &self.snapshots[i].raw_json_star {
                    Some(s) => Some(s),
                    None => None,
                }
            },
            None => None,
        }
    }

    /// Whether `new_data` is structurally equal to the latest stored
    /// snapshot's document for `app_id`.
    pub fn is_same_data(&self, app_id: &str, new_data: &RawJsonData) -> (r: bool)
        ensures
            r == doc_unchanged(spec_last_snapshot(*self, app_id@), *new_data),
    {
        match self.get_last_raw_json_data(app_id) {
            Some(last) => same_raw_data(last, new_data),
            None => false,
        }
    }

    /// Whether `new_rating` is equal to the latest stored snapshot's rating
    /// document for `app_id`.
    pub fn is_same_rating(&self, app_id: &str, new_rating: &RawRatingData) -> (r: bool)
        ensures
            r == !spec_rating_changed(
                spec_last_snapshot(*self, app_id@),
                Option::Some(*new_rating),
            ),
    {
        match self.get_last_raw_json_star(app_id) {
            Some(last) => same_raw_rating(last, new_rating),
            None => false,
        }
    }

    /// Ingests one fetched document: writes only the rows whose content
    /// differs from the stored baseline, appends a snapshot exactly when
    /// something was written, and preserves the original creation timestamp
    /// of an already known entity.  Returns
    /// `(info_changed, metric_changed, rating_changed)`.
    pub fn ingest(&mut self, data: RawJsonData, star: Option<RawRatingData>, now: i64) -> (r: (
        bool,
        bool,
        bool,
    ))
        requires
            store_wf(*old(self)),
        ensures
            ingest_rel(*old(self), data, star, now, *final(self), r),
            store_wf(*final(self)),
    {
        let ghost gdata = data;
        let ghost gstar = star;
        let ghost key = data.app_id@;
        let info_idx = self.find_info_index(data.app_id.as_str());
        let snap_idx = self.find_last_snapshot_index(data.app_id.as_str());
        let metric_idx = self.find_last_metric_index(data.app_id.as_str());
        proof {
            lemma_last_info_index(self.infos@, key);
            lemma_last_metric_index(self.metrics@, key);
            lemma_last_snapshot_index(self.snapshots@, key);
        }
        let plan = {
            let last_snapshot = match snap_idx {
                Some(i) => Some(&self.snapshots[i]),
                None => None,
            };
            let last_info = match info_idx {
                Some(i) => Some(&self.infos[i]),
                None => None,
            };
            let last_metric = match metric_idx {
                Some(i) => Some(&self.metrics[i]),
                None => None,
            };
            plan_ingest(data, star, last_snapshot, last_info, last_metric, now)
        };
        let r = (plan.info_changed, plan.metric_changed, plan.rating_changed);
        match plan.write_info {
            Some(row) => {
                match info_idx {
                    Some(i) => {
                        self.infos.set(i, row);
                    },
                    None => {
                        self.infos.push(row);
                        proof {
                            assert(self.infos@.drop_last() =~= old(self).infos@);
                        }
                    },
                }
            },
            None => {},
        }
        match plan.write_metric {
            Some(row) => {
                self.metrics.push(row);
                proof {
                    assert(self.metrics@.drop_last() =~= old(self).metrics@);
                }
            },
            None => {},
        }
        match plan.write_rating {
            Some(row) => {
                self.ratings.push(row);
                proof {
                    assert(self.ratings@.drop_last() =~= old(self).ratings@);
                }
            },
            None => {},
        }
        match plan.write_snapshot {
            Some(row) => {
                self.snapshots.push(row);
                proof {
                    assert(self.snapshots@.drop_last() =~= old(self).snapshots@);
                }
            },
            None => {},
        }
        r
    }

    /// How many entities the store knows.
    pub fn count_all_apps(&self) -> (r: usize)
        ensures
            r == self.infos@.len(),
    {
        self.infos.len()
    }

    /// How many of the stored entities are sub-entities, by the given
    /// package-name prefix.
    pub fn count_atomic_services(&self, sub_entity_prefix: &str) -> (r: usize)
        ensures
            r == count_with_prefix(self.infos@, sub_entity_prefix@),
    {
        let n = self.infos.len();
        let mut i: usize = 0;
        let mut count: usize = 0;
        proof {
            lemma_count_with_prefix_bound(self.infos@, sub_entity_prefix@);
        }
        while i < n
            invariant
                n == self.infos@.len(),
                i <= n,
                count == count_with_prefix(self.infos@.subrange(0, i as int), sub_entity_prefix@),
                count <= i,
            decreases n - i,
        {
            proof {
                assert(self.infos@.subrange(0, i + 1).drop_last() =~= self.infos@.subrange(
                    0,
                    i as int,
                ));
                assert(self.infos@.subrange(0, i + 1).last() == self.infos@[i as int]);
            }
            if str_starts_with(self.infos[i].pkg_name.as_str(), sub_entity_prefix) {
                count = count + 1;
            }
            i = i + 1;
        }
        proof {
            assert(self.infos@.subrange(0, n as int) =~= self.infos@);
        }
        count
    }

    /// The split of stored entities into ordinary applications and
    /// sub-entities.
    pub fn count_apps(&self, sub_entity_prefix: &str) -> (r: AppCounts)
        ensures
            r.total == self.infos@.len(),
            r.atomic_services == count_with_prefix(self.infos@, sub_entity_prefix@),
            r.apps == r.total - r.atomic_services,
    {
        let total = self.infos.len();
        let atomic = self.count_atomic_services(sub_entity_prefix);
        proof {
            lemma_count_with_prefix_bound(self.infos@, sub_entity_prefix@);
        }
        AppCounts { total, apps: total - atomic, atomic_services: atomic }
    }

    /// The canonical identifiers of every stored entity, one per
    /// descriptive row.
    pub fn get_all_app_ids(&self) -> (r: Vec<String>)
        ensures
            r@.len() == self.infos@.len(),
            forall|i: int| 0 <= i < r@.len() ==> (#[trigger] r@[i])@ == self.infos@[i].app_id@,
    {
        let n = self.infos.len();
        let mut r: Vec<String> = Vec::new();
        let mut i: usize = 0;
        while i < n
            invariant
                n == self.infos@.len(),
                i <= n,
                r@.len() == i,
                forall|j: int| 0 <= j < i ==> (#[trigger] r@[j])@ == self.infos@[j].app_id@,
            decreases n - i,
        {
            r.push(self.infos[i].app_id.clone());
            i = i + 1;
        }
        r
    }

    /// The distinct package names of the stored entities: every stored
    /// package name exactly once.
    pub fn get_all_pkg_names(&self) -> (r: Vec<String>)
        ensures
            forall|i: int, j: int| 0 <= i < j < r@.len() ==> (#[trigger] r@[i])@ != (
            #[trigger] r@[j])@,
            forall|k: int|
                0 <= k < self.infos@.len() ==> seq_has_str(
                    r@,
                    (#[trigger] self.infos@[k]).pkg_name@,
                ),
            forall|j: int| 0 <= j < r@.len() ==> stores_pkg(self.infos@, (#[trigger] r@[j])@),
    {
        let n = self.infos.len();
        let mut r: Vec<String> = Vec::new();
        let mut i: usize = 0;
        while i < n
            invariant
                n == self.infos@.len(),
                i <= n,
                forall|a: int, b: int| 0 <= a < b < r@.len() ==> (#[trigger] r@[a])@ != (
                #[trigger] r@[b])@,
                forall|k: int|
                    0 <= k < i ==> seq_has_str(r@, (#[trigger] self.infos@[k]).pkg_name@),
                forall|j: int| 0 <= j < r@.len() ==> stores_pkg(self.infos@, (#[trigger] r@[j])@),
            decreases n - i,
        {
            let ghost pre = r@;
            let pkg = &self.infos[i].pkg_name;
            let present = contains_str(&r, pkg.as_str());
            if !present {
                r.push(pkg.clone());
            }
            i = i + 1;
            proof {
                let key = self.infos@[i - 1].pkg_name@;
                if !present {
                    assert(forall|j: int| 0 <= j < pre.len() ==> #[trigger] r@[j] == pre[j]);
                    assert(r@[r@.len() - 1]@ == key);
                    assert forall|a: int, b: int| 0 <= a < b < r@.len() implies (
                    #[trigger] r@[a])@ != (#[trigger] r@[b])@ by {
                        if b == r@.len() - 1 {
                            assert(r@[a] == pre[a]);
                            assert(!seq_has_str(pre, key));
                            assert(pre[a]@ != key);
                        } else {
                            assert(r@[a] == pre[a] && r@[b] == pre[b]);
                        }
                    }
                    assert(stores_pkg(self.infos@, key));
                } else {
                    assert(r@ == pre);
                }
                assert forall|k: int| 0 <= k < i implies seq_has_str(
                    r@,
                    (#[trigger] self.infos@[k]).pkg_name@,
                ) by {
                    if k < i - 1 {
                        assert(seq_has_str(pre, self.infos@[k].pkg_name@));
                        let j = choose|j: int|
                            0 <= j < pre.len() && (#[trigger] pre[j])@
                                == self.infos@[k].pkg_name@;
                        assert(r@[j]@ == self.infos@[k].pkg_name@);
                    } else {
                        if present {
                            assert(seq_has_str(pre, key));
                            let j = choose|j: int| 0 <= j < pre.len() && (#[trigger] pre[j])@
                                == key;
                            assert(r@[j]@ == self.infos@[k].pkg_name@);
                        } else {
                            assert(r@[r@.len() - 1]@ == self.infos@[k].pkg_name@);
                        }
                    }
                }
            }
        }
        r
    }
}

/// Some string in `r` has the characters `key`.
pub open spec fn seq_has_str(r: Seq<String>, key: Seq<char>) -> bool {
    exists|j: int| 0 <= j < r.len() && (#[trigger] r[j])@ == key
}

/// Some descriptive row carries the package name `key`.
pub open spec fn stores_pkg(infos: Seq<AppInfo>, key: Seq<char>) -> bool {
    exists|k: int| 0 <= k < infos.len() && (#[trigger] infos[k]).pkg_name@ == key
}

/// Whether some string in `v` has the characters of `s`.
fn contains_str(v: &Vec<String>, s: &str) -> (r: bool)
    ensures
        r == seq_has_str(v@, s@),
{
    let n = v.len();
    let mut i: usize = 0;
    while i < n
        invariant
            n == v@.len(),
            i <= n,
            forall|j: int| 0 <= j < i ==> (#[trigger] v@[j])@ != s@,
        decreases n - i,
    {
        if v[i].eq(&s.to_owned()) {
            return true;
        }
        i = i + 1;
    }
    false
}

} // verus!
