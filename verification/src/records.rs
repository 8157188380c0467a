//! The four record kinds derived from a fetched document: descriptive info,
//! metric history, rating history, and the raw snapshot itself.
//!
//! Timestamps are unix-epoch milliseconds.  Scores and prices keep the raw
//! decimal text of the document, so that no information is lost and the
//! records stay comparable by content.

use vstd::prelude::*;
use crate::raw::{RawJsonData, RawRatingData, raw_rating_eq};
use crate::text::{opt_str_eq, parse_i32_spec, parse_i64_spec};
use crate::text::{opt_string_eq, parse_i32_or_zero, parse_i64_or_zero};

verus! {

/// Slowly-changing descriptive fields of an entity; one logical row per
/// entity, upserted in place.
#[derive(Debug)]
pub struct AppInfo {
    pub app_id: String,
    pub alliance_app_id: String,
    pub name: String,
    pub pkg_name: String,
    pub dev_id: String,
    pub developer_name: String,
    pub dev_en_name: String,
    pub supplier: String,
    pub kind_id: i32,
    pub kind_name: String,
    pub tag_name: Option<String>,
    pub kind_type_id: i32,
    pub kind_type_name: String,
    pub icon_url: String,
    pub brief_desc: String,
    pub description: String,
    pub privacy_url: String,
    pub ctype: i32,
    pub detail_id: String,
    pub app_level: i32,
    pub jocat_id: i32,
    pub iap: bool,
    pub hms: bool,
    pub tariff_type: String,
    pub packing_type: i32,
    pub order_app: bool,
    pub denpend_gms: bool,
    pub denpend_hms: bool,
    pub force_update: bool,
    pub img_tag: String,
    pub is_pay: bool,
    pub is_disciplined: bool,
    pub is_shelves: bool,
    pub submit_type: i32,
    pub delete_archive: bool,
    pub charging: bool,
    pub button_grey: bool,
    pub app_gift: bool,
    pub free_days: i32,
    pub pay_install_type: i32,
    pub created_at: i64,
}

/// Frequently-changing fields of an entity; append-only history, one row per
/// detected change.
#[derive(Debug)]
pub struct AppMetric {
    pub id: i64,
    pub app_id: String,
    pub version: String,
    pub version_code: i64,
    pub size_bytes: i64,
    pub sha256: String,
    pub info_score: String,
    pub info_rate_count: i64,
    pub download_count: i64,
    pub price: String,
    pub release_date: i64,
    pub new_features: String,
    pub upgrade_msg: String,
    pub target_sdk: i32,
    pub minsdk: i32,
    pub compile_sdk_version: i32,
    pub min_hmos_api_level: i32,
    pub api_release_type: String,
    pub created_at: i64,
}

/// Star-distribution fields of an entity; append-only history, one row per
/// detected change.
#[derive(Debug)]
pub struct AppRating {
    pub id: i64,
    pub app_id: String,
    pub average_rating: String,
    pub star_1_rating_count: i32,
    pub star_2_rating_count: i32,
    pub star_3_rating_count: i32,
    pub star_4_rating_count: i32,
    pub star_5_rating_count: i32,
    pub my_star_rating: i32,
    pub total_star_rating_count: i32,
    pub only_star_count: i32,
    pub full_average_rating: String,
    pub source_type: String,
    pub created_at: i64,
}

/// One accepted fetch: both raw documents together, the ground truth for
/// change detection.  Appended, never mutated.
#[derive(Debug)]
pub struct AppRaw {
    pub id: i64,
    pub app_id: String,
    pub raw_json_data: RawJsonData,
    pub raw_json_star: Option<RawRatingData>,
    pub created_at: i64,
}

/// A trimmed listing row of an entity.
#[derive(Debug)]
pub struct ShortAppInfo {
    pub app_id: String,
    pub name: String,
    pub pkg_name: String,
    pub icon_url: String,
    pub create_at: i64,
}

/// `r` is the descriptive projection of document `d` stamped `created_at`.
pub open spec fn is_info_projection(d: RawJsonData, created_at: i64, r: AppInfo) -> bool {
    &&& r.app_id@ == d.app_id@
    &&& r.alliance_app_id@ == d.alliance_app_id@
    &&& r.name@ == d.name@
    &&& r.pkg_name@ == d.pkg_name@
    &&& r.dev_id@ == d.dev_id@
    &&& r.developer_name@ == d.developer_name@
    &&& r.dev_en_name@ == d.dev_en_name@
    &&& r.supplier@ == d.supplier@
    &&& r.kind_id == parse_i32_spec(d.kind_id@)
    &&& r.kind_name@ == d.kind_name@
    &&& opt_str_eq(r.tag_name, d.tag_name)
    &&& r.kind_type_id == parse_i32_spec(d.kind_type_id@)
    &&& r.kind_type_name@ == d.kind_type_name@
    &&& r.icon_url@ == d.icon_url@
    &&& r.brief_desc@ == d.brief_desc@
    &&& r.description@ == d.description@
    &&& r.privacy_url@ == d.privacy_url@
    &&& r.ctype == d.ctype
    &&& r.detail_id@ == d.detail_id@
    &&& r.app_level == d.app_level
    &&& r.jocat_id == d.jocat_id
    &&& r.iap == (d.iap != 0)
    &&& r.hms == (d.hms != 0)
    &&& r.tariff_type@ == d.tariff_type@
    &&& r.packing_type == d.packing_type
    &&& r.order_app == d.order_app
    &&& r.denpend_gms == (d.denpend_gms != 0)
    &&& r.denpend_hms == (d.denpend_hms != 0)
    &&& r.force_update == (d.force_update != 0)
    &&& r.img_tag@ == d.img_tag@
    &&& r.is_pay == (d.is_pay@ == "1"@)
    &&& r.is_disciplined == (d.is_disciplined != 0)
    &&& r.is_shelves == (d.is_shelves != 0)
    &&& r.submit_type == d.submit_type
    &&& r.delete_archive == (d.delete_archive != 0)
    &&& r.charging == (d.charging != 0)
    &&& r.button_grey == (d.button_grey != 0)
    &&& r.app_gift == (d.app_gift != 0)
    &&& r.free_days == d.free_days
    &&& r.pay_install_type == d.pay_install_type
    &&& r.created_at == created_at
}

/// `r` is the metric projection of document `d` stamped `created_at`.
pub open spec fn is_metric_projection(d: RawJsonData, created_at: i64, r: AppMetric) -> bool {
    &&& r.id == 0
    &&& r.app_id@ == d.app_id@
    &&& r.version@ == d.version@
    &&& r.version_code == d.version_code
    &&& r.size_bytes == d.size_bytes
    &&& r.sha256@ == d.sha256@
    &&& r.info_score@ == d.hot_score@
    &&& r.info_rate_count == parse_i64_spec(d.rate_num@)
    &&& r.download_count == parse_i64_spec(d.download_count@)
    &&& r.price@ == d.price@
    &&& r.release_date == d.release_date
    &&& r.new_features@ == d.new_features@
    &&& r.upgrade_msg@ == d.upgrade_msg@
    &&& r.target_sdk == parse_i32_spec(d.target_sdk@)
    &&& r.minsdk == parse_i32_spec(d.min_sdk@)
    &&& r.compile_sdk_version == d.compile_sdk_version
    &&& r.min_hmos_api_level == d.min_hmos_api_level
    &&& r.api_release_type@ == d.api_release_type@
    &&& r.created_at == created_at
}

/// `r` is the rating projection of payload `s` for the entity of document
/// `d`, stamped `created_at`.
pub open spec fn is_rating_projection(
    d: RawJsonData,
    s: RawRatingData,
    created_at: i64,
    r: AppRating,
) -> bool {
    &&& r.id == 0
    &&& r.app_id@ == d.app_id@
    &&& r.average_rating@ == s.average_rating@
    &&& r.star_1_rating_count == s.star_1_rating_count
    &&& r.star_2_rating_count == s.star_2_rating_count
    &&& r.star_3_rating_count == s.star_3_rating_count
    &&& r.star_4_rating_count == s.star_4_rating_count
    &&& r.star_5_rating_count == s.star_5_rating_count
    &&& r.my_star_rating == s.my_star_rating
    &&& r.total_star_rating_count == s.total_star_rating_count
    &&& r.only_star_count == s.only_star_count
    &&& r.full_average_rating@ == s.full_average_rating@
    &&& r.source_type@ == s.source_type@
    &&& r.created_at == created_at
}

/// Content equality of two descriptive rows; the creation timestamp is
/// deliberately left out, so an identical re-fetch compares equal.
pub open spec fn info_content_eq(a: AppInfo, b: AppInfo) -> bool {
    &&& a.app_id@ == b.app_id@
    &&& a.alliance_app_id@ == b.alliance_app_id@
    &&& a.name@ == b.name@
    &&& a.pkg_name@ == b.pkg_name@
    &&& a.dev_id@ == b.dev_id@
    &&& a.developer_name@ == b.developer_name@
    &&& a.dev_en_name@ == b.dev_en_name@
    &&& a.supplier@ == b.supplier@
    &&& a.kind_id == b.kind_id
    &&& a.kind_name@ == b.kind_name@
    &&& opt_str_eq(a.tag_name, b.tag_name)
    &&& a.kind_type_id == b.kind_type_id
    &&& a.kind_type_name@ == b.kind_type_name@
    &&& a.icon_url@ == b.icon_url@
    &&& a.brief_desc@ == b.brief_desc@
    &&& a.description@ == b.description@
    &&& a.privacy_url@ == b.privacy_url@
    &&& a.ctype == b.ctype
    &&& a.detail_id@ == b.detail_id@
    &&& a.app_level == b.app_level
    &&& a.jocat_id == b.jocat_id
    &&& a.iap == b.iap
    &&& a.hms == b.hms
    &&& a.tariff_type@ == b.tariff_type@
    &&& a.packing_type == b.packing_type
    &&& a.order_app == b.order_app
    &&& a.denpend_gms == b.denpend_gms
    &&& a.denpend_hms == b.denpend_hms
    &&& a.force_update == b.force_update
    &&& a.img_tag@ == b.img_tag@
    &&& a.is_pay == b.is_pay
    &&& a.is_disciplined == b.is_disciplined
    &&& a.is_shelves == b.is_shelves
    &&& a.submit_type == b.submit_type
    &&& a.delete_archive == b.delete_archive
    &&& a.charging == b.charging
    &&& a.button_grey == b.button_grey
    &&& a.app_gift == b.app_gift
    &&& a.free_days == b.free_days
    &&& a.pay_install_type == b.pay_install_type
}

/// Content equality of two metric rows; row id and timestamp left out.
pub open spec fn metric_content_eq(a: AppMetric, b: AppMetric) -> bool {
    &&& a.app_id@ == b.app_id@
    &&& a.version@ == b.version@
    &&& a.version_code == b.version_code
    &&& a.size_bytes == b.size_bytes
    &&& a.sha256@ == b.sha256@
    &&& a.info_score@ == b.info_score@
    &&& a.info_rate_count == b.info_rate_count
    &&& a.download_count == b.download_count
    &&& a.price@ == b.price@
    &&& a.release_date == b.release_date
    &&& a.new_features@ == b.new_features@
    &&& a.upgrade_msg@ == b.upgrade_msg@
    &&& a.target_sdk == b.target_sdk
    &&& a.minsdk == b.minsdk
    &&& a.compile_sdk_version == b.compile_sdk_version
    &&& a.min_hmos_api_level == b.min_hmos_api_level
    &&& a.api_release_type@ == b.api_release_type@
}

/// Equality of two optional rating payloads by content.
pub open spec fn opt_rating_eq(a: Option<RawRatingData>, b: Option<RawRatingData>) -> bool {
    match (a, b) {
        (Option::None, Option::None) => true,
        (Option::Some(x), Option::Some(y)) => raw_rating_eq(x, y),
        _ => false,
    }
}

impl AppInfo {
    /// Projects the descriptive row out of a fetched document.
    pub fn from_raw_data(value: &RawJsonData, created_at: i64) -> (r: AppInfo)
        ensures
            is_info_projection(*value, created_at, r),
    {
        let one = "1";
        AppInfo {
            app_id: value.app_id.clone(),
            alliance_app_id: value.alliance_app_id.clone(),
            name: value.name.clone(),
            pkg_name: value.pkg_name.clone(),
            dev_id: value.dev_id.clone(),
            developer_name: value.developer_name.clone(),
            dev_en_name: value.dev_en_name.clone(),
            supplier: value.supplier.clone(),
            kind_id: parse_i32_or_zero(value.kind_id.as_str()),
            kind_name: value.kind_name.clone(),
            tag_name: match &value.tag_name {
                Some(t) => Some(t.clone()),
                None => None,
            },
            kind_type_id: parse_i32_or_zero(value.kind_type_id.as_str()),
            kind_type_name: value.kind_type_name.clone(),
            icon_url: value.icon_url.clone(),
            brief_desc: value.brief_desc.clone(),
            description: value.description.clone(),
            privacy_url: value.privacy_url.clone(),
            ctype: value.ctype,
            detail_id: value.detail_id.clone(),
            app_level: value.app_level,
            jocat_id: value.jocat_id,
            iap: value.iap != 0,
            hms: value.hms != 0,
            tariff_type: value.tariff_type.clone(),
            packing_type: value.packing_type,
            order_app: value.order_app,
            denpend_gms: value.denpend_gms != 0,
            denpend_hms: value.denpend_hms != 0,
            force_update: value.force_update != 0,
            img_tag: value.img_tag.clone(),
            is_pay: value.is_pay.eq(&one.to_owned()),
            is_disciplined: value.is_disciplined != 0,
            is_shelves: value.is_shelves != 0,
            submit_type: value.submit_type,
            delete_archive: value.delete_archive != 0,
            charging: value.charging != 0,
            button_grey: value.button_grey != 0,
            app_gift: value.app_gift != 0,
            free_days: value.free_days,
            pay_install_type: value.pay_install_type,
            created_at,
        }
    }
}

impl AppMetric {
    /// Projects the metric row out of a fetched document.
    pub fn from_raw_data(raw_data: &RawJsonData, created_at: i64) -> (r: AppMetric)
        ensures
            is_metric_projection(*raw_data, created_at, r),
    {
        AppMetric {
            id: 0,
            app_id: raw_data.app_id.clone(),
            version: raw_data.version.clone(),
            version_code: raw_data.version_code,
            size_bytes: raw_data.size_bytes,
            sha256: raw_data.sha256.clone(),
            info_score: raw_data.hot_score.clone(),
            info_rate_count: parse_i64_or_zero(raw_data.rate_num.as_str()),
            download_count: parse_i64_or_zero(raw_data.download_count.as_str()),
            price: raw_data.price.clone(),
            release_date: raw_data.release_date,
            new_features: raw_data.new_features.clone(),
            upgrade_msg: raw_data.upgrade_msg.clone(),
            target_sdk: parse_i32_or_zero(raw_data.target_sdk.as_str()),
            minsdk: parse_i32_or_zero(raw_data.min_sdk.as_str()),
            compile_sdk_version: raw_data.compile_sdk_version,
            min_hmos_api_level: raw_data.min_hmos_api_level,
            api_release_type: raw_data.api_release_type.clone(),
            created_at,
        }
    }
}

impl AppRating {
    /// Projects the rating row out of a fetched rating payload.
    pub fn from_raw_star(raw_data: &RawJsonData, raw_star: &RawRatingData, created_at: i64) -> (r:
        AppRating)
        ensures
            is_rating_projection(*raw_data, *raw_star, created_at, r),
    {
        AppRating {
            id: 0,
            app_id: raw_data.app_id.clone(),
            average_rating: raw_star.average_rating.clone(),
            star_1_rating_count: raw_star.star_1_rating_count,
            star_2_rating_count: raw_star.star_2_rating_count,
            star_3_rating_count: raw_star.star_3_rating_count,
            star_4_rating_count: raw_star.star_4_rating_count,
            star_5_rating_count: raw_star.star_5_rating_count,
            my_star_rating: raw_star.my_star_rating,
            total_star_rating_count: raw_star.total_star_rating_count,
            only_star_count: raw_star.only_star_count,
            full_average_rating: raw_star.full_average_rating.clone(),
            source_type: raw_star.source_type.clone(),
            created_at,
        }
    }
}

impl AppRaw {
    /// Bundles the raw documents of one accepted fetch into a snapshot.
    pub fn from_raw_datas(data: RawJsonData, star: Option<RawRatingData>, created_at: i64) -> (r:
        AppRaw)
        ensures
            r.id == 0,
            r.app_id@ == data.app_id@,
            r.raw_json_data == data,
            r.raw_json_star == star,
            r.created_at == created_at,
    {
        AppRaw {
            id: 0,
            app_id: data.app_id.clone(),
            raw_json_data: data,
            raw_json_star: star,
            created_at,
        }
    }
}

impl ShortAppInfo {
    /// Trims a descriptive row down to its listing fields.
    pub fn from_app_info(app_info: &AppInfo) -> (r: ShortAppInfo)
        ensures
            r.app_id@ == app_info.app_id@,
            r.name@ == app_info.name@,
            r.pkg_name@ == app_info.pkg_name@,
            r.icon_url@ == app_info.icon_url@,
            r.create_at == app_info.created_at,
    {
        ShortAppInfo {
            app_id: app_info.app_id.clone(),
            name: app_info.name.clone(),
            pkg_name: app_info.pkg_name.clone(),
            icon_url: app_info.icon_url.clone(),
            create_at: app_info.created_at,
        }
    }
}

/// Decides content equality of two descriptive rows.
pub fn same_app_info(a: &AppInfo, b: &AppInfo) -> (r: bool)
    ensures
        r == info_content_eq(*a, *b),
{
    a.app_id.eq(&b.app_id) && a.alliance_app_id.eq(&b.alliance_app_id) && a.name.eq(&b.name)
        && a.pkg_name.eq(&b.pkg_name) && a.dev_id.eq(&b.dev_id) && a.developer_name.eq(
        &b.developer_name,
    ) && a.dev_en_name.eq(&b.dev_en_name) && a.supplier.eq(&b.supplier) && a.kind_id == b.kind_id
        && a.kind_name.eq(&b.kind_name) && opt_string_eq(&a.tag_name, &b.tag_name)
        && a.kind_type_id == b.kind_type_id && a.kind_type_name.eq(&b.kind_type_name)
        && a.icon_url.eq(&b.icon_url) && a.brief_desc.eq(&b.brief_desc) && a.description.eq(
        &b.description,
    ) && a.privacy_url.eq(&b.privacy_url) && a.ctype == b.ctype && a.detail_id.eq(&b.detail_id)
        && a.app_level == b.app_level && a.jocat_id == b.jocat_id && a.iap == b.iap && a.hms
        == b.hms && a.tariff_type.eq(&b.tariff_type) && a.packing_type == b.packing_type
        && a.order_app == b.order_app && a.denpend_gms == b.denpend_gms && a.denpend_hms
        == b.denpend_hms && a.force_update == b.force_update && a.img_tag.eq(&b.img_tag)
        && a.is_pay == b.is_pay && a.is_disciplined == b.is_disciplined && a.is_shelves
        == b.is_shelves && a.submit_type == b.submit_type && a.delete_archive == b.delete_archive
        && a.charging == b.charging && a.button_grey == b.button_grey && a.app_gift == b.app_gift
        && a.free_days == b.free_days && a.pay_install_type == b.pay_install_type
}

/// Decides content equality of two metric rows.
pub fn same_app_metric(a: &AppMetric, b: &AppMetric) -> (r: bool)
    ensures
        r == metric_content_eq(*a, *b),
{
    a.app_id.eq(&b.app_id) && a.version.eq(&b.version) && a.version_code == b.version_code
        && a.size_bytes == b.size_bytes && a.sha256.eq(&b.sha256) && a.info_score.eq(&b.info_score)
        && a.info_rate_count == b.info_rate_count && a.download_count == b.download_count
        && a.price.eq(&b.price) && a.release_date == b.release_date && a.new_features.eq(
        &b.new_features,
    ) && a.upgrade_msg.eq(&b.upgrade_msg) && a.target_sdk == b.target_sdk && a.minsdk == b.minsdk
        && a.compile_sdk_version == b.compile_sdk_version && a.min_hmos_api_level
        == b.min_hmos_api_level && a.api_release_type.eq(&b.api_release_type)
}

} // verus!
