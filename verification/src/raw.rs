//! The tolerant document model for the two remote JSON endpoints.
//!
//! A fetched entity document is normalized into [`RawJsonData`] and a fetched
//! rating payload into [`RawRatingData`].  Change detection compares these
//! normalized documents structurally, which by construction ignores unknown
//! and noisy attributes of the wire payload (such as trace identifiers).

use vstd::prelude::*;
use crate::text::{opt_str_eq, str_views};
use crate::text::{opt_string_eq, vec_string_eq, vec_u8_eq};

verus! {

/// The star-distribution payload carried inside a page layout response.
#[derive(Debug)]
pub struct RawRatingData {
    pub average_rating: String,
    pub star_1_rating_count: i32,
    pub star_2_rating_count: i32,
    pub star_3_rating_count: i32,
    pub star_4_rating_count: i32,
    pub star_5_rating_count: i32,
    pub my_star_rating: i32,
    pub total_star_rating_count: i32,
    pub only_star_count: i32,
    pub full_average_rating: String,
    pub source_type: String,
}

/// An entity document as the remote lookup endpoint returns it.
///
/// Attributes that the remote service omits inconsistently are filled with
/// the stated defaults when the host process decodes the wire payload
/// (see [`hot_default`], [`rate_num_default`], [`api_release_type_default`]).
#[derive(Debug)]
pub struct RawJsonData {
    pub app_id: String,
    pub alliance_app_id: String,
    pub name: String,
    pub pkg_name: String,
    pub dev_id: String,
    pub developer_name: String,
    pub dev_en_name: String,
    pub supplier: String,
    pub kind_id: String,
    pub kind_name: String,
    pub tag_name: Option<String>,
    pub kind_type_id: String,
    pub kind_type_name: String,
    pub icon_url: String,
    pub brief_desc: String,
    pub description: String,
    pub privacy_url: String,
    pub ctype: i32,
    pub detail_id: String,
    pub app_level: i32,
    pub jocat_id: i32,
    pub iap: i32,
    pub hms: i32,
    pub tariff_type: String,
    pub packing_type: i32,
    pub order_app: bool,
    pub denpend_gms: i32,
    pub denpend_hms: i32,
    pub force_update: i32,
    pub img_tag: String,
    pub is_pay: String,
    pub is_disciplined: i32,
    pub is_shelves: i32,
    pub submit_type: i32,
    pub delete_archive: i32,
    pub charging: i32,
    pub button_grey: i32,
    pub app_gift: i32,
    pub free_days: i32,
    pub pay_install_type: i32,
    pub version: String,
    pub version_code: i64,
    pub size_bytes: i64,
    pub sha256: String,
    pub hot_score: String,
    pub rate_num: String,
    pub download_count: String,
    pub price: String,
    pub release_date: i64,
    pub new_features: String,
    pub upgrade_msg: String,
    pub target_sdk: String,
    pub min_sdk: String,
    pub compile_sdk_version: i32,
    pub min_hmos_api_level: i32,
    pub api_release_type: String,
    pub main_device_codes: Vec<u8>,
    pub release_countries: Vec<String>,
}

/// Structural equality of two rating payloads.
pub open spec fn raw_rating_eq(a: RawRatingData, b: RawRatingData) -> bool {
    &&& a.average_rating@ == b.average_rating@
    &&& a.star_1_rating_count == b.star_1_rating_count
    &&& a.star_2_rating_count == b.star_2_rating_count
    &&& a.star_3_rating_count == b.star_3_rating_count
    &&& a.star_4_rating_count == b.star_4_rating_count
    &&& a.star_5_rating_count == b.star_5_rating_count
    &&& a.my_star_rating == b.my_star_rating
    &&& a.total_star_rating_count == b.total_star_rating_count
    &&& a.only_star_count == b.only_star_count
    &&& a.full_average_rating@ == b.full_average_rating@
    &&& a.source_type@ == b.source_type@
}

/// Structural equality of two entity documents.  This is the canonical
/// comparison for change detection.
pub open spec fn raw_data_eq(a: RawJsonData, b: RawJsonData) -> bool {
    &&& a.app_id@ == b.app_id@
    &&& a.alliance_app_id@ == b.alliance_app_id@
    &&& a.name@ == b.name@
    &&& a.pkg_name@ == b.pkg_name@
    &&& a.dev_id@ == b.dev_id@
    &&& a.developer_name@ == b.developer_name@
    &&& a.dev_en_name@ == b.dev_en_name@
    &&& a.supplier@ == b.supplier@
    &&& a.kind_id@ == b.kind_id@
    &&& a.kind_name@ == b.kind_name@
    &&& opt_str_eq(a.tag_name, b.tag_name)
    &&& a.kind_type_id@ == b.kind_type_id@
    &&& a.kind_type_name@ == b.kind_type_name@
    &&& a.icon_url@ == b.icon_url@
    &&& a.brief_desc@ == b.brief_desc@
    &&& a.description@ == b.description@
    &&& a.privacy_url@ == b.privacy_url@
    &&& a.ctype == b.ctype
    &&& a.detail_id@ == b.detail_id@
    &&& a.app_level == b.app_level
    &&& a.jocat_id == b.jocat_id
    &&& a.iap == b.iap
    &&& a.hms == b.hms
    &&& a.tariff_type@ == b.tariff_type@
    &&& a.packing_type == b.packing_type
    &&& a.order_app == b.order_app
    &&& a.denpend_gms == b.denpend_gms
    &&& a.denpend_hms == b.denpend_hms
    &&& a.force_update == b.force_update
    &&& a.img_tag@ == b.img_tag@
    &&& a.is_pay@ == b.is_pay@
    &&& a.is_disciplined == b.is_disciplined
    &&& a.is_shelves == b.is_shelves
    &&& a.submit_type == b.submit_type
    &&& a.delete_archive == b.delete_archive
    &&& a.charging == b.charging
    &&& a.button_grey == b.button_grey
    &&& a.app_gift == b.app_gift
    &&& a.free_days == b.free_days
    &&& a.pay_install_type == b.pay_install_type
    &&& a.version@ == b.version@
    &&& a.version_code == b.version_code
    &&& a.size_bytes == b.size_bytes
    &&& a.sha256@ == b.sha256@
    &&& a.hot_score@ == b.hot_score@
    &&& a.rate_num@ == b.rate_num@
    &&& a.download_count@ == b.download_count@
    &&& a.price@ == b.price@
    &&& a.release_date == b.release_date
    &&& a.new_features@ == b.new_features@
    &&& a.upgrade_msg@ == b.upgrade_msg@
    &&& a.target_sdk@ == b.target_sdk@
    &&& a.min_sdk@ == b.min_sdk@
    &&& a.compile_sdk_version == b.compile_sdk_version
    &&& a.min_hmos_api_level == b.min_hmos_api_level
    &&& a.api_release_type@ == b.api_release_type@
    &&& a.main_device_codes@ == b.main_device_codes@
    &&& str_views(a.release_countries@) == str_views(b.release_countries@)
}

/// Decides whether two rating payloads are structurally the same.
pub fn same_raw_rating(a: &RawRatingData, b: &RawRatingData) -> (r: bool)
    ensures
        r == raw_rating_eq(*a, *b),
{
    a.average_rating.eq(&b.average_rating) && a.star_1_rating_count == b.star_1_rating_count
        && a.star_2_rating_count == b.star_2_rating_count && a.star_3_rating_count
        == b.star_3_rating_count && a.star_4_rating_count == b.star_4_rating_count
        && a.star_5_rating_count == b.star_5_rating_count && a.my_star_rating == b.my_star_rating
        && a.total_star_rating_count == b.total_star_rating_count && a.only_star_count
        == b.only_star_count && a.full_average_rating.eq(&b.full_average_rating)
        && a.source_type.eq(&b.source_type)
}

/// Decides whether two entity documents are structurally the same: the
/// canonical "has anything changed" comparison of change detection.
pub fn same_raw_data(a: &RawJsonData, b: &RawJsonData) -> (r: bool)
    ensures
        r == raw_data_eq(*a, *b),
{
    a.app_id.eq(&b.app_id) && a.alliance_app_id.eq(&b.alliance_app_id) && a.name.eq(&b.name)
        && a.pkg_name.eq(&b.pkg_name) && a.dev_id.eq(&b.dev_id) && a.developer_name.eq(
        &b.developer_name,
    ) && a.dev_en_name.eq(&b.dev_en_name) && a.supplier.eq(&b.supplier) && a.kind_id.eq(&b.kind_id)
        && a.kind_name.eq(&b.kind_name) && opt_string_eq(&a.tag_name, &b.tag_name)
        && a.kind_type_id.eq(&b.kind_type_id) && a.kind_type_name.eq(&b.kind_type_name)
        && a.icon_url.eq(&b.icon_url) && a.brief_desc.eq(&b.brief_desc) && a.description.eq(
        &b.description,
    ) && a.privacy_url.eq(&b.privacy_url) && a.ctype == b.ctype && a.detail_id.eq(&b.detail_id)
        && a.app_level == b.app_level && a.jocat_id == b.jocat_id && a.iap == b.iap && a.hms
        == b.hms && a.tariff_type.eq(&b.tariff_type) && a.packing_type == b.packing_type
        && a.order_app == b.order_app && a.denpend_gms == b.denpend_gms && a.denpend_hms
        == b.denpend_hms && a.force_update == b.force_update && a.img_tag.eq(&b.img_tag)
        && a.is_pay.eq(&b.is_pay) && a.is_disciplined == b.is_disciplined && a.is_shelves
        == b.is_shelves && a.submit_type == b.submit_type && a.delete_archive == b.delete_archive
        && a.charging == b.charging && a.button_grey == b.button_grey && a.app_gift == b.app_gift
        && a.free_days == b.free_days && a.pay_install_type == b.pay_install_type && a.version.eq(
        &b.version,
    ) && a.version_code == b.version_code && a.size_bytes == b.size_bytes && a.sha256.eq(&b.sha256)
        && a.hot_score.eq(&b.hot_score) && a.rate_num.eq(&b.rate_num) && a.download_count.eq(
        &b.download_count,
    ) && a.price.eq(&b.price) && a.release_date == b.release_date && a.new_features.eq(
        &b.new_features,
    ) && a.upgrade_msg.eq(&b.upgrade_msg) && a.target_sdk.eq(&b.target_sdk) && a.min_sdk.eq(
        &b.min_sdk,
    ) && a.compile_sdk_version == b.compile_sdk_version && a.min_hmos_api_level
        == b.min_hmos_api_level && a.api_release_type.eq(&b.api_release_type) && vec_u8_eq(
        &a.main_device_codes,
        &b.main_device_codes,
    ) && vec_string_eq(&a.release_countries, &b.release_countries)
}

/// Default heat score for documents that omit the attribute.
pub fn hot_default() -> (r: String)
    ensures
        r@ == "0.0"@,
{
    "0.0".to_owned()
}

/// Default rating count for documents that omit the attribute.
pub fn rate_num_default() -> (r: String)
    ensures
        r@ == "0"@,
{
    "0".to_owned()
}

/// Default release-channel marker for documents that omit the attribute.
pub fn api_release_type_default() -> (r: String)
    ensures
        r@ == "Release"@,
{
    "Release".to_owned()
}

/// Default device-code list for documents that omit the attribute.
pub fn main_device_codes_default() -> (r: Vec<u8>)
    ensures
        r@ == seq![0u8],
{
    let mut v: Vec<u8> = Vec::new();
    v.push(0);
    proof {
        assert(v@ =~= seq![0u8]);
    }
    v
}

} // verus!
