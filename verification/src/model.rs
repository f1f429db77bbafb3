//! The typed model of a local-business listing, as reconstructed from the
//! positional-array wire format, together with the spec-level shadows that the
//! decoder contracts are stated over.
//!
//! Exec types hold `Vec` and `String`; a shadow type replaces each `Vec` with
//! a `Seq` so that a decoder's result can be written down in full by a spec
//! function.  Types without nested vectors need no shadow: their values can be
//! built in spec code directly.
//!
//! Numbers that the wire format serves as floating point (ratings,
//! coordinates, confidences) are held as [`JsonNumber`], preserving the wire
//! value exactly without floating-point arithmetic.
use vstd::prelude::*;
use crate::json::JsonNumber;

verus! {

// ————————————————————————————————————————————————————————————————————————
// Leaf sub-entities (no nested vectors; usable in spec code as they stand)
// ————————————————————————————————————————————————————————————————————————

/// Reputation summary pulled from the reviews block.
#[derive(Debug, PartialEq, Eq)]
pub struct ReviewSummaryBlock {
    /// The full reviews-panel URL for this place.
    pub reviews_url: Option<String>,
    /// Raw string representing the review count, e.g. `"469 reviews"`.
    pub reviews_text: Option<String>,
    /// Opaque click-context or tracking token.
    pub tracking_token: Option<String>,
    /// Average star rating as served, e.g. `4.9`.
    pub average_rating: Option<JsonNumber>,
    /// Total number of reviews.
    pub review_count: Option<u64>,
}

/// Website link plus its display domain.
#[derive(Debug, PartialEq, Eq)]
pub struct BusinessWebsiteLinks {
    pub url: String,
    pub domain: String,
}

/// A latitude/longitude pair, kept exactly as served.
#[derive(Debug, PartialEq, Eq)]
pub struct GeoPoint {
    pub latitude: JsonNumber,
    pub longitude: JsonNumber,
}

/// Account-ownership block of a listing.
#[derive(Debug, PartialEq, Eq)]
pub struct BusinessOwnerMetadata {
    pub display_name: String,
    pub google_identity_id: Option<String>,
    /// A second identifier that empirically does not always match
    /// `google_identity_id`.
    pub canonical_owner_id: String,
}

/// One ranked business category.
#[derive(Debug, PartialEq, Eq)]
pub struct BusinessCategory {
    /// Category slug, e.g. `"software_company"`.
    pub label: String,
    /// Optional human-readable label.
    pub display_name: Option<String>,
    /// Ordinal confidence tier (observed 0–7), not a probability.
    pub score: i64,
}

/// Structured address fields.
#[derive(Debug, PartialEq, Eq)]
pub struct BusinessAddressFields {
    pub location_hint: Option<String>,
    pub street_address_1: Option<String>,
    pub street_address_2: Option<String>,
    pub city: Option<String>,
}

/// UI-facing display-name block.
#[derive(Debug, PartialEq, Eq)]
pub struct BusinessDisplayBlock {
    pub name: String,
}

/// One offered service inside a service group.
#[derive(Debug, PartialEq, Eq)]
pub struct ServiceTopic {
    pub title: String,
    pub description: Option<String>,
}

/// One phone-number variant with its rank.
#[derive(Debug, PartialEq, Eq)]
pub struct PhoneVariant {
    pub number: String,
    pub rank: i64,
}

/// A `tel:` URI with its optional click-tracking token.
#[derive(Debug, PartialEq, Eq)]
pub struct TelUriBlock {
    pub uri: String,
    pub click_token: Option<String>,
}

/// A labelled confidence tag inside a feature's confidence block.
#[derive(Debug, PartialEq, Eq)]
pub struct ConfidenceTag {
    pub score: i64,
    pub label: String,
}

/// Bundle of co-occurring internal identifiers.  The members are not
/// guaranteed mutually consistent.
#[derive(Debug, PartialEq, Eq)]
pub struct BusinessEntityIdentifier {
    pub composite_id: String,
    pub kg_id: Option<String>,
    pub place_id: Option<String>,
    pub numeric_id: Option<String>,
    pub owner_id: Option<String>,
}

/// A highlighted character span inside a status string.
#[derive(Debug, PartialEq, Eq)]
pub struct StatusHighlight {
    pub start_char: u64,
    pub end_char: u64,
    pub metadata: Option<HighlightMetadata>,
}

/// Stable identifier pair attached to a highlight.
#[derive(Debug, PartialEq, Eq)]
pub struct HighlightMetadata {
    pub tokens: (u64, u64),
}

/// Upload date (and optionally hour) of a photo.
#[derive(Debug, PartialEq, Eq)]
pub struct UploadTimestamp {
    pub year: u64,
    pub month: u64,
    pub day: u64,
    pub hour: Option<u64>,
}

/// A reference linking a photo to another internal system.
#[derive(Debug, PartialEq, Eq)]
pub struct PhotoReference {
    pub kind: String,
    pub id: String,
    pub count: Option<u64>,
}

/// Cluster label metadata for a photo, e.g. `"3 Photos"`.
#[derive(Debug, PartialEq, Eq)]
pub struct PhotoClusterInfo {
    pub label: String,
    pub count: Option<u64>,
    pub index: Option<u64>,
}

/// The business or place a photo is tied to.
#[derive(Debug, PartialEq, Eq)]
pub struct BusinessReference {
    pub entity_id: String,
    pub cluster_id: Option<String>,
    pub address: Option<String>,
}

/// Coordinates where a photo was taken.
#[derive(Debug, PartialEq, Eq)]
pub struct PhotoGeoPoint {
    pub lat: JsonNumber,
    pub lon: JsonNumber,
}

/// One photo or image-related entity of a business.
#[derive(Debug, PartialEq, Eq)]
pub struct PhotoEntry {
    pub photo_id: String,
    pub media_type: u64,
    pub media_subtype: Option<u64>,
    pub image_url: Option<String>,
    pub label: Option<String>,
    pub original_size: Option<(u64, u64)>,
    pub thumbnail_size: Option<(u64, u64)>,
    pub location: Option<PhotoGeoPoint>,
    pub business: BusinessReference,
    pub upload_time: Option<UploadTimestamp>,
    pub source_tag: Option<String>,
    pub reference: Option<PhotoReference>,
    pub cluster_info: Option<PhotoClusterInfo>,
    pub content_type_label: Option<String>,
}

/// A fulfillment (call-to-action) integration.  Two structurally different
/// encodings exist on the wire; both decode to this one shape.
#[derive(Debug, PartialEq, Eq)]
pub struct FulfillmentIntegration {
    pub vendor_domain: String,
    pub vendor_logo_url: Option<String>,
    pub vendor_label: Option<String>,
    pub vendor_logo_size: Option<(u64, u64)>,
    pub destination_url: String,
    pub tracking_info: Option<String>,
    pub tag: Option<u64>,
}

// ————————————————————————————————————————————————————————————————————————
// Sub-entities that carry vectors, and their spec shadows
// ————————————————————————————————————————————————————————————————————————

/// Ranked category vector.
#[derive(Debug, PartialEq, Eq)]
pub struct BusinessCategoryVector(pub Vec<BusinessCategory>);

/// A service category and its offerings.
#[derive(Debug, PartialEq, Eq)]
pub struct ServiceGroup {
    pub category: String,
    pub topics: Vec<ServiceTopic>,
}

/// The canonical service-taxonomy decode.
#[derive(Debug, PartialEq, Eq)]
pub struct ServiceCluster {
    pub groups: Vec<ServiceGroup>,
}

pub struct SpecServiceGroup {
    pub category: String,
    pub topics: Seq<ServiceTopic>,
}

pub open spec fn service_group_dv(g: ServiceGroup) -> SpecServiceGroup {
    SpecServiceGroup { category: g.category, topics: g.topics@ }
}

/// A single labelled feature with structured metadata.
#[derive(Debug, PartialEq, Eq)]
pub struct Feature {
    pub id: String,
    pub label: String,
    pub confidence: Option<FeatureConfidence>,
    pub metadata_flag: Option<i64>,
    pub weights: Option<Vec<i64>>,
    pub present_flag: Option<i64>,
}

/// Confidence block of a feature.
#[derive(Debug, PartialEq, Eq)]
pub struct FeatureConfidence {
    pub score: i64,
    pub tags: Vec<ConfidenceTag>,
}

/// A UI category grouping features.
#[derive(Debug, PartialEq, Eq)]
pub struct FeatureCategory {
    pub slug: String,
    pub display_name: String,
    pub features: Vec<Feature>,
}

/// The four-section feature set of a listing.
#[derive(Debug, PartialEq, Eq)]
pub struct FeatureSet {
    pub primary: Vec<Feature>,
    pub grouped: Vec<FeatureCategory>,
    pub extra: Option<Vec<Feature>>,
    pub grouped_tail: Option<Vec<FeatureCategory>>,
}

/// Simplified intermediate shape for raw category extraction.
#[derive(Debug, PartialEq, Eq)]
pub struct FeatureSetRaw {
    pub categories: Vec<FeatureCategory>,
}

pub struct SpecFeatureConfidence {
    pub score: i64,
    pub tags: Seq<ConfidenceTag>,
}

pub struct SpecFeature {
    pub id: String,
    pub label: String,
    pub confidence: Option<SpecFeatureConfidence>,
    pub metadata_flag: Option<i64>,
    pub weights: Option<Seq<i64>>,
    pub present_flag: Option<i64>,
}

pub struct SpecFeatureCategory {
    pub slug: String,
    pub display_name: String,
    pub features: Seq<SpecFeature>,
}

pub struct SpecFeatureSet {
    pub primary: Seq<SpecFeature>,
    pub grouped: Seq<SpecFeatureCategory>,
    pub extra: Option<Seq<SpecFeature>>,
    pub grouped_tail: Option<Seq<SpecFeatureCategory>>,
}

pub open spec fn feature_confidence_dv(c: FeatureConfidence) -> SpecFeatureConfidence {
    SpecFeatureConfidence { score: c.score, tags: c.tags@ }
}

pub open spec fn feature_dv(f: Feature) -> SpecFeature {
    SpecFeature {
        id: f.id,
        label: f.label,
        confidence: match f.confidence {
            Some(c) => Some(feature_confidence_dv(c)),
            None => None,
        },
        metadata_flag: f.metadata_flag,
        weights: match f.weights {
            Some(w) => Some(w@),
            None => None,
        },
        present_flag: f.present_flag,
    }
}

pub open spec fn feature_category_dv(c: FeatureCategory) -> SpecFeatureCategory {
    SpecFeatureCategory {
        slug: c.slug,
        display_name: c.display_name,
        features: c.features@.map_values(|f: Feature| feature_dv(f)),
    }
}

pub open spec fn feature_set_dv(s: FeatureSet) -> SpecFeatureSet {
    SpecFeatureSet {
        primary: s.primary@.map_values(|f: Feature| feature_dv(f)),
        grouped: s.grouped@.map_values(|c: FeatureCategory| feature_category_dv(c)),
        extra: match s.extra {
            Some(v) => Some(v@.map_values(|f: Feature| feature_dv(f))),
            None => None,
        },
        grouped_tail: match s.grouped_tail {
            Some(v) => Some(v@.map_values(|c: FeatureCategory| feature_category_dv(c))),
            None => None,
        },
    }
}

/// Phone block of a listing.
#[derive(Debug, PartialEq, Eq)]
pub struct PhoneEntry {
    /// Displayed number, e.g. `(801) 835-1868`.
    pub display: Option<String>,
    /// Number variants with rank.
    pub variants: Vec<PhoneVariant>,
    /// Canonical number in E.164 form.
    pub canonical: Option<String>,
    /// Optional `tel:` URI block.
    pub tel_uri: Option<TelUriBlock>,
}

pub struct SpecPhoneEntry {
    pub display: Option<String>,
    pub variants: Seq<PhoneVariant>,
    pub canonical: Option<String>,
    pub tel_uri: Option<TelUriBlock>,
}

pub open spec fn phone_entry_dv(p: PhoneEntry) -> SpecPhoneEntry {
    SpecPhoneEntry {
        display: p.display,
        variants: p.variants@,
        canonical: p.canonical,
        tel_uri: p.tel_uri,
    }
}

/// One open/closed window of a business day.
#[derive(Debug, PartialEq, Eq)]
pub enum DayTimeRange {
    Closed,
    OpenRange {
        label: String,
        /// The raw bound pair; each side is a short list of small integers.
        bounds: (Vec<u8>, Vec<u8>),
    },
}

pub enum SpecDayTimeRange {
    Closed,
    OpenRange { label: Seq<char>, bounds: (Seq<u8>, Seq<u8>) },
}

pub open spec fn day_time_range_dv(r: DayTimeRange) -> SpecDayTimeRange {
    match r {
        DayTimeRange::Closed => SpecDayTimeRange::Closed,
        DayTimeRange::OpenRange { label, bounds } => SpecDayTimeRange::OpenRange {
            label: label@,
            bounds: (bounds.0@, bounds.1@),
        },
    }
}

/// One day of the weekly schedule.
#[derive(Debug, PartialEq, Eq)]
pub struct DailyScheduleEntry {
    pub day_name: String,
    pub day_index: u64,
    pub date: (u64, u64, u64),
    pub time_ranges: Vec<DayTimeRange>,
    pub flag: u64,
    pub status_code: u64,
}

pub struct SpecDailyScheduleEntry {
    pub day_name: String,
    pub day_index: u64,
    pub date: (u64, u64, u64),
    pub time_ranges: Seq<SpecDayTimeRange>,
    pub flag: u64,
    pub status_code: u64,
}

pub open spec fn daily_schedule_entry_dv(e: DailyScheduleEntry) -> SpecDailyScheduleEntry {
    SpecDailyScheduleEntry {
        day_name: e.day_name,
        day_index: e.day_index,
        date: e.date,
        time_ranges: e.time_ranges@.map_values(|r: DayTimeRange| day_time_range_dv(r)),
        flag: e.flag,
        status_code: e.status_code,
    }
}

/// A display status string with highlight spans.
#[derive(Debug, PartialEq, Eq)]
pub struct DisplayStatus {
    pub text: String,
    pub highlights: Vec<StatusHighlight>,
}

pub struct SpecDisplayStatus {
    pub text: Seq<char>,
    pub highlights: Seq<StatusHighlight>,
}

pub open spec fn display_status_dv(s: DisplayStatus) -> SpecDisplayStatus {
    SpecDisplayStatus { text: s.text@, highlights: s.highlights@ }
}

/// The "today" block beside the weekly schedule.
#[derive(Debug, PartialEq, Eq)]
pub struct TodayMeta {
    pub entry: Option<DailyScheduleEntry>,
    pub meta_flag_1: Option<u64>,
    /// 1 = open, 2 = closed (empirically).
    pub open_status_code: Option<u64>,
    pub status_text: Option<DisplayStatus>,
    pub status_text_repeat: Option<DisplayStatus>,
    pub simplified_status: Option<DisplayStatus>,
}

pub struct SpecTodayMeta {
    pub entry: Option<SpecDailyScheduleEntry>,
    pub meta_flag_1: Option<u64>,
    pub open_status_code: Option<u64>,
    pub status_text: Option<SpecDisplayStatus>,
    pub status_text_repeat: Option<SpecDisplayStatus>,
    pub simplified_status: Option<SpecDisplayStatus>,
}

pub open spec fn today_meta_dv(t: TodayMeta) -> SpecTodayMeta {
    SpecTodayMeta {
        entry: match t.entry {
            Some(e) => Some(daily_schedule_entry_dv(e)),
            None => None,
        },
        meta_flag_1: t.meta_flag_1,
        open_status_code: t.open_status_code,
        status_text: match t.status_text {
            Some(s) => Some(display_status_dv(s)),
            None => None,
        },
        status_text_repeat: match t.status_text_repeat {
            Some(s) => Some(display_status_dv(s)),
            None => None,
        },
        simplified_status: match t.simplified_status {
            Some(s) => Some(display_status_dv(s)),
            None => None,
        },
    }
}

/// The structured business-hours payload.
#[derive(Debug, PartialEq, Eq)]
pub struct BusinessHoursBlock {
    pub weekly_schedule: Option<Vec<DailyScheduleEntry>>,
    pub today_status: Option<TodayMeta>,
    pub schedule_type: Option<u64>,
    pub timezone_or_region_code: Option<u64>,
}

pub struct SpecBusinessHoursBlock {
    pub weekly_schedule: Option<Seq<SpecDailyScheduleEntry>>,
    pub today_status: Option<SpecTodayMeta>,
    pub schedule_type: Option<u64>,
    pub timezone_or_region_code: Option<u64>,
}

pub open spec fn business_hours_block_dv(b: BusinessHoursBlock) -> SpecBusinessHoursBlock {
    SpecBusinessHoursBlock {
        weekly_schedule: match b.weekly_schedule {
            Some(v) => Some(v@.map_values(|e: DailyScheduleEntry| daily_schedule_entry_dv(e))),
            None => None,
        },
        today_status: match b.today_status {
            Some(t) => Some(today_meta_dv(t)),
            None => None,
        },
        schedule_type: b.schedule_type,
        timezone_or_region_code: b.timezone_or_region_code,
    }
}

/// Per-media-type counts and selection state of a photo cluster.
#[derive(Debug, PartialEq, Eq)]
pub struct PhotoClusterMeta {
    pub media_type_counts: Vec<(u64, u64)>,
    pub selected_index: Option<u64>,
    pub total_count: Option<u64>,
    pub active_index: Option<u64>,
}

pub struct SpecPhotoClusterMeta {
    pub media_type_counts: Seq<(u64, u64)>,
    pub selected_index: Option<u64>,
    pub total_count: Option<u64>,
    pub active_index: Option<u64>,
}

pub open spec fn photo_cluster_meta_dv(m: PhotoClusterMeta) -> SpecPhotoClusterMeta {
    SpecPhotoClusterMeta {
        media_type_counts: m.media_type_counts@,
        selected_index: m.selected_index,
        total_count: m.total_count,
        active_index: m.active_index,
    }
}

/// One photo entry together with its cluster context.
#[derive(Debug, PartialEq, Eq)]
pub struct PhotoWrapper {
    pub entry: PhotoEntry,
    pub cluster_meta: Option<PhotoClusterMeta>,
    pub entity_id: Option<String>,
    pub tracking_token: Option<String>,
}

pub struct SpecPhotoWrapper {
    pub entry: PhotoEntry,
    pub cluster_meta: Option<SpecPhotoClusterMeta>,
    pub entity_id: Option<String>,
    pub tracking_token: Option<String>,
}

pub open spec fn photo_wrapper_dv(w: PhotoWrapper) -> SpecPhotoWrapper {
    SpecPhotoWrapper {
        entry: w.entry,
        cluster_meta: match w.cluster_meta {
            Some(m) => Some(photo_cluster_meta_dv(m)),
            None => None,
        },
        entity_id: w.entity_id,
        tracking_token: w.tracking_token,
    }
}

/// One containing region of the geo-containment hierarchy.
#[derive(Debug, PartialEq, Eq)]
pub struct RegionClassification {
    pub region_id: (String, String),
    pub confidence: JsonNumber,
    pub names: Vec<String>,
}

/// Hierarchy of regions containing the listing.
#[derive(Debug, PartialEq, Eq)]
pub struct GeoContainmentHierarchy {
    pub regions: Vec<RegionClassification>,
}

pub struct SpecRegionClassification {
    pub region_id: (String, String),
    pub confidence: JsonNumber,
    pub names: Seq<String>,
}

pub open spec fn region_classification_dv(r: RegionClassification) -> SpecRegionClassification {
    SpecRegionClassification { region_id: r.region_id, confidence: r.confidence, names: r.names@ }
}

pub struct SpecBusinessEntityIdentifier {
    pub composite_id: Seq<char>,
    pub kg_id: Option<String>,
    pub place_id: Option<String>,
    pub numeric_id: Option<String>,
    pub owner_id: Option<String>,
}

pub open spec fn business_entity_identifier_dv(b: BusinessEntityIdentifier) -> SpecBusinessEntityIdentifier {
    SpecBusinessEntityIdentifier {
        composite_id: b.composite_id@,
        kg_id: b.kg_id,
        place_id: b.place_id,
        numeric_id: b.numeric_id,
        owner_id: b.owner_id,
    }
}

pub struct SpecFulfillmentIntegration {
    pub vendor_domain: Seq<char>,
    pub vendor_logo_url: Option<String>,
    pub vendor_label: Option<String>,
    pub vendor_logo_size: Option<(u64, u64)>,
    pub destination_url: String,
    pub tracking_info: Option<String>,
    pub tag: Option<u64>,
}

pub open spec fn fulfillment_dv(f: FulfillmentIntegration) -> SpecFulfillmentIntegration {
    SpecFulfillmentIntegration {
        vendor_domain: f.vendor_domain@,
        vendor_logo_url: f.vendor_logo_url,
        vendor_label: f.vendor_label,
        vendor_logo_size: f.vendor_logo_size,
        destination_url: f.destination_url,
        tracking_info: f.tracking_info,
        tag: f.tag,
    }
}

// ————————————————————————————————————————————————————————————————————————
// The business entity itself
// ————————————————————————————————————————————————————————————————————————

/// One decoded organic listing.  Created once per decode call from one array
/// entry and never mutated or merged afterwards.
///
/// Fields of type `Option<()>` are placeholders for indices whose payload is
/// deliberately not decoded yet; the presence of non-null data there is still
/// tracked by the drift validator.
#[derive(Debug, PartialEq, Eq)]
pub struct BusinessEntity {
    pub business_token: Option<String>,
    pub serp_tracking_token: Option<String>,
    pub address_lines: Option<Vec<String>>,
    pub reviews: Option<ReviewSummaryBlock>,
    pub business_website_links: Option<BusinessWebsiteLinks>,
    pub geo_location: Option<GeoPoint>,
    pub composite_business_id: Option<String>,
    pub display_name: Option<String>,
    pub business_category_labels: Option<Vec<String>>,
    pub neighborhood_name: Option<String>,
    pub display_title_address_line: Option<String>,
    pub timezone_field: Option<String>,
    pub hours_of_operation: Option<()>,
    pub media_photo_metadata: Option<Vec<PhotoWrapper>>,
    pub formatted_address: Option<String>,
    pub claim_this_business_metadata: Option<()>,
    pub gmb_account_ownership_metadata_block: Option<()>,
    pub business_photo_gallery: Option<Vec<PhotoWrapper>>,
    pub business_cta_links: Option<FulfillmentIntegration>,
    pub business_categories: Option<BusinessCategoryVector>,
    pub google_place_id: Option<String>,
    pub address_block_array: Option<()>,
    pub business_display_block: Option<()>,
    pub google_knowledge_graph_id: Option<String>,
    pub local_business_ontology_categories: Option<FeatureSet>,
    pub another_language_code: Option<()>,
    pub service_taxonomy: Option<ServiceCluster>,
    pub business_level_attributes: Option<()>,
    pub google_account_avatars: Option<String>,
    pub business_category_label_tuple: Option<()>,
    pub locality_string_city_level_location_names: Option<String>,
    pub indirect_business_profile_links: Option<String>,
    pub phone_number_entity_block: Option<PhoneEntry>,
    pub location_normalization_payload: Option<()>,
    pub identity_label_metadata: Option<()>,
    pub structured_business_hours_payload: Option<BusinessHoursBlock>,
    pub coordinate_blocks: Option<GeoPoint>,
    pub b64_structured_concept_identifiers: Option<()>,
    pub business_claim_urls: Option<()>,
    pub google_maps_internal_business_entity_identifiers: Option<BusinessEntityIdentifier>,
    pub geographic_contextualization_metadata: Option<GeoContainmentHierarchy>,
}

pub struct SpecBusinessEntity {
    pub business_token: Option<String>,
    pub serp_tracking_token: Option<String>,
    pub address_lines: Option<Seq<String>>,
    pub reviews: Option<ReviewSummaryBlock>,
    pub business_website_links: Option<BusinessWebsiteLinks>,
    pub geo_location: Option<GeoPoint>,
    pub composite_business_id: Option<String>,
    pub display_name: Option<String>,
    pub business_category_labels: Option<Seq<String>>,
    pub neighborhood_name: Option<String>,
    pub display_title_address_line: Option<String>,
    pub timezone_field: Option<String>,
    pub hours_of_operation: Option<()>,
    pub media_photo_metadata: Option<Seq<SpecPhotoWrapper>>,
    pub formatted_address: Option<String>,
    pub claim_this_business_metadata: Option<()>,
    pub gmb_account_ownership_metadata_block: Option<()>,
    pub business_photo_gallery: Option<Seq<SpecPhotoWrapper>>,
    pub business_cta_links: Option<SpecFulfillmentIntegration>,
    pub business_categories: Option<Seq<BusinessCategory>>,
    pub google_place_id: Option<String>,
    pub address_block_array: Option<()>,
    pub business_display_block: Option<()>,
    pub google_knowledge_graph_id: Option<String>,
    pub local_business_ontology_categories: Option<SpecFeatureSet>,
    pub another_language_code: Option<()>,
    pub service_taxonomy: Option<SpecServiceCluster>,
    pub business_level_attributes: Option<()>,
    pub google_account_avatars: Option<String>,
    pub business_category_label_tuple: Option<()>,
    pub locality_string_city_level_location_names: Option<String>,
    pub indirect_business_profile_links: Option<String>,
    pub phone_number_entity_block: Option<SpecPhoneEntry>,
    pub location_normalization_payload: Option<()>,
    pub identity_label_metadata: Option<()>,
    pub structured_business_hours_payload: Option<SpecBusinessHoursBlock>,
    pub coordinate_blocks: Option<GeoPoint>,
    pub b64_structured_concept_identifiers: Option<()>,
    pub business_claim_urls: Option<()>,
    pub google_maps_internal_business_entity_identifiers: Option<SpecBusinessEntityIdentifier>,
    pub geographic_contextualization_metadata: Option<SpecGeoContainmentHierarchy>,
}

pub struct SpecServiceCluster {
    pub groups: Seq<SpecServiceGroup>,
}

pub open spec fn service_cluster_dv(c: ServiceCluster) -> SpecServiceCluster {
    SpecServiceCluster { groups: c.groups@.map_values(|g: ServiceGroup| service_group_dv(g)) }
}

pub struct SpecGeoContainmentHierarchy {
    pub regions: Seq<SpecRegionClassification>,
}

pub open spec fn geo_containment_hierarchy_dv(h: GeoContainmentHierarchy) -> SpecGeoContainmentHierarchy {
    SpecGeoContainmentHierarchy {
        regions: h.regions@.map_values(|r: RegionClassification| region_classification_dv(r)),
    }
}

pub open spec fn entity_dv(e: BusinessEntity) -> SpecBusinessEntity {
    SpecBusinessEntity {
        business_token: e.business_token,
        serp_tracking_token: e.serp_tracking_token,
        address_lines: match e.address_lines {
            Some(v) => Some(v@),
            None => None,
        },
        reviews: e.reviews,
        business_website_links: e.business_website_links,
        geo_location: e.geo_location,
        composite_business_id: e.composite_business_id,
        display_name: e.display_name,
        business_category_labels: match e.business_category_labels {
            Some(v) => Some(v@),
            None => None,
        },
        neighborhood_name: e.neighborhood_name,
        display_title_address_line: e.display_title_address_line,
        timezone_field: e.timezone_field,
        hours_of_operation: e.hours_of_operation,
        media_photo_metadata: match e.media_photo_metadata {
            Some(v) => Some(v@.map_values(|w: PhotoWrapper| photo_wrapper_dv(w))),
            None => None,
        },
        formatted_address: e.formatted_address,
        claim_this_business_metadata: e.claim_this_business_metadata,
        gmb_account_ownership_metadata_block: e.gmb_account_ownership_metadata_block,
        business_photo_gallery: match e.business_photo_gallery {
            Some(v) => Some(v@.map_values(|w: PhotoWrapper| photo_wrapper_dv(w))),
            None => None,
        },
        business_cta_links: match e.business_cta_links {
            Some(f) => Some(fulfillment_dv(f)),
            None => None,
        },
        business_categories: match e.business_categories {
            Some(v) => Some(v.0@),
            None => None,
        },
        google_place_id: e.google_place_id,
        address_block_array: e.address_block_array,
        business_display_block: e.business_display_block,
        google_knowledge_graph_id: e.google_knowledge_graph_id,
        local_business_ontology_categories: match e.local_business_ontology_categories {
            Some(s) => Some(feature_set_dv(s)),
            None => None,
        },
        another_language_code: e.another_language_code,
        service_taxonomy: match e.service_taxonomy {
            Some(c) => Some(service_cluster_dv(c)),
            None => None,
        },
        business_level_attributes: e.business_level_attributes,
        google_account_avatars: e.google_account_avatars,
        business_category_label_tuple: e.business_category_label_tuple,
        locality_string_city_level_location_names: e.locality_string_city_level_location_names,
        indirect_business_profile_links: e.indirect_business_profile_links,
        phone_number_entity_block: match e.phone_number_entity_block {
            Some(p) => Some(phone_entry_dv(p)),
            None => None,
        },
        location_normalization_payload: e.location_normalization_payload,
        identity_label_metadata: e.identity_label_metadata,
        structured_business_hours_payload: match e.structured_business_hours_payload {
            Some(b) => Some(business_hours_block_dv(b)),
            None => None,
        },
        coordinate_blocks: e.coordinate_blocks,
        b64_structured_concept_identifiers: e.b64_structured_concept_identifiers,
        business_claim_urls: e.business_claim_urls,
        google_maps_internal_business_entity_identifiers: match e.google_maps_internal_business_entity_identifiers {
            Some(b) => Some(business_entity_identifier_dv(b)),
            None => None,
        },
        geographic_contextualization_metadata: match e.geographic_contextualization_metadata {
            Some(h) => Some(geo_containment_hierarchy_dv(h)),
            None => None,
        },
    }
}

/// How one element of the listings array was classified.
#[derive(Debug, PartialEq, Eq)]
pub enum SearchResultEntity {
    /// A sponsored or otherwise non-organic entry; deliberately left opaque.
    AdvertisedListing,
    /// An organic listing with its decoded entity.
    OrganicListing(BusinessEntity),
}

// ————————————————————————————————————————————————————————————————————————
// The standalone presentation model (no decoder feeds these; they document
// the normalized downstream shape)
// ————————————————————————————————————————————————————————————————————————

/// Search-query metadata block.
#[derive(Debug, PartialEq, Eq)]
pub struct SearchMetadata {
    pub query: String,
    pub session_id: Option<String>,
    pub timestamp_ms: Option<i64>,
}

/// Homepage link with its display string.
#[derive(Debug, PartialEq, Eq)]
pub struct HomepageUrl {
    pub url: String,
    pub display: String,
}

/// Structured breakdown of address components.
#[derive(Debug, PartialEq, Eq)]
pub struct StructuredAddress {
    pub street: Option<String>,
    pub city: Option<String>,
    pub state: Option<String>,
    pub postal_code: Option<String>,
    pub country: Option<String>,
}

/// Normalized contact-number formats.
#[derive(Debug, PartialEq, Eq)]
pub struct PhoneNumbers {
    pub raw: Option<String>,
    pub international: Option<String>,
    pub tel_uri: Option<String>,
    pub formatted: Option<String>,
}

/// A single open-close window in 24-hour time.
#[derive(Debug, PartialEq, Eq)]
pub struct TimeRange {
    pub start_hour: u8,
    pub start_minute: u8,
    pub end_hour: u8,
    pub end_minute: u8,
}

/// One day's hours.
#[derive(Debug, PartialEq, Eq)]
pub struct DailyHours {
    pub label: String,
    pub intervals: Vec<TimeRange>,
    pub is_closed: bool,
}

/// Weekly schedule keyed by day of week (0 = Sunday).
#[derive(Debug, PartialEq, Eq)]
pub struct BusinessHours {
    pub weekly: Vec<(u8, DailyHours)>,
    pub summary: Option<String>,
}

/// Metadata specific to sponsored results.
#[derive(Debug, PartialEq, Eq)]
pub struct AdMetadata {
    pub ad_headline: Option<String>,
    pub ad_text: Option<String>,
    pub display_url: Option<String>,
    pub final_url: Option<String>,
    pub google_click_url: Option<String>,
    pub context_keywords: Vec<String>,
    pub ad_disclaimer: Option<String>,
}

/// A structured service tag such as "Onsite services".
#[derive(Debug, PartialEq, Eq)]
pub struct ServiceOption {
    pub service_type: String,
    pub label: String,
    pub is_available: bool,
    pub alt_text: Option<String>,
}

/// The documented (not yet decoded) alternate service-taxonomy shape.
#[derive(Debug, PartialEq, Eq)]
pub struct ServiceTaxonomy {
    pub entries: Vec<ServiceTaxonomyCategory>,
}

/// A service category and its offerings in the alternate shape.
#[derive(Debug, PartialEq, Eq)]
pub struct ServiceTaxonomyCategory {
    pub label: String,
    pub offerings: Vec<ServiceTaxonomyOffering>,
}

/// A specific offered service, possibly with a rich description.
#[derive(Debug, PartialEq, Eq)]
pub struct ServiceTaxonomyOffering {
    pub name: String,
    pub description: Option<String>,
}

} // verus!
