use vstd::prelude::*;

verus! {

// ---------------------------------------------------------------------------
// Token endpoint
// ---------------------------------------------------------------------------

/// Body of a successful application-token response.
pub struct AppAccessResponse {
    pub access_token: String,
}

pub struct AppAccessResponseV {
    pub access_token: Seq<char>,
}

impl View for AppAccessResponse {
    type V = AppAccessResponseV;

    open spec fn view(&self) -> AppAccessResponseV {
        AppAccessResponseV { access_token: self.access_token@ }
    }
}

impl DeepView for AppAccessResponse {
    type V = AppAccessResponseV;

    open spec fn deep_view(&self) -> AppAccessResponseV {
        self.view()
    }
}

// ---------------------------------------------------------------------------
// Paging envelope
// ---------------------------------------------------------------------------

/// Opaque pagination cursors of a list response.
pub struct Cursors {
    pub before: String,
    pub after: String,
}

pub struct CursorsV {
    pub before: Seq<char>,
    pub after: Seq<char>,
}

impl View for Cursors {
    type V = CursorsV;

    open spec fn view(&self) -> CursorsV {
        CursorsV { before: self.before@, after: self.after@ }
    }
}

impl DeepView for Cursors {
    type V = CursorsV;

    open spec fn deep_view(&self) -> CursorsV {
        self.view()
    }
}

pub struct Paging {
    pub cursors: Cursors,
}

pub struct PagingV {
    pub cursors: CursorsV,
}

impl View for Paging {
    type V = PagingV;

    open spec fn view(&self) -> PagingV {
        PagingV { cursors: self.cursors@ }
    }
}

impl DeepView for Paging {
    type V = PagingV;

    open spec fn deep_view(&self) -> PagingV {
        self.view()
    }
}

// ---------------------------------------------------------------------------
// Ad accounts
// ---------------------------------------------------------------------------

/// An ad account: the business account identifier and the internal node
/// identifier are distinct identifier spaces.
pub struct AdAccount {
    pub account_id: String,
    pub id: String,
}

pub struct AdAccountV {
    pub account_id: Seq<char>,
    pub id: Seq<char>,
}

impl View for AdAccount {
    type V = AdAccountV;

    open spec fn view(&self) -> AdAccountV {
        AdAccountV { account_id: self.account_id@, id: self.id@ }
    }
}

impl DeepView for AdAccount {
    type V = AdAccountV;

    open spec fn deep_view(&self) -> AdAccountV {
        self.view()
    }
}

pub struct AdsAccountsResponse {
    pub data: Vec<AdAccount>,
    pub paging: Paging,
}

pub struct AdsAccountsResponseV {
    pub data: Seq<AdAccountV>,
    pub paging: PagingV,
}

impl View for AdsAccountsResponse {
    type V = AdsAccountsResponseV;

    open spec fn view(&self) -> AdsAccountsResponseV {
        AdsAccountsResponseV { data: self.data.deep_view(), paging: self.paging@ }
    }
}

impl DeepView for AdsAccountsResponse {
    type V = AdsAccountsResponseV;

    open spec fn deep_view(&self) -> AdsAccountsResponseV {
        self.view()
    }
}

// ---------------------------------------------------------------------------
// Campaigns, ad sets, ads, and their nested records
// ---------------------------------------------------------------------------

pub struct AdLabel {
    pub id: String,
    pub account: Option<AdAccount>,
    pub created_time: Option<String>,
    pub name: String,
    pub updated_time: Option<String>,
}

pub struct AdLabelV {
    pub id: Seq<char>,
    pub account: Option<AdAccountV>,
    pub created_time: Option<Seq<char>>,
    pub name: Seq<char>,
    pub updated_time: Option<Seq<char>>,
}

impl View for AdLabel {
    type V = AdLabelV;

    open spec fn view(&self) -> AdLabelV {
        AdLabelV {
            id: self.id@,
            account: self.account.deep_view(),
            created_time: self.created_time.deep_view(),
            name: self.name@,
            updated_time: self.updated_time.deep_view(),
        }
    }
}

impl DeepView for AdLabel {
    type V = AdLabelV;

    open spec fn deep_view(&self) -> AdLabelV {
        self.view()
    }
}

pub struct AdStudy {
    pub id: String,
    pub business: Option<String>,
    pub canceled_time: Option<String>,
    pub cooldown_start_time: Option<String>,
    pub created_by: Option<String>,
    pub created_time: Option<String>,
    pub description: Option<String>,
    pub end_time: Option<String>,
    pub name: String,
    pub observation_end_time: Option<String>,
    pub results_first_available_date: Option<String>,
    pub start_time: Option<String>,
    pub study_type: Option<String>,
    pub updated_by: Option<String>,
    pub updated_time: Option<String>,
}

pub struct AdStudyV {
    pub id: Seq<char>,
    pub business: Option<Seq<char>>,
    pub canceled_time: Option<Seq<char>>,
    pub cooldown_start_time: Option<Seq<char>>,
    pub created_by: Option<Seq<char>>,
    pub created_time: Option<Seq<char>>,
    pub description: Option<Seq<char>>,
    pub end_time: Option<Seq<char>>,
    pub name: Seq<char>,
    pub observation_end_time: Option<Seq<char>>,
    pub results_first_available_date: Option<Seq<char>>,
    pub start_time: Option<Seq<char>>,
    pub study_type: Option<Seq<char>>,
    pub updated_by: Option<Seq<char>>,
    pub updated_time: Option<Seq<char>>,
}

impl View for AdStudy {
    type V = AdStudyV;

    open spec fn view(&self) -> AdStudyV {
        AdStudyV {
            id: self.id@,
            business: self.business.deep_view(),
            canceled_time: self.canceled_time.deep_view(),
            cooldown_start_time: self.cooldown_start_time.deep_view(),
            created_by: self.created_by.deep_view(),
            created_time: self.created_time.deep_view(),
            description: self.description.deep_view(),
            end_time: self.end_time.deep_view(),
            name: self.name@,
            observation_end_time: self.observation_end_time.deep_view(),
            results_first_available_date: self.results_first_available_date.deep_view(),
            start_time: self.start_time.deep_view(),
            study_type: self.study_type.deep_view(),
            updated_by: self.updated_by.deep_view(),
            updated_time: self.updated_time.deep_view(),
        }
    }
}

impl DeepView for AdStudy {
    type V = AdStudyV;

    open spec fn deep_view(&self) -> AdStudyV {
        self.view()
    }
}

pub struct AdCampaignIssuesInfo {
    pub error_code: Option<i32>,
    pub error_message: Option<String>,
    pub error_summary: Option<String>,
    pub error_type: Option<String>,
    pub level: Option<String>,
}

pub struct AdCampaignIssuesInfoV {
    pub error_code: Option<i32>,
    pub error_message: Option<Seq<char>>,
    pub error_summary: Option<Seq<char>>,
    pub error_type: Option<Seq<char>>,
    pub level: Option<Seq<char>>,
}

impl View for AdCampaignIssuesInfo {
    type V = AdCampaignIssuesInfoV;

    open spec fn view(&self) -> AdCampaignIssuesInfoV {
        AdCampaignIssuesInfoV {
            error_code: self.error_code,
            error_message: self.error_message.deep_view(),
            error_summary: self.error_summary.deep_view(),
            error_type: self.error_type.deep_view(),
            level: self.level.deep_view(),
        }
    }
}

impl DeepView for AdCampaignIssuesInfo {
    type V = AdCampaignIssuesInfoV;

    open spec fn deep_view(&self) -> AdCampaignIssuesInfoV {
        self.view()
    }
}

pub struct AdPromotedObject {
    pub application_id: Option<String>,
    pub boosted_product_set_id: Option<String>,
    pub conversion_goal_id: Option<String>,
    pub custom_conversion_id: Option<String>,
    pub custom_event_str: Option<String>,
    pub custom_event_type: Option<String>,
    pub event_id: Option<String>,
    pub lead_ads_custom_event_str: Option<String>,
    pub lead_ads_custom_event_type: Option<String>,
    pub lead_ads_form_event_source_type: Option<String>,
    pub mcme_conversion_id: Option<String>,
    pub object_store_url: Option<String>,
    pub offer_id: Option<String>,
    pub offline_conversion_data_set_id: Option<String>,
    pub offsite_conversion_event_id: Option<String>,
    pub page_id: Option<String>,
    pub pixel_aggregation_rule: Option<String>,
    pub pixel_id: Option<String>,
    pub pixel_rule: Option<String>,
    pub place_page_set_id: Option<String>,
    pub product_catalog_id: Option<String>,
    pub product_set_id: Option<String>,
    pub retention_days: Option<String>,
    pub value_semantic_type: Option<String>,
    pub variation: Option<String>,
    pub whatsapp_phone_number: Option<String>,
}

pub struct AdPromotedObjectV {
    pub application_id: Option<Seq<char>>,
    pub boosted_product_set_id: Option<Seq<char>>,
    pub conversion_goal_id: Option<Seq<char>>,
    pub custom_conversion_id: Option<Seq<char>>,
    pub custom_event_str: Option<Seq<char>>,
    pub custom_event_type: Option<Seq<char>>,
    pub event_id: Option<Seq<char>>,
    pub lead_ads_custom_event_str: Option<Seq<char>>,
    pub lead_ads_custom_event_type: Option<Seq<char>>,
    pub lead_ads_form_event_source_type: Option<Seq<char>>,
    pub mcme_conversion_id: Option<Seq<char>>,
    pub object_store_url: Option<Seq<char>>,
    pub offer_id: Option<Seq<char>>,
    pub offline_conversion_data_set_id: Option<Seq<char>>,
    pub offsite_conversion_event_id: Option<Seq<char>>,
    pub page_id: Option<Seq<char>>,
    pub pixel_aggregation_rule: Option<Seq<char>>,
    pub pixel_id: Option<Seq<char>>,
    pub pixel_rule: Option<Seq<char>>,
    pub place_page_set_id: Option<Seq<char>>,
    pub product_catalog_id: Option<Seq<char>>,
    pub product_set_id: Option<Seq<char>>,
    pub retention_days: Option<Seq<char>>,
    pub value_semantic_type: Option<Seq<char>>,
    pub variation: Option<Seq<char>>,
    pub whatsapp_phone_number: Option<Seq<char>>,
}

impl View for AdPromotedObject {
    type V = AdPromotedObjectV;

    open spec fn view(&self) -> AdPromotedObjectV {
        AdPromotedObjectV {
            application_id: self.application_id.deep_view(),
            boosted_product_set_id: self.boosted_product_set_id.deep_view(),
            conversion_goal_id: self.conversion_goal_id.deep_view(),
            custom_conversion_id: self.custom_conversion_id.deep_view(),
            custom_event_str: self.custom_event_str.deep_view(),
            custom_event_type: self.custom_event_type.deep_view(),
            event_id: self.event_id.deep_view(),
            lead_ads_custom_event_str: self.lead_ads_custom_event_str.deep_view(),
            lead_ads_custom_event_type: self.lead_ads_custom_event_type.deep_view(),
            lead_ads_form_event_source_type: self.lead_ads_form_event_source_type.deep_view(),
            mcme_conversion_id: self.mcme_conversion_id.deep_view(),
            object_store_url: self.object_store_url.deep_view(),
            offer_id: self.offer_id.deep_view(),
            offline_conversion_data_set_id: self.offline_conversion_data_set_id.deep_view(),
            offsite_conversion_event_id: self.offsite_conversion_event_id.deep_view(),
            page_id: self.page_id.deep_view(),
            pixel_aggregation_rule: self.pixel_aggregation_rule.deep_view(),
            pixel_id: self.pixel_id.deep_view(),
            pixel_rule: self.pixel_rule.deep_view(),
            place_page_set_id: self.place_page_set_id.deep_view(),
            product_catalog_id: self.product_catalog_id.deep_view(),
            product_set_id: self.product_set_id.deep_view(),
            retention_days: self.retention_days.deep_view(),
            value_semantic_type: self.value_semantic_type.deep_view(),
            variation: self.variation.deep_view(),
            whatsapp_phone_number: self.whatsapp_phone_number.deep_view(),
        }
    }
}

impl DeepView for AdPromotedObject {
    type V = AdPromotedObjectV;

    open spec fn deep_view(&self) -> AdPromotedObjectV {
        self.view()
    }
}

pub struct DayPart {
    pub start_minute: i32,
    pub end_minute: Option<i32>,
    pub days: Option<Vec<i32>>,
    pub timezone_type: Option<String>,
}

pub struct DayPartV {
    pub start_minute: i32,
    pub end_minute: Option<i32>,
    pub days: Option<Seq<i32>>,
    pub timezone_type: Option<Seq<char>>,
}

impl View for DayPart {
    type V = DayPartV;

    open spec fn view(&self) -> DayPartV {
        DayPartV {
            start_minute: self.start_minute,
            end_minute: self.end_minute,
            days: self.days.deep_view(),
            timezone_type: self.timezone_type.deep_view(),
        }
    }
}

impl DeepView for DayPart {
    type V = DayPartV;

    open spec fn deep_view(&self) -> DayPartV {
        self.view()
    }
}

pub struct AdCampaignBidConstraint {
}

pub struct AdCampaignBidConstraintV {
}

impl View for AdCampaignBidConstraint {
    type V = AdCampaignBidConstraintV;

    open spec fn view(&self) -> AdCampaignBidConstraintV {
        AdCampaignBidConstraintV {
        }
    }
}

impl DeepView for AdCampaignBidConstraint {
    type V = AdCampaignBidConstraintV;

    open spec fn deep_view(&self) -> AdCampaignBidConstraintV {
        self.view()
    }
}

pub struct AdBidAdjustments {
    pub age_range: Vec<(String, String)>,
    pub page_types: Option<String>,
    pub user_groups: Option<String>,
}

pub struct AdBidAdjustmentsV {
    pub age_range: Seq<(Seq<char>, Seq<char>)>,
    pub page_types: Option<Seq<char>>,
    pub user_groups: Option<Seq<char>>,
}

impl View for AdBidAdjustments {
    type V = AdBidAdjustmentsV;

    open spec fn view(&self) -> AdBidAdjustmentsV {
        AdBidAdjustmentsV {
            age_range: self.age_range.deep_view(),
            page_types: self.page_types.deep_view(),
            user_groups: self.user_groups.deep_view(),
        }
    }
}

impl DeepView for AdBidAdjustments {
    type V = AdBidAdjustmentsV;

    open spec fn deep_view(&self) -> AdBidAdjustmentsV {
        self.view()
    }
}

pub struct AdCampaignFrequencyControlSpecs {
    pub event: Option<String>,
    pub interval_days: Option<u32>,
    pub max_frequency: Option<u32>,
}

pub struct AdCampaignFrequencyControlSpecsV {
    pub event: Option<Seq<char>>,
    pub interval_days: Option<u32>,
    pub max_frequency: Option<u32>,
}

impl View for AdCampaignFrequencyControlSpecs {
    type V = AdCampaignFrequencyControlSpecsV;

    open spec fn view(&self) -> AdCampaignFrequencyControlSpecsV {
        AdCampaignFrequencyControlSpecsV {
            event: self.event.deep_view(),
            interval_days: self.interval_days,
            max_frequency: self.max_frequency,
        }
    }
}

impl DeepView for AdCampaignFrequencyControlSpecs {
    type V = AdCampaignFrequencyControlSpecsV;

    open spec fn deep_view(&self) -> AdCampaignFrequencyControlSpecsV {
        self.view()
    }
}

pub struct AdCampaignLearningStageInfo {
    pub attribution_windows: Option<Vec<String>>,
    pub conversions: Option<u32>,
    pub last_sig_edit_ts: Option<i64>,
    pub status: Option<String>,
}

pub struct AdCampaignLearningStageInfoV {
    pub attribution_windows: Option<Seq<Seq<char>>>,
    pub conversions: Option<u32>,
    pub last_sig_edit_ts: Option<i64>,
    pub status: Option<Seq<char>>,
}

impl View for AdCampaignLearningStageInfo {
    type V = AdCampaignLearningStageInfoV;

    open spec fn view(&self) -> AdCampaignLearningStageInfoV {
        AdCampaignLearningStageInfoV {
            attribution_windows: self.attribution_windows.deep_view(),
            conversions: self.conversions,
            last_sig_edit_ts: self.last_sig_edit_ts,
            status: self.status.deep_view(),
        }
    }
}

impl DeepView for AdCampaignLearningStageInfo {
    type V = AdCampaignLearningStageInfoV;

    open spec fn deep_view(&self) -> AdCampaignLearningStageInfoV {
        self.view()
    }
}

pub struct AdRecommendation {
    pub recommendation_signature: String,
    pub rec_type: String,
    pub object_ids: Option<Vec<String>>,
}

pub struct AdRecommendationV {
    pub recommendation_signature: Seq<char>,
    pub rec_type: Seq<char>,
    pub object_ids: Option<Seq<Seq<char>>>,
}

impl View for AdRecommendation {
    type V = AdRecommendationV;

    open spec fn view(&self) -> AdRecommendationV {
        AdRecommendationV {
            recommendation_signature: self.recommendation_signature@,
            rec_type: self.rec_type@,
            object_ids: self.object_ids.deep_view(),
        }
    }
}

impl DeepView for AdRecommendation {
    type V = AdRecommendationV;

    open spec fn deep_view(&self) -> AdRecommendationV {
        self.view()
    }
}

pub struct LocationKey {
    pub key: String,
}

pub struct LocationKeyV {
    pub key: Seq<char>,
}

impl View for LocationKey {
    type V = LocationKeyV;

    open spec fn view(&self) -> LocationKeyV {
        LocationKeyV {
            key: self.key@,
        }
    }
}

impl DeepView for LocationKey {
    type V = LocationKeyV;

    open spec fn deep_view(&self) -> LocationKeyV {
        self.view()
    }
}

pub struct CityTargeting {
    pub key: String,
    pub radius: u8,
    pub distance_unit: String,
}

pub struct CityTargetingV {
    pub key: Seq<char>,
    pub radius: u8,
    pub distance_unit: Seq<char>,
}

impl View for CityTargeting {
    type V = CityTargetingV;

    open spec fn view(&self) -> CityTargetingV {
        CityTargetingV {
            key: self.key@,
            radius: self.radius,
            distance_unit: self.distance_unit@,
        }
    }
}

impl DeepView for CityTargeting {
    type V = CityTargetingV;

    open spec fn deep_view(&self) -> CityTargetingV {
        self.view()
    }
}

pub struct PlaceTargeting {
    pub key: String,
    pub name: String,
    pub radius: u8,
    pub distance_unit: String,
}

pub struct PlaceTargetingV {
    pub key: Seq<char>,
    pub name: Seq<char>,
    pub radius: u8,
    pub distance_unit: Seq<char>,
}

impl View for PlaceTargeting {
    type V = PlaceTargetingV;

    open spec fn view(&self) -> PlaceTargetingV {
        PlaceTargetingV {
            key: self.key@,
            name: self.name@,
            radius: self.radius,
            distance_unit: self.distance_unit@,
        }
    }
}

impl DeepView for PlaceTargeting {
    type V = PlaceTargetingV;

    open spec fn deep_view(&self) -> PlaceTargetingV {
        self.view()
    }
}

pub struct CustomLocation {
    pub latitude: String,
    pub longitude: String,
    pub name: Option<String>,
    pub radius: String,
    pub distance_unit: Option<String>,
    pub address_string: Option<String>,
}

pub struct CustomLocationV {
    pub latitude: Seq<char>,
    pub longitude: Seq<char>,
    pub name: Option<Seq<char>>,
    pub radius: Seq<char>,
    pub distance_unit: Option<Seq<char>>,
    pub address_string: Option<Seq<char>>,
}

impl View for CustomLocation {
    type V = CustomLocationV;

    open spec fn view(&self) -> CustomLocationV {
        CustomLocationV {
            latitude: self.latitude@,
            longitude: self.longitude@,
            name: self.name.deep_view(),
            radius: self.radius@,
            distance_unit: self.distance_unit.deep_view(),
            address_string: self.address_string.deep_view(),
        }
    }
}

impl DeepView for CustomLocation {
    type V = CustomLocationV;

    open spec fn deep_view(&self) -> CustomLocationV {
        self.view()
    }
}

pub struct InterestOrBehavior {
    pub id: u64,
    pub name: Option<String>,
}

pub struct InterestOrBehaviorV {
    pub id: u64,
    pub name: Option<Seq<char>>,
}

impl View for InterestOrBehavior {
    type V = InterestOrBehaviorV;

    open spec fn view(&self) -> InterestOrBehaviorV {
        InterestOrBehaviorV {
            id: self.id,
            name: self.name.deep_view(),
        }
    }
}

impl DeepView for InterestOrBehavior {
    type V = InterestOrBehaviorV;

    open spec fn deep_view(&self) -> InterestOrBehaviorV {
        self.view()
    }
}

pub struct TargetingOptimizationTypes {
    pub key: Option<String>,
    pub value: Option<i64>,
}

pub struct TargetingOptimizationTypesV {
    pub key: Option<Seq<char>>,
    pub value: Option<i64>,
}

impl View for TargetingOptimizationTypes {
    type V = TargetingOptimizationTypesV;

    open spec fn view(&self) -> TargetingOptimizationTypesV {
        TargetingOptimizationTypesV {
            key: self.key.deep_view(),
            value: self.value,
        }
    }
}

impl DeepView for TargetingOptimizationTypes {
    type V = TargetingOptimizationTypesV;

    open spec fn deep_view(&self) -> TargetingOptimizationTypesV {
        self.view()
    }
}

pub struct Targeting {
    pub genders: Option<Vec<u8>>,
    pub age_min: Option<u8>,
    pub age_max: Option<u8>,
    pub countries: Option<Vec<String>>,
    pub regions: Option<Vec<LocationKey>>,
    pub cities: Option<Vec<CityTargeting>>,
    pub zips: Option<Vec<LocationKey>>,
    pub places: Option<Vec<PlaceTargeting>>,
    pub custom_locations: Option<Vec<CustomLocation>>,
    pub geo_markets: Option<Vec<LocationKey>>,
    pub electoral_districts: Option<Vec<LocationKey>>,
    pub location_types: Option<Vec<String>>,
    pub country_groups: Option<Vec<String>>,
    pub interests: Option<Vec<InterestOrBehavior>>,
    pub behaviors: Option<Vec<InterestOrBehavior>>,
}

pub struct TargetingV {
    pub genders: Option<Seq<u8>>,
    pub age_min: Option<u8>,
    pub age_max: Option<u8>,
    pub countries: Option<Seq<Seq<char>>>,
    pub regions: Option<Seq<LocationKeyV>>,
    pub cities: Option<Seq<CityTargetingV>>,
    pub zips: Option<Seq<LocationKeyV>>,
    pub places: Option<Seq<PlaceTargetingV>>,
    pub custom_locations: Option<Seq<CustomLocationV>>,
    pub geo_markets: Option<Seq<LocationKeyV>>,
    pub electoral_districts: Option<Seq<LocationKeyV>>,
    pub location_types: Option<Seq<Seq<char>>>,
    pub country_groups: Option<Seq<Seq<char>>>,
    pub interests: Option<Seq<InterestOrBehaviorV>>,
    pub behaviors: Option<Seq<InterestOrBehaviorV>>,
}

impl View for Targeting {
    type V = TargetingV;

    open spec fn view(&self) -> TargetingV {
        TargetingV {
            genders: self.genders.deep_view(),
            age_min: self.age_min,
            age_max: self.age_max,
            countries: self.countries.deep_view(),
            regions: self.regions.deep_view(),
            cities: self.cities.deep_view(),
            zips: self.zips.deep_view(),
            places: self.places.deep_view(),
            custom_locations: self.custom_locations.deep_view(),
            geo_markets: self.geo_markets.deep_view(),
            electoral_districts: self.electoral_districts.deep_view(),
            location_types: self.location_types.deep_view(),
            country_groups: self.country_groups.deep_view(),
            interests: self.interests.deep_view(),
            behaviors: self.behaviors.deep_view(),
        }
    }
}

impl DeepView for Targeting {
    type V = TargetingV;

    open spec fn deep_view(&self) -> TargetingV {
        self.view()
    }
}

pub struct Campaign {
    pub id: Option<String>,
    pub account_id: Option<String>,
    pub adlabels: Option<Vec<AdLabel>>,
    pub bid_strategy: Option<String>,
    pub boosted_object_id: Option<String>,
    pub brand_lift_studies: Option<Vec<AdStudy>>,
    pub budget_rebalance_flag: Option<bool>,
    pub budget_remaining: Option<String>,
    pub buying_type: Option<String>,
    pub campaign_group_active_time: Option<String>,
    pub can_create_brand_lift_study: Option<bool>,
    pub can_use_spend_cap: Option<bool>,
    pub configured_status: Option<String>,
    pub created_time: Option<String>,
    pub daily_budget: Option<String>,
    pub effective_status: Option<String>,
    pub has_secondary_skadnetwork_reporting: Option<bool>,
    pub is_budget_schedule_enabled: Option<bool>,
    pub is_skadnetwork_attribution: Option<bool>,
    pub issues_info: Option<Vec<AdCampaignIssuesInfo>>,
    pub last_budget_toggling_time: Option<String>,
    pub lifetime_budget: Option<String>,
    pub name: Option<String>,
    pub objective: Option<String>,
    pub pacing_type: Option<Vec<String>>,
    pub primary_attribution: Option<String>,
    pub promoted_object: Option<AdPromotedObject>,
    pub smart_promotion_type: Option<String>,
    pub source_campaign: Option<Box<Campaign>>,
    pub source_campaign_id: Option<String>,
    pub special_ad_categories: Option<Vec<String>>,
    pub special_ad_category: Option<String>,
    pub special_ad_category_country: Option<Vec<String>>,
    pub spend_cap: Option<String>,
    pub start_time: Option<String>,
    pub status: Option<String>,
    pub stop_time: Option<String>,
    pub topline_id: Option<String>,
    pub updated_time: Option<String>,
}

pub struct CampaignV {
    pub id: Option<Seq<char>>,
    pub account_id: Option<Seq<char>>,
    pub adlabels: Option<Seq<AdLabelV>>,
    pub bid_strategy: Option<Seq<char>>,
    pub boosted_object_id: Option<Seq<char>>,
    pub brand_lift_studies: Option<Seq<AdStudyV>>,
    pub budget_rebalance_flag: Option<bool>,
    pub budget_remaining: Option<Seq<char>>,
    pub buying_type: Option<Seq<char>>,
    pub campaign_group_active_time: Option<Seq<char>>,
    pub can_create_brand_lift_study: Option<bool>,
    pub can_use_spend_cap: Option<bool>,
    pub configured_status: Option<Seq<char>>,
    pub created_time: Option<Seq<char>>,
    pub daily_budget: Option<Seq<char>>,
    pub effective_status: Option<Seq<char>>,
    pub has_secondary_skadnetwork_reporting: Option<bool>,
    pub is_budget_schedule_enabled: Option<bool>,
    pub is_skadnetwork_attribution: Option<bool>,
    pub issues_info: Option<Seq<AdCampaignIssuesInfoV>>,
    pub last_budget_toggling_time: Option<Seq<char>>,
    pub lifetime_budget: Option<Seq<char>>,
    pub name: Option<Seq<char>>,
    pub objective: Option<Seq<char>>,
    pub pacing_type: Option<Seq<Seq<char>>>,
    pub primary_attribution: Option<Seq<char>>,
    pub promoted_object: Option<AdPromotedObjectV>,
    pub smart_promotion_type: Option<Seq<char>>,
    pub source_campaign: Option<Box<CampaignV>>,
    pub source_campaign_id: Option<Seq<char>>,
    pub special_ad_categories: Option<Seq<Seq<char>>>,
    pub special_ad_category: Option<Seq<char>>,
    pub special_ad_category_country: Option<Seq<Seq<char>>>,
    pub spend_cap: Option<Seq<char>>,
    pub start_time: Option<Seq<char>>,
    pub status: Option<Seq<char>>,
    pub stop_time: Option<Seq<char>>,
    pub topline_id: Option<Seq<char>>,
    pub updated_time: Option<Seq<char>>,
}

pub open spec fn campaign_v(c: Campaign) -> CampaignV
    decreases c,
{
    CampaignV {
        id: c.id.deep_view(),
        account_id: c.account_id.deep_view(),
        adlabels: c.adlabels.deep_view(),
        bid_strategy: c.bid_strategy.deep_view(),
        boosted_object_id: c.boosted_object_id.deep_view(),
        brand_lift_studies: c.brand_lift_studies.deep_view(),
        budget_rebalance_flag: c.budget_rebalance_flag,
        budget_remaining: c.budget_remaining.deep_view(),
        buying_type: c.buying_type.deep_view(),
        campaign_group_active_time: c.campaign_group_active_time.deep_view(),
        can_create_brand_lift_study: c.can_create_brand_lift_study,
        can_use_spend_cap: c.can_use_spend_cap,
        configured_status: c.configured_status.deep_view(),
        created_time: c.created_time.deep_view(),
        daily_budget: c.daily_budget.deep_view(),
        effective_status: c.effective_status.deep_view(),
        has_secondary_skadnetwork_reporting: c.has_secondary_skadnetwork_reporting,
        is_budget_schedule_enabled: c.is_budget_schedule_enabled,
        is_skadnetwork_attribution: c.is_skadnetwork_attribution,
        issues_info: c.issues_info.deep_view(),
        last_budget_toggling_time: c.last_budget_toggling_time.deep_view(),
        lifetime_budget: c.lifetime_budget.deep_view(),
        name: c.name.deep_view(),
        objective: c.objective.deep_view(),
        pacing_type: c.pacing_type.deep_view(),
        primary_attribution: c.primary_attribution.deep_view(),
        promoted_object: c.promoted_object.deep_view(),
        smart_promotion_type: c.smart_promotion_type.deep_view(),
        source_campaign: match c.source_campaign {
                Some(b) => Some(Box::new(campaign_v(*b))),
                None => None,
            },
        source_campaign_id: c.source_campaign_id.deep_view(),
        special_ad_categories: c.special_ad_categories.deep_view(),
        special_ad_category: c.special_ad_category.deep_view(),
        special_ad_category_country: c.special_ad_category_country.deep_view(),
        spend_cap: c.spend_cap.deep_view(),
        start_time: c.start_time.deep_view(),
        status: c.status.deep_view(),
        stop_time: c.stop_time.deep_view(),
        topline_id: c.topline_id.deep_view(),
        updated_time: c.updated_time.deep_view(),
    }
}

impl View for Campaign {
    type V = CampaignV;

    open spec fn view(&self) -> CampaignV {
        campaign_v(*self)
    }
}

impl DeepView for Campaign {
    type V = CampaignV;

    open spec fn deep_view(&self) -> CampaignV {
        self.view()
    }
}

pub struct CampaignsResponse {
    pub data: Vec<Campaign>,
    pub paging: Paging,
}

pub struct CampaignsResponseV {
    pub data: Seq<CampaignV>,
    pub paging: PagingV,
}

impl View for CampaignsResponse {
    type V = CampaignsResponseV;

    open spec fn view(&self) -> CampaignsResponseV {
        CampaignsResponseV {
            data: self.data.deep_view(),
            paging: self.paging.deep_view(),
        }
    }
}

impl DeepView for CampaignsResponse {
    type V = CampaignsResponseV;

    open spec fn deep_view(&self) -> CampaignsResponseV {
        self.view()
    }
}

pub struct AdSet {
    pub id: Option<String>,
    pub account_id: Option<String>,
    pub adlabels: Option<Vec<AdLabel>>,
    pub adset_schedule: Option<Vec<DayPart>>,
    pub asset_feed_id: Option<String>,
    pub attribution_spec: Option<Vec<String>>,
    pub bid_adjustments: Option<AdBidAdjustments>,
    pub bid_amount: Option<u32>,
    pub bid_constraints: Option<AdCampaignBidConstraint>,
    pub bid_info: Option<Vec<(String, u32)>>,
    pub bid_strategy: Option<String>,
    pub billing_event: Option<String>,
    pub brand_safety_config: Option<String>,
    pub budget_remaining: Option<String>,
    pub campaign: Option<Campaign>,
    pub campaign_active_time: Option<String>,
    pub campaign_attribution: Option<String>,
    pub campaign_id: Option<String>,
    pub configured_status: Option<String>,
    pub contextual_bundling_spec: Option<String>,
    pub created_time: Option<String>,
    pub creative_sequence: Option<Vec<String>>,
    pub daily_budget: Option<String>,
    pub daily_min_spend_target: Option<String>,
    pub daily_spend_cap: Option<String>,
    pub destination_type: Option<String>,
    pub dsa_beneficiary: Option<String>,
    pub dsa_payor: Option<String>,
    pub effective_status: Option<String>,
    pub end_time: Option<String>,
    pub frequency_control_specs: Option<Vec<AdCampaignFrequencyControlSpecs>>,
    pub instagram_user_id: Option<String>,
    pub is_dynamic_creative: Option<bool>,
    pub issues_info: Option<Vec<AdCampaignIssuesInfo>>,
    pub learning_stage_info: Option<AdCampaignLearningStageInfo>,
    pub lifetime_budget: Option<String>,
    pub lifetime_imps: Option<i32>,
    pub lifetime_min_spend_target: Option<String>,
    pub lifetime_spend_cap: Option<String>,
    pub min_budget_spend_percentage: Option<String>,
    pub multi_optimization_goal_weight: Option<String>,
    pub name: Option<String>,
    pub optimization_goal: Option<String>,
    pub optimization_sub_event: Option<String>,
    pub pacing_type: Option<Vec<String>>,
    pub promoted_object: Option<AdPromotedObject>,
    pub recommendations: Option<Vec<AdRecommendation>>,
    pub recurring_budget_semantics: Option<bool>,
    pub regional_regulated_categories: Option<Vec<String>>,
    pub regional_regulation_identities: Option<String>,
    pub review_feedback: Option<String>,
    pub rf_prediction_id: Option<String>,
    pub source_adset: Option<Box<AdSet>>,
    pub source_adset_id: Option<String>,
    pub start_time: Option<String>,
    pub status: Option<String>,
    pub targeting: Option<Targeting>,
    pub targeting_optimization_types: Option<Vec<TargetingOptimizationTypes>>,
    pub time_based_ad_rotation_id_blocks: Option<Vec<Vec<i32>>>,
    pub time_based_ad_rotation_intervals: Option<Vec<u32>>,
    pub updated_time: Option<String>,
    pub use_new_app_click: Option<bool>,
}

pub struct AdSetV {
    pub id: Option<Seq<char>>,
    pub account_id: Option<Seq<char>>,
    pub adlabels: Option<Seq<AdLabelV>>,
    pub adset_schedule: Option<Seq<DayPartV>>,
    pub asset_feed_id: Option<Seq<char>>,
    pub attribution_spec: Option<Seq<Seq<char>>>,
    pub bid_adjustments: Option<AdBidAdjustmentsV>,
    pub bid_amount: Option<u32>,
    pub bid_constraints: Option<AdCampaignBidConstraintV>,
    pub bid_info: Option<Seq<(Seq<char>, u32)>>,
    pub bid_strategy: Option<Seq<char>>,
    pub billing_event: Option<Seq<char>>,
    pub brand_safety_config: Option<Seq<char>>,
    pub budget_remaining: Option<Seq<char>>,
    pub campaign: Option<CampaignV>,
    pub campaign_active_time: Option<Seq<char>>,
    pub campaign_attribution: Option<Seq<char>>,
    pub campaign_id: Option<Seq<char>>,
    pub configured_status: Option<Seq<char>>,
    pub contextual_bundling_spec: Option<Seq<char>>,
    pub created_time: Option<Seq<char>>,
    pub creative_sequence: Option<Seq<Seq<char>>>,
    pub daily_budget: Option<Seq<char>>,
    pub daily_min_spend_target: Option<Seq<char>>,
    pub daily_spend_cap: Option<Seq<char>>,
    pub destination_type: Option<Seq<char>>,
    pub dsa_beneficiary: Option<Seq<char>>,
    pub dsa_payor: Option<Seq<char>>,
    pub effective_status: Option<Seq<char>>,
    pub end_time: Option<Seq<char>>,
    pub frequency_control_specs: Option<Seq<AdCampaignFrequencyControlSpecsV>>,
    pub instagram_user_id: Option<Seq<char>>,
    pub is_dynamic_creative: Option<bool>,
    pub issues_info: Option<Seq<AdCampaignIssuesInfoV>>,
    pub learning_stage_info: Option<AdCampaignLearningStageInfoV>,
    pub lifetime_budget: Option<Seq<char>>,
    pub lifetime_imps: Option<i32>,
    pub lifetime_min_spend_target: Option<Seq<char>>,
    pub lifetime_spend_cap: Option<Seq<char>>,
    pub min_budget_spend_percentage: Option<Seq<char>>,
    pub multi_optimization_goal_weight: Option<Seq<char>>,
    pub name: Option<Seq<char>>,
    pub optimization_goal: Option<Seq<char>>,
    pub optimization_sub_event: Option<Seq<char>>,
    pub pacing_type: Option<Seq<Seq<char>>>,
    pub promoted_object: Option<AdPromotedObjectV>,
    pub recommendations: Option<Seq<AdRecommendationV>>,
    pub recurring_budget_semantics: Option<bool>,
    pub regional_regulated_categories: Option<Seq<Seq<char>>>,
    pub regional_regulation_identities: Option<Seq<char>>,
    pub review_feedback: Option<Seq<char>>,
    pub rf_prediction_id: Option<Seq<char>>,
    pub source_adset: Option<Box<AdSetV>>,
    pub source_adset_id: Option<Seq<char>>,
    pub start_time: Option<Seq<char>>,
    pub status: Option<Seq<char>>,
    pub targeting: Option<TargetingV>,
    pub targeting_optimization_types: Option<Seq<TargetingOptimizationTypesV>>,
    pub time_based_ad_rotation_id_blocks: Option<Seq<Seq<i32>>>,
    pub time_based_ad_rotation_intervals: Option<Seq<u32>>,
    pub updated_time: Option<Seq<char>>,
    pub use_new_app_click: Option<bool>,
}

pub open spec fn ad_set_v(c: AdSet) -> AdSetV
    decreases c,
{
    AdSetV {
        id: c.id.deep_view(),
        account_id: c.account_id.deep_view(),
        adlabels: c.adlabels.deep_view(),
        adset_schedule: c.adset_schedule.deep_view(),
        asset_feed_id: c.asset_feed_id.deep_view(),
        attribution_spec: c.attribution_spec.deep_view(),
        bid_adjustments: c.bid_adjustments.deep_view(),
        bid_amount: c.bid_amount,
        bid_constraints: c.bid_constraints.deep_view(),
        bid_info: c.bid_info.deep_view(),
        bid_strategy: c.bid_strategy.deep_view(),
        billing_event: c.billing_event.deep_view(),
        brand_safety_config: c.brand_safety_config.deep_view(),
        budget_remaining: c.budget_remaining.deep_view(),
        campaign: c.campaign.deep_view(),
        campaign_active_time: c.campaign_active_time.deep_view(),
        campaign_attribution: c.campaign_attribution.deep_view(),
        campaign_id: c.campaign_id.deep_view(),
        configured_status: c.configured_status.deep_view(),
        contextual_bundling_spec: c.contextual_bundling_spec.deep_view(),
        created_time: c.created_time.deep_view(),
        creative_sequence: c.creative_sequence.deep_view(),
        daily_budget: c.daily_budget.deep_view(),
        daily_min_spend_target: c.daily_min_spend_target.deep_view(),
        daily_spend_cap: c.daily_spend_cap.deep_view(),
        destination_type: c.destination_type.deep_view(),
        dsa_beneficiary: c.dsa_beneficiary.deep_view(),
        dsa_payor: c.dsa_payor.deep_view(),
        effective_status: c.effective_status.deep_view(),
        end_time: c.end_time.deep_view(),
        frequency_control_specs: c.frequency_control_specs.deep_view(),
        instagram_user_id: c.instagram_user_id.deep_view(),
        is_dynamic_creative: c.is_dynamic_creative,
        issues_info: c.issues_info.deep_view(),
        learning_stage_info: c.learning_stage_info.deep_view(),
        lifetime_budget: c.lifetime_budget.deep_view(),
        lifetime_imps: c.lifetime_imps,
        lifetime_min_spend_target: c.lifetime_min_spend_target.deep_view(),
        lifetime_spend_cap: c.lifetime_spend_cap.deep_view(),
        min_budget_spend_percentage: c.min_budget_spend_percentage.deep_view(),
        multi_optimization_goal_weight: c.multi_optimization_goal_weight.deep_view(),
        name: c.name.deep_view(),
        optimization_goal: c.optimization_goal.deep_view(),
        optimization_sub_event: c.optimization_sub_event.deep_view(),
        pacing_type: c.pacing_type.deep_view(),
        promoted_object: c.promoted_object.deep_view(),
        recommendations: c.recommendations.deep_view(),
        recurring_budget_semantics: c.recurring_budget_semantics,
        regional_regulated_categories: c.regional_regulated_categories.deep_view(),
        regional_regulation_identities: c.regional_regulation_identities.deep_view(),
        review_feedback: c.review_feedback.deep_view(),
        rf_prediction_id: c.rf_prediction_id.deep_view(),
        source_adset: match c.source_adset {
                Some(b) => Some(Box::new(ad_set_v(*b))),
                None => None,
            },
        source_adset_id: c.source_adset_id.deep_view(),
        start_time: c.start_time.deep_view(),
        status: c.status.deep_view(),
        targeting: c.targeting.deep_view(),
        targeting_optimization_types: c.targeting_optimization_types.deep_view(),
        time_based_ad_rotation_id_blocks: c.time_based_ad_rotation_id_blocks.deep_view(),
        time_based_ad_rotation_intervals: c.time_based_ad_rotation_intervals.deep_view(),
        updated_time: c.updated_time.deep_view(),
        use_new_app_click: c.use_new_app_click,
    }
}

impl View for AdSet {
    type V = AdSetV;

    open spec fn view(&self) -> AdSetV {
        ad_set_v(*self)
    }
}

impl DeepView for AdSet {
    type V = AdSetV;

    open spec fn deep_view(&self) -> AdSetV {
        self.view()
    }
}

pub struct AdSetResponse {
    pub data: Vec<AdSet>,
    pub paging: Paging,
}

pub struct AdSetResponseV {
    pub data: Seq<AdSetV>,
    pub paging: PagingV,
}

impl View for AdSetResponse {
    type V = AdSetResponseV;

    open spec fn view(&self) -> AdSetResponseV {
        AdSetResponseV {
            data: self.data.deep_view(),
            paging: self.paging.deep_view(),
        }
    }
}

impl DeepView for AdSetResponse {
    type V = AdSetResponseV;

    open spec fn deep_view(&self) -> AdSetResponseV {
        self.view()
    }
}

pub struct AdResponse {
    pub data: Vec<AdSet>,
    pub paging: Paging,
}

pub struct AdResponseV {
    pub data: Seq<AdSetV>,
    pub paging: PagingV,
}

impl View for AdResponse {
    type V = AdResponseV;

    open spec fn view(&self) -> AdResponseV {
        AdResponseV {
            data: self.data.deep_view(),
            paging: self.paging.deep_view(),
        }
    }
}

impl DeepView for AdResponse {
    type V = AdResponseV;

    open spec fn deep_view(&self) -> AdResponseV {
        self.view()
    }
}

pub struct AdgroupIssuesInfo {
    pub error_code: Option<i32>,
    pub error_message: Option<String>,
    pub error_summary: Option<String>,
    pub error_type: Option<String>,
    pub level: Option<String>,
}

pub struct AdgroupIssuesInfoV {
    pub error_code: Option<i32>,
    pub error_message: Option<Seq<char>>,
    pub error_summary: Option<Seq<char>>,
    pub error_type: Option<Seq<char>>,
    pub level: Option<Seq<char>>,
}

impl View for AdgroupIssuesInfo {
    type V = AdgroupIssuesInfoV;

    open spec fn view(&self) -> AdgroupIssuesInfoV {
        AdgroupIssuesInfoV {
            error_code: self.error_code,
            error_message: self.error_message.deep_view(),
            error_summary: self.error_summary.deep_view(),
            error_type: self.error_type.deep_view(),
            level: self.level.deep_view(),
        }
    }
}

impl DeepView for AdgroupIssuesInfo {
    type V = AdgroupIssuesInfoV;

    open spec fn deep_view(&self) -> AdgroupIssuesInfoV {
        self.view()
    }
}

pub struct ConversionActionQuery {
    pub action_type: Option<Vec<String>>,
    pub application: Option<Vec<String>>,
    pub conversion_id: Option<Vec<String>>,
    pub creative: Option<Vec<String>>,
    pub dataset: Option<Vec<String>>,
    pub event: Option<Vec<String>>,
    pub event_creator: Option<Vec<String>>,
    pub event_type: Option<Vec<String>>,
    pub fb_pixel: Option<Vec<String>>,
    pub fb_pixel_event: Option<Vec<String>>,
    pub leadgen: Option<Vec<String>>,
    pub object: Option<Vec<String>>,
    pub object_domain: Option<Vec<String>>,
    pub offer: Option<Vec<String>>,
    pub offer_creator: Option<Vec<String>>,
    pub offsite_pixel: Option<Vec<String>>,
    pub page: Option<Vec<String>>,
    pub page_parent: Option<Vec<String>>,
    pub post: Option<Vec<String>>,
    pub post_object: Option<Vec<String>>,
    pub post_object_wall: Option<Vec<String>>,
    pub post_wall: Option<Vec<String>>,
    pub question: Option<Vec<String>>,
    pub question_creator: Option<Vec<String>>,
    pub response: Option<Vec<String>>,
    pub subtype: Option<Vec<String>>,
}

pub struct ConversionActionQueryV {
    pub action_type: Option<Seq<Seq<char>>>,
    pub application: Option<Seq<Seq<char>>>,
    pub conversion_id: Option<Seq<Seq<char>>>,
    pub creative: Option<Seq<Seq<char>>>,
    pub dataset: Option<Seq<Seq<char>>>,
    pub event: Option<Seq<Seq<char>>>,
    pub event_creator: Option<Seq<Seq<char>>>,
    pub event_type: Option<Seq<Seq<char>>>,
    pub fb_pixel: Option<Seq<Seq<char>>>,
    pub fb_pixel_event: Option<Seq<Seq<char>>>,
    pub leadgen: Option<Seq<Seq<char>>>,
    pub object: Option<Seq<Seq<char>>>,
    pub object_domain: Option<Seq<Seq<char>>>,
    pub offer: Option<Seq<Seq<char>>>,
    pub offer_creator: Option<Seq<Seq<char>>>,
    pub offsite_pixel: Option<Seq<Seq<char>>>,
    pub page: Option<Seq<Seq<char>>>,
    pub page_parent: Option<Seq<Seq<char>>>,
    pub post: Option<Seq<Seq<char>>>,
    pub post_object: Option<Seq<Seq<char>>>,
    pub post_object_wall: Option<Seq<Seq<char>>>,
    pub post_wall: Option<Seq<Seq<char>>>,
    pub question: Option<Seq<Seq<char>>>,
    pub question_creator: Option<Seq<Seq<char>>>,
    pub response: Option<Seq<Seq<char>>>,
    pub subtype: Option<Seq<Seq<char>>>,
}

impl View for ConversionActionQuery {
    type V = ConversionActionQueryV;

    open spec fn view(&self) -> ConversionActionQueryV {
        ConversionActionQueryV {
            action_type: self.action_type.deep_view(),
            application: self.application.deep_view(),
            conversion_id: self.conversion_id.deep_view(),
            creative: self.creative.deep_view(),
            dataset: self.dataset.deep_view(),
            event: self.event.deep_view(),
            event_creator: self.event_creator.deep_view(),
            event_type: self.event_type.deep_view(),
            fb_pixel: self.fb_pixel.deep_view(),
            fb_pixel_event: self.fb_pixel_event.deep_view(),
            leadgen: self.leadgen.deep_view(),
            object: self.object.deep_view(),
            object_domain: self.object_domain.deep_view(),
            offer: self.offer.deep_view(),
            offer_creator: self.offer_creator.deep_view(),
            offsite_pixel: self.offsite_pixel.deep_view(),
            page: self.page.deep_view(),
            page_parent: self.page_parent.deep_view(),
            post: self.post.deep_view(),
            post_object: self.post_object.deep_view(),
            post_object_wall: self.post_object_wall.deep_view(),
            post_wall: self.post_wall.deep_view(),
            question: self.question.deep_view(),
            question_creator: self.question_creator.deep_view(),
            response: self.response.deep_view(),
            subtype: self.subtype.deep_view(),
        }
    }
}

impl DeepView for ConversionActionQuery {
    type V = ConversionActionQueryV;

    open spec fn deep_view(&self) -> ConversionActionQueryV {
        self.view()
    }
}

pub struct AdgroupPlacementSpecificReviewFeedback {
    pub account_admin: Option<Vec<(String, String)>>,
    pub ad: Option<Vec<(String, String)>>,
    pub ads_conversion_experiences: Option<Vec<(String, String)>>,
    pub b2c: Option<Vec<(String, String)>>,
    pub b2c_commerce_unified: Option<Vec<(String, String)>>,
    pub bsg: Option<Vec<(String, String)>>,
    pub city_community: Option<Vec<(String, String)>>,
    pub commerce: Option<Vec<(String, String)>>,
    pub compromise: Option<Vec<(String, String)>>,
    pub daily_deals: Option<Vec<(String, String)>>,
    pub daily_deals_legacy: Option<Vec<(String, String)>>,
    pub dpa: Option<Vec<(String, String)>>,
    pub dri_copyright: Option<Vec<(String, String)>>,
    pub dri_counterfeit: Option<Vec<(String, String)>>,
    pub facebook: Option<Vec<(String, String)>>,
    pub facebook_pages_live_shopping: Option<Vec<(String, String)>>,
    pub independent_work: Option<Vec<(String, String)>>,
    pub instagram: Option<Vec<(String, String)>>,
    pub instagram_shop: Option<Vec<(String, String)>>,
    pub job_search: Option<Vec<(String, String)>>,
    pub lead_gen_honeypot: Option<Vec<(String, String)>>,
    pub marketplace: Option<Vec<(String, String)>>,
    pub marketplace_home_rentals: Option<Vec<(String, String)>>,
    pub marketplace_home_sales: Option<Vec<(String, String)>>,
    pub marketplace_motors: Option<Vec<(String, String)>>,
    pub marketplace_shops: Option<Vec<(String, String)>>,
    pub neighborhoods: Option<Vec<(String, String)>>,
    pub page_admin: Option<Vec<(String, String)>>,
    pub product: Option<Vec<(String, String)>>,
    pub product_service: Option<Vec<(String, String)>>,
    pub profile: Option<Vec<(String, String)>>,
    pub seller: Option<Vec<(String, String)>>,
    pub shops: Option<Vec<(String, String)>>,
    pub traffic_quality: Option<Vec<(String, String)>>,
    pub unified_commerce_content: Option<Vec<(String, String)>>,
    pub whatsapp: Option<Vec<(String, String)>>,
}

pub struct AdgroupPlacementSpecificReviewFeedbackV {
    pub account_admin: Option<Seq<(Seq<char>, Seq<char>)>>,
    pub ad: Option<Seq<(Seq<char>, Seq<char>)>>,
    pub ads_conversion_experiences: Option<Seq<(Seq<char>, Seq<char>)>>,
    pub b2c: Option<Seq<(Seq<char>, Seq<char>)>>,
    pub b2c_commerce_unified: Option<Seq<(Seq<char>, Seq<char>)>>,
    pub bsg: Option<Seq<(Seq<char>, Seq<char>)>>,
    pub city_community: Option<Seq<(Seq<char>, Seq<char>)>>,
    pub commerce: Option<Seq<(Seq<char>, Seq<char>)>>,
    pub compromise: Option<Seq<(Seq<char>, Seq<char>)>>,
    pub daily_deals: Option<Seq<(Seq<char>, Seq<char>)>>,
    pub daily_deals_legacy: Option<Seq<(Seq<char>, Seq<char>)>>,
    pub dpa: Option<Seq<(Seq<char>, Seq<char>)>>,
    pub dri_copyright: Option<Seq<(Seq<char>, Seq<char>)>>,
    pub dri_counterfeit: Option<Seq<(Seq<char>, Seq<char>)>>,
    pub facebook: Option<Seq<(Seq<char>, Seq<char>)>>,
    pub facebook_pages_live_shopping: Option<Seq<(Seq<char>, Seq<char>)>>,
    pub independent_work: Option<Seq<(Seq<char>, Seq<char>)>>,
    pub instagram: Option<Seq<(Seq<char>, Seq<char>)>>,
    pub instagram_shop: Option<Seq<(Seq<char>, Seq<char>)>>,
    pub job_search: Option<Seq<(Seq<char>, Seq<char>)>>,
    pub lead_gen_honeypot: Option<Seq<(Seq<char>, Seq<char>)>>,
    pub marketplace: Option<Seq<(Seq<char>, Seq<char>)>>,
    pub marketplace_home_rentals: Option<Seq<(Seq<char>, Seq<char>)>>,
    pub marketplace_home_sales: Option<Seq<(Seq<char>, Seq<char>)>>,
    pub marketplace_motors: Option<Seq<(Seq<char>, Seq<char>)>>,
    pub marketplace_shops: Option<Seq<(Seq<char>, Seq<char>)>>,
    pub neighborhoods: Option<Seq<(Seq<char>, Seq<char>)>>,
    pub page_admin: Option<Seq<(Seq<char>, Seq<char>)>>,
    pub product: Option<Seq<(Seq<char>, Seq<char>)>>,
    pub product_service: Option<Seq<(Seq<char>, Seq<char>)>>,
    pub profile: Option<Seq<(Seq<char>, Seq<char>)>>,
    pub seller: Option<Seq<(Seq<char>, Seq<char>)>>,
    pub shops: Option<Seq<(Seq<char>, Seq<char>)>>,
    pub traffic_quality: Option<Seq<(Seq<char>, Seq<char>)>>,
    pub unified_commerce_content: Option<Seq<(Seq<char>, Seq<char>)>>,
    pub whatsapp: Option<Seq<(Seq<char>, Seq<char>)>>,
}

impl View for AdgroupPlacementSpecificReviewFeedback {
    type V = AdgroupPlacementSpecificReviewFeedbackV;

    open spec fn view(&self) -> AdgroupPlacementSpecificReviewFeedbackV {
        AdgroupPlacementSpecificReviewFeedbackV {
            account_admin: self.account_admin.deep_view(),
            ad: self.ad.deep_view(),
            ads_conversion_experiences: self.ads_conversion_experiences.deep_view(),
            b2c: self.b2c.deep_view(),
            b2c_commerce_unified: self.b2c_commerce_unified.deep_view(),
            bsg: self.bsg.deep_view(),
            city_community: self.city_community.deep_view(),
            commerce: self.commerce.deep_view(),
            compromise: self.compromise.deep_view(),
            daily_deals: self.daily_deals.deep_view(),
            daily_deals_legacy: self.daily_deals_legacy.deep_view(),
            dpa: self.dpa.deep_view(),
            dri_copyright: self.dri_copyright.deep_view(),
            dri_counterfeit: self.dri_counterfeit.deep_view(),
            facebook: self.facebook.deep_view(),
            facebook_pages_live_shopping: self.facebook_pages_live_shopping.deep_view(),
            independent_work: self.independent_work.deep_view(),
            instagram: self.instagram.deep_view(),
            instagram_shop: self.instagram_shop.deep_view(),
            job_search: self.job_search.deep_view(),
            lead_gen_honeypot: self.lead_gen_honeypot.deep_view(),
            marketplace: self.marketplace.deep_view(),
            marketplace_home_rentals: self.marketplace_home_rentals.deep_view(),
            marketplace_home_sales: self.marketplace_home_sales.deep_view(),
            marketplace_motors: self.marketplace_motors.deep_view(),
            marketplace_shops: self.marketplace_shops.deep_view(),
            neighborhoods: self.neighborhoods.deep_view(),
            page_admin: self.page_admin.deep_view(),
            product: self.product.deep_view(),
            product_service: self.product_service.deep_view(),
            profile: self.profile.deep_view(),
            seller: self.seller.deep_view(),
            shops: self.shops.deep_view(),
            traffic_quality: self.traffic_quality.deep_view(),
            unified_commerce_content: self.unified_commerce_content.deep_view(),
            whatsapp: self.whatsapp.deep_view(),
        }
    }
}

impl DeepView for AdgroupPlacementSpecificReviewFeedback {
    type V = AdgroupPlacementSpecificReviewFeedbackV;

    open spec fn deep_view(&self) -> AdgroupPlacementSpecificReviewFeedbackV {
        self.view()
    }
}

pub struct AdgroupReviewFeedback {
    /// Holds the object under the JSON key `global`; that word is a Verus
    /// directive and cannot name a field here.
    pub global_feedback: Option<Vec<(String, String)>>,
    pub placement_specific: Option<AdgroupPlacementSpecificReviewFeedback>,
}

pub struct AdgroupReviewFeedbackV {
    pub global_feedback: Option<Seq<(Seq<char>, Seq<char>)>>,
    pub placement_specific: Option<AdgroupPlacementSpecificReviewFeedbackV>,
}

impl View for AdgroupReviewFeedback {
    type V = AdgroupReviewFeedbackV;

    open spec fn view(&self) -> AdgroupReviewFeedbackV {
        AdgroupReviewFeedbackV {
            global_feedback: self.global_feedback.deep_view(),
            placement_specific: self.placement_specific.deep_view(),
        }
    }
}

impl DeepView for AdgroupReviewFeedback {
    type V = AdgroupReviewFeedbackV;

    open spec fn deep_view(&self) -> AdgroupReviewFeedbackV {
        self.view()
    }
}

pub struct Ad {
    pub id: Option<String>,
    pub account_id: Option<String>,
    pub ad_active_time: Option<String>,
    pub ad_review_feedback: Option<AdgroupReviewFeedback>,
    pub ad_schedule_end_time: Option<String>,
    pub ad_schedule_start_time: Option<String>,
    pub adlabels: Option<Vec<AdLabel>>,
    pub adset: Option<AdSet>,
    pub adset_id: Option<String>,
    pub bid_amount: Option<i32>,
    pub campaign: Option<Campaign>,
    pub campaign_id: Option<String>,
    pub configured_status: Option<String>,
    pub conversion_domain: Option<String>,
    pub created_time: Option<String>,
    pub effective_status: Option<String>,
    pub issues_info: Option<Vec<AdgroupIssuesInfo>>,
    pub last_updated_by_app_id: Option<String>,
    pub name: Option<String>,
    pub preview_shareable_link: Option<String>,
    pub recommendations: Option<Vec<AdRecommendation>>,
    pub source_ad: Option<Box<Ad>>,
    pub source_ad_id: Option<String>,
    pub status: Option<String>,
    pub tracking_specs: Option<Vec<ConversionActionQuery>>,
    pub updated_time: Option<String>,
}

pub struct AdV {
    pub id: Option<Seq<char>>,
    pub account_id: Option<Seq<char>>,
    pub ad_active_time: Option<Seq<char>>,
    pub ad_review_feedback: Option<AdgroupReviewFeedbackV>,
    pub ad_schedule_end_time: Option<Seq<char>>,
    pub ad_schedule_start_time: Option<Seq<char>>,
    pub adlabels: Option<Seq<AdLabelV>>,
    pub adset: Option<AdSetV>,
    pub adset_id: Option<Seq<char>>,
    pub bid_amount: Option<i32>,
    pub campaign: Option<CampaignV>,
    pub campaign_id: Option<Seq<char>>,
    pub configured_status: Option<Seq<char>>,
    pub conversion_domain: Option<Seq<char>>,
    pub created_time: Option<Seq<char>>,
    pub effective_status: Option<Seq<char>>,
    pub issues_info: Option<Seq<AdgroupIssuesInfoV>>,
    pub last_updated_by_app_id: Option<Seq<char>>,
    pub name: Option<Seq<char>>,
    pub preview_shareable_link: Option<Seq<char>>,
    pub recommendations: Option<Seq<AdRecommendationV>>,
    pub source_ad: Option<Box<AdV>>,
    pub source_ad_id: Option<Seq<char>>,
    pub status: Option<Seq<char>>,
    pub tracking_specs: Option<Seq<ConversionActionQueryV>>,
    pub updated_time: Option<Seq<char>>,
}

pub open spec fn ad_v(c: Ad) -> AdV
    decreases c,
{
    AdV {
        id: c.id.deep_view(),
        account_id: c.account_id.deep_view(),
        ad_active_time: c.ad_active_time.deep_view(),
        ad_review_feedback: c.ad_review_feedback.deep_view(),
        ad_schedule_end_time: c.ad_schedule_end_time.deep_view(),
        ad_schedule_start_time: c.ad_schedule_start_time.deep_view(),
        adlabels: c.adlabels.deep_view(),
        adset: c.adset.deep_view(),
        adset_id: c.adset_id.deep_view(),
        bid_amount: c.bid_amount,
        campaign: c.campaign.deep_view(),
        campaign_id: c.campaign_id.deep_view(),
        configured_status: c.configured_status.deep_view(),
        conversion_domain: c.conversion_domain.deep_view(),
        created_time: c.created_time.deep_view(),
        effective_status: c.effective_status.deep_view(),
        issues_info: c.issues_info.deep_view(),
        last_updated_by_app_id: c.last_updated_by_app_id.deep_view(),
        name: c.name.deep_view(),
        preview_shareable_link: c.preview_shareable_link.deep_view(),
        recommendations: c.recommendations.deep_view(),
        source_ad: match c.source_ad {
                Some(b) => Some(Box::new(ad_v(*b))),
                None => None,
            },
        source_ad_id: c.source_ad_id.deep_view(),
        status: c.status.deep_view(),
        tracking_specs: c.tracking_specs.deep_view(),
        updated_time: c.updated_time.deep_view(),
    }
}

impl View for Ad {
    type V = AdV;

    open spec fn view(&self) -> AdV {
        ad_v(*self)
    }
}

impl DeepView for Ad {
    type V = AdV;

    open spec fn deep_view(&self) -> AdV {
        self.view()
    }
}

} // verus!
