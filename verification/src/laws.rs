use vstd::prelude::*;
use crate::client::{
    is_client_or_server_error, is_success, spec_ad_accounts_outcome, spec_ad_sets_outcome,
    spec_ads_outcome, spec_campaigns_outcome, spec_parse_fail_msg, spec_status_detail,
    spec_token_outcome,
};
use crate::decode::{
    adset_f_account_id, adset_f_adlabels, adset_f_adset_schedule, adset_f_asset_feed_id,
    adset_f_attribution_spec, adset_f_bid_adjustments, adset_f_bid_amount,
    adset_f_bid_constraints, adset_f_bid_info, adset_f_bid_strategy, adset_f_billing_event,
    adset_f_brand_safety_config, adset_f_budget_remaining, adset_f_campaign,
    adset_f_campaign_active_time, adset_f_campaign_attribution, adset_f_campaign_id,
    adset_f_configured_status, adset_f_contextual_bundling_spec, adset_f_created_time,
    adset_f_creative_sequence, adset_f_daily_budget, adset_f_daily_min_spend_target,
    adset_f_daily_spend_cap, adset_f_destination_type, adset_f_dsa_beneficiary,
    adset_f_dsa_payor, adset_f_effective_status, adset_f_end_time,
    adset_f_frequency_control_specs, adset_f_id, adset_f_instagram_user_id,
    adset_f_is_dynamic_creative, adset_f_issues_info, adset_f_learning_stage_info,
    adset_f_lifetime_budget, adset_f_lifetime_imps, adset_f_lifetime_min_spend_target,
    adset_f_lifetime_spend_cap, adset_f_min_budget_spend_percentage,
    adset_f_multi_optimization_goal_weight, adset_f_name, adset_f_optimization_goal,
    adset_f_optimization_sub_event, adset_f_pacing_type, adset_f_promoted_object,
    adset_f_recommendations, adset_f_recurring_budget_semantics,
    adset_f_regional_regulated_categories, adset_f_regional_regulation_identities,
    adset_f_review_feedback, adset_f_rf_prediction_id, adset_f_source_adset,
    adset_f_source_adset_id, adset_f_start_time, adset_f_status, adset_f_targeting,
    adset_f_targeting_optimization_types, adset_f_time_based_ad_rotation_id_blocks,
    adset_f_time_based_ad_rotation_intervals, adset_f_updated_time, adset_f_use_new_app_click,
    fld_bool, fld_i32, fld_str, fld_str_list,
    obj_lookup, spec_dec_ad, spec_dec_ad_label_list, spec_dec_ad_promoted_object,
    spec_dec_ad_recommendation_list, spec_dec_ad_response, spec_dec_ad_set,
    spec_dec_ad_set_response, spec_dec_ad_study_list, spec_dec_ad_campaign_issues_info_list,
    spec_dec_adgroup_issues_info_list, spec_dec_adgroup_review_feedback, spec_dec_ads_accounts,
    spec_dec_app_access, spec_dec_campaign, spec_dec_campaigns_response,
    spec_dec_conversion_action_query_list,
};
use crate::errors::FacebookErrorV;
use crate::json::{spec_parse_json, JsonV};
use crate::types::AdsAccountsResponseV;

verus! {

// Laws of the error taxonomy and of record decoding. Each proof function
// states a property of the response-interpretation and decoding spec
// functions that the executable functions are proved against.

/// For every non-2xx status, the token refresh yields `Unauthorized`
/// exactly when the status is 401, and otherwise `HttpError` carrying the
/// status and the raw body.
pub proof fn lemma_token_refresh_error_kinds(status: u16, body: Seq<char>)
    requires
        !is_success(status),
    ensures
        status == 401 ==> spec_token_outcome(status, body) == Err::<
            Seq<char>,
            FacebookErrorV,
        >(FacebookErrorV::Unauthorized),
        status != 401 ==> spec_token_outcome(status, body) == Err::<
            Seq<char>,
            FacebookErrorV,
        >(
            FacebookErrorV::HttpError(
                spec_status_detail("Unexpected response status: "@, status, body),
            ),
        ),
{
}

/// For every client- or server-error status, the ad-accounts listing
/// yields `Unexpected` carrying the raw body, never `HttpError`. (The
/// asymmetry with the other list endpoints is deliberate; a non-2xx status
/// outside the 4xx and 5xx classes instead has its body read as the
/// envelope, as the listing always did.)
pub proof fn lemma_ad_accounts_error_kind(status: u16, body: Seq<char>)
    requires
        is_client_or_server_error(status),
    ensures
        spec_ad_accounts_outcome(status, body) == Err::<
            AdsAccountsResponseV,
            FacebookErrorV,
        >(FacebookErrorV::Unexpected(body)),
{
}

/// For every 2xx status whose body is malformed, holding no JSON document
/// at all or one that does not fit the endpoint's record, every parsing
/// endpoint yields the decoding-failure kind `Unexpected`.
pub proof fn lemma_malformed_body_yields_unexpected(status: u16, body: Seq<char>)
    requires
        is_success(status),
    ensures
        (match spec_parse_json(body) {
            Some(v) => spec_dec_app_access(v) is None,
            None => true,
        }) ==> (spec_token_outcome(status, body) matches Err(e) && e
            == FacebookErrorV::Unexpected(spec_parse_fail_msg())),
        (match spec_parse_json(body) {
            Some(v) => spec_dec_ads_accounts(v) is None,
            None => true,
        }) ==> (spec_ad_accounts_outcome(status, body) matches Err(e) && e
            == FacebookErrorV::Unexpected(spec_parse_fail_msg())),
        (match spec_parse_json(body) {
            Some(v) => spec_dec_campaigns_response(v) is None,
            None => true,
        }) ==> (spec_campaigns_outcome(status, body) matches Err(e) && e
            == FacebookErrorV::Unexpected(spec_parse_fail_msg())),
        (match spec_parse_json(body) {
            Some(v) => spec_dec_ad_set_response(v) is None,
            None => true,
        }) ==> (spec_ad_sets_outcome(status, body) matches Err(e) && e
            == FacebookErrorV::Unexpected(spec_parse_fail_msg())),
        (match spec_parse_json(body) {
            Some(v) => spec_dec_ad_response(v) is None,
            None => true,
        }) ==> (spec_ads_outcome(status, body) matches Err(e) && e
            == FacebookErrorV::Unexpected(spec_parse_fail_msg())),
{
}

/// Whether every field of a campaign object that is present at all is
/// well-typed, whatever subset of the optional fields is absent.
pub open spec fn campaign_obj_ok(ms: Seq<(Seq<char>, JsonV)>) -> bool {
    &&& fld_str(ms, "id"@) is Some
    &&& fld_str(ms, "account_id"@) is Some
    &&& (match obj_lookup(ms, "adlabels"@) {
        None => Some(None),
        Some(x) => match x {
            JsonV::Null => Some(None),
            JsonV::Arr(items) => match spec_dec_ad_label_list(items) {
                Some(r) => Some(Some(r)),
                None => None,
            },
            _ => None,
        },
    }) is Some
    &&& fld_str(ms, "bid_strategy"@) is Some
    &&& fld_str(ms, "boosted_object_id"@) is Some
    &&& (match obj_lookup(ms, "brand_lift_studies"@) {
        None => Some(None),
        Some(x) => match x {
            JsonV::Null => Some(None),
            JsonV::Arr(items) => match spec_dec_ad_study_list(items) {
                Some(r) => Some(Some(r)),
                None => None,
            },
            _ => None,
        },
    }) is Some
    &&& fld_bool(ms, "budget_rebalance_flag"@) is Some
    &&& fld_str(ms, "budget_remaining"@) is Some
    &&& fld_str(ms, "buying_type"@) is Some
    &&& fld_str(ms, "campaign_group_active_time"@) is Some
    &&& fld_bool(ms, "can_create_brand_lift_study"@) is Some
    &&& fld_bool(ms, "can_use_spend_cap"@) is Some
    &&& fld_str(ms, "configured_status"@) is Some
    &&& fld_str(ms, "created_time"@) is Some
    &&& fld_str(ms, "daily_budget"@) is Some
    &&& fld_str(ms, "effective_status"@) is Some
    &&& fld_bool(ms, "has_secondary_skadnetwork_reporting"@) is Some
    &&& fld_bool(ms, "is_budget_schedule_enabled"@) is Some
    &&& fld_bool(ms, "is_skadnetwork_attribution"@) is Some
    &&& (match obj_lookup(ms, "issues_info"@) {
        None => Some(None),
        Some(x) => match x {
            JsonV::Null => Some(None),
            JsonV::Arr(items) => match spec_dec_ad_campaign_issues_info_list(items) {
                Some(r) => Some(Some(r)),
                None => None,
            },
            _ => None,
        },
    }) is Some
    &&& fld_str(ms, "last_budget_toggling_time"@) is Some
    &&& fld_str(ms, "lifetime_budget"@) is Some
    &&& fld_str(ms, "name"@) is Some
    &&& fld_str(ms, "objective"@) is Some
    &&& fld_str_list(ms, "pacing_type"@) is Some
    &&& fld_str(ms, "primary_attribution"@) is Some
    &&& (match obj_lookup(ms, "promoted_object"@) {
        None => Some(None),
        Some(x) => if x is Null {
            Some(None)
        } else {
            match spec_dec_ad_promoted_object(x) {
                Some(r) => Some(Some(r)),
                None => None,
            }
        },
    }) is Some
    &&& fld_str(ms, "smart_promotion_type"@) is Some
    &&& (match obj_lookup(ms, "source_campaign"@) {
        None => Some(None),
        Some(x) => if x is Null {
            Some(None)
        } else {
            match spec_dec_campaign(x) {
                Some(r) => Some(Some(Box::new(r))),
                None => None,
            }
        },
    }) is Some
    &&& fld_str(ms, "source_campaign_id"@) is Some
    &&& fld_str_list(ms, "special_ad_categories"@) is Some
    &&& fld_str(ms, "special_ad_category"@) is Some
    &&& fld_str_list(ms, "special_ad_category_country"@) is Some
    &&& fld_str(ms, "spend_cap"@) is Some
    &&& fld_str(ms, "start_time"@) is Some
    &&& fld_str(ms, "status"@) is Some
    &&& fld_str(ms, "stop_time"@) is Some
    &&& fld_str(ms, "topline_id"@) is Some
    &&& fld_str(ms, "updated_time"@) is Some
}

/// For any subset of the optional fields omitted from a campaign object,
/// decoding still succeeds, and each omitted field decodes to the absent
/// value.
#[verifier::rlimit(100)]
#[verifier::spinoff_prover]
pub proof fn lemma_campaign_optional_fields(ms: Seq<(Seq<char>, JsonV)>)
    requires
        campaign_obj_ok(ms),
    ensures
        spec_dec_campaign(JsonV::Obj(ms)) is Some,
        obj_lookup(ms, "id"@) is None ==> (spec_dec_campaign(JsonV::Obj(ms))->0).id is None,
        obj_lookup(ms, "account_id"@) is None ==> (spec_dec_campaign(JsonV::Obj(ms))->0).account_id is None,
        obj_lookup(ms, "adlabels"@) is None ==> (spec_dec_campaign(JsonV::Obj(ms))->0).adlabels is None,
        obj_lookup(ms, "bid_strategy"@) is None ==> (spec_dec_campaign(JsonV::Obj(ms))->0).bid_strategy is None,
        obj_lookup(ms, "boosted_object_id"@) is None ==> (spec_dec_campaign(JsonV::Obj(ms))->0).boosted_object_id is None,
        obj_lookup(ms, "brand_lift_studies"@) is None ==> (spec_dec_campaign(JsonV::Obj(ms))->0).brand_lift_studies is None,
        obj_lookup(ms, "budget_rebalance_flag"@) is None ==> (spec_dec_campaign(JsonV::Obj(ms))->0).budget_rebalance_flag is None,
        obj_lookup(ms, "budget_remaining"@) is None ==> (spec_dec_campaign(JsonV::Obj(ms))->0).budget_remaining is None,
        obj_lookup(ms, "buying_type"@) is None ==> (spec_dec_campaign(JsonV::Obj(ms))->0).buying_type is None,
        obj_lookup(ms, "campaign_group_active_time"@) is None ==> (spec_dec_campaign(JsonV::Obj(ms))->0).campaign_group_active_time is None,
        obj_lookup(ms, "can_create_brand_lift_study"@) is None ==> (spec_dec_campaign(JsonV::Obj(ms))->0).can_create_brand_lift_study is None,
        obj_lookup(ms, "can_use_spend_cap"@) is None ==> (spec_dec_campaign(JsonV::Obj(ms))->0).can_use_spend_cap is None,
        obj_lookup(ms, "configured_status"@) is None ==> (spec_dec_campaign(JsonV::Obj(ms))->0).configured_status is None,
        obj_lookup(ms, "created_time"@) is None ==> (spec_dec_campaign(JsonV::Obj(ms))->0).created_time is None,
        obj_lookup(ms, "daily_budget"@) is None ==> (spec_dec_campaign(JsonV::Obj(ms))->0).daily_budget is None,
        obj_lookup(ms, "effective_status"@) is None ==> (spec_dec_campaign(JsonV::Obj(ms))->0).effective_status is None,
        obj_lookup(ms, "has_secondary_skadnetwork_reporting"@) is None ==> (spec_dec_campaign(JsonV::Obj(ms))->0).has_secondary_skadnetwork_reporting is None,
        obj_lookup(ms, "is_budget_schedule_enabled"@) is None ==> (spec_dec_campaign(JsonV::Obj(ms))->0).is_budget_schedule_enabled is None,
        obj_lookup(ms, "is_skadnetwork_attribution"@) is None ==> (spec_dec_campaign(JsonV::Obj(ms))->0).is_skadnetwork_attribution is None,
        obj_lookup(ms, "issues_info"@) is None ==> (spec_dec_campaign(JsonV::Obj(ms))->0).issues_info is None,
        obj_lookup(ms, "last_budget_toggling_time"@) is None ==> (spec_dec_campaign(JsonV::Obj(ms))->0).last_budget_toggling_time is None,
        obj_lookup(ms, "lifetime_budget"@) is None ==> (spec_dec_campaign(JsonV::Obj(ms))->0).lifetime_budget is None,
        obj_lookup(ms, "name"@) is None ==> (spec_dec_campaign(JsonV::Obj(ms))->0).name is None,
        obj_lookup(ms, "objective"@) is None ==> (spec_dec_campaign(JsonV::Obj(ms))->0).objective is None,
        obj_lookup(ms, "pacing_type"@) is None ==> (spec_dec_campaign(JsonV::Obj(ms))->0).pacing_type is None,
        obj_lookup(ms, "primary_attribution"@) is None ==> (spec_dec_campaign(JsonV::Obj(ms))->0).primary_attribution is None,
        obj_lookup(ms, "promoted_object"@) is None ==> (spec_dec_campaign(JsonV::Obj(ms))->0).promoted_object is None,
        obj_lookup(ms, "smart_promotion_type"@) is None ==> (spec_dec_campaign(JsonV::Obj(ms))->0).smart_promotion_type is None,
        obj_lookup(ms, "source_campaign"@) is None ==> (spec_dec_campaign(JsonV::Obj(ms))->0).source_campaign is None,
        obj_lookup(ms, "source_campaign_id"@) is None ==> (spec_dec_campaign(JsonV::Obj(ms))->0).source_campaign_id is None,
        obj_lookup(ms, "special_ad_categories"@) is None ==> (spec_dec_campaign(JsonV::Obj(ms))->0).special_ad_categories is None,
        obj_lookup(ms, "special_ad_category"@) is None ==> (spec_dec_campaign(JsonV::Obj(ms))->0).special_ad_category is None,
        obj_lookup(ms, "special_ad_category_country"@) is None ==> (spec_dec_campaign(JsonV::Obj(ms))->0).special_ad_category_country is None,
        obj_lookup(ms, "spend_cap"@) is None ==> (spec_dec_campaign(JsonV::Obj(ms))->0).spend_cap is None,
        obj_lookup(ms, "start_time"@) is None ==> (spec_dec_campaign(JsonV::Obj(ms))->0).start_time is None,
        obj_lookup(ms, "status"@) is None ==> (spec_dec_campaign(JsonV::Obj(ms))->0).status is None,
        obj_lookup(ms, "stop_time"@) is None ==> (spec_dec_campaign(JsonV::Obj(ms))->0).stop_time is None,
        obj_lookup(ms, "topline_id"@) is None ==> (spec_dec_campaign(JsonV::Obj(ms))->0).topline_id is None,
        obj_lookup(ms, "updated_time"@) is None ==> (spec_dec_campaign(JsonV::Obj(ms))->0).updated_time is None,
{
}

/// Whether every field of an ad-set object that is present at all is
/// well-typed, whatever subset of the optional fields is absent.
pub open spec fn ad_set_obj_ok(ms: Seq<(Seq<char>, JsonV)>) -> bool {
    &&& adset_f_id(ms) is Some
    &&& adset_f_account_id(ms) is Some
    &&& adset_f_adlabels(ms) is Some
    &&& adset_f_adset_schedule(ms) is Some
    &&& adset_f_asset_feed_id(ms) is Some
    &&& adset_f_attribution_spec(ms) is Some
    &&& adset_f_bid_adjustments(ms) is Some
    &&& adset_f_bid_amount(ms) is Some
    &&& adset_f_bid_constraints(ms) is Some
    &&& adset_f_bid_info(ms) is Some
    &&& adset_f_bid_strategy(ms) is Some
    &&& adset_f_billing_event(ms) is Some
    &&& adset_f_brand_safety_config(ms) is Some
    &&& adset_f_budget_remaining(ms) is Some
    &&& adset_f_campaign(ms) is Some
    &&& adset_f_campaign_active_time(ms) is Some
    &&& adset_f_campaign_attribution(ms) is Some
    &&& adset_f_campaign_id(ms) is Some
    &&& adset_f_configured_status(ms) is Some
    &&& adset_f_contextual_bundling_spec(ms) is Some
    &&& adset_f_created_time(ms) is Some
    &&& adset_f_creative_sequence(ms) is Some
    &&& adset_f_daily_budget(ms) is Some
    &&& adset_f_daily_min_spend_target(ms) is Some
    &&& adset_f_daily_spend_cap(ms) is Some
    &&& adset_f_destination_type(ms) is Some
    &&& adset_f_dsa_beneficiary(ms) is Some
    &&& adset_f_dsa_payor(ms) is Some
    &&& adset_f_effective_status(ms) is Some
    &&& adset_f_end_time(ms) is Some
    &&& adset_f_frequency_control_specs(ms) is Some
    &&& adset_f_instagram_user_id(ms) is Some
    &&& adset_f_is_dynamic_creative(ms) is Some
    &&& adset_f_issues_info(ms) is Some
    &&& adset_f_learning_stage_info(ms) is Some
    &&& adset_f_lifetime_budget(ms) is Some
    &&& adset_f_lifetime_imps(ms) is Some
    &&& adset_f_lifetime_min_spend_target(ms) is Some
    &&& adset_f_lifetime_spend_cap(ms) is Some
    &&& adset_f_min_budget_spend_percentage(ms) is Some
    &&& adset_f_multi_optimization_goal_weight(ms) is Some
    &&& adset_f_name(ms) is Some
    &&& adset_f_optimization_goal(ms) is Some
    &&& adset_f_optimization_sub_event(ms) is Some
    &&& adset_f_pacing_type(ms) is Some
    &&& adset_f_promoted_object(ms) is Some
    &&& adset_f_recommendations(ms) is Some
    &&& adset_f_recurring_budget_semantics(ms) is Some
    &&& adset_f_regional_regulated_categories(ms) is Some
    &&& adset_f_regional_regulation_identities(ms) is Some
    &&& adset_f_review_feedback(ms) is Some
    &&& adset_f_rf_prediction_id(ms) is Some
    &&& adset_f_source_adset(ms) is Some
    &&& adset_f_source_adset_id(ms) is Some
    &&& adset_f_start_time(ms) is Some
    &&& adset_f_status(ms) is Some
    &&& adset_f_targeting(ms) is Some
    &&& adset_f_targeting_optimization_types(ms) is Some
    &&& adset_f_time_based_ad_rotation_id_blocks(ms) is Some
    &&& adset_f_time_based_ad_rotation_intervals(ms) is Some
    &&& adset_f_updated_time(ms) is Some
    &&& adset_f_use_new_app_click(ms) is Some
}

/// For any subset of the optional fields omitted from an ad-set object,
/// decoding still succeeds, and each omitted field decodes to the absent
/// value.
#[verifier::rlimit(100)]
#[verifier::spinoff_prover]
pub proof fn lemma_ad_set_optional_fields(ms: Seq<(Seq<char>, JsonV)>)
    requires
        ad_set_obj_ok(ms),
    ensures
        spec_dec_ad_set(JsonV::Obj(ms)) is Some,
        obj_lookup(ms, "id"@) is None ==> (spec_dec_ad_set(JsonV::Obj(ms))->0).id is None,
        obj_lookup(ms, "account_id"@) is None ==> (spec_dec_ad_set(JsonV::Obj(ms))->0).account_id is None,
        obj_lookup(ms, "adlabels"@) is None ==> (spec_dec_ad_set(JsonV::Obj(ms))->0).adlabels is None,
        obj_lookup(ms, "adset_schedule"@) is None ==> (spec_dec_ad_set(JsonV::Obj(ms))->0).adset_schedule is None,
        obj_lookup(ms, "asset_feed_id"@) is None ==> (spec_dec_ad_set(JsonV::Obj(ms))->0).asset_feed_id is None,
        obj_lookup(ms, "attribution_spec"@) is None ==> (spec_dec_ad_set(JsonV::Obj(ms))->0).attribution_spec is None,
        obj_lookup(ms, "bid_adjustments"@) is None ==> (spec_dec_ad_set(JsonV::Obj(ms))->0).bid_adjustments is None,
        obj_lookup(ms, "bid_amount"@) is None ==> (spec_dec_ad_set(JsonV::Obj(ms))->0).bid_amount is None,
        obj_lookup(ms, "bid_constraints"@) is None ==> (spec_dec_ad_set(JsonV::Obj(ms))->0).bid_constraints is None,
        obj_lookup(ms, "bid_info"@) is None ==> (spec_dec_ad_set(JsonV::Obj(ms))->0).bid_info is None,
        obj_lookup(ms, "bid_strategy"@) is None ==> (spec_dec_ad_set(JsonV::Obj(ms))->0).bid_strategy is None,
        obj_lookup(ms, "billing_event"@) is None ==> (spec_dec_ad_set(JsonV::Obj(ms))->0).billing_event is None,
        obj_lookup(ms, "brand_safety_config"@) is None ==> (spec_dec_ad_set(JsonV::Obj(ms))->0).brand_safety_config is None,
        obj_lookup(ms, "budget_remaining"@) is None ==> (spec_dec_ad_set(JsonV::Obj(ms))->0).budget_remaining is None,
        obj_lookup(ms, "campaign"@) is None ==> (spec_dec_ad_set(JsonV::Obj(ms))->0).campaign is None,
        obj_lookup(ms, "campaign_active_time"@) is None ==> (spec_dec_ad_set(JsonV::Obj(ms))->0).campaign_active_time is None,
        obj_lookup(ms, "campaign_attribution"@) is None ==> (spec_dec_ad_set(JsonV::Obj(ms))->0).campaign_attribution is None,
        obj_lookup(ms, "campaign_id"@) is None ==> (spec_dec_ad_set(JsonV::Obj(ms))->0).campaign_id is None,
        obj_lookup(ms, "configured_status"@) is None ==> (spec_dec_ad_set(JsonV::Obj(ms))->0).configured_status is None,
        obj_lookup(ms, "contextual_bundling_spec"@) is None ==> (spec_dec_ad_set(JsonV::Obj(ms))->0).contextual_bundling_spec is None,
        obj_lookup(ms, "created_time"@) is None ==> (spec_dec_ad_set(JsonV::Obj(ms))->0).created_time is None,
        obj_lookup(ms, "creative_sequence"@) is None ==> (spec_dec_ad_set(JsonV::Obj(ms))->0).creative_sequence is None,
        obj_lookup(ms, "daily_budget"@) is None ==> (spec_dec_ad_set(JsonV::Obj(ms))->0).daily_budget is None,
        obj_lookup(ms, "daily_min_spend_target"@) is None ==> (spec_dec_ad_set(JsonV::Obj(ms))->0).daily_min_spend_target is None,
        obj_lookup(ms, "daily_spend_cap"@) is None ==> (spec_dec_ad_set(JsonV::Obj(ms))->0).daily_spend_cap is None,
        obj_lookup(ms, "destination_type"@) is None ==> (spec_dec_ad_set(JsonV::Obj(ms))->0).destination_type is None,
        obj_lookup(ms, "dsa_beneficiary"@) is None ==> (spec_dec_ad_set(JsonV::Obj(ms))->0).dsa_beneficiary is None,
        obj_lookup(ms, "dsa_payor"@) is None ==> (spec_dec_ad_set(JsonV::Obj(ms))->0).dsa_payor is None,
        obj_lookup(ms, "effective_status"@) is None ==> (spec_dec_ad_set(JsonV::Obj(ms))->0).effective_status is None,
        obj_lookup(ms, "end_time"@) is None ==> (spec_dec_ad_set(JsonV::Obj(ms))->0).end_time is None,
        obj_lookup(ms, "frequency_control_specs"@) is None ==> (spec_dec_ad_set(JsonV::Obj(ms))->0).frequency_control_specs is None,
        obj_lookup(ms, "instagram_user_id"@) is None ==> (spec_dec_ad_set(JsonV::Obj(ms))->0).instagram_user_id is None,
        obj_lookup(ms, "is_dynamic_creative"@) is None ==> (spec_dec_ad_set(JsonV::Obj(ms))->0).is_dynamic_creative is None,
        obj_lookup(ms, "issues_info"@) is None ==> (spec_dec_ad_set(JsonV::Obj(ms))->0).issues_info is None,
        obj_lookup(ms, "learning_stage_info"@) is None ==> (spec_dec_ad_set(JsonV::Obj(ms))->0).learning_stage_info is None,
        obj_lookup(ms, "lifetime_budget"@) is None ==> (spec_dec_ad_set(JsonV::Obj(ms))->0).lifetime_budget is None,
        obj_lookup(ms, "lifetime_imps"@) is None ==> (spec_dec_ad_set(JsonV::Obj(ms))->0).lifetime_imps is None,
        obj_lookup(ms, "lifetime_min_spend_target"@) is None ==> (spec_dec_ad_set(JsonV::Obj(ms))->0).lifetime_min_spend_target is None,
        obj_lookup(ms, "lifetime_spend_cap"@) is None ==> (spec_dec_ad_set(JsonV::Obj(ms))->0).lifetime_spend_cap is None,
        obj_lookup(ms, "min_budget_spend_percentage"@) is None ==> (spec_dec_ad_set(JsonV::Obj(ms))->0).min_budget_spend_percentage is None,
        obj_lookup(ms, "multi_optimization_goal_weight"@) is None ==> (spec_dec_ad_set(JsonV::Obj(ms))->0).multi_optimization_goal_weight is None,
        obj_lookup(ms, "name"@) is None ==> (spec_dec_ad_set(JsonV::Obj(ms))->0).name is None,
        obj_lookup(ms, "optimization_goal"@) is None ==> (spec_dec_ad_set(JsonV::Obj(ms))->0).optimization_goal is None,
        obj_lookup(ms, "optimization_sub_event"@) is None ==> (spec_dec_ad_set(JsonV::Obj(ms))->0).optimization_sub_event is None,
        obj_lookup(ms, "pacing_type"@) is None ==> (spec_dec_ad_set(JsonV::Obj(ms))->0).pacing_type is None,
        obj_lookup(ms, "promoted_object"@) is None ==> (spec_dec_ad_set(JsonV::Obj(ms))->0).promoted_object is None,
        obj_lookup(ms, "recommendations"@) is None ==> (spec_dec_ad_set(JsonV::Obj(ms))->0).recommendations is None,
        obj_lookup(ms, "recurring_budget_semantics"@) is None ==> (spec_dec_ad_set(JsonV::Obj(ms))->0).recurring_budget_semantics is None,
        obj_lookup(ms, "regional_regulated_categories"@) is None ==> (spec_dec_ad_set(JsonV::Obj(ms))->0).regional_regulated_categories is None,
        obj_lookup(ms, "regional_regulation_identities"@) is None ==> (spec_dec_ad_set(JsonV::Obj(ms))->0).regional_regulation_identities is None,
        obj_lookup(ms, "review_feedback"@) is None ==> (spec_dec_ad_set(JsonV::Obj(ms))->0).review_feedback is None,
        obj_lookup(ms, "rf_prediction_id"@) is None ==> (spec_dec_ad_set(JsonV::Obj(ms))->0).rf_prediction_id is None,
        obj_lookup(ms, "source_adset"@) is None ==> (spec_dec_ad_set(JsonV::Obj(ms))->0).source_adset is None,
        obj_lookup(ms, "source_adset_id"@) is None ==> (spec_dec_ad_set(JsonV::Obj(ms))->0).source_adset_id is None,
        obj_lookup(ms, "start_time"@) is None ==> (spec_dec_ad_set(JsonV::Obj(ms))->0).start_time is None,
        obj_lookup(ms, "status"@) is None ==> (spec_dec_ad_set(JsonV::Obj(ms))->0).status is None,
        obj_lookup(ms, "targeting"@) is None ==> (spec_dec_ad_set(JsonV::Obj(ms))->0).targeting is None,
        obj_lookup(ms, "targeting_optimization_types"@) is None ==> (spec_dec_ad_set(JsonV::Obj(ms))->0).targeting_optimization_types is None,
        obj_lookup(ms, "time_based_ad_rotation_id_blocks"@) is None ==> (spec_dec_ad_set(JsonV::Obj(ms))->0).time_based_ad_rotation_id_blocks is None,
        obj_lookup(ms, "time_based_ad_rotation_intervals"@) is None ==> (spec_dec_ad_set(JsonV::Obj(ms))->0).time_based_ad_rotation_intervals is None,
        obj_lookup(ms, "updated_time"@) is None ==> (spec_dec_ad_set(JsonV::Obj(ms))->0).updated_time is None,
        obj_lookup(ms, "use_new_app_click"@) is None ==> (spec_dec_ad_set(JsonV::Obj(ms))->0).use_new_app_click is None,
{
}

/// Whether every field of an ad object that is present at all is
/// well-typed, whatever subset of the optional fields is absent.
pub open spec fn ad_obj_ok(ms: Seq<(Seq<char>, JsonV)>) -> bool {
    &&& fld_str(ms, "id"@) is Some
    &&& fld_str(ms, "account_id"@) is Some
    &&& fld_str(ms, "ad_active_time"@) is Some
    &&& (match obj_lookup(ms, "ad_review_feedback"@) {
        None => Some(None),
        Some(x) => if x is Null {
            Some(None)
        } else {
            match spec_dec_adgroup_review_feedback(x) {
                Some(r) => Some(Some(r)),
                None => None,
            }
        },
    }) is Some
    &&& fld_str(ms, "ad_schedule_end_time"@) is Some
    &&& fld_str(ms, "ad_schedule_start_time"@) is Some
    &&& (match obj_lookup(ms, "adlabels"@) {
        None => Some(None),
        Some(x) => match x {
            JsonV::Null => Some(None),
            JsonV::Arr(items) => match spec_dec_ad_label_list(items) {
                Some(r) => Some(Some(r)),
                None => None,
            },
            _ => None,
        },
    }) is Some
    &&& (match obj_lookup(ms, "adset"@) {
        None => Some(None),
        Some(x) => if x is Null {
            Some(None)
        } else {
            match spec_dec_ad_set(x) {
                Some(r) => Some(Some(r)),
                None => None,
            }
        },
    }) is Some
    &&& fld_str(ms, "adset_id"@) is Some
    &&& fld_i32(ms, "bid_amount"@) is Some
    &&& (match obj_lookup(ms, "campaign"@) {
        None => Some(None),
        Some(x) => if x is Null {
            Some(None)
        } else {
            match spec_dec_campaign(x) {
                Some(r) => Some(Some(r)),
                None => None,
            }
        },
    }) is Some
    &&& fld_str(ms, "campaign_id"@) is Some
    &&& fld_str(ms, "configured_status"@) is Some
    &&& fld_str(ms, "conversion_domain"@) is Some
    &&& fld_str(ms, "created_time"@) is Some
    &&& fld_str(ms, "effective_status"@) is Some
    &&& (match obj_lookup(ms, "issues_info"@) {
        None => Some(None),
        Some(x) => match x {
            JsonV::Null => Some(None),
            JsonV::Arr(items) => match spec_dec_adgroup_issues_info_list(items) {
                Some(r) => Some(Some(r)),
                None => None,
            },
            _ => None,
        },
    }) is Some
    &&& fld_str(ms, "last_updated_by_app_id"@) is Some
    &&& fld_str(ms, "name"@) is Some
    &&& fld_str(ms, "preview_shareable_link"@) is Some
    &&& (match obj_lookup(ms, "recommendations"@) {
        None => Some(None),
        Some(x) => match x {
            JsonV::Null => Some(None),
            JsonV::Arr(items) => match spec_dec_ad_recommendation_list(items) {
                Some(r) => Some(Some(r)),
                None => None,
            },
            _ => None,
        },
    }) is Some
    &&& (match obj_lookup(ms, "source_ad"@) {
        None => Some(None),
        Some(x) => if x is Null {
            Some(None)
        } else {
            match spec_dec_ad(x) {
                Some(r) => Some(Some(Box::new(r))),
                None => None,
            }
        },
    }) is Some
    &&& fld_str(ms, "source_ad_id"@) is Some
    &&& fld_str(ms, "status"@) is Some
    &&& (match obj_lookup(ms, "tracking_specs"@) {
        None => Some(None),
        Some(x) => match x {
            JsonV::Null => Some(None),
            JsonV::Arr(items) => match spec_dec_conversion_action_query_list(items) {
                Some(r) => Some(Some(r)),
                None => None,
            },
            _ => None,
        },
    }) is Some
    &&& fld_str(ms, "updated_time"@) is Some
}

/// For any subset of the optional fields omitted from an ad object,
/// decoding still succeeds, and each omitted field decodes to the absent
/// value.
#[verifier::rlimit(100)]
#[verifier::spinoff_prover]
pub proof fn lemma_ad_optional_fields(ms: Seq<(Seq<char>, JsonV)>)
    requires
        ad_obj_ok(ms),
    ensures
        spec_dec_ad(JsonV::Obj(ms)) is Some,
        obj_lookup(ms, "id"@) is None ==> (spec_dec_ad(JsonV::Obj(ms))->0).id is None,
        obj_lookup(ms, "account_id"@) is None ==> (spec_dec_ad(JsonV::Obj(ms))->0).account_id is None,
        obj_lookup(ms, "ad_active_time"@) is None ==> (spec_dec_ad(JsonV::Obj(ms))->0).ad_active_time is None,
        obj_lookup(ms, "ad_review_feedback"@) is None ==> (spec_dec_ad(JsonV::Obj(ms))->0).ad_review_feedback is None,
        obj_lookup(ms, "ad_schedule_end_time"@) is None ==> (spec_dec_ad(JsonV::Obj(ms))->0).ad_schedule_end_time is None,
        obj_lookup(ms, "ad_schedule_start_time"@) is None ==> (spec_dec_ad(JsonV::Obj(ms))->0).ad_schedule_start_time is None,
        obj_lookup(ms, "adlabels"@) is None ==> (spec_dec_ad(JsonV::Obj(ms))->0).adlabels is None,
        obj_lookup(ms, "adset"@) is None ==> (spec_dec_ad(JsonV::Obj(ms))->0).adset is None,
        obj_lookup(ms, "adset_id"@) is None ==> (spec_dec_ad(JsonV::Obj(ms))->0).adset_id is None,
        obj_lookup(ms, "bid_amount"@) is None ==> (spec_dec_ad(JsonV::Obj(ms))->0).bid_amount is None,
        obj_lookup(ms, "campaign"@) is None ==> (spec_dec_ad(JsonV::Obj(ms))->0).campaign is None,
        obj_lookup(ms, "campaign_id"@) is None ==> (spec_dec_ad(JsonV::Obj(ms))->0).campaign_id is None,
        obj_lookup(ms, "configured_status"@) is None ==> (spec_dec_ad(JsonV::Obj(ms))->0).configured_status is None,
        obj_lookup(ms, "conversion_domain"@) is None ==> (spec_dec_ad(JsonV::Obj(ms))->0).conversion_domain is None,
        obj_lookup(ms, "created_time"@) is None ==> (spec_dec_ad(JsonV::Obj(ms))->0).created_time is None,
        obj_lookup(ms, "effective_status"@) is None ==> (spec_dec_ad(JsonV::Obj(ms))->0).effective_status is None,
        obj_lookup(ms, "issues_info"@) is None ==> (spec_dec_ad(JsonV::Obj(ms))->0).issues_info is None,
        obj_lookup(ms, "last_updated_by_app_id"@) is None ==> (spec_dec_ad(JsonV::Obj(ms))->0).last_updated_by_app_id is None,
        obj_lookup(ms, "name"@) is None ==> (spec_dec_ad(JsonV::Obj(ms))->0).name is None,
        obj_lookup(ms, "preview_shareable_link"@) is None ==> (spec_dec_ad(JsonV::Obj(ms))->0).preview_shareable_link is None,
        obj_lookup(ms, "recommendations"@) is None ==> (spec_dec_ad(JsonV::Obj(ms))->0).recommendations is None,
        obj_lookup(ms, "source_ad"@) is None ==> (spec_dec_ad(JsonV::Obj(ms))->0).source_ad is None,
        obj_lookup(ms, "source_ad_id"@) is None ==> (spec_dec_ad(JsonV::Obj(ms))->0).source_ad_id is None,
        obj_lookup(ms, "status"@) is None ==> (spec_dec_ad(JsonV::Obj(ms))->0).status is None,
        obj_lookup(ms, "tracking_specs"@) is None ==> (spec_dec_ad(JsonV::Obj(ms))->0).tracking_specs is None,
        obj_lookup(ms, "updated_time"@) is None ==> (spec_dec_ad(JsonV::Obj(ms))->0).updated_time is None,
{
}

} // verus!
