use facebook_ads::client::{
    interpret_activate_response, interpret_ad_accounts_response, interpret_ad_sets_response,
    interpret_ads_response, interpret_campaigns_response, interpret_delete_response,
    FacebookClient,
};
use facebook_ads::errors::FacebookError;

fn client() -> FacebookClient {
    FacebookClient::new("APP", "SECRET-REDACTED", "UT", "v22.0")
}

#[test]
fn construction_leaves_token_empty() {
    let c = client();
    assert_eq!(c.app_id, "APP");
    assert_eq!(c.user_token, "UT");
    assert_eq!(c.version, "v22.0");
    assert!(c.app_access_token.is_none());
}

#[test]
fn token_refresh_stores_token() {
    let mut c = client();
    let r = c.apply_token_response(200, "{\"access_token\":\"T1\"}");
    assert!(r.is_ok());
    assert_eq!(c.app_access_token.as_deref(), Some("T1"));
}

#[test]
fn token_refresh_replaces_previous_token() {
    let mut c = client();
    assert!(c.apply_token_response(200, "{\"access_token\":\"T1\"}").is_ok());
    assert!(c.apply_token_response(201, "{\"access_token\":\"T2\"}").is_ok());
    assert_eq!(c.app_access_token.as_deref(), Some("T2"));
}

#[test]
fn token_refresh_unauthorized_on_401() {
    let mut c = client();
    let r = c.apply_token_response(401, "who are you");
    assert!(matches!(r, Err(FacebookError::Unauthorized)));
    assert!(c.app_access_token.is_none());
}

#[test]
fn token_refresh_http_error_on_other_statuses() {
    let mut c = client();
    match c.apply_token_response(500, "oops") {
        Err(FacebookError::HttpError(d)) => {
            assert_eq!(d, "Unexpected response status: 500. Response: oops");
        },
        _ => panic!("expected HttpError"),
    }
    match c.apply_token_response(403, "no") {
        Err(FacebookError::HttpError(d)) => {
            assert_eq!(d, "Unexpected response status: 403. Response: no");
        },
        _ => panic!("expected HttpError"),
    }
    match c.apply_token_response(301, "moved") {
        Err(FacebookError::HttpError(d)) => {
            assert_eq!(d, "Unexpected response status: 301. Response: moved");
        },
        _ => panic!("expected HttpError"),
    }
}

#[test]
fn token_refresh_unexpected_on_malformed_success_body() {
    let mut c = client();
    assert!(matches!(
        c.apply_token_response(200, "not json"),
        Err(FacebookError::Unexpected(_))
    ));
    assert!(matches!(
        c.apply_token_response(200, "{\"token\":\"T1\"}"),
        Err(FacebookError::Unexpected(_))
    ));
    assert!(matches!(
        c.apply_token_response(200, "{\"access_token\": 5}"),
        Err(FacebookError::Unexpected(_))
    ));
    assert!(c.app_access_token.is_none());
}

#[test]
fn token_url_is_exact() {
    let c = client();
    assert_eq!(
        c.token_url(),
        "https://graph.facebook.com/v22.0/oauth/access_token?client_id=APP&client_secret=SECRET-REDACTED&grant_type=client_credentials"
    );
}

#[test]
fn ad_accounts_url_is_exact() {
    let c = client();
    assert_eq!(
        c.ad_accounts_url(),
        "https://graph.facebook.com/v22.0/me/adaccounts?access_token=UT"
    );
}

#[test]
fn campaigns_url_carries_the_full_field_list() {
    let c = client();
    assert_eq!(
        c.campaigns_url("123"),
        "https://graph.facebook.com/v22.0/act_123/campaigns?access_token=UT&fields=id,account_id,adlabels,bid_strategy,boosted_object_id,brand_lift_studies,budget_rebalance_flag,budget_remaining,buying_type,campaign_group_active_time,can_create_brand_lift_study,can_use_spend_cap,configured_status,created_time,daily_budget,effective_status,has_secondary_skadnetwork_reporting,is_budget_schedule_enabled,is_skadnetwork_attribution,issues_info,last_budget_toggling_time,lifetime_budget,name,objective,pacing_type,primary_attribution,promoted_object,smart_promotion_type,source_campaign,source_campaign_id,special_ad_categories,special_ad_category,special_ad_category_country,spend_cap,start_time,status,stop_time,topline_id,updated_time"
    );
}

#[test]
fn node_url_is_exact() {
    let c = client();
    assert_eq!(
        c.node_url("C77"),
        "https://graph.facebook.com/v22.0/C77?access_token=UT"
    );
}

#[test]
fn ad_sets_url_carries_the_full_field_list() {
    let c = client();
    assert_eq!(
        c.ad_sets_url("C77"),
        "https://graph.facebook.com/v22.0/C77/adsets?fields=id,account_id,adlabels,adset_schedule,asset_feed_id,attribution_spec,bid_adjustments,bid_amount,bid_constraints,bid_info,bid_strategy,billing_event,brand_safety_config,budget_remaining,campaign,campaign_active_time,campaign_attribution,campaign_id,configured_status,created_time,creative_sequence,daily_budget,daily_min_spend_target,daily_spend_cap,destination_type,dsa_beneficiary,dsa_payor,effective_status,end_time,frequency_control_specs,instagram_user_id,is_dynamic_creative,issues_info,learning_stage_info,lifetime_budget,lifetime_imps,lifetime_min_spend_target,lifetime_spend_cap,min_budget_spend_percentage,multi_optimization_goal_weight,name,optimization_goal,optimization_sub_event,pacing_type,promoted_object,recommendations,recurring_budget_semantics,regional_regulated_categories,regional_regulation_identities,review_feedback,rf_prediction_id,source_adset,source_adset_id,start_time,status,targeting,targeting_optimization_types,time_based_ad_rotation_id_blocks,time_based_ad_rotation_intervals,updated_time,use_new_app_click&access_token=UT"
    );
}

#[test]
fn ads_url_carries_the_full_field_list() {
    let c = client();
    assert_eq!(
        c.ads_url("S9"),
        "https://graph.facebook.com/v22.0/S9/ads?fields=id,account_id,ad_active_time,ad_review_feedback,ad_schedule_end_time,ad_schedule_start_time,adlabels,adset,adset_id,bid_amount,campaign,campaign_id,configured_status,conversion_domain,created_time,effective_status,issues_info,last_updated_by_app_id,name,preview_shareable_link,recommendations,source_ad,source_ad_id,status,tracking_specs,updated_time&access_token=UT"
    );
}

#[test]
fn ad_accounts_failure_is_unexpected_with_raw_body() {
    match interpret_ad_accounts_response(404, "gone") {
        Err(FacebookError::Unexpected(d)) => assert_eq!(d, "gone"),
        _ => panic!("expected Unexpected"),
    }
    match interpret_ad_accounts_response(500, "boom") {
        Err(FacebookError::Unexpected(d)) => assert_eq!(d, "boom"),
        _ => panic!("expected Unexpected"),
    }
}

#[test]
fn campaigns_failure_detail_holds_status_and_body() {
    match interpret_campaigns_response(500, "server error") {
        Err(FacebookError::HttpError(d)) => {
            assert_eq!(d, "Error fetching campaigns: 500. Response: server error");
            assert!(d.contains("500"));
            assert!(d.contains("server error"));
        },
        _ => panic!("expected HttpError"),
    }
}

#[test]
fn ad_sets_failure_is_http_error() {
    match interpret_ad_sets_response(403, "denied") {
        Err(FacebookError::HttpError(d)) => {
            assert_eq!(d, "Error fetching ad sets: 403. Response: denied");
        },
        _ => panic!("expected HttpError"),
    }
}

#[test]
fn ads_failure_is_http_error() {
    match interpret_ads_response(400, "bad") {
        Err(FacebookError::HttpError(d)) => {
            assert_eq!(d, "Error fetching ads: 400. Response: bad");
        },
        _ => panic!("expected HttpError"),
    }
}

#[test]
fn activate_and_delete_follow_status() {
    assert!(interpret_activate_response(200, "{\"success\":true}").is_ok());
    assert!(interpret_delete_response(204, "").is_ok());
    match interpret_activate_response(404, "missing") {
        Err(FacebookError::HttpError(d)) => {
            assert_eq!(d, "Error activating campaign: 404. Response: missing");
        },
        _ => panic!("expected HttpError"),
    }
    match interpret_delete_response(500, "down") {
        Err(FacebookError::HttpError(d)) => {
            assert_eq!(d, "Error deleting campaign: 500. Response: down");
        },
        _ => panic!("expected HttpError"),
    }
}

#[test]
fn error_descriptions_carry_their_detail() {
    assert_eq!(
        FacebookError::HttpError("x".to_string()).describe(),
        "HTTP request failed with status: x"
    );
    assert_eq!(FacebookError::Unauthorized.describe(), "Unauthorized access");
    assert_eq!(
        FacebookError::Unexpected("y".to_string()).describe(),
        "Unexpected error: y"
    );
}
