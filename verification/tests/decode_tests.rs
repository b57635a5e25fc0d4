use facebook_ads::client::{
    interpret_ad_accounts_response, interpret_ad_sets_response, interpret_ads_response,
    interpret_campaigns_response,
};
use facebook_ads::errors::FacebookError;
use facebook_ads::types::{AdSetResponse, AdsAccountsResponse, CampaignsResponse};

fn empty_envelope() -> &'static str {
    "{\"data\": [], \"paging\": {\"cursors\": {\"before\": \"\", \"after\": \"\"}}}"
}

fn envelope_with(item: &str) -> String {
    let mut s = String::new();
    s.push_str("{\"data\": [");
    s.push_str(item);
    s.push_str("], \"paging\": {\"cursors\": {\"before\": \"b1\", \"after\": \"a1\"}}}");
    s
}

#[test]
fn empty_paging_envelope_decodes() {
    let r: AdsAccountsResponse = interpret_ad_accounts_response(200, empty_envelope()).unwrap();
    assert!(r.data.is_empty());
    assert_eq!(r.paging.cursors.before, "");
    assert_eq!(r.paging.cursors.after, "");

    let c: CampaignsResponse = interpret_campaigns_response(200, empty_envelope()).unwrap();
    assert!(c.data.is_empty());
    assert_eq!(c.paging.cursors.before, "");

    let s: AdSetResponse = interpret_ad_sets_response(200, empty_envelope()).unwrap();
    assert!(s.data.is_empty());

    let a = interpret_ads_response(200, empty_envelope()).unwrap();
    assert!(a.data.is_empty());
}

#[test]
fn ad_accounts_decode() {
    let body = envelope_with("{\"account_id\": \"111\", \"id\": \"act_111\"}");
    let r = interpret_ad_accounts_response(200, &body).unwrap();
    assert_eq!(r.data.len(), 1);
    assert_eq!(r.data[0].account_id, "111");
    assert_eq!(r.data[0].id, "act_111");
    assert_eq!(r.paging.cursors.before, "b1");
    assert_eq!(r.paging.cursors.after, "a1");
}

#[test]
fn ad_account_missing_required_field_fails() {
    let body = envelope_with("{\"account_id\": \"111\"}");
    assert!(matches!(
        interpret_ad_accounts_response(200, &body),
        Err(FacebookError::Unexpected(_))
    ));
}

#[test]
fn envelope_missing_paging_fails() {
    assert!(matches!(
        interpret_campaigns_response(200, "{\"data\": []}"),
        Err(FacebookError::Unexpected(_))
    ));
}

#[test]
fn campaign_with_all_fields_omitted_decodes() {
    let body = envelope_with("{}");
    let r = interpret_campaigns_response(200, &body).unwrap();
    assert_eq!(r.data.len(), 1);
    let c = &r.data[0];
    assert!(c.id.is_none());
    assert!(c.name.is_none());
    assert!(c.adlabels.is_none());
    assert!(c.budget_rebalance_flag.is_none());
    assert!(c.source_campaign.is_none());
    assert!(c.promoted_object.is_none());
}

#[test]
fn campaign_with_some_fields_decodes() {
    let body = envelope_with(
        "{\"id\": \"C1\", \"name\": \"Launch\", \"can_use_spend_cap\": true, \
         \"pacing_type\": [\"standard\"], \"source_campaign\": {\"id\": \"C0\"}, \
         \"issues_info\": [{\"error_code\": -7, \"level\": \"AD\"}], \
         \"promoted_object\": {\"page_id\": \"P1\"}, \"status\": null}",
    );
    let r = interpret_campaigns_response(200, &body).unwrap();
    let c = &r.data[0];
    assert_eq!(c.id.as_deref(), Some("C1"));
    assert_eq!(c.name.as_deref(), Some("Launch"));
    assert_eq!(c.can_use_spend_cap, Some(true));
    assert_eq!(c.pacing_type.as_ref().unwrap()[0], "standard");
    assert_eq!(c.source_campaign.as_ref().unwrap().id.as_deref(), Some("C0"));
    assert!(c.source_campaign.as_ref().unwrap().name.is_none());
    let issue = &c.issues_info.as_ref().unwrap()[0];
    assert_eq!(issue.error_code, Some(-7));
    assert_eq!(issue.level.as_deref(), Some("AD"));
    assert_eq!(
        c.promoted_object.as_ref().unwrap().page_id.as_deref(),
        Some("P1")
    );
    assert!(c.status.is_none());
}

#[test]
fn campaign_with_wrong_typed_field_fails() {
    let body = envelope_with("{\"name\": 12}");
    assert!(matches!(
        interpret_campaigns_response(200, &body),
        Err(FacebookError::Unexpected(_))
    ));
    let body = envelope_with("{\"can_use_spend_cap\": \"yes\"}");
    assert!(matches!(
        interpret_campaigns_response(200, &body),
        Err(FacebookError::Unexpected(_))
    ));
}

#[test]
fn ad_set_with_all_fields_omitted_decodes() {
    let body = envelope_with("{}");
    let r = interpret_ad_sets_response(200, &body).unwrap();
    let s = &r.data[0];
    assert!(s.id.is_none());
    assert!(s.bid_amount.is_none());
    assert!(s.targeting.is_none());
    assert!(s.source_adset.is_none());
    assert!(s.campaign.is_none());
    assert!(s.bid_info.is_none());
}

#[test]
fn ad_set_fields_decode() {
    let body = envelope_with(
        "{\"id\": \"S1\", \"bid_amount\": 250, \"is_dynamic_creative\": false, \
         \"lifetime_imps\": -3, \"bid_info\": {\"CLICKS\": 12}, \
         \"adset_schedule\": [{\"start_minute\": 540, \"end_minute\": 600, \
         \"days\": [1, 2]}], \
         \"time_based_ad_rotation_id_blocks\": [[1, 2], [3]], \
         \"time_based_ad_rotation_intervals\": [100, 200], \
         \"bid_adjustments\": {\"age_range\": {\"18-24\": 0.85}}, \
         \"targeting\": {\"genders\": [1, 2], \"age_min\": 18, \
         \"countries\": [\"RO\"], \"interests\": [{\"id\": 6003, \"name\": \"x\"}], \
         \"custom_locations\": [{\"latitude\": 44.43, \"longitude\": 26.1, \
         \"radius\": 10.5}]}, \
         \"campaign\": {\"id\": \"C1\"}, \"source_adset\": {\"id\": \"S0\"}}",
    );
    let r = interpret_ad_sets_response(200, &body).unwrap();
    let s = &r.data[0];
    assert_eq!(s.id.as_deref(), Some("S1"));
    assert_eq!(s.bid_amount, Some(250));
    assert_eq!(s.is_dynamic_creative, Some(false));
    assert_eq!(s.lifetime_imps, Some(-3));
    let bid_info = s.bid_info.as_ref().unwrap();
    assert_eq!(bid_info[0].0, "CLICKS");
    assert_eq!(bid_info[0].1, 12);
    let sched = &s.adset_schedule.as_ref().unwrap()[0];
    assert_eq!(sched.start_minute, 540);
    assert_eq!(sched.end_minute, Some(600));
    assert_eq!(sched.days.as_ref().unwrap(), &vec![1, 2]);
    assert_eq!(
        s.time_based_ad_rotation_id_blocks.as_ref().unwrap(),
        &vec![vec![1, 2], vec![3]]
    );
    assert_eq!(
        s.time_based_ad_rotation_intervals.as_ref().unwrap(),
        &vec![100, 200]
    );
    let adj = s.bid_adjustments.as_ref().unwrap();
    assert_eq!(adj.age_range[0].0, "18-24");
    assert_eq!(adj.age_range[0].1, "0.85");
    let t = s.targeting.as_ref().unwrap();
    assert_eq!(t.genders.as_ref().unwrap(), &vec![1, 2]);
    assert_eq!(t.age_min, Some(18));
    assert_eq!(t.countries.as_ref().unwrap()[0], "RO");
    let interest = &t.interests.as_ref().unwrap()[0];
    assert_eq!(interest.id, 6003);
    assert_eq!(interest.name.as_deref(), Some("x"));
    let loc = &t.custom_locations.as_ref().unwrap()[0];
    assert_eq!(loc.latitude, "44.43");
    assert_eq!(loc.longitude, "26.1");
    assert_eq!(loc.radius, "10.5");
    assert_eq!(s.campaign.as_ref().unwrap().id.as_deref(), Some("C1"));
    assert_eq!(s.source_adset.as_ref().unwrap().id.as_deref(), Some("S0"));
}

#[test]
fn ad_set_rejects_out_of_range_numbers() {
    let body = envelope_with("{\"bid_amount\": -1}");
    assert!(matches!(
        interpret_ad_sets_response(200, &body),
        Err(FacebookError::Unexpected(_))
    ));
    let body = envelope_with("{\"bid_amount\": 2.5}");
    assert!(matches!(
        interpret_ad_sets_response(200, &body),
        Err(FacebookError::Unexpected(_))
    ));
    let body = envelope_with("{\"targeting\": {\"age_min\": 300}}");
    assert!(matches!(
        interpret_ad_sets_response(200, &body),
        Err(FacebookError::Unexpected(_))
    ));
}

#[test]
fn ads_listing_decodes_the_ad_set_envelope() {
    let body = envelope_with("{\"id\": \"S1\", \"campaign_id\": \"C1\"}");
    let r = interpret_ads_response(200, &body).unwrap();
    assert_eq!(r.data.len(), 1);
    assert_eq!(r.data[0].id.as_deref(), Some("S1"));
    assert_eq!(r.data[0].campaign_id.as_deref(), Some("C1"));
}

#[test]
fn unknown_fields_are_ignored() {
    let body = envelope_with("{\"id\": \"C1\", \"some_future_field\": {\"x\": [1]}}");
    let r = interpret_campaigns_response(200, &body).unwrap();
    assert_eq!(r.data[0].id.as_deref(), Some("C1"));
}

#[test]
fn malformed_bodies_yield_unexpected_everywhere() {
    for body in ["", "not json", "[1,]", "{\"data\": 5}", "{\"data\": [], \"paging\": 0}"] {
        assert!(matches!(
            interpret_ad_accounts_response(200, body),
            Err(FacebookError::Unexpected(_))
        ));
        assert!(matches!(
            interpret_campaigns_response(200, body),
            Err(FacebookError::Unexpected(_))
        ));
        assert!(matches!(
            interpret_ad_sets_response(200, body),
            Err(FacebookError::Unexpected(_))
        ));
        assert!(matches!(
            interpret_ads_response(200, body),
            Err(FacebookError::Unexpected(_))
        ));
    }
}

#[test]
fn ad_objects_decode() {
    let doc = facebook_ads::json::parse_json_text(
        "{\"id\": \"A1\", \"bid_amount\": -5, \"source_ad\": {\"id\": \"A0\"}, \
         \"tracking_specs\": [{\"action_type\": [\"offsite_conversion\"]}], \
         \"ad_review_feedback\": {\"global\": {\"reason\": \"text\"}}, \
         \"adset\": {\"id\": \"S1\"}, \"campaign\": {\"id\": \"C1\"}}",
    )
    .unwrap();
    let ad = facebook_ads::decode::decode_ad(&doc).unwrap();
    assert_eq!(ad.id.as_deref(), Some("A1"));
    assert_eq!(ad.bid_amount, Some(-5));
    assert_eq!(ad.source_ad.as_ref().unwrap().id.as_deref(), Some("A0"));
    assert!(ad.source_ad.as_ref().unwrap().source_ad.is_none());
    let spec = &ad.tracking_specs.as_ref().unwrap()[0];
    assert_eq!(spec.action_type.as_ref().unwrap()[0], "offsite_conversion");
    let feedback = ad.ad_review_feedback.as_ref().unwrap();
    let global_map = feedback.global_feedback.as_ref().unwrap();
    assert_eq!(global_map[0].0, "reason");
    assert_eq!(global_map[0].1, "text");
    assert_eq!(ad.adset.as_ref().unwrap().id.as_deref(), Some("S1"));
    assert_eq!(ad.campaign.as_ref().unwrap().id.as_deref(), Some("C1"));
    assert!(ad.name.is_none());
}

#[test]
fn ad_with_empty_object_decodes() {
    let doc = facebook_ads::json::parse_json_text("{}").unwrap();
    let ad = facebook_ads::decode::decode_ad(&doc).unwrap();
    assert!(ad.id.is_none());
    assert!(ad.tracking_specs.is_none());
    assert!(ad.ad_review_feedback.is_none());
}
