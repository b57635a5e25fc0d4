use facebook_ads::client::{interpret_ad_sets_response, interpret_campaigns_response};
use facebook_ads::types::{AdAccount, AdsAccountsResponse, Cursors, Paging};

#[test]
fn ads_accounts_dump_lists_accounts_and_cursors() {
    let r = AdsAccountsResponse {
        data: vec![
            AdAccount { account_id: "111".to_string(), id: "act_111".to_string() },
            AdAccount { account_id: "222".to_string(), id: "act_222".to_string() },
        ],
        paging: Paging {
            cursors: Cursors { before: "b1".to_string(), after: "a1".to_string() },
        },
    };
    assert_eq!(
        r.display(),
        "Displaying Ads Accounts:\n\
         Ad Account ID: 111\n\
         Ad Account Internal ID: act_111\n\
         Ad Account ID: 222\n\
         Ad Account Internal ID: act_222\n\
         \nPaging Information:\n\
         Before Cursor: b1\n\
         After Cursor: a1\n"
    );
}

#[test]
fn campaigns_dump_shows_present_fields_only() {
    let body = "{\"data\": [{\"id\": \"C1\", \"name\": \"Launch\", \
                \"can_use_spend_cap\": true, \"source_campaign\": {\"id\": \"C0\"}}], \
                \"paging\": {\"cursors\": {\"before\": \"b\", \"after\": \"a\"}}}";
    let r = interpret_campaigns_response(200, body).unwrap();
    let text = r.display();
    assert!(text.starts_with("Displaying Campaigns:\n"));
    assert!(text.contains("Before Cursor: b\n"));
    assert!(text.contains("After Cursor: a\n"));
    assert!(text.contains("Campaign ID: C1\n"));
    assert!(text.contains("Campaign Name: Launch\n"));
    assert!(text.contains("Can Use Spend Cap: true\n"));
    assert!(text.contains("Source Campaign: \n"));
    assert!(!text.contains("Campaign Objective:"));
    assert!(!text.contains("Daily Budget:"));
}

#[test]
fn single_campaign_dump_matches_the_listing_entry() {
    let body = "{\"data\": [{\"id\": \"C9\", \"objective\": \"REACH\", \
                \"pacing_type\": [\"standard\", \"day_parting\"], \
                \"issues_info\": [{\"error_code\": 19, \"level\": \"AD\"}]}], \
                \"paging\": {\"cursors\": {\"before\": \"\", \"after\": \"\"}}}";
    let r = interpret_campaigns_response(200, body).unwrap();
    let text = r.data[0].display();
    assert!(text.contains("Campaign ID: C9\n"));
    assert!(text.contains("Campaign Objective: REACH\n"));
    assert!(text.contains("Pacing Type: [\"standard\", \"day_parting\"]\n"));
    assert!(text.contains("Campaign Issues:\n"));
    assert!(text.contains("  Error Code: 19\n"));
    assert!(text.contains("  Level: AD\n"));
}

#[test]
fn ad_set_listing_dump_is_empty() {
    let body = "{\"data\": [{\"id\": \"S1\"}], \
                \"paging\": {\"cursors\": {\"before\": \"\", \"after\": \"\"}}}";
    let r = interpret_ad_sets_response(200, body).unwrap();
    assert_eq!(r.display(), "");
}

#[test]
fn campaigns_dump_text_is_exact() {
    let body = "{\"data\": [{\"id\": \"C1\", \"name\": \"Launch\", \
                \"can_use_spend_cap\": true, \"source_campaign\": {\"id\": \"C0\"}}], \
                \"paging\": {\"cursors\": {\"before\": \"b\", \"after\": \"a\"}}}";
    let r = interpret_campaigns_response(200, body).unwrap();
    assert_eq!(
        r.display(),
        "Displaying Campaigns:\n\
         Paging Information:\n\
         Before Cursor: b\n\
         After Cursor: a\n\
         ----------------------------------------\n\
         Campaign ID: C1\n\
         Can Use Spend Cap: true\n\
         Campaign Name: Launch\n\
         Source Campaign: \n\
         ----------------------------------------\n"
    );
}

#[test]
fn single_campaign_dump_text_is_exact() {
    let body = "{\"data\": [{\"id\": \"C9\", \"objective\": \"REACH\", \
                \"pacing_type\": [\"standard\", \"day_parting\"], \
                \"issues_info\": [{\"error_code\": 19, \"level\": \"AD\"}]}], \
                \"paging\": {\"cursors\": {\"before\": \"\", \"after\": \"\"}}}";
    let r = interpret_campaigns_response(200, body).unwrap();
    assert_eq!(
        r.data[0].display(),
        "Campaign ID: C9\n\
         Campaign Issues:\n\
         \u{20}\u{20}Error Code: 19\n\
         \u{20}\u{20}Level: AD\n\
         ----------------------------------------\n\
         Campaign Objective: REACH\n\
         Pacing Type: [\"standard\", \"day_parting\"]\n"
    );
}

#[test]
fn campaign_dump_nested_records() {
    let body = "{\"data\": [{\"adlabels\": [{\"id\": \"L1\", \"name\": \"Tag\", \
                \"account\": {\"account_id\": \"9\", \"id\": \"act_9\"}}], \
                \"promoted_object\": {\"page_id\": \"P1\", \"pixel_id\": \"X2\"}, \
                \"budget_rebalance_flag\": false}], \
                \"paging\": {\"cursors\": {\"before\": \"\", \"after\": \"\"}}}";
    let r = interpret_campaigns_response(200, body).unwrap();
    assert_eq!(
        r.data[0].display(),
        "Ad Labels:\n\
         \u{20}\u{20}ID: L1\n\
         \u{20}\u{20}Name: Tag\n\
         \u{20}\u{20}Account ID: 9\n\
         \u{20}\u{20}Internal ID: act_9\n\
         Budget Rebalance Flag: false\n\
         Promoted Object:\n\
         \u{20}\u{20}Page ID: P1\n\
         \u{20}\u{20}Pixel ID: X2\n"
    );
}
