use vstd::prelude::*;
use vstd::string::StringExecFns;
use crate::decode::{
    decode_ad_response, decode_ad_set_response, decode_ads_accounts, decode_app_access,
    decode_campaigns_response, spec_dec_ad_response, spec_dec_ad_set_response,
    spec_dec_ads_accounts, spec_dec_app_access, spec_dec_campaigns_response,
};
use crate::errors::{FacebookError, FacebookErrorV};
use crate::json::{parse_json_text, spec_parse_json};
use crate::text::{dec_str, u16_to_dec};
use crate::types::{
    AdResponse, AdResponseV, AdSetResponse, AdSetResponseV, AdsAccountsResponse,
    CampaignsResponse,
};

verus! {

// ---------------------------------------------------------------------------
// Client state
// ---------------------------------------------------------------------------

/// The credentials and version a client works with. The cached application
/// access token starts empty and is replaced wholesale by a token refresh;
/// the transport that carries the requests lives outside this crate.
pub struct FacebookClient {
    pub app_id: String,
    pub app_secret: String,
    pub user_token: String,
    pub app_access_token: Option<String>,
    pub version: String,
}

pub struct FacebookClientV {
    pub app_id: Seq<char>,
    pub app_secret: Seq<char>,
    pub user_token: Seq<char>,
    pub app_access_token: Option<Seq<char>>,
    pub version: Seq<char>,
}

impl View for FacebookClient {
    type V = FacebookClientV;

    open spec fn view(&self) -> FacebookClientV {
        FacebookClientV {
            app_id: self.app_id@,
            app_secret: self.app_secret@,
            user_token: self.user_token@,
            app_access_token: self.app_access_token.deep_view(),
            version: self.version@,
        }
    }
}

impl FacebookClient {
    /// Stores the four inputs with an empty cached token. The caller owes an
    /// immediate token refresh: construction is all-or-nothing for the
    /// embedding that drives the transport.
    pub fn new(app_id: &str, app_secret: &str, user_token: &str, version: &str) -> (c:
        FacebookClient)
        ensures
            c@.app_id == app_id@,
            c@.app_secret == app_secret@,
            c@.user_token == user_token@,
            c@.app_access_token is None,
            c@.version == version@,
    {
        FacebookClient {
            app_id: app_id.to_owned(),
            app_secret: app_secret.to_owned(),
            user_token: user_token.to_owned(),
            app_access_token: None,
            version: version.to_owned(),
        }
    }
}

// ---------------------------------------------------------------------------
// Status classes
// ---------------------------------------------------------------------------

/// A 2xx status.
pub open spec fn is_success(status: u16) -> bool {
    200 <= status < 300
}

/// A 4xx or 5xx status.
pub open spec fn is_client_or_server_error(status: u16) -> bool {
    400 <= status < 600
}

// ---------------------------------------------------------------------------
// Fixed field lists
// ---------------------------------------------------------------------------

/// The full, fixed, comma-joined field list of the campaigns endpoint.
pub open spec fn spec_campaign_fields() -> Seq<char> {
    "id,account_id,adlabels,bid_strategy,boosted_object_id,brand_lift_studies,budget_rebalance_flag,budget_remaining,buying_type,campaign_group_active_time,can_create_brand_lift_study,can_use_spend_cap,configured_status,created_time,daily_budget,effective_status,has_secondary_skadnetwork_reporting,is_budget_schedule_enabled,is_skadnetwork_attribution,issues_info,last_budget_toggling_time,lifetime_budget,name,objective,pacing_type,primary_attribution,promoted_object,smart_promotion_type,source_campaign,source_campaign_id,special_ad_categories,special_ad_category,special_ad_category_country,spend_cap,start_time,status,stop_time,topline_id,updated_time"@
}

pub fn campaign_fields() -> (r: String)
    ensures
        r@ == spec_campaign_fields(),
{
    "id,account_id,adlabels,bid_strategy,boosted_object_id,brand_lift_studies,budget_rebalance_flag,budget_remaining,buying_type,campaign_group_active_time,can_create_brand_lift_study,can_use_spend_cap,configured_status,created_time,daily_budget,effective_status,has_secondary_skadnetwork_reporting,is_budget_schedule_enabled,is_skadnetwork_attribution,issues_info,last_budget_toggling_time,lifetime_budget,name,objective,pacing_type,primary_attribution,promoted_object,smart_promotion_type,source_campaign,source_campaign_id,special_ad_categories,special_ad_category,special_ad_category_country,spend_cap,start_time,status,stop_time,topline_id,updated_time".to_owned()
}

/// The full, fixed, comma-joined field list of the ad-sets endpoint.
pub open spec fn spec_ad_set_fields() -> Seq<char> {
    "id,account_id,adlabels,adset_schedule,asset_feed_id,attribution_spec,bid_adjustments,bid_amount,bid_constraints,bid_info,bid_strategy,billing_event,brand_safety_config,budget_remaining,campaign,campaign_active_time,campaign_attribution,campaign_id,configured_status,created_time,creative_sequence,daily_budget,daily_min_spend_target,daily_spend_cap,destination_type,dsa_beneficiary,dsa_payor,effective_status,end_time,frequency_control_specs,instagram_user_id,is_dynamic_creative,issues_info,learning_stage_info,lifetime_budget,lifetime_imps,lifetime_min_spend_target,lifetime_spend_cap,min_budget_spend_percentage,multi_optimization_goal_weight,name,optimization_goal,optimization_sub_event,pacing_type,promoted_object,recommendations,recurring_budget_semantics,regional_regulated_categories,regional_regulation_identities,review_feedback,rf_prediction_id,source_adset,source_adset_id,start_time,status,targeting,targeting_optimization_types,time_based_ad_rotation_id_blocks,time_based_ad_rotation_intervals,updated_time,use_new_app_click"@
}

pub fn ad_set_fields() -> (r: String)
    ensures
        r@ == spec_ad_set_fields(),
{
    "id,account_id,adlabels,adset_schedule,asset_feed_id,attribution_spec,bid_adjustments,bid_amount,bid_constraints,bid_info,bid_strategy,billing_event,brand_safety_config,budget_remaining,campaign,campaign_active_time,campaign_attribution,campaign_id,configured_status,created_time,creative_sequence,daily_budget,daily_min_spend_target,daily_spend_cap,destination_type,dsa_beneficiary,dsa_payor,effective_status,end_time,frequency_control_specs,instagram_user_id,is_dynamic_creative,issues_info,learning_stage_info,lifetime_budget,lifetime_imps,lifetime_min_spend_target,lifetime_spend_cap,min_budget_spend_percentage,multi_optimization_goal_weight,name,optimization_goal,optimization_sub_event,pacing_type,promoted_object,recommendations,recurring_budget_semantics,regional_regulated_categories,regional_regulation_identities,review_feedback,rf_prediction_id,source_adset,source_adset_id,start_time,status,targeting,targeting_optimization_types,time_based_ad_rotation_id_blocks,time_based_ad_rotation_intervals,updated_time,use_new_app_click".to_owned()
}

/// The full, fixed, comma-joined field list of the ads endpoint.
pub open spec fn spec_ad_fields() -> Seq<char> {
    "id,account_id,ad_active_time,ad_review_feedback,ad_schedule_end_time,ad_schedule_start_time,adlabels,adset,adset_id,bid_amount,campaign,campaign_id,configured_status,conversion_domain,created_time,effective_status,issues_info,last_updated_by_app_id,name,preview_shareable_link,recommendations,source_ad,source_ad_id,status,tracking_specs,updated_time"@
}

pub fn ad_fields() -> (r: String)
    ensures
        r@ == spec_ad_fields(),
{
    "id,account_id,ad_active_time,ad_review_feedback,ad_schedule_end_time,ad_schedule_start_time,adlabels,adset,adset_id,bid_amount,campaign,campaign_id,configured_status,conversion_domain,created_time,effective_status,issues_info,last_updated_by_app_id,name,preview_shareable_link,recommendations,source_ad,source_ad_id,status,tracking_specs,updated_time".to_owned()
}

// ---------------------------------------------------------------------------
// Request URLs
// ---------------------------------------------------------------------------

pub open spec fn spec_token_url(version: Seq<char>, app_id: Seq<char>, app_secret: Seq<char>)
    -> Seq<char> {
    "https://graph.facebook.com/"@ + version + "/oauth/access_token?client_id="@ + app_id
        + "&client_secret="@ + app_secret + "&grant_type=client_credentials"@
}

pub open spec fn spec_ad_accounts_url(version: Seq<char>, user_token: Seq<char>) -> Seq<char> {
    "https://graph.facebook.com/"@ + version + "/me/adaccounts?access_token="@ + user_token
}

pub open spec fn spec_campaigns_url(
    version: Seq<char>,
    ad_account_id: Seq<char>,
    user_token: Seq<char>,
) -> Seq<char> {
    "https://graph.facebook.com/"@ + version + "/act_"@ + ad_account_id
        + "/campaigns?access_token="@ + user_token + "&fields="@ + spec_campaign_fields()
}

pub open spec fn spec_node_url(
    version: Seq<char>,
    node_id: Seq<char>,
    user_token: Seq<char>,
) -> Seq<char> {
    "https://graph.facebook.com/"@ + version + "/"@ + node_id + "?access_token="@ + user_token
}

pub open spec fn spec_ad_sets_url(
    version: Seq<char>,
    campaign_id: Seq<char>,
    user_token: Seq<char>,
) -> Seq<char> {
    "https://graph.facebook.com/"@ + version + "/"@ + campaign_id + "/adsets?fields="@
        + spec_ad_set_fields() + "&access_token="@ + user_token
}

pub open spec fn spec_ads_url(
    version: Seq<char>,
    ad_set_id: Seq<char>,
    user_token: Seq<char>,
) -> Seq<char> {
    "https://graph.facebook.com/"@ + version + "/"@ + ad_set_id + "/ads?fields="@
        + spec_ad_fields() + "&access_token="@ + user_token
}

impl FacebookClient {
    /// The URL of the client-credentials token request.
    pub fn token_url(&self) -> (r: String)
        ensures
            r@ == spec_token_url(self@.version, self@.app_id, self@.app_secret),
    {
        let mut url = String::new();
        url.append("https://graph.facebook.com/");
        url.append(self.version.as_str());
        url.append("/oauth/access_token?client_id=");
        url.append(self.app_id.as_str());
        url.append("&client_secret=");
        url.append(self.app_secret.as_str());
        url.append("&grant_type=client_credentials");
        proof {
            assert(url@ =~= spec_token_url(self@.version, self@.app_id, self@.app_secret));
        }
        url
    }

    /// The URL that lists the user's ad accounts.
    pub fn ad_accounts_url(&self) -> (r: String)
        ensures
            r@ == spec_ad_accounts_url(self@.version, self@.user_token),
    {
        let mut url = String::new();
        url.append("https://graph.facebook.com/");
        url.append(self.version.as_str());
        url.append("/me/adaccounts?access_token=");
        url.append(self.user_token.as_str());
        proof {
            assert(url@ =~= spec_ad_accounts_url(self@.version, self@.user_token));
        }
        url
    }

    /// The URL that lists an ad account's campaigns, with the full fixed
    /// field list.
    pub fn campaigns_url(&self, ad_account_id: &str) -> (r: String)
        ensures
            r@ == spec_campaigns_url(self@.version, ad_account_id@, self@.user_token),
    {
        let mut url = String::new();
        url.append("https://graph.facebook.com/");
        url.append(self.version.as_str());
        url.append("/act_");
        url.append(ad_account_id);
        url.append("/campaigns?access_token=");
        url.append(self.user_token.as_str());
        url.append("&fields=");
        let fields = campaign_fields();
        url.append(fields.as_str());
        proof {
            assert(url@ =~= spec_campaigns_url(self@.version, ad_account_id@, self@.user_token));
        }
        url
    }

    /// The URL of a single node, used to activate or delete a campaign.
    pub fn node_url(&self, node_id: &str) -> (r: String)
        ensures
            r@ == spec_node_url(self@.version, node_id@, self@.user_token),
    {
        let mut url = String::new();
        url.append("https://graph.facebook.com/");
        url.append(self.version.as_str());
        url.append("/");
        url.append(node_id);
        url.append("?access_token=");
        url.append(self.user_token.as_str());
        proof {
            assert(url@ =~= spec_node_url(self@.version, node_id@, self@.user_token));
        }
        url
    }

    /// The URL that lists a campaign's ad sets, with the full fixed field
    /// list.
    pub fn ad_sets_url(&self, campaign_id: &str) -> (r: String)
        ensures
            r@ == spec_ad_sets_url(self@.version, campaign_id@, self@.user_token),
    {
        let mut url = String::new();
        url.append("https://graph.facebook.com/");
        url.append(self.version.as_str());
        url.append("/");
        url.append(campaign_id);
        url.append("/adsets?fields=");
        let fields = ad_set_fields();
        url.append(fields.as_str());
        url.append("&access_token=");
        url.append(self.user_token.as_str());
        proof {
            assert(url@ =~= spec_ad_sets_url(self@.version, campaign_id@, self@.user_token));
        }
        url
    }

    /// The URL that lists an ad set's ads, with the full fixed field list.
    pub fn ads_url(&self, ad_set_id: &str) -> (r: String)
        ensures
            r@ == spec_ads_url(self@.version, ad_set_id@, self@.user_token),
    {
        let mut url = String::new();
        url.append("https://graph.facebook.com/");
        url.append(self.version.as_str());
        url.append("/");
        url.append(ad_set_id);
        url.append("/ads?fields=");
        let fields = ad_fields();
        url.append(fields.as_str());
        url.append("&access_token=");
        url.append(self.user_token.as_str());
        proof {
            assert(url@ =~= spec_ads_url(self@.version, ad_set_id@, self@.user_token));
        }
        url
    }
}

// ---------------------------------------------------------------------------
// Error details
// ---------------------------------------------------------------------------

/// The detail text of a body that could not be read as the expected record.
pub open spec fn spec_parse_fail_msg() -> Seq<char> {
    "Failed to parse JSON: invalid body"@
}

fn parse_fail_message() -> (r: String)
    ensures
        r@ == spec_parse_fail_msg(),
{
    "Failed to parse JSON: invalid body".to_owned()
}

/// The detail text for a rejected status: a prefix, the decimal status, and
/// the raw body.
pub open spec fn spec_status_detail(prefix: Seq<char>, status: u16, body: Seq<char>)
    -> Seq<char> {
    prefix + dec_str(status as int) + ". Response: "@ + body
}

fn status_detail(prefix: &str, status: u16, body: &str) -> (r: String)
    ensures
        r@ == spec_status_detail(prefix@, status, body@),
{
    let mut m = String::new();
    m.append(prefix);
    let d = u16_to_dec(status);
    m.append(d.as_str());
    m.append(". Response: ");
    m.append(body);
    proof {
        assert(m@ =~= spec_status_detail(prefix@, status, body@));
    }
    m
}

// ---------------------------------------------------------------------------
// Response interpretation
// ---------------------------------------------------------------------------

/// What the token endpoint's answer means: on a 2xx, the new application
/// access token, if the body holds one; on a 401, `Unauthorized`; on any
/// other status, `HttpError` with the status and body.
pub open spec fn spec_token_outcome(status: u16, body: Seq<char>) -> Result<
    Seq<char>,
    FacebookErrorV,
> {
    if is_success(status) {
        match spec_parse_json(body) {
            Some(v) => match spec_dec_app_access(v) {
                Some(t) => Ok(t.access_token),
                None => Err(FacebookErrorV::Unexpected(spec_parse_fail_msg())),
            },
            None => Err(FacebookErrorV::Unexpected(spec_parse_fail_msg())),
        }
    } else if status == 401 {
        Err(FacebookErrorV::Unauthorized)
    } else {
        Err(
            FacebookErrorV::HttpError(
                spec_status_detail("Unexpected response status: "@, status, body),
            ),
        )
    }
}

/// What the ad-accounts endpoint's answer means. Any 4xx or 5xx yields
/// `Unexpected` carrying the raw body; every other status has its body read
/// as the paging envelope of ad accounts.
pub open spec fn spec_ad_accounts_outcome(status: u16, body: Seq<char>) -> Result<
    crate::types::AdsAccountsResponseV,
    FacebookErrorV,
> {
    if is_client_or_server_error(status) {
        Err(FacebookErrorV::Unexpected(body))
    } else {
        match spec_parse_json(body) {
            Some(v) => match spec_dec_ads_accounts(v) {
                Some(x) => Ok(x),
                None => Err(FacebookErrorV::Unexpected(spec_parse_fail_msg())),
            },
            None => Err(FacebookErrorV::Unexpected(spec_parse_fail_msg())),
        }
    }
}

/// What the campaigns endpoint's answer means: on a 2xx the body is read as
/// the paging envelope of campaigns, otherwise `HttpError` with status and
/// body.
pub open spec fn spec_campaigns_outcome(status: u16, body: Seq<char>) -> Result<
    crate::types::CampaignsResponseV,
    FacebookErrorV,
> {
    if is_success(status) {
        match spec_parse_json(body) {
            Some(v) => match spec_dec_campaigns_response(v) {
                Some(x) => Ok(x),
                None => Err(FacebookErrorV::Unexpected(spec_parse_fail_msg())),
            },
            None => Err(FacebookErrorV::Unexpected(spec_parse_fail_msg())),
        }
    } else {
        Err(
            FacebookErrorV::HttpError(
                spec_status_detail("Error fetching campaigns: "@, status, body),
            ),
        )
    }
}

/// What the ad-sets endpoint's answer means.
pub open spec fn spec_ad_sets_outcome(status: u16, body: Seq<char>) -> Result<
    AdSetResponseV,
    FacebookErrorV,
> {
    if is_success(status) {
        match spec_parse_json(body) {
            Some(v) => match spec_dec_ad_set_response(v) {
                Some(x) => Ok(x),
                None => Err(FacebookErrorV::Unexpected(spec_parse_fail_msg())),
            },
            None => Err(FacebookErrorV::Unexpected(spec_parse_fail_msg())),
        }
    } else {
        Err(
            FacebookErrorV::HttpError(
                spec_status_detail("Error fetching ad sets: "@, status, body),
            ),
        )
    }
}

/// What a campaign activation answer means: a 2xx is success with no
/// payload, anything else `HttpError`.
pub open spec fn spec_activate_outcome(status: u16, body: Seq<char>) -> Result<
    (),
    FacebookErrorV,
> {
    if is_success(status) {
        Ok(())
    } else {
        Err(
            FacebookErrorV::HttpError(
                spec_status_detail("Error activating campaign: "@, status, body),
            ),
        )
    }
}

/// What a campaign deletion answer means.
pub open spec fn spec_delete_outcome(status: u16, body: Seq<char>) -> Result<
    (),
    FacebookErrorV,
> {
    if is_success(status) {
        Ok(())
    } else {
        Err(
            FacebookErrorV::HttpError(
                spec_status_detail("Error deleting campaign: "@, status, body),
            ),
        )
    }
}

impl FacebookClient {
    /// Applies the token endpoint's answer to the client: on success the
    /// cached application access token is replaced wholesale, on any error
    /// the client is left unchanged.
    pub fn apply_token_response(&mut self, status: u16, body: &str) -> (r: Result<
        (),
        FacebookError,
    >)
        ensures
            match spec_token_outcome(status, body@) {
                Ok(t) => r is Ok && final(self)@ == (FacebookClientV {
                    app_access_token: Some(t),
                    ..old(self)@
                }),
                Err(e) => (r matches Err(err) && err@ == e) && *final(self) == *old(self),
            },
    {
        if 200 <= status && status < 300 {
            match parse_json_text(body) {
                Some(doc) => match decode_app_access(&doc) {
                    Some(t) => {
                        self.app_access_token = Some(t.access_token);
                        Ok(())
                    },
                    None => Err(FacebookError::Unexpected(parse_fail_message())),
                },
                None => Err(FacebookError::Unexpected(parse_fail_message())),
            }
        } else if status == 401 {
            Err(FacebookError::Unauthorized)
        } else {
            Err(
                FacebookError::HttpError(
                    status_detail("Unexpected response status: ", status, body),
                ),
            )
        }
    }
}

/// Reads the ad-accounts endpoint's answer.
pub fn interpret_ad_accounts_response(status: u16, body: &str) -> (r: Result<
    AdsAccountsResponse,
    FacebookError,
>)
    ensures
        match spec_ad_accounts_outcome(status, body@) {
            Ok(v) => r matches Ok(x) && x@ == v,
            Err(e) => r matches Err(err) && err@ == e,
        },
{
    if (400 <= status && status < 500) || (500 <= status && status < 600) {
        return Err(FacebookError::Unexpected(body.to_owned()));
    }
    match parse_json_text(body) {
        Some(doc) => match decode_ads_accounts(&doc) {
            Some(x) => Ok(x),
            None => Err(FacebookError::Unexpected(parse_fail_message())),
        },
        None => Err(FacebookError::Unexpected(parse_fail_message())),
    }
}

/// Reads the campaigns endpoint's answer.
pub fn interpret_campaigns_response(status: u16, body: &str) -> (r: Result<
    CampaignsResponse,
    FacebookError,
>)
    ensures
        match spec_campaigns_outcome(status, body@) {
            Ok(v) => r matches Ok(x) && x@ == v,
            Err(e) => r matches Err(err) && err@ == e,
        },
{
    if 200 <= status && status < 300 {
        match parse_json_text(body) {
            Some(doc) => match decode_campaigns_response(&doc) {
                Some(x) => Ok(x),
                None => Err(FacebookError::Unexpected(parse_fail_message())),
            },
            None => Err(FacebookError::Unexpected(parse_fail_message())),
        }
    } else {
        Err(FacebookError::HttpError(status_detail("Error fetching campaigns: ", status, body)))
    }
}

/// Reads the ad-sets endpoint's answer.
pub fn interpret_ad_sets_response(status: u16, body: &str) -> (r: Result<
    AdSetResponse,
    FacebookError,
>)
    ensures
        match spec_ad_sets_outcome(status, body@) {
            Ok(v) => r matches Ok(x) && x@ == v,
            Err(e) => r matches Err(err) && err@ == e,
        },
{
    if 200 <= status && status < 300 {
        match parse_json_text(body) {
            Some(doc) => match decode_ad_set_response(&doc) {
                Some(x) => Ok(x),
                None => Err(FacebookError::Unexpected(parse_fail_message())),
            },
            None => Err(FacebookError::Unexpected(parse_fail_message())),
        }
    } else {
        Err(FacebookError::HttpError(status_detail("Error fetching ad sets: ", status, body)))
    }
}

/// What the ads endpoint's answer means. Its declared payload is the ad-set
/// paging envelope, mirroring the declared result type of the ads listing.
pub open spec fn spec_ads_outcome(status: u16, body: Seq<char>) -> Result<
    AdResponseV,
    FacebookErrorV,
> {
    if is_success(status) {
        match spec_parse_json(body) {
            Some(v) => match spec_dec_ad_response(v) {
                Some(x) => Ok(x),
                None => Err(FacebookErrorV::Unexpected(spec_parse_fail_msg())),
            },
            None => Err(FacebookErrorV::Unexpected(spec_parse_fail_msg())),
        }
    } else {
        Err(
            FacebookErrorV::HttpError(
                spec_status_detail("Error fetching ads: "@, status, body),
            ),
        )
    }
}

/// Reads the ads endpoint's answer.
pub fn interpret_ads_response(status: u16, body: &str) -> (r: Result<
    AdResponse,
    FacebookError,
>)
    ensures
        match spec_ads_outcome(status, body@) {
            Ok(v) => r matches Ok(x) && x@ == v,
            Err(e) => r matches Err(err) && err@ == e,
        },
{
    if 200 <= status && status < 300 {
        match parse_json_text(body) {
            Some(doc) => match decode_ad_response(&doc) {
                Some(x) => Ok(x),
                None => Err(FacebookError::Unexpected(parse_fail_message())),
            },
            None => Err(FacebookError::Unexpected(parse_fail_message())),
        }
    } else {
        Err(FacebookError::HttpError(status_detail("Error fetching ads: ", status, body)))
    }
}

/// Reads a campaign activation answer.
pub fn interpret_activate_response(status: u16, body: &str) -> (r: Result<(), FacebookError>)
    ensures
        match spec_activate_outcome(status, body@) {
            Ok(v) => r is Ok,
            Err(e) => r matches Err(err) && err@ == e,
        },
{
    if 200 <= status && status < 300 {
        Ok(())
    } else {
        Err(FacebookError::HttpError(status_detail("Error activating campaign: ", status, body)))
    }
}

/// Reads a campaign deletion answer.
pub fn interpret_delete_response(status: u16, body: &str) -> (r: Result<(), FacebookError>)
    ensures
        match spec_delete_outcome(status, body@) {
            Ok(v) => r is Ok,
            Err(e) => r matches Err(err) && err@ == e,
        },
{
    if 200 <= status && status < 300 {
        Ok(())
    } else {
        Err(FacebookError::HttpError(status_detail("Error deleting campaign: ", status, body)))
    }
}

} // verus!
