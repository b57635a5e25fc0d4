use vstd::prelude::*;
use vstd::string::StringExecFns;
use crate::text::{dec_str, push_dec_digits, string_from_chars};
use crate::types::{
    AdAccountV, AdCampaignIssuesInfo, AdCampaignIssuesInfoV, AdLabel, AdLabelV,
    AdPromotedObject, AdPromotedObjectV, AdSetResponse, AdStudy, AdStudyV,
    AdsAccountsResponse, AdsAccountsResponseV, Campaign, CampaignV, CampaignsResponse,
    CampaignsResponseV,
};

verus! {

// Human-readable dumps of responses, one labeled line per present field
// and no line per absent field, in a fixed order. The embedding writes
// them to its output stream.

/// Concatenation of character sequences is associative; the dump proofs
/// use it ambiently to regroup text.
pub broadcast proof fn lemma_seq_add_assoc_chars(a: Seq<char>, b: Seq<char>, c: Seq<char>)
    ensures
        #[trigger] ((a + b) + c) == a + (b + c),
{
    assert((a + b) + c =~= a + (b + c));
}

/// The empty sequence is the identity of concatenation.
pub broadcast proof fn lemma_seq_add_empty_chars(a: Seq<char>)
    ensures
        #[trigger] (a + Seq::<char>::empty()) == a,
        #[trigger] (Seq::<char>::empty() + a) == a,
{
    assert(a + Seq::<char>::empty() =~= a);
    assert(Seq::<char>::empty() + a =~= a);
}

// ---------------------------------------------------------------------------
// Lines
// ---------------------------------------------------------------------------

/// One labeled line.
pub open spec fn spec_line(label: Seq<char>, v: Seq<char>) -> Seq<char> {
    label + v + "\n"@
}

/// A labeled line for a present value, nothing for an absent one.
pub open spec fn spec_opt_line(label: Seq<char>, v: Option<Seq<char>>) -> Seq<char> {
    match v {
        Some(s) => spec_line(label, s),
        None => Seq::empty(),
    }
}

pub open spec fn spec_bool_str(b: bool) -> Seq<char> {
    if b {
        "true"@
    } else {
        "false"@
    }
}

pub open spec fn spec_opt_bool_line(label: Seq<char>, v: Option<bool>) -> Seq<char> {
    match v {
        Some(b) => spec_line(label, spec_bool_str(b)),
        None => Seq::empty(),
    }
}

/// Signed decimal rendering.
pub open spec fn spec_i64_str(v: i64) -> Seq<char> {
    if v < 0 {
        seq!['-'] + dec_str(-(v as int))
    } else {
        dec_str(v as int)
    }
}

pub open spec fn spec_opt_i32_line(label: Seq<char>, v: Option<i32>) -> Seq<char> {
    match v {
        Some(x) => spec_line(label, spec_i64_str(x as i64)),
        None => Seq::empty(),
    }
}

/// The items of a list, each in quotes, separated by commas.
pub open spec fn spec_quoted_items(vs: Seq<Seq<char>>) -> Seq<char>
    decreases vs.len(),
{
    if vs.len() == 0 {
        Seq::empty()
    } else {
        spec_quoted_items(vs.drop_last()) + (if vs.len() > 1 {
            ", "@
        } else {
            Seq::empty()
        }) + "\""@ + vs.last() + "\""@
    }
}

pub open spec fn spec_str_list_line(label: Seq<char>, vs: Seq<Seq<char>>) -> Seq<char> {
    label + "["@ + spec_quoted_items(vs) + "]\n"@
}

pub open spec fn spec_opt_str_list_line(label: Seq<char>, v: Option<Seq<Seq<char>>>)
    -> Seq<char> {
    match v {
        Some(vs) => spec_str_list_line(label, vs),
        None => Seq::empty(),
    }
}

/// A bare label line when the value is present at all.
pub open spec fn spec_marker_line(label: Seq<char>, present: bool) -> Seq<char> {
    if present {
        label + "\n"@
    } else {
        Seq::empty()
    }
}

fn push_line(out: &mut String, text: &str)
    ensures
        final(out)@ == old(out)@ + (text@ + "\n"@),
{
    out.append(text);
    out.append("\n");
    proof {
        assert(out@ =~= old(out)@ + (text@ + "\n"@));
    }
}

fn push_labeled(out: &mut String, label: &str, value: &str)
    ensures
        final(out)@ == old(out)@ + spec_line(label@, value@),
{
    out.append(label);
    out.append(value);
    out.append("\n");
    proof {
        assert(out@ =~= old(out)@ + spec_line(label@, value@));
    }
}

fn push_bool(out: &mut String, label: &str, value: bool)
    ensures
        final(out)@ == old(out)@ + spec_line(label@, spec_bool_str(value)),
{
    out.append(label);
    if value {
        out.append("true");
    } else {
        out.append("false");
    }
    out.append("\n");
    proof {
        assert(out@ =~= old(out)@ + spec_line(label@, spec_bool_str(value)));
    }
}

fn push_i64(out: &mut String, label: &str, value: i64)
    requires
        value > i64::MIN,
    ensures
        final(out)@ == old(out)@ + spec_line(label@, spec_i64_str(value)),
{
    out.append(label);
    let mut digits: Vec<char> = Vec::new();
    if value < 0 {
        digits.push('-');
    }
    let m: u64 = if value < 0 {
        (-value) as u64
    } else {
        value as u64
    };
    if m == 0 {
        digits.push('0');
    } else {
        push_dec_digits(m, &mut digits);
    }
    proof {
        assert(digits@ =~= spec_i64_str(value));
    }
    let text = string_from_chars(&digits);
    out.append(text.as_str());
    out.append("\n");
    proof {
        assert(out@ =~= old(out)@ + spec_line(label@, spec_i64_str(value)));
    }
}

fn push_str_list(out: &mut String, label: &str, values: &Vec<String>)
    ensures
        final(out)@ == old(out)@ + spec_str_list_line(label@, values.deep_view()),
{
    out.append(label);
    out.append("[");
    let ghost base = out@;
    let mut i: usize = 0;
    proof {
        assert(out@ =~= base + spec_quoted_items(values.deep_view().subrange(0, 0)));
    }
    while i < values.len()
        invariant
            i <= values@.len(),
            out@ == base + spec_quoted_items(values.deep_view().subrange(0, i as int)),
        decreases values@.len() - i,
    {
        if i > 0 {
            out.append(", ");
        }
        out.append("\"");
        out.append(values[i].as_str());
        out.append("\"");
        proof {
            let vs = values.deep_view();
            assert(vs.subrange(0, i + 1).drop_last() =~= vs.subrange(0, i as int));
            assert(vs.subrange(0, i + 1).last() == vs[i as int]);
            assert(out@ =~= base + spec_quoted_items(vs.subrange(0, i + 1)));
        }
        i = i + 1;
    }
    out.append("]\n");
    proof {
        let vs = values.deep_view();
        assert(vs.subrange(0, vs.len() as int) =~= vs);
        assert(out@ =~= old(out)@ + spec_str_list_line(label@, vs));
    }
}

// ---------------------------------------------------------------------------
// Nested record dumps
// ---------------------------------------------------------------------------

/// The lines of one ad label.
#[verifier::opaque]
pub open spec fn spec_adlabel_entry(l: AdLabelV) -> Seq<char> {
    spec_line("  ID: "@, l.id) + spec_line("  Name: "@, l.name) + (match l.account {
        Some(a) => spec_line("  Account ID: "@, a.account_id) + spec_line(
            "  Internal ID: "@,
            a.id,
        ),
        None => Seq::empty(),
    }) + spec_opt_line("  Created Time: "@, l.created_time) + spec_opt_line(
        "  Updated Time: "@,
        l.updated_time,
    )
}

pub open spec fn spec_adlabel_entries(ls: Seq<AdLabelV>) -> Seq<char>
    decreases ls.len(),
{
    if ls.len() == 0 {
        Seq::empty()
    } else {
        spec_adlabel_entries(ls.drop_last()) + spec_adlabel_entry(ls.last())
    }
}

pub open spec fn spec_adlabels_dump(ls: Seq<AdLabelV>) -> Seq<char> {
    ("Ad Labels:"@ + "\n"@) + spec_adlabel_entries(ls)
}

#[verifier::spinoff_prover]
fn adlabel_text(adlabel: &AdLabel) -> (r: String)
    ensures
        r@ == spec_adlabel_entry(adlabel@),
{
    broadcast use lemma_seq_add_assoc_chars, lemma_seq_add_empty_chars;

    let mut out = String::new();
    push_labeled(&mut out, "  ID: ", adlabel.id.as_str());
    push_labeled(&mut out, "  Name: ", adlabel.name.as_str());
    if let Some(account) = &adlabel.account {
        push_labeled(&mut out, "  Account ID: ", account.account_id.as_str());
        push_labeled(&mut out, "  Internal ID: ", account.id.as_str());
    }
    if let Some(created_time) = &adlabel.created_time {
        push_labeled(&mut out, "  Created Time: ", created_time.as_str());
    }
    if let Some(updated_time) = &adlabel.updated_time {
        push_labeled(&mut out, "  Updated Time: ", updated_time.as_str());
    }
    proof {
        reveal(spec_adlabel_entry);
        assert(out@ == spec_adlabel_entry(adlabel@));
    }
    out
}

fn adlabels_text(items: &Vec<AdLabel>) -> (r: String)
    ensures
        r@ == spec_adlabels_dump(items.deep_view()),
{
    broadcast use lemma_seq_add_assoc_chars, lemma_seq_add_empty_chars;

    let mut out = String::new();
    push_line(&mut out, "Ad Labels:");
    let ghost base = out@;
    let mut i: usize = 0;
    proof {
        assert(out@ == base + spec_adlabel_entries(items.deep_view().subrange(0, 0)));
    }
    while i < items.len()
        invariant
            i <= items@.len(),
            base == "Ad Labels:"@ + "\n"@,
            out@ == base + spec_adlabel_entries(items.deep_view().subrange(0, i as int)),
        decreases items@.len() - i,
    {
        let entry = adlabel_text(&items[i]);
        out.append(entry.as_str());
        proof {
            let vs = items.deep_view();
            assert(vs.subrange(0, i + 1).drop_last() =~= vs.subrange(0, i as int));
            assert(vs.subrange(0, i + 1).last() == vs[i as int]);
            assert(out@ == base + spec_adlabel_entries(vs.subrange(0, i + 1)));
        }
        i = i + 1;
    }
    proof {
        assert(items.deep_view().subrange(0, items.deep_view().len() as int)
            =~= items.deep_view());
    }
    out
}

/// The first lines of one brand-lift study.
#[verifier::opaque]
pub open spec fn spec_study_entry_a(s: AdStudyV) -> Seq<char> {
    spec_line("  ID: "@, s.id) + spec_opt_line("  Business: "@, s.business) + spec_opt_line("  Canceled Time: "@, s.canceled_time) + spec_opt_line("  Cooldown Start Time: "@, s.cooldown_start_time) + spec_opt_line("  Created By: "@, s.created_by) + spec_opt_line("  Created Time: "@, s.created_time) + spec_opt_line("  Description: "@, s.description) + spec_opt_line("  End Time: "@, s.end_time)
}

/// The remaining lines of one brand-lift study.
#[verifier::opaque]
pub open spec fn spec_study_entry_b(s: AdStudyV) -> Seq<char> {
    spec_line("  Name: "@, s.name) + spec_opt_line("  Observation End Time: "@, s.observation_end_time) + spec_opt_line("  Results First Available Date: "@, s.results_first_available_date) + spec_opt_line("  Start Time: "@, s.start_time) + spec_opt_line("  Type: "@, s.study_type) + spec_opt_line("  Updated By: "@, s.updated_by) + spec_opt_line("  Updated Time: "@, s.updated_time) + ("----------------------------------------"@ + "\n"@)
}

/// The lines of one brand-lift study.
pub open spec fn spec_study_entry(s: AdStudyV) -> Seq<char> {
    spec_study_entry_a(s) + spec_study_entry_b(s)
}

pub open spec fn spec_study_entries(ls: Seq<AdStudyV>) -> Seq<char>
    decreases ls.len(),
{
    if ls.len() == 0 {
        Seq::empty()
    } else {
        spec_study_entries(ls.drop_last()) + spec_study_entry(ls.last())
    }
}

pub open spec fn spec_studies_dump(ls: Seq<AdStudyV>) -> Seq<char> {
    ("Brand Lift Studies:"@ + "\n"@) + spec_study_entries(ls)
}

#[verifier::rlimit(100)]
#[verifier::spinoff_prover]
fn study_text_a(study: &AdStudy) -> (r: String)
    ensures
        r@ == spec_study_entry_a(study@),
{
    broadcast use lemma_seq_add_assoc_chars, lemma_seq_add_empty_chars;

    let mut out = String::new();
    push_labeled(&mut out, "  ID: ", study.id.as_str());
    if let Some(business) = &study.business {
        push_labeled(&mut out, "  Business: ", business.as_str());
    }
    if let Some(canceled_time) = &study.canceled_time {
        push_labeled(&mut out, "  Canceled Time: ", canceled_time.as_str());
    }
    if let Some(cooldown_start_time) = &study.cooldown_start_time {
        push_labeled(&mut out, "  Cooldown Start Time: ", cooldown_start_time.as_str());
    }
    if let Some(created_by) = &study.created_by {
        push_labeled(&mut out, "  Created By: ", created_by.as_str());
    }
    if let Some(created_time) = &study.created_time {
        push_labeled(&mut out, "  Created Time: ", created_time.as_str());
    }
    if let Some(description) = &study.description {
        push_labeled(&mut out, "  Description: ", description.as_str());
    }
    if let Some(end_time) = &study.end_time {
        push_labeled(&mut out, "  End Time: ", end_time.as_str());
    }
    proof {
        reveal(spec_study_entry_a);
        assert(out@ == spec_study_entry_a(study@));
    }
    out
}

#[verifier::rlimit(100)]
#[verifier::spinoff_prover]
fn study_text_b(study: &AdStudy) -> (r: String)
    ensures
        r@ == spec_study_entry_b(study@),
{
    broadcast use lemma_seq_add_assoc_chars, lemma_seq_add_empty_chars;

    let mut out = String::new();
    push_labeled(&mut out, "  Name: ", study.name.as_str());
    if let Some(observation_end_time) = &study.observation_end_time {
        push_labeled(&mut out, "  Observation End Time: ", observation_end_time.as_str());
    }
    if let Some(results_first_available_date) = &study.results_first_available_date {
        push_labeled(&mut out, "  Results First Available Date: ", results_first_available_date.as_str());
    }
    if let Some(start_time) = &study.start_time {
        push_labeled(&mut out, "  Start Time: ", start_time.as_str());
    }
    if let Some(study_type) = &study.study_type {
        push_labeled(&mut out, "  Type: ", study_type.as_str());
    }
    if let Some(updated_by) = &study.updated_by {
        push_labeled(&mut out, "  Updated By: ", updated_by.as_str());
    }
    if let Some(updated_time) = &study.updated_time {
        push_labeled(&mut out, "  Updated Time: ", updated_time.as_str());
    }
    push_line(&mut out, "----------------------------------------");
    proof {
        reveal(spec_study_entry_b);
        assert(out@ == spec_study_entry_b(study@));
    }
    out
}

fn study_text(study: &AdStudy) -> (r: String)
    ensures
        r@ == spec_study_entry(study@),
{
    broadcast use lemma_seq_add_empty_chars;

    let mut out = String::new();
    let part_a = study_text_a(study);
    out.append(part_a.as_str());
    let part_b = study_text_b(study);
    out.append(part_b.as_str());
    proof {
        assert(out@ == spec_study_entry(study@));
    }
    out
}

fn studies_text(items: &Vec<AdStudy>) -> (r: String)
    ensures
        r@ == spec_studies_dump(items.deep_view()),
{
    broadcast use lemma_seq_add_assoc_chars, lemma_seq_add_empty_chars;

    let mut out = String::new();
    push_line(&mut out, "Brand Lift Studies:");
    let ghost base = out@;
    let mut i: usize = 0;
    proof {
        assert(out@ == base + spec_study_entries(items.deep_view().subrange(0, 0)));
    }
    while i < items.len()
        invariant
            i <= items@.len(),
            base == "Brand Lift Studies:"@ + "\n"@,
            out@ == base + spec_study_entries(items.deep_view().subrange(0, i as int)),
        decreases items@.len() - i,
    {
        let entry = study_text(&items[i]);
        out.append(entry.as_str());
        proof {
            let vs = items.deep_view();
            assert(vs.subrange(0, i + 1).drop_last() =~= vs.subrange(0, i as int));
            assert(vs.subrange(0, i + 1).last() == vs[i as int]);
            assert(out@ == base + spec_study_entries(vs.subrange(0, i + 1)));
        }
        i = i + 1;
    }
    proof {
        assert(items.deep_view().subrange(0, items.deep_view().len() as int)
            =~= items.deep_view());
    }
    out
}

/// The lines of one delivery issue.
#[verifier::opaque]
pub open spec fn spec_issue_entry(x: AdCampaignIssuesInfoV) -> Seq<char> {
    spec_opt_i32_line("  Error Code: "@, x.error_code) + spec_opt_line("  Error Message: "@, x.error_message) + spec_opt_line("  Error Summary: "@, x.error_summary) + spec_opt_line("  Error Type: "@, x.error_type) + spec_opt_line("  Level: "@, x.level) + ("----------------------------------------"@ + "\n"@)
}

pub open spec fn spec_issue_entries(ls: Seq<AdCampaignIssuesInfoV>) -> Seq<char>
    decreases ls.len(),
{
    if ls.len() == 0 {
        Seq::empty()
    } else {
        spec_issue_entries(ls.drop_last()) + spec_issue_entry(ls.last())
    }
}

pub open spec fn spec_issues_dump(ls: Seq<AdCampaignIssuesInfoV>) -> Seq<char> {
    ("Campaign Issues:"@ + "\n"@) + spec_issue_entries(ls)
}

#[verifier::spinoff_prover]
fn issue_text(issue: &AdCampaignIssuesInfo) -> (r: String)
    ensures
        r@ == spec_issue_entry(issue@),
{
    broadcast use lemma_seq_add_assoc_chars, lemma_seq_add_empty_chars;

    let mut out = String::new();
    if let Some(error_code) = issue.error_code {
        push_i64(&mut out, "  Error Code: ", error_code as i64);
    }
    if let Some(error_message) = &issue.error_message {
        push_labeled(&mut out, "  Error Message: ", error_message.as_str());
    }
    if let Some(error_summary) = &issue.error_summary {
        push_labeled(&mut out, "  Error Summary: ", error_summary.as_str());
    }
    if let Some(error_type) = &issue.error_type {
        push_labeled(&mut out, "  Error Type: ", error_type.as_str());
    }
    if let Some(level) = &issue.level {
        push_labeled(&mut out, "  Level: ", level.as_str());
    }
    push_line(&mut out, "----------------------------------------");
    proof {
        reveal(spec_issue_entry);
        assert(out@ == spec_issue_entry(issue@));
    }
    out
}

fn issues_text(items: &Vec<AdCampaignIssuesInfo>) -> (r: String)
    ensures
        r@ == spec_issues_dump(items.deep_view()),
{
    broadcast use lemma_seq_add_assoc_chars, lemma_seq_add_empty_chars;

    let mut out = String::new();
    push_line(&mut out, "Campaign Issues:");
    let ghost base = out@;
    let mut i: usize = 0;
    proof {
        assert(out@ == base + spec_issue_entries(items.deep_view().subrange(0, 0)));
    }
    while i < items.len()
        invariant
            i <= items@.len(),
            base == "Campaign Issues:"@ + "\n"@,
            out@ == base + spec_issue_entries(items.deep_view().subrange(0, i as int)),
        decreases items@.len() - i,
    {
        let entry = issue_text(&items[i]);
        out.append(entry.as_str());
        proof {
            let vs = items.deep_view();
            assert(vs.subrange(0, i + 1).drop_last() =~= vs.subrange(0, i as int));
            assert(vs.subrange(0, i + 1).last() == vs[i as int]);
            assert(out@ == base + spec_issue_entries(vs.subrange(0, i + 1)));
        }
        i = i + 1;
    }
    proof {
        assert(items.deep_view().subrange(0, items.deep_view().len() as int)
            =~= items.deep_view());
    }
    out
}

/// The first lines of a promoted object.
#[verifier::opaque]
pub open spec fn spec_promoted_dump_a(p: AdPromotedObjectV) -> Seq<char> {
    ("Promoted Object:"@ + "\n"@) + spec_opt_line("  Application ID: "@, p.application_id) + spec_opt_line("  Boosted Product Set ID: "@, p.boosted_product_set_id) + spec_opt_line("  Conversion Goal ID: "@, p.conversion_goal_id) + spec_opt_line("  Custom Conversion ID: "@, p.custom_conversion_id) + spec_opt_line("  Custom Event String: "@, p.custom_event_str) + spec_opt_line("  Custom Event Type: "@, p.custom_event_type) + spec_opt_line("  Event ID: "@, p.event_id) + spec_opt_line("  Lead Ads Custom Event String: "@, p.lead_ads_custom_event_str)
}

/// The middle lines of a promoted object.
#[verifier::opaque]
pub open spec fn spec_promoted_dump_b(p: AdPromotedObjectV) -> Seq<char> {
    spec_opt_line("  Lead Ads Custom Event Type: "@, p.lead_ads_custom_event_type) + spec_opt_line("  Lead Ads Form Event Source Type: "@, p.lead_ads_form_event_source_type) + spec_opt_line("  MCME Conversion ID: "@, p.mcme_conversion_id) + spec_opt_line("  Object Store URL: "@, p.object_store_url) + spec_opt_line("  Offer ID: "@, p.offer_id) + spec_opt_line("  Offline Conversion Data Set ID: "@, p.offline_conversion_data_set_id) + spec_opt_line("  Offsite Conversion Event ID: "@, p.offsite_conversion_event_id) + spec_opt_line("  Page ID: "@, p.page_id) + spec_opt_line("  Pixel Aggregation Rule: "@, p.pixel_aggregation_rule)
}

/// The last lines of a promoted object.
#[verifier::opaque]
pub open spec fn spec_promoted_dump_c(p: AdPromotedObjectV) -> Seq<char> {
    spec_opt_line("  Pixel ID: "@, p.pixel_id) + spec_opt_line("  Pixel Rule: "@, p.pixel_rule) + spec_opt_line("  Place Page Set ID: "@, p.place_page_set_id) + spec_opt_line("  Product Catalog ID: "@, p.product_catalog_id) + spec_opt_line("  Product Set ID: "@, p.product_set_id) + spec_opt_line("  Retention Days: "@, p.retention_days) + spec_opt_line("  Value Semantic Type: "@, p.value_semantic_type) + spec_opt_line("  Variation: "@, p.variation) + spec_opt_line("  WhatsApp Phone Number: "@, p.whatsapp_phone_number)
}

/// The lines of a promoted object.
pub open spec fn spec_promoted_dump(p: AdPromotedObjectV) -> Seq<char> {
    spec_promoted_dump_a(p) + spec_promoted_dump_b(p) + spec_promoted_dump_c(p)
}

#[verifier::rlimit(100)]
#[verifier::spinoff_prover]
fn promoted_text_a(promoted_object: &AdPromotedObject) -> (r: String)
    ensures
        r@ == spec_promoted_dump_a(promoted_object@),
{
    broadcast use lemma_seq_add_assoc_chars, lemma_seq_add_empty_chars;

    let mut out = String::new();
    push_line(&mut out, "Promoted Object:");
    if let Some(application_id) = &promoted_object.application_id {
        push_labeled(&mut out, "  Application ID: ", application_id.as_str());
    }
    if let Some(boosted_product_set_id) = &promoted_object.boosted_product_set_id {
        push_labeled(&mut out, "  Boosted Product Set ID: ", boosted_product_set_id.as_str());
    }
    if let Some(conversion_goal_id) = &promoted_object.conversion_goal_id {
        push_labeled(&mut out, "  Conversion Goal ID: ", conversion_goal_id.as_str());
    }
    if let Some(custom_conversion_id) = &promoted_object.custom_conversion_id {
        push_labeled(&mut out, "  Custom Conversion ID: ", custom_conversion_id.as_str());
    }
    if let Some(custom_event_str) = &promoted_object.custom_event_str {
        push_labeled(&mut out, "  Custom Event String: ", custom_event_str.as_str());
    }
    if let Some(custom_event_type) = &promoted_object.custom_event_type {
        push_labeled(&mut out, "  Custom Event Type: ", custom_event_type.as_str());
    }
    if let Some(event_id) = &promoted_object.event_id {
        push_labeled(&mut out, "  Event ID: ", event_id.as_str());
    }
    if let Some(lead_ads_custom_event_str) = &promoted_object.lead_ads_custom_event_str {
        push_labeled(&mut out, "  Lead Ads Custom Event String: ", lead_ads_custom_event_str.as_str());
    }
    proof {
        reveal(spec_promoted_dump_a);
        assert(out@ == spec_promoted_dump_a(promoted_object@));
    }
    out
}

#[verifier::rlimit(100)]
#[verifier::spinoff_prover]
fn promoted_text_b(promoted_object: &AdPromotedObject) -> (r: String)
    ensures
        r@ == spec_promoted_dump_b(promoted_object@),
{
    broadcast use lemma_seq_add_assoc_chars, lemma_seq_add_empty_chars;

    let mut out = String::new();
    if let Some(lead_ads_custom_event_type) = &promoted_object.lead_ads_custom_event_type {
        push_labeled(&mut out, "  Lead Ads Custom Event Type: ", lead_ads_custom_event_type.as_str());
    }
    if let Some(lead_ads_form_event_source_type) = &promoted_object.lead_ads_form_event_source_type {
        push_labeled(&mut out, "  Lead Ads Form Event Source Type: ", lead_ads_form_event_source_type.as_str());
    }
    if let Some(mcme_conversion_id) = &promoted_object.mcme_conversion_id {
        push_labeled(&mut out, "  MCME Conversion ID: ", mcme_conversion_id.as_str());
    }
    if let Some(object_store_url) = &promoted_object.object_store_url {
        push_labeled(&mut out, "  Object Store URL: ", object_store_url.as_str());
    }
    if let Some(offer_id) = &promoted_object.offer_id {
        push_labeled(&mut out, "  Offer ID: ", offer_id.as_str());
    }
    if let Some(offline_conversion_data_set_id) = &promoted_object.offline_conversion_data_set_id {
        push_labeled(&mut out, "  Offline Conversion Data Set ID: ", offline_conversion_data_set_id.as_str());
    }
    if let Some(offsite_conversion_event_id) = &promoted_object.offsite_conversion_event_id {
        push_labeled(&mut out, "  Offsite Conversion Event ID: ", offsite_conversion_event_id.as_str());
    }
    if let Some(page_id) = &promoted_object.page_id {
        push_labeled(&mut out, "  Page ID: ", page_id.as_str());
    }
    if let Some(pixel_aggregation_rule) = &promoted_object.pixel_aggregation_rule {
        push_labeled(&mut out, "  Pixel Aggregation Rule: ", pixel_aggregation_rule.as_str());
    }
    proof {
        reveal(spec_promoted_dump_b);
        assert(out@ == spec_promoted_dump_b(promoted_object@));
    }
    out
}

#[verifier::rlimit(100)]
#[verifier::spinoff_prover]
fn promoted_text_c(promoted_object: &AdPromotedObject) -> (r: String)
    ensures
        r@ == spec_promoted_dump_c(promoted_object@),
{
    broadcast use lemma_seq_add_assoc_chars, lemma_seq_add_empty_chars;

    let mut out = String::new();
    if let Some(pixel_id) = &promoted_object.pixel_id {
        push_labeled(&mut out, "  Pixel ID: ", pixel_id.as_str());
    }
    if let Some(pixel_rule) = &promoted_object.pixel_rule {
        push_labeled(&mut out, "  Pixel Rule: ", pixel_rule.as_str());
    }
    if let Some(place_page_set_id) = &promoted_object.place_page_set_id {
        push_labeled(&mut out, "  Place Page Set ID: ", place_page_set_id.as_str());
    }
    if let Some(product_catalog_id) = &promoted_object.product_catalog_id {
        push_labeled(&mut out, "  Product Catalog ID: ", product_catalog_id.as_str());
    }
    if let Some(product_set_id) = &promoted_object.product_set_id {
        push_labeled(&mut out, "  Product Set ID: ", product_set_id.as_str());
    }
    if let Some(retention_days) = &promoted_object.retention_days {
        push_labeled(&mut out, "  Retention Days: ", retention_days.as_str());
    }
    if let Some(value_semantic_type) = &promoted_object.value_semantic_type {
        push_labeled(&mut out, "  Value Semantic Type: ", value_semantic_type.as_str());
    }
    if let Some(variation) = &promoted_object.variation {
        push_labeled(&mut out, "  Variation: ", variation.as_str());
    }
    if let Some(whatsapp_phone_number) = &promoted_object.whatsapp_phone_number {
        push_labeled(&mut out, "  WhatsApp Phone Number: ", whatsapp_phone_number.as_str());
    }
    proof {
        reveal(spec_promoted_dump_c);
        assert(out@ == spec_promoted_dump_c(promoted_object@));
    }
    out
}

fn promoted_text(promoted_object: &AdPromotedObject) -> (r: String)
    ensures
        r@ == spec_promoted_dump(promoted_object@),
{
    broadcast use lemma_seq_add_empty_chars;

    let mut out = String::new();
    let part_a = promoted_text_a(promoted_object);
    out.append(part_a.as_str());
    let part_b = promoted_text_b(promoted_object);
    out.append(part_b.as_str());
    let part_c = promoted_text_c(promoted_object);
    out.append(part_c.as_str());
    proof {
        assert(out@ == spec_promoted_dump(promoted_object@));
    }
    out
}

// ---------------------------------------------------------------------------
// Campaign dumps
// ---------------------------------------------------------------------------

#[verifier::opaque]
pub open spec fn spec_campaign_dump_a(c: CampaignV) -> Seq<char> {
    spec_opt_line("Campaign ID: "@, c.id) + spec_opt_line("Ad Account ID: "@, c.account_id) + (match c.adlabels {
        Some(ls) => spec_adlabels_dump(ls),
        None => Seq::empty(),
    }) + (match c.brand_lift_studies {
        Some(ls) => spec_studies_dump(ls),
        None => Seq::empty(),
    }) + spec_opt_line("Bid Strategy: "@, c.bid_strategy) + spec_opt_line("Boosted Object ID: "@, c.boosted_object_id) + spec_opt_bool_line("Budget Rebalance Flag: "@, c.budget_rebalance_flag) + spec_opt_line("Budget Remaining: "@, c.budget_remaining) + spec_opt_line("Buying Type: "@, c.buying_type) + spec_opt_line("Campaign Group Active Time: "@, c.campaign_group_active_time)
}

#[verifier::opaque]
pub open spec fn spec_campaign_dump_b(c: CampaignV) -> Seq<char> {
    spec_opt_bool_line("Can Create Brand Lift Study: "@, c.can_create_brand_lift_study) + spec_opt_bool_line("Can Use Spend Cap: "@, c.can_use_spend_cap) + spec_opt_line("Configured Status: "@, c.configured_status) + spec_opt_line("Created Time: "@, c.created_time) + spec_opt_line("Daily Budget: "@, c.daily_budget) + spec_opt_line("Effective Status: "@, c.effective_status) + spec_opt_bool_line("Has Secondary SKAdNetwork Reporting: "@, c.has_secondary_skadnetwork_reporting) + spec_opt_bool_line("Is Budget Schedule Enabled: "@, c.is_budget_schedule_enabled) + spec_opt_bool_line("Is SKAdNetwork Attribution: "@, c.is_skadnetwork_attribution) + (match c.issues_info {
        Some(ls) => spec_issues_dump(ls),
        None => Seq::empty(),
    })
}

#[verifier::opaque]
pub open spec fn spec_campaign_dump_c(c: CampaignV) -> Seq<char> {
    spec_opt_line("Last Budget Toggling Time: "@, c.last_budget_toggling_time) + spec_opt_line("Lifetime Budget: "@, c.lifetime_budget) + spec_opt_line("Campaign Name: "@, c.name) + spec_opt_line("Campaign Objective: "@, c.objective) + spec_opt_str_list_line("Pacing Type: "@, c.pacing_type) + spec_opt_line("Primary Attribution: "@, c.primary_attribution) + (match c.promoted_object {
        Some(p) => spec_promoted_dump(p),
        None => Seq::empty(),
    }) + spec_opt_line("Smart Promotion Type: "@, c.smart_promotion_type) + spec_marker_line("Source Campaign: "@, c.source_campaign is Some) + spec_opt_line("Source Campaign ID: "@, c.source_campaign_id)
}

#[verifier::opaque]
pub open spec fn spec_campaign_dump_d(c: CampaignV) -> Seq<char> {
    spec_opt_str_list_line("Special Ad Categories: "@, c.special_ad_categories) + spec_opt_line("Special Ad Category: "@, c.special_ad_category) + spec_opt_str_list_line("Special Ad Category Countries: "@, c.special_ad_category_country) + spec_opt_line("Spend Cap: "@, c.spend_cap) + spec_opt_line("Start Time: "@, c.start_time) + spec_opt_line("Status: "@, c.status) + spec_opt_line("Stop Time: "@, c.stop_time) + spec_opt_line("Topline ID: "@, c.topline_id) + spec_opt_line("Updated Time: "@, c.updated_time)
}

/// The text of one campaign's dump: one labeled line per present field,
/// no line per absent field, in a fixed order; a present source campaign
/// contributes only a marker line and is not recursed into.
pub open spec fn spec_campaign_dump(c: CampaignV) -> Seq<char> {
    spec_campaign_dump_a(c) + spec_campaign_dump_b(c) + spec_campaign_dump_c(c)
        + spec_campaign_dump_d(c)
}

#[verifier::rlimit(100)]
#[verifier::spinoff_prover]
fn campaign_text_a(campaign: &Campaign) -> (r: String)
    ensures
        r@ == spec_campaign_dump_a(campaign@),
{
    broadcast use lemma_seq_add_assoc_chars, lemma_seq_add_empty_chars;

    let mut out = String::new();
    if let Some(id) = &campaign.id {
        push_labeled(&mut out, "Campaign ID: ", id.as_str());
    }
    if let Some(account_id) = &campaign.account_id {
        push_labeled(&mut out, "Ad Account ID: ", account_id.as_str());
    }
    if let Some(adlabels) = &campaign.adlabels {
        let part = adlabels_text(adlabels);
        out.append(part.as_str());
    }
    if let Some(brand_lift_studies) = &campaign.brand_lift_studies {
        let part = studies_text(brand_lift_studies);
        out.append(part.as_str());
    }
    if let Some(bid_strategy) = &campaign.bid_strategy {
        push_labeled(&mut out, "Bid Strategy: ", bid_strategy.as_str());
    }
    if let Some(boosted_object_id) = &campaign.boosted_object_id {
        push_labeled(&mut out, "Boosted Object ID: ", boosted_object_id.as_str());
    }
    if let Some(budget_rebalance_flag) = &campaign.budget_rebalance_flag {
        push_bool(&mut out, "Budget Rebalance Flag: ", *budget_rebalance_flag);
    }
    if let Some(budget_remaining) = &campaign.budget_remaining {
        push_labeled(&mut out, "Budget Remaining: ", budget_remaining.as_str());
    }
    if let Some(buying_type) = &campaign.buying_type {
        push_labeled(&mut out, "Buying Type: ", buying_type.as_str());
    }
    if let Some(campaign_group_active_time) = &campaign.campaign_group_active_time {
        push_labeled(&mut out, "Campaign Group Active Time: ", campaign_group_active_time.as_str());
    }
    proof {
        reveal(spec_campaign_dump_a);
        assert(out@ == spec_campaign_dump_a(campaign@));
    }
    out
}

#[verifier::rlimit(100)]
#[verifier::spinoff_prover]
fn campaign_text_b(campaign: &Campaign) -> (r: String)
    ensures
        r@ == spec_campaign_dump_b(campaign@),
{
    broadcast use lemma_seq_add_assoc_chars, lemma_seq_add_empty_chars;

    let mut out = String::new();
    if let Some(can_create_brand_lift_study) = &campaign.can_create_brand_lift_study {
        push_bool(&mut out, "Can Create Brand Lift Study: ", *can_create_brand_lift_study);
    }
    if let Some(can_use_spend_cap) = &campaign.can_use_spend_cap {
        push_bool(&mut out, "Can Use Spend Cap: ", *can_use_spend_cap);
    }
    if let Some(configured_status) = &campaign.configured_status {
        push_labeled(&mut out, "Configured Status: ", configured_status.as_str());
    }
    if let Some(created_time) = &campaign.created_time {
        push_labeled(&mut out, "Created Time: ", created_time.as_str());
    }
    if let Some(daily_budget) = &campaign.daily_budget {
        push_labeled(&mut out, "Daily Budget: ", daily_budget.as_str());
    }
    if let Some(effective_status) = &campaign.effective_status {
        push_labeled(&mut out, "Effective Status: ", effective_status.as_str());
    }
    if let Some(has_secondary_skadnetwork_reporting) = &campaign.has_secondary_skadnetwork_reporting {
        push_bool(&mut out, "Has Secondary SKAdNetwork Reporting: ", *has_secondary_skadnetwork_reporting);
    }
    if let Some(is_budget_schedule_enabled) = &campaign.is_budget_schedule_enabled {
        push_bool(&mut out, "Is Budget Schedule Enabled: ", *is_budget_schedule_enabled);
    }
    if let Some(is_skadnetwork_attribution) = &campaign.is_skadnetwork_attribution {
        push_bool(&mut out, "Is SKAdNetwork Attribution: ", *is_skadnetwork_attribution);
    }
    if let Some(issues_info) = &campaign.issues_info {
        let part = issues_text(issues_info);
        out.append(part.as_str());
    }
    proof {
        reveal(spec_campaign_dump_b);
        assert(out@ == spec_campaign_dump_b(campaign@));
    }
    out
}

#[verifier::rlimit(100)]
#[verifier::spinoff_prover]
fn campaign_text_c(campaign: &Campaign) -> (r: String)
    ensures
        r@ == spec_campaign_dump_c(campaign@),
{
    broadcast use lemma_seq_add_assoc_chars, lemma_seq_add_empty_chars;

    let mut out = String::new();
    if let Some(last_budget_toggling_time) = &campaign.last_budget_toggling_time {
        push_labeled(&mut out, "Last Budget Toggling Time: ", last_budget_toggling_time.as_str());
    }
    if let Some(lifetime_budget) = &campaign.lifetime_budget {
        push_labeled(&mut out, "Lifetime Budget: ", lifetime_budget.as_str());
    }
    if let Some(name) = &campaign.name {
        push_labeled(&mut out, "Campaign Name: ", name.as_str());
    }
    if let Some(objective) = &campaign.objective {
        push_labeled(&mut out, "Campaign Objective: ", objective.as_str());
    }
    if let Some(pacing_type) = &campaign.pacing_type {
        push_str_list(&mut out, "Pacing Type: ", pacing_type);
    }
    if let Some(primary_attribution) = &campaign.primary_attribution {
        push_labeled(&mut out, "Primary Attribution: ", primary_attribution.as_str());
    }
    if let Some(promoted_object) = &campaign.promoted_object {
        let part = promoted_text(promoted_object);
        out.append(part.as_str());
    }
    if let Some(smart_promotion_type) = &campaign.smart_promotion_type {
        push_labeled(&mut out, "Smart Promotion Type: ", smart_promotion_type.as_str());
    }
    if campaign.source_campaign.is_some() {
        push_line(&mut out, "Source Campaign: ");
    }
    if let Some(source_campaign_id) = &campaign.source_campaign_id {
        push_labeled(&mut out, "Source Campaign ID: ", source_campaign_id.as_str());
    }
    proof {
        reveal(spec_campaign_dump_c);
        assert(out@ == spec_campaign_dump_c(campaign@));
    }
    out
}

#[verifier::rlimit(100)]
#[verifier::spinoff_prover]
fn campaign_text_d(campaign: &Campaign) -> (r: String)
    ensures
        r@ == spec_campaign_dump_d(campaign@),
{
    broadcast use lemma_seq_add_assoc_chars, lemma_seq_add_empty_chars;

    let mut out = String::new();
    if let Some(special_ad_categories) = &campaign.special_ad_categories {
        push_str_list(&mut out, "Special Ad Categories: ", special_ad_categories);
    }
    if let Some(special_ad_category) = &campaign.special_ad_category {
        push_labeled(&mut out, "Special Ad Category: ", special_ad_category.as_str());
    }
    if let Some(special_ad_category_country) = &campaign.special_ad_category_country {
        push_str_list(&mut out, "Special Ad Category Countries: ", special_ad_category_country);
    }
    if let Some(spend_cap) = &campaign.spend_cap {
        push_labeled(&mut out, "Spend Cap: ", spend_cap.as_str());
    }
    if let Some(start_time) = &campaign.start_time {
        push_labeled(&mut out, "Start Time: ", start_time.as_str());
    }
    if let Some(status) = &campaign.status {
        push_labeled(&mut out, "Status: ", status.as_str());
    }
    if let Some(stop_time) = &campaign.stop_time {
        push_labeled(&mut out, "Stop Time: ", stop_time.as_str());
    }
    if let Some(topline_id) = &campaign.topline_id {
        push_labeled(&mut out, "Topline ID: ", topline_id.as_str());
    }
    if let Some(updated_time) = &campaign.updated_time {
        push_labeled(&mut out, "Updated Time: ", updated_time.as_str());
    }
    proof {
        reveal(spec_campaign_dump_d);
        assert(out@ == spec_campaign_dump_d(campaign@));
    }
    out
}

fn campaign_text(campaign: &Campaign) -> (r: String)
    ensures
        r@ == spec_campaign_dump(campaign@),
{
    broadcast use lemma_seq_add_assoc_chars, lemma_seq_add_empty_chars;

    let mut out = String::new();
    let part_a = campaign_text_a(campaign);
    out.append(part_a.as_str());
    let part_b = campaign_text_b(campaign);
    out.append(part_b.as_str());
    let part_c = campaign_text_c(campaign);
    out.append(part_c.as_str());
    let part_d = campaign_text_d(campaign);
    out.append(part_d.as_str());
    proof {
        assert(out@ == spec_campaign_dump(campaign@));
    }
    out
}

impl Campaign {
    /// Human-readable field dump of one campaign.
    pub fn display(&self) -> (r: String)
        ensures
            r@ == spec_campaign_dump(self@),
    {
        campaign_text(self)
    }
}

/// The per-campaign entries of a listing dump, each closed by a
/// separator line.
pub open spec fn spec_campaign_entries(cs: Seq<CampaignV>) -> Seq<char>
    decreases cs.len(),
{
    if cs.len() == 0 {
        Seq::empty()
    } else {
        spec_campaign_entries(cs.drop_last()) + spec_campaign_dump(cs.last()) + ("----------------------------------------"@
            + "\n"@)
    }
}

/// The text of a campaigns-listing dump: heading, paging cursors, then
/// every campaign's dump in data order.
pub open spec fn spec_campaigns_dump(r: CampaignsResponseV) -> Seq<char> {
    ("Displaying Campaigns:"@ + "\n"@) + ("Paging Information:"@ + "\n"@) + spec_line(
        "Before Cursor: "@,
        r.paging.cursors.before,
    ) + spec_line("After Cursor: "@, r.paging.cursors.after) + ("----------------------------------------"@ + "\n"@)
        + spec_campaign_entries(r.data)
}

impl CampaignsResponse {
    /// Human-readable dump of a campaigns listing: the paging cursors,
    /// then every campaign's present fields.
    pub fn display(&self) -> (r: String)
        ensures
            r@ == spec_campaigns_dump(self@),
    {
        broadcast use lemma_seq_add_assoc_chars, lemma_seq_add_empty_chars;

        let mut out = String::new();
        push_line(&mut out, "Displaying Campaigns:");
        push_line(&mut out, "Paging Information:");
        push_labeled(&mut out, "Before Cursor: ", self.paging.cursors.before.as_str());
        push_labeled(&mut out, "After Cursor: ", self.paging.cursors.after.as_str());
        push_line(&mut out, "----------------------------------------");
        let ghost base = out@;
        let mut i: usize = 0;
        proof {
            assert(out@ == base + spec_campaign_entries(self@.data.subrange(0, 0)));
        }
        while i < self.data.len()
            invariant
                i <= self.data@.len(),
                base == ("Displaying Campaigns:"@ + "\n"@) + ("Paging Information:"@
                    + "\n"@) + spec_line("Before Cursor: "@, self@.paging.cursors.before)
                    + spec_line("After Cursor: "@, self@.paging.cursors.after) + ("----------------------------------------"@
                    + "\n"@),
                out@ == base + spec_campaign_entries(self@.data.subrange(0, i as int)),
            decreases self.data@.len() - i,
        {
            let entry = campaign_text(&self.data[i]);
            out.append(entry.as_str());
            push_line(&mut out, "----------------------------------------");
            proof {
                let vs = self@.data;
                assert(vs.subrange(0, i + 1).drop_last() =~= vs.subrange(0, i as int));
                assert(vs.subrange(0, i + 1).last() == vs[i as int]);
                assert(out@ == base + spec_campaign_entries(vs.subrange(0, i + 1)));
            }
            i = i + 1;
        }
        proof {
            assert(self@.data.subrange(0, self@.data.len() as int) =~= self@.data);
            assert(out@ == spec_campaigns_dump(self@));
        }
        out
    }
}

// ---------------------------------------------------------------------------
// Ad-accounts and ad-sets dumps
// ---------------------------------------------------------------------------

/// The text of an ad-accounts dump.
pub open spec fn spec_accounts_dump(r: AdsAccountsResponseV) -> Seq<char> {
    spec_accounts_lines(r.data) + ("\nPaging Information:"@ + "\n"@) + spec_line(
        "Before Cursor: "@,
        r.paging.cursors.before,
    ) + spec_line("After Cursor: "@, r.paging.cursors.after)
}

pub open spec fn spec_accounts_lines(accounts: Seq<AdAccountV>) -> Seq<char>
    decreases accounts.len(),
{
    if accounts.len() == 0 {
        Seq::empty()
    } else {
        spec_accounts_lines(accounts.drop_last()) + (spec_line(
            "Ad Account ID: "@,
            accounts.last().account_id,
        ) + spec_line("Ad Account Internal ID: "@, accounts.last().id))
    }
}

impl AdsAccountsResponse {
    /// Human-readable dump of an ad-accounts listing: both identifiers of
    /// every account, then the paging cursors.
    pub fn display(&self) -> (r: String)
        ensures
            r@ == ("Displaying Ads Accounts:"@ + "\n"@) + spec_accounts_dump(self@),
    {
        broadcast use lemma_seq_add_assoc_chars, lemma_seq_add_empty_chars;

        let mut out = String::new();
        push_line(&mut out, "Displaying Ads Accounts:");
        let ghost base = out@;
        let mut i: usize = 0;
        proof {
            assert(out@ == base + spec_accounts_lines(self@.data.subrange(0, 0)));
        }
        while i < self.data.len()
            invariant
                i <= self.data@.len(),
                base == "Displaying Ads Accounts:"@ + "\n"@,
                out@ == base + spec_accounts_lines(self@.data.subrange(0, i as int)),
            decreases self.data@.len() - i,
        {
            let account = &self.data[i];
            push_labeled(&mut out, "Ad Account ID: ", account.account_id.as_str());
            push_labeled(&mut out, "Ad Account Internal ID: ", account.id.as_str());
            proof {
                let vs = self@.data;
                assert(vs.subrange(0, i + 1).drop_last() =~= vs.subrange(0, i as int));
                assert(vs.subrange(0, i + 1).last() == vs[i as int]);
                assert(out@ == base + spec_accounts_lines(vs.subrange(0, i + 1)));
            }
            i = i + 1;
        }
        push_line(&mut out, "\nPaging Information:");
        push_labeled(&mut out, "Before Cursor: ", self.paging.cursors.before.as_str());
        push_labeled(&mut out, "After Cursor: ", self.paging.cursors.after.as_str());
        proof {
            assert(self@.data.subrange(0, self@.data.len() as int) =~= self@.data);
            assert(out@ == ("Displaying Ads Accounts:"@ + "\n"@) + spec_accounts_dump(
                self@,
            ));
        }
        out
    }
}

impl AdSetResponse {
    /// Dump of an ad-sets listing. It deliberately carries no text: the
    /// ad-sets listing has always produced an empty dump, and that
    /// emptiness is preserved here as intended behaviour.
    pub fn display(&self) -> (r: String)
        ensures
            r@.len() == 0,
    {
        String::new()
    }
}

} // verus!
