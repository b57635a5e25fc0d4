use vstd::prelude::*;
use crate::json::{Json, JsonV, jview, views_of, views_of_pairs};
use crate::types::ad_set_v;
use crate::text::{eq_str, num_text_i32, num_text_i64, num_text_u32, num_text_u64, num_text_u8, spec_num_i32, spec_num_i64, spec_num_u32, spec_num_u64, spec_num_u8};
use crate::types::{
    Ad, AdAccount, AdAccountV, AdBidAdjustments, AdBidAdjustmentsV, AdCampaignBidConstraint,
    AdCampaignBidConstraintV, AdCampaignFrequencyControlSpecs,
    AdCampaignFrequencyControlSpecsV, AdCampaignIssuesInfo, AdCampaignIssuesInfoV,
    AdCampaignLearningStageInfo, AdCampaignLearningStageInfoV, AdLabel, AdLabelV,
    AdPromotedObject, AdPromotedObjectV, AdRecommendation, AdRecommendationV, AdResponse,
    AdResponseV, AdSet, AdSetResponse, AdSetResponseV, AdSetV, AdStudy, AdStudyV, AdV,
    AdgroupIssuesInfo, AdgroupIssuesInfoV, AdgroupPlacementSpecificReviewFeedback,
    AdgroupPlacementSpecificReviewFeedbackV, AdgroupReviewFeedback, AdgroupReviewFeedbackV,
    AdsAccountsResponse, AdsAccountsResponseV, AppAccessResponse, AppAccessResponseV, Campaign,
    CampaignV, CampaignsResponse, CampaignsResponseV, CityTargeting, CityTargetingV,
    ConversionActionQuery, ConversionActionQueryV, Cursors, CursorsV, CustomLocation,
    CustomLocationV, DayPart, DayPartV, InterestOrBehavior, InterestOrBehaviorV, LocationKey,
    LocationKeyV, Paging, PagingV, PlaceTargeting, PlaceTargetingV, Targeting,
    TargetingOptimizationTypes, TargetingOptimizationTypesV, TargetingV,
};

verus! {

// ---------------------------------------------------------------------------
// Object member lookup
// ---------------------------------------------------------------------------

/// The value of the first member of `ms` whose key is `key`, if any. An
/// object with a repeated key deliberately reads as its first occurrence;
/// every decoding contract goes through this function, so that choice is
/// part of what the decoders promise.
pub open spec fn obj_lookup(ms: Seq<(Seq<char>, JsonV)>, key: Seq<char>) -> Option<JsonV>
    decreases ms.len(),
{
    if ms.len() == 0 {
        None
    } else if ms[0].0 == key {
        Some(ms[0].1)
    } else {
        obj_lookup(ms.drop_first(), key)
    }
}

pub fn obj_get<'a>(ms: &'a Vec<(String, Json)>, key: &str) -> (r: Option<&'a Json>)
    ensures
        match r {
            Some(v) => obj_lookup(views_of_pairs(ms@), key@) == Some(jview(*v)) && exists|q: int|
                0 <= q < ms@.len() && *v == ms@[q].1,
            None => obj_lookup(views_of_pairs(ms@), key@) is None,
        },
{
    let ghost vp = views_of_pairs(ms@);
    let n: usize = ms.len();
    let mut i: usize = 0;
    proof {
        assert(vp.subrange(0, n as int) =~= vp);
    }
    while i < n
        invariant
            i <= n,
            n == ms@.len(),
            vp == views_of_pairs(ms@),
            obj_lookup(vp, key@) == obj_lookup(vp.subrange(i as int, n as int), key@),
        decreases n - i,
    {
        let pair = &ms[i];
        if eq_str(pair.0.as_str(), key) {
            proof {
                assert(vp.subrange(i as int, n as int)[0] == vp[i as int]);
            }
            return Some(&pair.1);
        }
        proof {
            assert(vp.subrange(i as int, n as int)[0] == vp[i as int]);
            assert(vp.subrange(i as int, n as int).drop_first() =~= vp.subrange(
                i + 1 as int,
                n as int,
            ));
        }
        i = i + 1;
    }
    proof {
        assert(vp.subrange(n as int, n as int).len() == 0);
    }
    None
}

// ---------------------------------------------------------------------------
// Field extraction: plain shapes
// ---------------------------------------------------------------------------

/// An optional string field: absent or null is accepted as absent; any
/// present value of another type is a decoding error (`None`).
pub open spec fn fld_str(ms: Seq<(Seq<char>, JsonV)>, key: Seq<char>) -> Option<
    Option<Seq<char>>,
> {
    match obj_lookup(ms, key) {
        None => Some(None),
        Some(v) => match v {
            JsonV::Null => Some(None),
            JsonV::Str(s) => Some(Some(s)),
            _ => None,
        },
    }
}

pub fn get_str_fld(ms: &Vec<(String, Json)>, key: &str) -> (r: Option<Option<String>>)
    ensures
        match r {
            Some(o) => fld_str(views_of_pairs(ms@), key@) == Some(o.deep_view()),
            None => fld_str(views_of_pairs(ms@), key@) is None,
        },
{
    match obj_get(ms, key) {
        None => Some(None),
        Some(v) => match v {
            Json::Null => Some(None),
            Json::Str(s) => Some(Some(s.clone())),
            _ => None,
        },
    }
}

/// A required string field: it must be present and hold a string.
pub open spec fn fld_req_str(ms: Seq<(Seq<char>, JsonV)>, key: Seq<char>) -> Option<Seq<char>> {
    match obj_lookup(ms, key) {
        Some(v) => match v {
            JsonV::Str(s) => Some(s),
            _ => None,
        },
        None => None,
    }
}

pub fn get_req_str_fld(ms: &Vec<(String, Json)>, key: &str) -> (r: Option<String>)
    ensures
        match r {
            Some(s) => fld_req_str(views_of_pairs(ms@), key@) == Some(s@),
            None => fld_req_str(views_of_pairs(ms@), key@) is None,
        },
{
    match obj_get(ms, key) {
        Some(v) => match v {
            Json::Str(s) => Some(s.clone()),
            _ => None,
        },
        None => None,
    }
}

/// An optional boolean field.
pub open spec fn fld_bool(ms: Seq<(Seq<char>, JsonV)>, key: Seq<char>) -> Option<Option<bool>> {
    match obj_lookup(ms, key) {
        None => Some(None),
        Some(v) => match v {
            JsonV::Null => Some(None),
            JsonV::Bool(b) => Some(Some(b)),
            _ => None,
        },
    }
}

pub fn get_bool_fld(ms: &Vec<(String, Json)>, key: &str) -> (r: Option<Option<bool>>)
    ensures
        match r {
            Some(o) => fld_bool(views_of_pairs(ms@), key@) == Some(o),
            None => fld_bool(views_of_pairs(ms@), key@) is None,
        },
{
    match obj_get(ms, key) {
        None => Some(None),
        Some(v) => match v {
            Json::Null => Some(None),
            Json::Bool(b) => Some(Some(*b)),
            _ => None,
        },
    }
}

// ---------------------------------------------------------------------------
// Field extraction: numbers
// ---------------------------------------------------------------------------

/// An optional unsigned 8-bit field.
pub open spec fn fld_u8(ms: Seq<(Seq<char>, JsonV)>, key: Seq<char>) -> Option<Option<u8>> {
    match obj_lookup(ms, key) {
        None => Some(None),
        Some(v) => match v {
            JsonV::Null => Some(None),
            JsonV::Num(t) => match spec_num_u8(t) {
                Some(x) => Some(Some(x)),
                None => None,
            },
            _ => None,
        },
    }
}

pub fn get_u8_fld(ms: &Vec<(String, Json)>, key: &str) -> (r: Option<Option<u8>>)
    ensures
        match r {
            Some(o) => fld_u8(views_of_pairs(ms@), key@) == Some(o),
            None => fld_u8(views_of_pairs(ms@), key@) is None,
        },
{
    match obj_get(ms, key) {
        None => Some(None),
        Some(v) => match v {
            Json::Null => Some(None),
            Json::Num(t) => match num_text_u8(t.as_str()) {
                Some(x) => Some(Some(x)),
                None => None,
            },
            _ => None,
        },
    }
}

/// An optional unsigned 32-bit field.
pub open spec fn fld_u32(ms: Seq<(Seq<char>, JsonV)>, key: Seq<char>) -> Option<Option<u32>> {
    match obj_lookup(ms, key) {
        None => Some(None),
        Some(v) => match v {
            JsonV::Null => Some(None),
            JsonV::Num(t) => match spec_num_u32(t) {
                Some(x) => Some(Some(x)),
                None => None,
            },
            _ => None,
        },
    }
}

pub fn get_u32_fld(ms: &Vec<(String, Json)>, key: &str) -> (r: Option<Option<u32>>)
    ensures
        match r {
            Some(o) => fld_u32(views_of_pairs(ms@), key@) == Some(o),
            None => fld_u32(views_of_pairs(ms@), key@) is None,
        },
{
    match obj_get(ms, key) {
        None => Some(None),
        Some(v) => match v {
            Json::Null => Some(None),
            Json::Num(t) => match num_text_u32(t.as_str()) {
                Some(x) => Some(Some(x)),
                None => None,
            },
            _ => None,
        },
    }
}

/// An optional signed 32-bit field.
pub open spec fn fld_i32(ms: Seq<(Seq<char>, JsonV)>, key: Seq<char>) -> Option<Option<i32>> {
    match obj_lookup(ms, key) {
        None => Some(None),
        Some(v) => match v {
            JsonV::Null => Some(None),
            JsonV::Num(t) => match spec_num_i32(t) {
                Some(x) => Some(Some(x)),
                None => None,
            },
            _ => None,
        },
    }
}

pub fn get_i32_fld(ms: &Vec<(String, Json)>, key: &str) -> (r: Option<Option<i32>>)
    ensures
        match r {
            Some(o) => fld_i32(views_of_pairs(ms@), key@) == Some(o),
            None => fld_i32(views_of_pairs(ms@), key@) is None,
        },
{
    match obj_get(ms, key) {
        None => Some(None),
        Some(v) => match v {
            Json::Null => Some(None),
            Json::Num(t) => match num_text_i32(t.as_str()) {
                Some(x) => Some(Some(x)),
                None => None,
            },
            _ => None,
        },
    }
}

/// An optional signed 64-bit field.
pub open spec fn fld_i64(ms: Seq<(Seq<char>, JsonV)>, key: Seq<char>) -> Option<Option<i64>> {
    match obj_lookup(ms, key) {
        None => Some(None),
        Some(v) => match v {
            JsonV::Null => Some(None),
            JsonV::Num(t) => match spec_num_i64(t) {
                Some(x) => Some(Some(x)),
                None => None,
            },
            _ => None,
        },
    }
}

pub fn get_i64_fld(ms: &Vec<(String, Json)>, key: &str) -> (r: Option<Option<i64>>)
    ensures
        match r {
            Some(o) => fld_i64(views_of_pairs(ms@), key@) == Some(o),
            None => fld_i64(views_of_pairs(ms@), key@) is None,
        },
{
    match obj_get(ms, key) {
        None => Some(None),
        Some(v) => match v {
            Json::Null => Some(None),
            Json::Num(t) => match num_text_i64(t.as_str()) {
                Some(x) => Some(Some(x)),
                None => None,
            },
            _ => None,
        },
    }
}

/// A required unsigned 8-bit field.
pub open spec fn fld_req_u8(ms: Seq<(Seq<char>, JsonV)>, key: Seq<char>) -> Option<u8> {
    match obj_lookup(ms, key) {
        Some(v) => match v {
            JsonV::Num(t) => spec_num_u8(t),
            _ => None,
        },
        None => None,
    }
}

pub fn get_req_u8_fld(ms: &Vec<(String, Json)>, key: &str) -> (r: Option<u8>)
    ensures
        r == fld_req_u8(views_of_pairs(ms@), key@),
{
    match obj_get(ms, key) {
        Some(v) => match v {
            Json::Num(t) => num_text_u8(t.as_str()),
            _ => None,
        },
        None => None,
    }
}

/// A required unsigned 64-bit field.
pub open spec fn fld_req_u64(ms: Seq<(Seq<char>, JsonV)>, key: Seq<char>) -> Option<u64> {
    match obj_lookup(ms, key) {
        Some(v) => match v {
            JsonV::Num(t) => spec_num_u64(t),
            _ => None,
        },
        None => None,
    }
}

pub fn get_req_u64_fld(ms: &Vec<(String, Json)>, key: &str) -> (r: Option<u64>)
    ensures
        r == fld_req_u64(views_of_pairs(ms@), key@),
{
    match obj_get(ms, key) {
        Some(v) => match v {
            Json::Num(t) => num_text_u64(t.as_str()),
            _ => None,
        },
        None => None,
    }
}

/// A required signed 32-bit field.
pub open spec fn fld_req_i32(ms: Seq<(Seq<char>, JsonV)>, key: Seq<char>) -> Option<i32> {
    match obj_lookup(ms, key) {
        Some(v) => match v {
            JsonV::Num(t) => spec_num_i32(t),
            _ => None,
        },
        None => None,
    }
}

pub fn get_req_i32_fld(ms: &Vec<(String, Json)>, key: &str) -> (r: Option<i32>)
    ensures
        r == fld_req_i32(views_of_pairs(ms@), key@),
{
    match obj_get(ms, key) {
        Some(v) => match v {
            Json::Num(t) => num_text_i32(t.as_str()),
            _ => None,
        },
        None => None,
    }
}

/// A required number field kept as its literal text.
pub open spec fn fld_req_numtext(ms: Seq<(Seq<char>, JsonV)>, key: Seq<char>) -> Option<
    Seq<char>,
> {
    match obj_lookup(ms, key) {
        Some(v) => match v {
            JsonV::Num(t) => Some(t),
            _ => None,
        },
        None => None,
    }
}

pub fn get_req_numtext_fld(ms: &Vec<(String, Json)>, key: &str) -> (r: Option<String>)
    ensures
        match r {
            Some(s) => fld_req_numtext(views_of_pairs(ms@), key@) == Some(s@),
            None => fld_req_numtext(views_of_pairs(ms@), key@) is None,
        },
{
    match obj_get(ms, key) {
        Some(v) => match v {
            Json::Num(t) => Some(t.clone()),
            _ => None,
        },
        None => None,
    }
}

// ---------------------------------------------------------------------------
// Field extraction: lists of scalars
// ---------------------------------------------------------------------------

pub open spec fn strs_of(items: Seq<JsonV>) -> Option<Seq<Seq<char>>>
    decreases items.len(),
{
    if items.len() == 0 {
        Some(Seq::empty())
    } else {
        match items[0] {
            JsonV::Str(s) => match strs_of(items.drop_first()) {
                Some(rest) => Some(seq![s] + rest),
                None => None,
            },
            _ => None,
        }
    }
}

fn strs_from(items: &Vec<Json>, from: usize) -> (r: Option<Vec<String>>)
    requires
        from <= items@.len(),
    ensures
        match r {
            Some(v) => strs_of(views_of(items@).subrange(from as int, items@.len() as int))
                == Some(v.deep_view()),
            None => strs_of(views_of(items@).subrange(from as int, items@.len() as int)) is None,
        },
    decreases items@.len() - from,
{
    let ghost tail = views_of(items@).subrange(from as int, items@.len() as int);
    if from == items.len() {
        let out: Vec<String> = Vec::new();
        proof {
            assert(out.deep_view() =~= Seq::<Seq<char>>::empty());
        }
        return Some(out);
    }
    proof {
        assert(tail[0] == views_of(items@)[from as int]);
        assert(tail.drop_first() =~= views_of(items@).subrange(
            from + 1 as int,
            items@.len() as int,
        ));
    }
    let it = &items[from];
    match it {
        Json::Str(s) => match strs_from(items, from + 1) {
            Some(rest) => {
                let ghost rest0 = rest.deep_view();
                let mut out = rest;
                out.insert(0, s.clone());
                proof {
                    assert(out.deep_view() =~= seq![s@] + rest0);
                }
                Some(out)
            },
            None => None,
        },
        _ => None,
    }
}

pub open spec fn u8s_of(items: Seq<JsonV>) -> Option<Seq<u8>>
    decreases items.len(),
{
    if items.len() == 0 {
        Some(Seq::empty())
    } else {
        match items[0] {
            JsonV::Num(t) => match spec_num_u8(t) {
                Some(x) => match u8s_of(items.drop_first()) {
                    Some(rest) => Some(seq![x] + rest),
                    None => None,
                },
                None => None,
            },
            _ => None,
        }
    }
}

fn u8s_from(items: &Vec<Json>, from: usize) -> (r: Option<Vec<u8>>)
    requires
        from <= items@.len(),
    ensures
        match r {
            Some(v) => u8s_of(views_of(items@).subrange(from as int, items@.len() as int))
                == Some(v.deep_view()),
            None => u8s_of(views_of(items@).subrange(from as int, items@.len() as int)) is None,
        },
    decreases items@.len() - from,
{
    let ghost tail = views_of(items@).subrange(from as int, items@.len() as int);
    if from == items.len() {
        let out: Vec<u8> = Vec::new();
        proof {
            assert(out.deep_view() =~= Seq::<u8>::empty());
        }
        return Some(out);
    }
    proof {
        assert(tail[0] == views_of(items@)[from as int]);
        assert(tail.drop_first() =~= views_of(items@).subrange(
            from + 1 as int,
            items@.len() as int,
        ));
    }
    let it = &items[from];
    match it {
        Json::Num(t) => match num_text_u8(t.as_str()) {
            Some(x) => match u8s_from(items, from + 1) {
                Some(rest) => {
                    let ghost rest0 = rest.deep_view();
                    let mut out = rest;
                    out.insert(0, x);
                    proof {
                        assert(out.deep_view() =~= seq![x] + rest0);
                    }
                    Some(out)
                },
                None => None,
            },
            None => None,
        },
        _ => None,
    }
}

pub open spec fn u32s_of(items: Seq<JsonV>) -> Option<Seq<u32>>
    decreases items.len(),
{
    if items.len() == 0 {
        Some(Seq::empty())
    } else {
        match items[0] {
            JsonV::Num(t) => match spec_num_u32(t) {
                Some(x) => match u32s_of(items.drop_first()) {
                    Some(rest) => Some(seq![x] + rest),
                    None => None,
                },
                None => None,
            },
            _ => None,
        }
    }
}

fn u32s_from(items: &Vec<Json>, from: usize) -> (r: Option<Vec<u32>>)
    requires
        from <= items@.len(),
    ensures
        match r {
            Some(v) => u32s_of(views_of(items@).subrange(from as int, items@.len() as int))
                == Some(v.deep_view()),
            None => u32s_of(views_of(items@).subrange(from as int, items@.len() as int)) is None,
        },
    decreases items@.len() - from,
{
    let ghost tail = views_of(items@).subrange(from as int, items@.len() as int);
    if from == items.len() {
        let out: Vec<u32> = Vec::new();
        proof {
            assert(out.deep_view() =~= Seq::<u32>::empty());
        }
        return Some(out);
    }
    proof {
        assert(tail[0] == views_of(items@)[from as int]);
        assert(tail.drop_first() =~= views_of(items@).subrange(
            from + 1 as int,
            items@.len() as int,
        ));
    }
    let it = &items[from];
    match it {
        Json::Num(t) => match num_text_u32(t.as_str()) {
            Some(x) => match u32s_from(items, from + 1) {
                Some(rest) => {
                    let ghost rest0 = rest.deep_view();
                    let mut out = rest;
                    out.insert(0, x);
                    proof {
                        assert(out.deep_view() =~= seq![x] + rest0);
                    }
                    Some(out)
                },
                None => None,
            },
            None => None,
        },
        _ => None,
    }
}

pub open spec fn i32s_of(items: Seq<JsonV>) -> Option<Seq<i32>>
    decreases items.len(),
{
    if items.len() == 0 {
        Some(Seq::empty())
    } else {
        match items[0] {
            JsonV::Num(t) => match spec_num_i32(t) {
                Some(x) => match i32s_of(items.drop_first()) {
                    Some(rest) => Some(seq![x] + rest),
                    None => None,
                },
                None => None,
            },
            _ => None,
        }
    }
}

fn i32s_from(items: &Vec<Json>, from: usize) -> (r: Option<Vec<i32>>)
    requires
        from <= items@.len(),
    ensures
        match r {
            Some(v) => i32s_of(views_of(items@).subrange(from as int, items@.len() as int))
                == Some(v.deep_view()),
            None => i32s_of(views_of(items@).subrange(from as int, items@.len() as int)) is None,
        },
    decreases items@.len() - from,
{
    let ghost tail = views_of(items@).subrange(from as int, items@.len() as int);
    if from == items.len() {
        let out: Vec<i32> = Vec::new();
        proof {
            assert(out.deep_view() =~= Seq::<i32>::empty());
        }
        return Some(out);
    }
    proof {
        assert(tail[0] == views_of(items@)[from as int]);
        assert(tail.drop_first() =~= views_of(items@).subrange(
            from + 1 as int,
            items@.len() as int,
        ));
    }
    let it = &items[from];
    match it {
        Json::Num(t) => match num_text_i32(t.as_str()) {
            Some(x) => match i32s_from(items, from + 1) {
                Some(rest) => {
                    let ghost rest0 = rest.deep_view();
                    let mut out = rest;
                    out.insert(0, x);
                    proof {
                        assert(out.deep_view() =~= seq![x] + rest0);
                    }
                    Some(out)
                },
                None => None,
            },
            None => None,
        },
        _ => None,
    }
}

pub open spec fn i32_lists_of(items: Seq<JsonV>) -> Option<Seq<Seq<i32>>>
    decreases items.len(),
{
    if items.len() == 0 {
        Some(Seq::empty())
    } else {
        match items[0] {
            JsonV::Arr(inner) => match i32s_of(inner) {
                Some(x) => match i32_lists_of(items.drop_first()) {
                    Some(rest) => Some(seq![x] + rest),
                    None => None,
                },
                None => None,
            },
            _ => None,
        }
    }
}

fn i32_lists_from(items: &Vec<Json>, from: usize) -> (r: Option<Vec<Vec<i32>>>)
    requires
        from <= items@.len(),
    ensures
        match r {
            Some(v) => i32_lists_of(views_of(items@).subrange(from as int, items@.len() as int))
                == Some(v.deep_view()),
            None => i32_lists_of(
                views_of(items@).subrange(from as int, items@.len() as int),
            ) is None,
        },
    decreases items@.len() - from,
{
    let ghost tail = views_of(items@).subrange(from as int, items@.len() as int);
    if from == items.len() {
        let out: Vec<Vec<i32>> = Vec::new();
        proof {
            assert(out.deep_view() =~= Seq::<Seq<i32>>::empty());
        }
        return Some(out);
    }
    proof {
        assert(tail[0] == views_of(items@)[from as int]);
        assert(tail.drop_first() =~= views_of(items@).subrange(
            from + 1 as int,
            items@.len() as int,
        ));
    }
    let it = &items[from];
    match it {
        Json::Arr(inner) => {
            proof {
                assert(views_of(inner@).subrange(0, inner@.len() as int) =~= views_of(inner@));
            }
            match i32s_from(inner, 0) {
                Some(x) => match i32_lists_from(items, from + 1) {
                    Some(rest) => {
                        let ghost rest0 = rest.deep_view();
                        let mut out = rest;
                        out.insert(0, x);
                        proof {
                            assert(out.deep_view() =~= seq![x.deep_view()] + rest0);
                        }
                        Some(out)
                    },
                    None => None,
                },
                None => None,
            }
        },
        _ => None,
    }
}

pub open spec fn fld_str_list(ms: Seq<(Seq<char>, JsonV)>, key: Seq<char>) -> Option<
    Option<Seq<Seq<char>>>,
> {
    match obj_lookup(ms, key) {
        None => Some(None),
        Some(v) => match v {
            JsonV::Null => Some(None),
            JsonV::Arr(items) => match strs_of(items) {
                Some(r) => Some(Some(r)),
                None => None,
            },
            _ => None,
        },
    }
}

pub fn get_str_list_fld(ms: &Vec<(String, Json)>, key: &str) -> (r: Option<Option<Vec<String>>>)
    ensures
        match r {
            Some(o) => fld_str_list(views_of_pairs(ms@), key@) == Some(o.deep_view()),
            None => fld_str_list(views_of_pairs(ms@), key@) is None,
        },
{
    match obj_get(ms, key) {
        None => Some(None),
        Some(v) => match v {
            Json::Null => Some(None),
            Json::Arr(items) => {
                proof {
                    assert(views_of(items@).subrange(0, items@.len() as int) =~= views_of(
                        items@,
                    ));
                }
                match strs_from(items, 0) {
                    Some(x) => Some(Some(x)),
                    None => None,
                }
            },
            _ => None,
        },
    }
}

pub open spec fn fld_u8_list(ms: Seq<(Seq<char>, JsonV)>, key: Seq<char>) -> Option<
    Option<Seq<u8>>,
> {
    match obj_lookup(ms, key) {
        None => Some(None),
        Some(v) => match v {
            JsonV::Null => Some(None),
            JsonV::Arr(items) => match u8s_of(items) {
                Some(r) => Some(Some(r)),
                None => None,
            },
            _ => None,
        },
    }
}

pub fn get_u8_list_fld(ms: &Vec<(String, Json)>, key: &str) -> (r: Option<Option<Vec<u8>>>)
    ensures
        match r {
            Some(o) => fld_u8_list(views_of_pairs(ms@), key@) == Some(o.deep_view()),
            None => fld_u8_list(views_of_pairs(ms@), key@) is None,
        },
{
    match obj_get(ms, key) {
        None => Some(None),
        Some(v) => match v {
            Json::Null => Some(None),
            Json::Arr(items) => {
                proof {
                    assert(views_of(items@).subrange(0, items@.len() as int) =~= views_of(
                        items@,
                    ));
                }
                match u8s_from(items, 0) {
                    Some(x) => Some(Some(x)),
                    None => None,
                }
            },
            _ => None,
        },
    }
}

pub open spec fn fld_u32_list(ms: Seq<(Seq<char>, JsonV)>, key: Seq<char>) -> Option<
    Option<Seq<u32>>,
> {
    match obj_lookup(ms, key) {
        None => Some(None),
        Some(v) => match v {
            JsonV::Null => Some(None),
            JsonV::Arr(items) => match u32s_of(items) {
                Some(r) => Some(Some(r)),
                None => None,
            },
            _ => None,
        },
    }
}

pub fn get_u32_list_fld(ms: &Vec<(String, Json)>, key: &str) -> (r: Option<Option<Vec<u32>>>)
    ensures
        match r {
            Some(o) => fld_u32_list(views_of_pairs(ms@), key@) == Some(o.deep_view()),
            None => fld_u32_list(views_of_pairs(ms@), key@) is None,
        },
{
    match obj_get(ms, key) {
        None => Some(None),
        Some(v) => match v {
            Json::Null => Some(None),
            Json::Arr(items) => {
                proof {
                    assert(views_of(items@).subrange(0, items@.len() as int) =~= views_of(
                        items@,
                    ));
                }
                match u32s_from(items, 0) {
                    Some(x) => Some(Some(x)),
                    None => None,
                }
            },
            _ => None,
        },
    }
}

pub open spec fn fld_i32_list(ms: Seq<(Seq<char>, JsonV)>, key: Seq<char>) -> Option<
    Option<Seq<i32>>,
> {
    match obj_lookup(ms, key) {
        None => Some(None),
        Some(v) => match v {
            JsonV::Null => Some(None),
            JsonV::Arr(items) => match i32s_of(items) {
                Some(r) => Some(Some(r)),
                None => None,
            },
            _ => None,
        },
    }
}

pub fn get_i32_list_fld(ms: &Vec<(String, Json)>, key: &str) -> (r: Option<Option<Vec<i32>>>)
    ensures
        match r {
            Some(o) => fld_i32_list(views_of_pairs(ms@), key@) == Some(o.deep_view()),
            None => fld_i32_list(views_of_pairs(ms@), key@) is None,
        },
{
    match obj_get(ms, key) {
        None => Some(None),
        Some(v) => match v {
            Json::Null => Some(None),
            Json::Arr(items) => {
                proof {
                    assert(views_of(items@).subrange(0, items@.len() as int) =~= views_of(
                        items@,
                    ));
                }
                match i32s_from(items, 0) {
                    Some(x) => Some(Some(x)),
                    None => None,
                }
            },
            _ => None,
        },
    }
}

pub open spec fn fld_i32_list_list(ms: Seq<(Seq<char>, JsonV)>, key: Seq<char>) -> Option<
    Option<Seq<Seq<i32>>>,
> {
    match obj_lookup(ms, key) {
        None => Some(None),
        Some(v) => match v {
            JsonV::Null => Some(None),
            JsonV::Arr(items) => match i32_lists_of(items) {
                Some(r) => Some(Some(r)),
                None => None,
            },
            _ => None,
        },
    }
}

pub fn get_i32_list_list_fld(ms: &Vec<(String, Json)>, key: &str) -> (r: Option<
    Option<Vec<Vec<i32>>>,
>)
    ensures
        match r {
            Some(o) => fld_i32_list_list(views_of_pairs(ms@), key@) == Some(o.deep_view()),
            None => fld_i32_list_list(views_of_pairs(ms@), key@) is None,
        },
{
    match obj_get(ms, key) {
        None => Some(None),
        Some(v) => match v {
            Json::Null => Some(None),
            Json::Arr(items) => {
                proof {
                    assert(views_of(items@).subrange(0, items@.len() as int) =~= views_of(
                        items@,
                    ));
                }
                match i32_lists_from(items, 0) {
                    Some(x) => Some(Some(x)),
                    None => None,
                }
            },
            _ => None,
        },
    }
}

// ---------------------------------------------------------------------------
// Field extraction: objects read as key/value lists
// ---------------------------------------------------------------------------

/// An object read as a key/value list of strings: every member is kept in
/// text order, a repeated key included.
pub open spec fn str_map_of(ms: Seq<(Seq<char>, JsonV)>) -> Option<Seq<(Seq<char>, Seq<char>)>>
    decreases ms.len(),
{
    if ms.len() == 0 {
        Some(Seq::empty())
    } else {
        match ms[0].1 {
            JsonV::Str(s) => match str_map_of(ms.drop_first()) {
                Some(rest) => Some(seq![(ms[0].0, s)] + rest),
                None => None,
            },
            _ => None,
        }
    }
}

fn str_map_from(ms: &Vec<(String, Json)>, from: usize) -> (r: Option<Vec<(String, String)>>)
    requires
        from <= ms@.len(),
    ensures
        match r {
            Some(v) => str_map_of(views_of_pairs(ms@).subrange(from as int, ms@.len() as int))
                == Some(v.deep_view()),
            None => str_map_of(
                views_of_pairs(ms@).subrange(from as int, ms@.len() as int),
            ) is None,
        },
    decreases ms@.len() - from,
{
    let ghost tail = views_of_pairs(ms@).subrange(from as int, ms@.len() as int);
    if from == ms.len() {
        let out: Vec<(String, String)> = Vec::new();
        proof {
            assert(out.deep_view() =~= Seq::<(Seq<char>, Seq<char>)>::empty());
        }
        return Some(out);
    }
    proof {
        assert(tail[0] == views_of_pairs(ms@)[from as int]);
        assert(tail.drop_first() =~= views_of_pairs(ms@).subrange(
            from + 1 as int,
            ms@.len() as int,
        ));
    }
    let pair = &ms[from];
    match &pair.1 {
        Json::Str(s) => match str_map_from(ms, from + 1) {
            Some(rest) => {
                let ghost rest0 = rest.deep_view();
                let mut out = rest;
                out.insert(0, (pair.0.clone(), s.clone()));
                proof {
                    assert(out.deep_view() =~= seq![(pair.0@, s@)] + rest0);
                }
                Some(out)
            },
            None => None,
        },
        _ => None,
    }
}

/// An object read as a key/value list of number literals: every member is kept in
/// text order, a repeated key included.
pub open spec fn num_map_of(ms: Seq<(Seq<char>, JsonV)>) -> Option<Seq<(Seq<char>, Seq<char>)>>
    decreases ms.len(),
{
    if ms.len() == 0 {
        Some(Seq::empty())
    } else {
        match ms[0].1 {
            JsonV::Num(t) => match num_map_of(ms.drop_first()) {
                Some(rest) => Some(seq![(ms[0].0, t)] + rest),
                None => None,
            },
            _ => None,
        }
    }
}

fn num_map_from(ms: &Vec<(String, Json)>, from: usize) -> (r: Option<Vec<(String, String)>>)
    requires
        from <= ms@.len(),
    ensures
        match r {
            Some(v) => num_map_of(views_of_pairs(ms@).subrange(from as int, ms@.len() as int))
                == Some(v.deep_view()),
            None => num_map_of(
                views_of_pairs(ms@).subrange(from as int, ms@.len() as int),
            ) is None,
        },
    decreases ms@.len() - from,
{
    let ghost tail = views_of_pairs(ms@).subrange(from as int, ms@.len() as int);
    if from == ms.len() {
        let out: Vec<(String, String)> = Vec::new();
        proof {
            assert(out.deep_view() =~= Seq::<(Seq<char>, Seq<char>)>::empty());
        }
        return Some(out);
    }
    proof {
        assert(tail[0] == views_of_pairs(ms@)[from as int]);
        assert(tail.drop_first() =~= views_of_pairs(ms@).subrange(
            from + 1 as int,
            ms@.len() as int,
        ));
    }
    let pair = &ms[from];
    match &pair.1 {
        Json::Num(t) => match num_map_from(ms, from + 1) {
            Some(rest) => {
                let ghost rest0 = rest.deep_view();
                let mut out = rest;
                out.insert(0, (pair.0.clone(), t.clone()));
                proof {
                    assert(out.deep_view() =~= seq![(pair.0@, t@)] + rest0);
                }
                Some(out)
            },
            None => None,
        },
        _ => None,
    }
}

/// An object read as a key/value list of 32-bit integers: every member is kept in
/// text order, a repeated key included.
pub open spec fn u32_map_of(ms: Seq<(Seq<char>, JsonV)>) -> Option<Seq<(Seq<char>, u32)>>
    decreases ms.len(),
{
    if ms.len() == 0 {
        Some(Seq::empty())
    } else {
        match ms[0].1 {
            JsonV::Num(t) => match spec_num_u32(t) {
                Some(x) => match u32_map_of(ms.drop_first()) {
                    Some(rest) => Some(seq![(ms[0].0, x)] + rest),
                    None => None,
                },
                None => None,
            },
            _ => None,
        }
    }
}

fn u32_map_from(ms: &Vec<(String, Json)>, from: usize) -> (r: Option<Vec<(String, u32)>>)
    requires
        from <= ms@.len(),
    ensures
        match r {
            Some(v) => u32_map_of(views_of_pairs(ms@).subrange(from as int, ms@.len() as int))
                == Some(v.deep_view()),
            None => u32_map_of(
                views_of_pairs(ms@).subrange(from as int, ms@.len() as int),
            ) is None,
        },
    decreases ms@.len() - from,
{
    let ghost tail = views_of_pairs(ms@).subrange(from as int, ms@.len() as int);
    if from == ms.len() {
        let out: Vec<(String, u32)> = Vec::new();
        proof {
            assert(out.deep_view() =~= Seq::<(Seq<char>, u32)>::empty());
        }
        return Some(out);
    }
    proof {
        assert(tail[0] == views_of_pairs(ms@)[from as int]);
        assert(tail.drop_first() =~= views_of_pairs(ms@).subrange(
            from + 1 as int,
            ms@.len() as int,
        ));
    }
    let pair = &ms[from];
    match &pair.1 {
        Json::Num(t) => match num_text_u32(t.as_str()) {
            Some(x) => match u32_map_from(ms, from + 1) {
                Some(rest) => {
                    let ghost rest0 = rest.deep_view();
                    let mut out = rest;
                    out.insert(0, (pair.0.clone(), x));
                    proof {
                        assert(out.deep_view() =~= seq![(pair.0@, x)] + rest0);
                    }
                    Some(out)
                },
                None => None,
            },
            None => None,
        },
        _ => None,
    }
}

pub open spec fn fld_str_map(ms: Seq<(Seq<char>, JsonV)>, key: Seq<char>) -> Option<
    Option<Seq<(Seq<char>, Seq<char>)>>,
> {
    match obj_lookup(ms, key) {
        None => Some(None),
        Some(v) => match v {
            JsonV::Null => Some(None),
            JsonV::Obj(inner) => match str_map_of(inner) {
                Some(r) => Some(Some(r)),
                None => None,
            },
            _ => None,
        },
    }
}

pub fn get_str_map_fld(ms: &Vec<(String, Json)>, key: &str) -> (r: Option<
    Option<Vec<(String, String)>>,
>)
    ensures
        match r {
            Some(o) => fld_str_map(views_of_pairs(ms@), key@) == Some(o.deep_view()),
            None => fld_str_map(views_of_pairs(ms@), key@) is None,
        },
{
    match obj_get(ms, key) {
        None => Some(None),
        Some(v) => match v {
            Json::Null => Some(None),
            Json::Obj(inner) => {
                proof {
                    assert(views_of_pairs(inner@).subrange(0, inner@.len() as int)
                        =~= views_of_pairs(inner@));
                }
                match str_map_from(inner, 0) {
                    Some(x) => Some(Some(x)),
                    None => None,
                }
            },
            _ => None,
        },
    }
}

pub open spec fn fld_u32_map(ms: Seq<(Seq<char>, JsonV)>, key: Seq<char>) -> Option<
    Option<Seq<(Seq<char>, u32)>>,
> {
    match obj_lookup(ms, key) {
        None => Some(None),
        Some(v) => match v {
            JsonV::Null => Some(None),
            JsonV::Obj(inner) => match u32_map_of(inner) {
                Some(r) => Some(Some(r)),
                None => None,
            },
            _ => None,
        },
    }
}

pub fn get_u32_map_fld(ms: &Vec<(String, Json)>, key: &str) -> (r: Option<
    Option<Vec<(String, u32)>>,
>)
    ensures
        match r {
            Some(o) => fld_u32_map(views_of_pairs(ms@), key@) == Some(o.deep_view()),
            None => fld_u32_map(views_of_pairs(ms@), key@) is None,
        },
{
    match obj_get(ms, key) {
        None => Some(None),
        Some(v) => match v {
            Json::Null => Some(None),
            Json::Obj(inner) => {
                proof {
                    assert(views_of_pairs(inner@).subrange(0, inner@.len() as int)
                        =~= views_of_pairs(inner@));
                }
                match u32_map_from(inner, 0) {
                    Some(x) => Some(Some(x)),
                    None => None,
                }
            },
            _ => None,
        },
    }
}

/// A required object field whose values are all numbers, read as a key/value
/// list that keeps the literal number texts.
pub open spec fn fld_req_num_map(ms: Seq<(Seq<char>, JsonV)>, key: Seq<char>) -> Option<
    Seq<(Seq<char>, Seq<char>)>,
> {
    match obj_lookup(ms, key) {
        Some(v) => match v {
            JsonV::Obj(inner) => num_map_of(inner),
            _ => None,
        },
        None => None,
    }
}

pub fn get_req_num_map_fld(ms: &Vec<(String, Json)>, key: &str) -> (r: Option<
    Vec<(String, String)>,
>)
    ensures
        match r {
            Some(v) => fld_req_num_map(views_of_pairs(ms@), key@) == Some(v.deep_view()),
            None => fld_req_num_map(views_of_pairs(ms@), key@) is None,
        },
{
    match obj_get(ms, key) {
        Some(v) => match v {
            Json::Obj(inner) => {
                proof {
                    assert(views_of_pairs(inner@).subrange(0, inner@.len() as int)
                        =~= views_of_pairs(inner@));
                }
                num_map_from(inner, 0)
            },
            _ => None,
        },
        None => None,
    }
}

// ---------------------------------------------------------------------------
// Records of the token endpoint and the paging envelope
// ---------------------------------------------------------------------------

pub open spec fn spec_dec_app_access(v: JsonV) -> Option<AppAccessResponseV> {
    match v {
        JsonV::Obj(ms) => {
            let f_access_token = fld_req_str(ms, "access_token"@);
            if f_access_token is Some {
                Some(AppAccessResponseV { access_token: f_access_token->0 })
            } else {
                None
            }
        },
        _ => None,
    }
}

pub fn decode_app_access(j: &Json) -> (r: Option<AppAccessResponse>)
    ensures
        match r {
            Some(x) => spec_dec_app_access(jview(*j)) == Some(x@),
            None => spec_dec_app_access(jview(*j)) is None,
        },
{
    let ms = match j {
        Json::Obj(ms) => ms,
        _ => {
            return None;
        },
    };
    let access_token = match get_req_str_fld(ms, "access_token") {
        Some(x) => x,
        None => {
            return None;
        },
    };
    Some(AppAccessResponse { access_token })
}

pub open spec fn spec_dec_cursors(v: JsonV) -> Option<CursorsV> {
    match v {
        JsonV::Obj(ms) => {
            let f_before = fld_req_str(ms, "before"@);
            let f_after = fld_req_str(ms, "after"@);
            if f_before is Some && f_after is Some {
                Some(CursorsV { before: f_before->0, after: f_after->0 })
            } else {
                None
            }
        },
        _ => None,
    }
}

pub fn decode_cursors(j: &Json) -> (r: Option<Cursors>)
    ensures
        match r {
            Some(x) => spec_dec_cursors(jview(*j)) == Some(x@),
            None => spec_dec_cursors(jview(*j)) is None,
        },
{
    let ms = match j {
        Json::Obj(ms) => ms,
        _ => {
            return None;
        },
    };
    let before = match get_req_str_fld(ms, "before") {
        Some(x) => x,
        None => {
            return None;
        },
    };
    let after = match get_req_str_fld(ms, "after") {
        Some(x) => x,
        None => {
            return None;
        },
    };
    Some(Cursors { before, after })
}

pub open spec fn spec_dec_paging(v: JsonV) -> Option<PagingV> {
    match v {
        JsonV::Obj(ms) => {
            let f_cursors = match obj_lookup(ms, "cursors"@) {
                Some(x) => match spec_dec_cursors(x) {
                    Some(c) => Some(c),
                    None => None,
                },
                None => None,
            };
            if f_cursors is Some {
                Some(PagingV { cursors: f_cursors->0 })
            } else {
                None
            }
        },
        _ => None,
    }
}

pub fn decode_paging(j: &Json) -> (r: Option<Paging>)
    ensures
        match r {
            Some(x) => spec_dec_paging(jview(*j)) == Some(x@),
            None => spec_dec_paging(jview(*j)) is None,
        },
{
    let ms = match j {
        Json::Obj(ms) => ms,
        _ => {
            return None;
        },
    };
    let cursors = match obj_get(ms, "cursors") {
        Some(x) => match decode_cursors(x) {
            Some(c) => c,
            None => {
                return None;
            },
        },
        None => {
            return None;
        },
    };
    Some(Paging { cursors })
}

// ---------------------------------------------------------------------------
// Ad accounts
// ---------------------------------------------------------------------------

pub open spec fn spec_dec_ad_account(v: JsonV) -> Option<AdAccountV> {
    match v {
        JsonV::Obj(ms) => {
            let f_account_id = fld_req_str(ms, "account_id"@);
            let f_id = fld_req_str(ms, "id"@);
            if f_account_id is Some && f_id is Some {
                Some(AdAccountV { account_id: f_account_id->0, id: f_id->0 })
            } else {
                None
            }
        },
        _ => None,
    }
}

pub fn decode_ad_account(j: &Json) -> (r: Option<AdAccount>)
    ensures
        match r {
            Some(x) => spec_dec_ad_account(jview(*j)) == Some(x@),
            None => spec_dec_ad_account(jview(*j)) is None,
        },
{
    let ms = match j {
        Json::Obj(ms) => ms,
        _ => {
            return None;
        },
    };
    let account_id = match get_req_str_fld(ms, "account_id") {
        Some(x) => x,
        None => {
            return None;
        },
    };
    let id = match get_req_str_fld(ms, "id") {
        Some(x) => x,
        None => {
            return None;
        },
    };
    Some(AdAccount { account_id, id })
}

pub open spec fn spec_dec_ad_account_list(items: Seq<JsonV>) -> Option<Seq<AdAccountV>>
    decreases items.len(),
{
    if items.len() == 0 {
        Some(Seq::empty())
    } else {
        match spec_dec_ad_account(items[0]) {
            None => None,
            Some(x) => match spec_dec_ad_account_list(items.drop_first()) {
                None => None,
                Some(rest) => Some(seq![x] + rest),
            },
        }
    }
}

pub fn decode_ad_account_list(items: &Vec<Json>, from: usize) -> (r: Option<Vec<AdAccount>>)
    requires
        from <= items@.len(),
    ensures
        match r {
            Some(v) => spec_dec_ad_account_list(
                views_of(items@).subrange(from as int, items@.len() as int),
            ) == Some(v.deep_view()),
            None => spec_dec_ad_account_list(
                views_of(items@).subrange(from as int, items@.len() as int),
            ) is None,
        },
    decreases items@.len() - from,
{
    let ghost tail = views_of(items@).subrange(from as int, items@.len() as int);
    if from == items.len() {
        let out: Vec<AdAccount> = Vec::new();
        proof {
            assert(out.deep_view() =~= Seq::<AdAccountV>::empty());
        }
        Some(out)
    } else {
        proof {
            assert(tail[0] == views_of(items@)[from as int]);
            assert(tail.drop_first() =~= views_of(items@).subrange(
                from + 1 as int,
                items@.len() as int,
            ));
        }
        match decode_ad_account(&items[from]) {
            None => None,
            Some(x) => match decode_ad_account_list(items, from + 1) {
                None => None,
                Some(rest) => {
                    let ghost rest0 = rest.deep_view();
                    let mut out = rest;
                    out.insert(0, x);
                    proof {
                        assert(out.deep_view() =~= seq![x@] + rest0);
                    }
                    Some(out)
                },
            },
        }
    }
}

pub open spec fn spec_dec_ads_accounts(v: JsonV) -> Option<AdsAccountsResponseV> {
    match v {
        JsonV::Obj(ms) => {
            let f_data = match obj_lookup(ms, "data"@) {
                Some(x) => match x {
                    JsonV::Arr(items) => match spec_dec_ad_account_list(items) {
                        Some(r) => Some(r),
                        None => None,
                    },
                    _ => None,
                },
                None => None,
            };
            let f_paging = match obj_lookup(ms, "paging"@) {
                Some(x) => match spec_dec_paging(x) {
                    Some(p) => Some(p),
                    None => None,
                },
                None => None,
            };
            if f_data is Some && f_paging is Some {
                Some(AdsAccountsResponseV { data: f_data->0, paging: f_paging->0 })
            } else {
                None
            }
        },
        _ => None,
    }
}

pub fn decode_ads_accounts(j: &Json) -> (r: Option<AdsAccountsResponse>)
    ensures
        match r {
            Some(x) => spec_dec_ads_accounts(jview(*j)) == Some(x@),
            None => spec_dec_ads_accounts(jview(*j)) is None,
        },
{
    let ms = match j {
        Json::Obj(ms) => ms,
        _ => {
            return None;
        },
    };
    let data = match obj_get(ms, "data") {
        Some(x) => match x {
            Json::Arr(items) => {
                proof {
                    assert(views_of(items@).subrange(0, items@.len() as int) =~= views_of(
                        items@,
                    ));
                }
                match decode_ad_account_list(items, 0) {
                    Some(r) => r,
                    None => {
                        return None;
                    },
                }
            },
            _ => {
                return None;
            },
        },
        None => {
            return None;
        },
    };
    let paging = match obj_get(ms, "paging") {
        Some(x) => match decode_paging(x) {
            Some(p) => p,
            None => {
                return None;
            },
        },
        None => {
            return None;
        },
    };
    Some(AdsAccountsResponse { data, paging })
}

// ---------------------------------------------------------------------------
// Structural descent through object members
// ---------------------------------------------------------------------------

pub proof fn lemma_obj_lookup_elem(ms: Seq<(Seq<char>, JsonV)>, key: Seq<char>)
    ensures
        obj_lookup(ms, key) matches Some(x) ==> exists|q: int|
            0 <= q < ms.len() && ms[q].1 == x,
    decreases ms.len(),
{
    if ms.len() == 0 {
    } else if ms[0].0 == key {
        assert(obj_lookup(ms, key) == Some(ms[0].1));
    } else {
        lemma_obj_lookup_elem(ms.drop_first(), key);
        if obj_lookup(ms, key) is Some {
            let x = obj_lookup(ms, key)->0;
            let q0 = choose|q: int| 0 <= q < ms.drop_first().len() && ms.drop_first()[q].1 == x;
            assert(ms[q0 + 1].1 == x);
        }
    }
}

/// A value found among the members of an object stands below the object in
/// the structural order, which justifies recursive decoding.
pub proof fn lemma_lookup_descends(v: JsonV)
    ensures
        forall|ms: Seq<(Seq<char>, JsonV)>, key: Seq<char>|
            v == JsonV::Obj(ms) && #[trigger] obj_lookup(ms, key) is Some ==> decreases_to!(
                v => obj_lookup(ms, key)->0),
{
    assert forall|ms: Seq<(Seq<char>, JsonV)>, key: Seq<char>|
        v == JsonV::Obj(ms) && #[trigger] obj_lookup(ms, key) is Some implies decreases_to!(
        v => obj_lookup(ms, key)->0) by {
        lemma_obj_lookup_elem(ms, key);
        let x = obj_lookup(ms, key)->0;
        let q = choose|q: int| 0 <= q < ms.len() && ms[q].1 == x;
        assert(v->Obj_0 == ms);
        assert(decreases_to!(v => v->Obj_0));
        assert(decreases_to!(ms => ms[q]));
        assert(decreases_to!(ms[q] => ms[q].1));
        assert(decreases_to!(v => x));
    }
}

/// The seq-level form of the same fact, for recursion that starts from a
/// member sequence rather than from the enclosing object.
pub proof fn lemma_lookup_descends_seq(ms: Seq<(Seq<char>, JsonV)>)
    ensures
        forall|key: Seq<char>| #[trigger] obj_lookup(ms, key) is Some ==> decreases_to!(
            ms => obj_lookup(ms, key)->0),
{
    assert forall|key: Seq<char>| #[trigger] obj_lookup(ms, key) is Some implies decreases_to!(
        ms => obj_lookup(ms, key)->0) by {
        lemma_obj_lookup_elem(ms, key);
        let x = obj_lookup(ms, key)->0;
        let q = choose|q: int| 0 <= q < ms.len() && ms[q].1 == x;
        assert(decreases_to!(ms => ms[q]));
        assert(decreases_to!(ms[q] => ms[q].1));
        assert(decreases_to!(ms => x));
    }
}

// ---------------------------------------------------------------------------
// Campaigns, ad sets, ads, and their nested records
// ---------------------------------------------------------------------------

pub open spec fn spec_dec_ad_label(v: JsonV) -> Option<AdLabelV>
{
    match v {
        JsonV::Obj(ms) => {
            let f_id: Option<Seq<char>> = fld_req_str(ms, "id"@);
            let f_account: Option<Option<AdAccountV>> = match obj_lookup(ms, "account"@) {
                None => Some(None),
                Some(x) => if x is Null {
                    Some(None)
                } else {
                    match spec_dec_ad_account(x) {
                        Some(r) => Some(Some(r)),
                        None => None,
                    }
                },
            };
            let f_created_time: Option<Option<Seq<char>>> = fld_str(ms, "created_time"@);
            let f_name: Option<Seq<char>> = fld_req_str(ms, "name"@);
            let f_updated_time: Option<Option<Seq<char>>> = fld_str(ms, "updated_time"@);
            if f_id is Some && f_account is Some && f_created_time is Some && f_name is Some && f_updated_time is Some {
                Some(AdLabelV {
                    id: f_id->0,
                    account: f_account->0,
                    created_time: f_created_time->0,
                    name: f_name->0,
                    updated_time: f_updated_time->0,
                })
            } else {
                None
            }
        },
        _ => None,
    }
}

pub fn decode_ad_label(j: &Json) -> (r: Option<AdLabel>)
    ensures
        match r {
            Some(x) => spec_dec_ad_label(jview(*j)) == Some(x@),
            None => spec_dec_ad_label(jview(*j)) is None,
        },
{
    let ms = match j {
        Json::Obj(ms) => ms,
        _ => {
            return None;
        },
    };
    let f_id = get_req_str_fld(ms, "id");
    let f_account: Option<Option<AdAccount>> = match obj_get(ms, "account") {
        None => Some(None),
        Some(x) => match x {
            Json::Null => Some(None),
            _ => {
                match decode_ad_account(x) {
                    Some(r) => Some(Some(r)),
                    None => None,
                }
            },
        },
    };
    let f_created_time = get_str_fld(ms, "created_time");
    let f_name = get_req_str_fld(ms, "name");
    let f_updated_time = get_str_fld(ms, "updated_time");
    if f_id.is_none() || f_account.is_none() || f_created_time.is_none() || f_name.is_none() || f_updated_time.is_none() {
        return None;
    }
    let id = f_id.unwrap();
    let account = f_account.unwrap();
    let created_time = f_created_time.unwrap();
    let name = f_name.unwrap();
    let updated_time = f_updated_time.unwrap();
    Some(AdLabel { id, account, created_time, name, updated_time })
}

pub open spec fn spec_dec_ad_label_list(items: Seq<JsonV>) -> Option<Seq<AdLabelV>>
    decreases items.len(),
{
    if items.len() == 0 {
        Some(Seq::empty())
    } else {
        match spec_dec_ad_label(items[0]) {
            None => None,
            Some(x) => match spec_dec_ad_label_list(items.drop_first()) {
                None => None,
                Some(rest) => Some(seq![x] + rest),
            },
        }
    }
}

pub fn decode_ad_label_list(items: &Vec<Json>, from: usize) -> (r: Option<Vec<AdLabel>>)
    requires
        from <= items@.len(),
    ensures
        match r {
            Some(v) => spec_dec_ad_label_list(
                views_of(items@).subrange(from as int, items@.len() as int),
            ) == Some(v.deep_view()),
            None => spec_dec_ad_label_list(
                views_of(items@).subrange(from as int, items@.len() as int),
            ) is None,
        },
    decreases items@.len() - from,
{
    let ghost tail = views_of(items@).subrange(from as int, items@.len() as int);
    if from == items.len() {
        let out: Vec<AdLabel> = Vec::new();
        proof {
            assert(out.deep_view() =~= Seq::<AdLabelV>::empty());
        }
        return Some(out);
    }
    proof {
        assert(tail[0] == views_of(items@)[from as int]);
        assert(tail.drop_first() =~= views_of(items@).subrange(
            from + 1 as int,
            items@.len() as int,
        ));
    }
    match decode_ad_label(&items[from]) {
        None => None,
        Some(x) => match decode_ad_label_list(items, from + 1) {
            None => None,
            Some(rest) => {
                let ghost rest0 = rest.deep_view();
                let mut out = rest;
                out.insert(0, x);
                proof {
                    assert(out.deep_view() =~= seq![x@] + rest0);
                }
                Some(out)
            },
        },
    }
}

pub open spec fn spec_dec_ad_study(v: JsonV) -> Option<AdStudyV>
{
    match v {
        JsonV::Obj(ms) => {
            let f_id: Option<Seq<char>> = fld_req_str(ms, "id"@);
            let f_business: Option<Option<Seq<char>>> = fld_str(ms, "business"@);
            let f_canceled_time: Option<Option<Seq<char>>> = fld_str(ms, "canceled_time"@);
            let f_cooldown_start_time: Option<Option<Seq<char>>> = fld_str(ms, "cooldown_start_time"@);
            let f_created_by: Option<Option<Seq<char>>> = fld_str(ms, "created_by"@);
            let f_created_time: Option<Option<Seq<char>>> = fld_str(ms, "created_time"@);
            let f_description: Option<Option<Seq<char>>> = fld_str(ms, "description"@);
            let f_end_time: Option<Option<Seq<char>>> = fld_str(ms, "end_time"@);
            let f_name: Option<Seq<char>> = fld_req_str(ms, "name"@);
            let f_observation_end_time: Option<Option<Seq<char>>> = fld_str(ms, "observation_end_time"@);
            let f_results_first_available_date: Option<Option<Seq<char>>> = fld_str(ms, "results_first_available_date"@);
            let f_start_time: Option<Option<Seq<char>>> = fld_str(ms, "start_time"@);
            let f_study_type: Option<Option<Seq<char>>> = fld_str(ms, "study_type"@);
            let f_updated_by: Option<Option<Seq<char>>> = fld_str(ms, "updated_by"@);
            let f_updated_time: Option<Option<Seq<char>>> = fld_str(ms, "updated_time"@);
            if f_id is Some && f_business is Some && f_canceled_time is Some && f_cooldown_start_time is Some && f_created_by is Some && f_created_time is Some && f_description is Some && f_end_time is Some && f_name is Some && f_observation_end_time is Some && f_results_first_available_date is Some && f_start_time is Some && f_study_type is Some && f_updated_by is Some && f_updated_time is Some {
                Some(AdStudyV {
                    id: f_id->0,
                    business: f_business->0,
                    canceled_time: f_canceled_time->0,
                    cooldown_start_time: f_cooldown_start_time->0,
                    created_by: f_created_by->0,
                    created_time: f_created_time->0,
                    description: f_description->0,
                    end_time: f_end_time->0,
                    name: f_name->0,
                    observation_end_time: f_observation_end_time->0,
                    results_first_available_date: f_results_first_available_date->0,
                    start_time: f_start_time->0,
                    study_type: f_study_type->0,
                    updated_by: f_updated_by->0,
                    updated_time: f_updated_time->0,
                })
            } else {
                None
            }
        },
        _ => None,
    }
}

pub fn decode_ad_study(j: &Json) -> (r: Option<AdStudy>)
    ensures
        match r {
            Some(x) => spec_dec_ad_study(jview(*j)) == Some(x@),
            None => spec_dec_ad_study(jview(*j)) is None,
        },
{
    let ms = match j {
        Json::Obj(ms) => ms,
        _ => {
            return None;
        },
    };
    let f_id = get_req_str_fld(ms, "id");
    let f_business = get_str_fld(ms, "business");
    let f_canceled_time = get_str_fld(ms, "canceled_time");
    let f_cooldown_start_time = get_str_fld(ms, "cooldown_start_time");
    let f_created_by = get_str_fld(ms, "created_by");
    let f_created_time = get_str_fld(ms, "created_time");
    let f_description = get_str_fld(ms, "description");
    let f_end_time = get_str_fld(ms, "end_time");
    let f_name = get_req_str_fld(ms, "name");
    let f_observation_end_time = get_str_fld(ms, "observation_end_time");
    let f_results_first_available_date = get_str_fld(ms, "results_first_available_date");
    let f_start_time = get_str_fld(ms, "start_time");
    let f_study_type = get_str_fld(ms, "study_type");
    let f_updated_by = get_str_fld(ms, "updated_by");
    let f_updated_time = get_str_fld(ms, "updated_time");
    if f_id.is_none() || f_business.is_none() || f_canceled_time.is_none() || f_cooldown_start_time.is_none() || f_created_by.is_none() || f_created_time.is_none() || f_description.is_none() || f_end_time.is_none() || f_name.is_none() || f_observation_end_time.is_none() || f_results_first_available_date.is_none() || f_start_time.is_none() || f_study_type.is_none() || f_updated_by.is_none() || f_updated_time.is_none() {
        return None;
    }
    let id = f_id.unwrap();
    let business = f_business.unwrap();
    let canceled_time = f_canceled_time.unwrap();
    let cooldown_start_time = f_cooldown_start_time.unwrap();
    let created_by = f_created_by.unwrap();
    let created_time = f_created_time.unwrap();
    let description = f_description.unwrap();
    let end_time = f_end_time.unwrap();
    let name = f_name.unwrap();
    let observation_end_time = f_observation_end_time.unwrap();
    let results_first_available_date = f_results_first_available_date.unwrap();
    let start_time = f_start_time.unwrap();
    let study_type = f_study_type.unwrap();
    let updated_by = f_updated_by.unwrap();
    let updated_time = f_updated_time.unwrap();
    Some(AdStudy { id, business, canceled_time, cooldown_start_time, created_by, created_time, description, end_time, name, observation_end_time, results_first_available_date, start_time, study_type, updated_by, updated_time })
}

pub open spec fn spec_dec_ad_study_list(items: Seq<JsonV>) -> Option<Seq<AdStudyV>>
    decreases items.len(),
{
    if items.len() == 0 {
        Some(Seq::empty())
    } else {
        match spec_dec_ad_study(items[0]) {
            None => None,
            Some(x) => match spec_dec_ad_study_list(items.drop_first()) {
                None => None,
                Some(rest) => Some(seq![x] + rest),
            },
        }
    }
}

pub fn decode_ad_study_list(items: &Vec<Json>, from: usize) -> (r: Option<Vec<AdStudy>>)
    requires
        from <= items@.len(),
    ensures
        match r {
            Some(v) => spec_dec_ad_study_list(
                views_of(items@).subrange(from as int, items@.len() as int),
            ) == Some(v.deep_view()),
            None => spec_dec_ad_study_list(
                views_of(items@).subrange(from as int, items@.len() as int),
            ) is None,
        },
    decreases items@.len() - from,
{
    let ghost tail = views_of(items@).subrange(from as int, items@.len() as int);
    if from == items.len() {
        let out: Vec<AdStudy> = Vec::new();
        proof {
            assert(out.deep_view() =~= Seq::<AdStudyV>::empty());
        }
        return Some(out);
    }
    proof {
        assert(tail[0] == views_of(items@)[from as int]);
        assert(tail.drop_first() =~= views_of(items@).subrange(
            from + 1 as int,
            items@.len() as int,
        ));
    }
    match decode_ad_study(&items[from]) {
        None => None,
        Some(x) => match decode_ad_study_list(items, from + 1) {
            None => None,
            Some(rest) => {
                let ghost rest0 = rest.deep_view();
                let mut out = rest;
                out.insert(0, x);
                proof {
                    assert(out.deep_view() =~= seq![x@] + rest0);
                }
                Some(out)
            },
        },
    }
}

pub open spec fn spec_dec_ad_campaign_issues_info(v: JsonV) -> Option<AdCampaignIssuesInfoV>
{
    match v {
        JsonV::Obj(ms) => {
            let f_error_code: Option<Option<i32>> = fld_i32(ms, "error_code"@);
            let f_error_message: Option<Option<Seq<char>>> = fld_str(ms, "error_message"@);
            let f_error_summary: Option<Option<Seq<char>>> = fld_str(ms, "error_summary"@);
            let f_error_type: Option<Option<Seq<char>>> = fld_str(ms, "error_type"@);
            let f_level: Option<Option<Seq<char>>> = fld_str(ms, "level"@);
            if f_error_code is Some && f_error_message is Some && f_error_summary is Some && f_error_type is Some && f_level is Some {
                Some(AdCampaignIssuesInfoV {
                    error_code: f_error_code->0,
                    error_message: f_error_message->0,
                    error_summary: f_error_summary->0,
                    error_type: f_error_type->0,
                    level: f_level->0,
                })
            } else {
                None
            }
        },
        _ => None,
    }
}

pub fn decode_ad_campaign_issues_info(j: &Json) -> (r: Option<AdCampaignIssuesInfo>)
    ensures
        match r {
            Some(x) => spec_dec_ad_campaign_issues_info(jview(*j)) == Some(x@),
            None => spec_dec_ad_campaign_issues_info(jview(*j)) is None,
        },
{
    let ms = match j {
        Json::Obj(ms) => ms,
        _ => {
            return None;
        },
    };
    let f_error_code = get_i32_fld(ms, "error_code");
    let f_error_message = get_str_fld(ms, "error_message");
    let f_error_summary = get_str_fld(ms, "error_summary");
    let f_error_type = get_str_fld(ms, "error_type");
    let f_level = get_str_fld(ms, "level");
    if f_error_code.is_none() || f_error_message.is_none() || f_error_summary.is_none() || f_error_type.is_none() || f_level.is_none() {
        return None;
    }
    let error_code = f_error_code.unwrap();
    let error_message = f_error_message.unwrap();
    let error_summary = f_error_summary.unwrap();
    let error_type = f_error_type.unwrap();
    let level = f_level.unwrap();
    Some(AdCampaignIssuesInfo { error_code, error_message, error_summary, error_type, level })
}

pub open spec fn spec_dec_ad_campaign_issues_info_list(items: Seq<JsonV>) -> Option<Seq<AdCampaignIssuesInfoV>>
    decreases items.len(),
{
    if items.len() == 0 {
        Some(Seq::empty())
    } else {
        match spec_dec_ad_campaign_issues_info(items[0]) {
            None => None,
            Some(x) => match spec_dec_ad_campaign_issues_info_list(items.drop_first()) {
                None => None,
                Some(rest) => Some(seq![x] + rest),
            },
        }
    }
}

pub fn decode_ad_campaign_issues_info_list(items: &Vec<Json>, from: usize) -> (r: Option<Vec<AdCampaignIssuesInfo>>)
    requires
        from <= items@.len(),
    ensures
        match r {
            Some(v) => spec_dec_ad_campaign_issues_info_list(
                views_of(items@).subrange(from as int, items@.len() as int),
            ) == Some(v.deep_view()),
            None => spec_dec_ad_campaign_issues_info_list(
                views_of(items@).subrange(from as int, items@.len() as int),
            ) is None,
        },
    decreases items@.len() - from,
{
    let ghost tail = views_of(items@).subrange(from as int, items@.len() as int);
    if from == items.len() {
        let out: Vec<AdCampaignIssuesInfo> = Vec::new();
        proof {
            assert(out.deep_view() =~= Seq::<AdCampaignIssuesInfoV>::empty());
        }
        return Some(out);
    }
    proof {
        assert(tail[0] == views_of(items@)[from as int]);
        assert(tail.drop_first() =~= views_of(items@).subrange(
            from + 1 as int,
            items@.len() as int,
        ));
    }
    match decode_ad_campaign_issues_info(&items[from]) {
        None => None,
        Some(x) => match decode_ad_campaign_issues_info_list(items, from + 1) {
            None => None,
            Some(rest) => {
                let ghost rest0 = rest.deep_view();
                let mut out = rest;
                out.insert(0, x);
                proof {
                    assert(out.deep_view() =~= seq![x@] + rest0);
                }
                Some(out)
            },
        },
    }
}

pub open spec fn spec_dec_ad_promoted_object(v: JsonV) -> Option<AdPromotedObjectV>
{
    match v {
        JsonV::Obj(ms) => {
            let f_application_id: Option<Option<Seq<char>>> = fld_str(ms, "application_id"@);
            let f_boosted_product_set_id: Option<Option<Seq<char>>> = fld_str(ms, "boosted_product_set_id"@);
            let f_conversion_goal_id: Option<Option<Seq<char>>> = fld_str(ms, "conversion_goal_id"@);
            let f_custom_conversion_id: Option<Option<Seq<char>>> = fld_str(ms, "custom_conversion_id"@);
            let f_custom_event_str: Option<Option<Seq<char>>> = fld_str(ms, "custom_event_str"@);
            let f_custom_event_type: Option<Option<Seq<char>>> = fld_str(ms, "custom_event_type"@);
            let f_event_id: Option<Option<Seq<char>>> = fld_str(ms, "event_id"@);
            let f_lead_ads_custom_event_str: Option<Option<Seq<char>>> = fld_str(ms, "lead_ads_custom_event_str"@);
            let f_lead_ads_custom_event_type: Option<Option<Seq<char>>> = fld_str(ms, "lead_ads_custom_event_type"@);
            let f_lead_ads_form_event_source_type: Option<Option<Seq<char>>> = fld_str(ms, "lead_ads_form_event_source_type"@);
            let f_mcme_conversion_id: Option<Option<Seq<char>>> = fld_str(ms, "mcme_conversion_id"@);
            let f_object_store_url: Option<Option<Seq<char>>> = fld_str(ms, "object_store_url"@);
            let f_offer_id: Option<Option<Seq<char>>> = fld_str(ms, "offer_id"@);
            let f_offline_conversion_data_set_id: Option<Option<Seq<char>>> = fld_str(ms, "offline_conversion_data_set_id"@);
            let f_offsite_conversion_event_id: Option<Option<Seq<char>>> = fld_str(ms, "offsite_conversion_event_id"@);
            let f_page_id: Option<Option<Seq<char>>> = fld_str(ms, "page_id"@);
            let f_pixel_aggregation_rule: Option<Option<Seq<char>>> = fld_str(ms, "pixel_aggregation_rule"@);
            let f_pixel_id: Option<Option<Seq<char>>> = fld_str(ms, "pixel_id"@);
            let f_pixel_rule: Option<Option<Seq<char>>> = fld_str(ms, "pixel_rule"@);
            let f_place_page_set_id: Option<Option<Seq<char>>> = fld_str(ms, "place_page_set_id"@);
            let f_product_catalog_id: Option<Option<Seq<char>>> = fld_str(ms, "product_catalog_id"@);
            let f_product_set_id: Option<Option<Seq<char>>> = fld_str(ms, "product_set_id"@);
            let f_retention_days: Option<Option<Seq<char>>> = fld_str(ms, "retention_days"@);
            let f_value_semantic_type: Option<Option<Seq<char>>> = fld_str(ms, "value_semantic_type"@);
            let f_variation: Option<Option<Seq<char>>> = fld_str(ms, "variation"@);
            let f_whatsapp_phone_number: Option<Option<Seq<char>>> = fld_str(ms, "whatsapp_phone_number"@);
            if f_application_id is Some && f_boosted_product_set_id is Some && f_conversion_goal_id is Some && f_custom_conversion_id is Some && f_custom_event_str is Some && f_custom_event_type is Some && f_event_id is Some && f_lead_ads_custom_event_str is Some && f_lead_ads_custom_event_type is Some && f_lead_ads_form_event_source_type is Some && f_mcme_conversion_id is Some && f_object_store_url is Some && f_offer_id is Some && f_offline_conversion_data_set_id is Some && f_offsite_conversion_event_id is Some && f_page_id is Some && f_pixel_aggregation_rule is Some && f_pixel_id is Some && f_pixel_rule is Some && f_place_page_set_id is Some && f_product_catalog_id is Some && f_product_set_id is Some && f_retention_days is Some && f_value_semantic_type is Some && f_variation is Some && f_whatsapp_phone_number is Some {
                Some(AdPromotedObjectV {
                    application_id: f_application_id->0,
                    boosted_product_set_id: f_boosted_product_set_id->0,
                    conversion_goal_id: f_conversion_goal_id->0,
                    custom_conversion_id: f_custom_conversion_id->0,
                    custom_event_str: f_custom_event_str->0,
                    custom_event_type: f_custom_event_type->0,
                    event_id: f_event_id->0,
                    lead_ads_custom_event_str: f_lead_ads_custom_event_str->0,
                    lead_ads_custom_event_type: f_lead_ads_custom_event_type->0,
                    lead_ads_form_event_source_type: f_lead_ads_form_event_source_type->0,
                    mcme_conversion_id: f_mcme_conversion_id->0,
                    object_store_url: f_object_store_url->0,
                    offer_id: f_offer_id->0,
                    offline_conversion_data_set_id: f_offline_conversion_data_set_id->0,
                    offsite_conversion_event_id: f_offsite_conversion_event_id->0,
                    page_id: f_page_id->0,
                    pixel_aggregation_rule: f_pixel_aggregation_rule->0,
                    pixel_id: f_pixel_id->0,
                    pixel_rule: f_pixel_rule->0,
                    place_page_set_id: f_place_page_set_id->0,
                    product_catalog_id: f_product_catalog_id->0,
                    product_set_id: f_product_set_id->0,
                    retention_days: f_retention_days->0,
                    value_semantic_type: f_value_semantic_type->0,
                    variation: f_variation->0,
                    whatsapp_phone_number: f_whatsapp_phone_number->0,
                })
            } else {
                None
            }
        },
        _ => None,
    }
}

pub fn decode_ad_promoted_object(j: &Json) -> (r: Option<AdPromotedObject>)
    ensures
        match r {
            Some(x) => spec_dec_ad_promoted_object(jview(*j)) == Some(x@),
            None => spec_dec_ad_promoted_object(jview(*j)) is None,
        },
{
    let ms = match j {
        Json::Obj(ms) => ms,
        _ => {
            return None;
        },
    };
    let f_application_id = get_str_fld(ms, "application_id");
    let f_boosted_product_set_id = get_str_fld(ms, "boosted_product_set_id");
    let f_conversion_goal_id = get_str_fld(ms, "conversion_goal_id");
    let f_custom_conversion_id = get_str_fld(ms, "custom_conversion_id");
    let f_custom_event_str = get_str_fld(ms, "custom_event_str");
    let f_custom_event_type = get_str_fld(ms, "custom_event_type");
    let f_event_id = get_str_fld(ms, "event_id");
    let f_lead_ads_custom_event_str = get_str_fld(ms, "lead_ads_custom_event_str");
    let f_lead_ads_custom_event_type = get_str_fld(ms, "lead_ads_custom_event_type");
    let f_lead_ads_form_event_source_type = get_str_fld(ms, "lead_ads_form_event_source_type");
    let f_mcme_conversion_id = get_str_fld(ms, "mcme_conversion_id");
    let f_object_store_url = get_str_fld(ms, "object_store_url");
    let f_offer_id = get_str_fld(ms, "offer_id");
    let f_offline_conversion_data_set_id = get_str_fld(ms, "offline_conversion_data_set_id");
    let f_offsite_conversion_event_id = get_str_fld(ms, "offsite_conversion_event_id");
    let f_page_id = get_str_fld(ms, "page_id");
    let f_pixel_aggregation_rule = get_str_fld(ms, "pixel_aggregation_rule");
    let f_pixel_id = get_str_fld(ms, "pixel_id");
    let f_pixel_rule = get_str_fld(ms, "pixel_rule");
    let f_place_page_set_id = get_str_fld(ms, "place_page_set_id");
    let f_product_catalog_id = get_str_fld(ms, "product_catalog_id");
    let f_product_set_id = get_str_fld(ms, "product_set_id");
    let f_retention_days = get_str_fld(ms, "retention_days");
    let f_value_semantic_type = get_str_fld(ms, "value_semantic_type");
    let f_variation = get_str_fld(ms, "variation");
    let f_whatsapp_phone_number = get_str_fld(ms, "whatsapp_phone_number");
    if f_application_id.is_none() || f_boosted_product_set_id.is_none() || f_conversion_goal_id.is_none() || f_custom_conversion_id.is_none() || f_custom_event_str.is_none() || f_custom_event_type.is_none() || f_event_id.is_none() || f_lead_ads_custom_event_str.is_none() || f_lead_ads_custom_event_type.is_none() || f_lead_ads_form_event_source_type.is_none() || f_mcme_conversion_id.is_none() || f_object_store_url.is_none() || f_offer_id.is_none() || f_offline_conversion_data_set_id.is_none() || f_offsite_conversion_event_id.is_none() || f_page_id.is_none() || f_pixel_aggregation_rule.is_none() || f_pixel_id.is_none() || f_pixel_rule.is_none() || f_place_page_set_id.is_none() || f_product_catalog_id.is_none() || f_product_set_id.is_none() || f_retention_days.is_none() || f_value_semantic_type.is_none() || f_variation.is_none() || f_whatsapp_phone_number.is_none() {
        return None;
    }
    let application_id = f_application_id.unwrap();
    let boosted_product_set_id = f_boosted_product_set_id.unwrap();
    let conversion_goal_id = f_conversion_goal_id.unwrap();
    let custom_conversion_id = f_custom_conversion_id.unwrap();
    let custom_event_str = f_custom_event_str.unwrap();
    let custom_event_type = f_custom_event_type.unwrap();
    let event_id = f_event_id.unwrap();
    let lead_ads_custom_event_str = f_lead_ads_custom_event_str.unwrap();
    let lead_ads_custom_event_type = f_lead_ads_custom_event_type.unwrap();
    let lead_ads_form_event_source_type = f_lead_ads_form_event_source_type.unwrap();
    let mcme_conversion_id = f_mcme_conversion_id.unwrap();
    let object_store_url = f_object_store_url.unwrap();
    let offer_id = f_offer_id.unwrap();
    let offline_conversion_data_set_id = f_offline_conversion_data_set_id.unwrap();
    let offsite_conversion_event_id = f_offsite_conversion_event_id.unwrap();
    let page_id = f_page_id.unwrap();
    let pixel_aggregation_rule = f_pixel_aggregation_rule.unwrap();
    let pixel_id = f_pixel_id.unwrap();
    let pixel_rule = f_pixel_rule.unwrap();
    let place_page_set_id = f_place_page_set_id.unwrap();
    let product_catalog_id = f_product_catalog_id.unwrap();
    let product_set_id = f_product_set_id.unwrap();
    let retention_days = f_retention_days.unwrap();
    let value_semantic_type = f_value_semantic_type.unwrap();
    let variation = f_variation.unwrap();
    let whatsapp_phone_number = f_whatsapp_phone_number.unwrap();
    Some(AdPromotedObject { application_id, boosted_product_set_id, conversion_goal_id, custom_conversion_id, custom_event_str, custom_event_type, event_id, lead_ads_custom_event_str, lead_ads_custom_event_type, lead_ads_form_event_source_type, mcme_conversion_id, object_store_url, offer_id, offline_conversion_data_set_id, offsite_conversion_event_id, page_id, pixel_aggregation_rule, pixel_id, pixel_rule, place_page_set_id, product_catalog_id, product_set_id, retention_days, value_semantic_type, variation, whatsapp_phone_number })
}

pub open spec fn spec_dec_day_part(v: JsonV) -> Option<DayPartV>
{
    match v {
        JsonV::Obj(ms) => {
            let f_start_minute: Option<i32> = fld_req_i32(ms, "start_minute"@);
            let f_end_minute: Option<Option<i32>> = fld_i32(ms, "end_minute"@);
            let f_days: Option<Option<Seq<i32>>> = fld_i32_list(ms, "days"@);
            let f_timezone_type: Option<Option<Seq<char>>> = fld_str(ms, "timezone_type"@);
            if f_start_minute is Some && f_end_minute is Some && f_days is Some && f_timezone_type is Some {
                Some(DayPartV {
                    start_minute: f_start_minute->0,
                    end_minute: f_end_minute->0,
                    days: f_days->0,
                    timezone_type: f_timezone_type->0,
                })
            } else {
                None
            }
        },
        _ => None,
    }
}

pub fn decode_day_part(j: &Json) -> (r: Option<DayPart>)
    ensures
        match r {
            Some(x) => spec_dec_day_part(jview(*j)) == Some(x@),
            None => spec_dec_day_part(jview(*j)) is None,
        },
{
    let ms = match j {
        Json::Obj(ms) => ms,
        _ => {
            return None;
        },
    };
    let f_start_minute = get_req_i32_fld(ms, "start_minute");
    let f_end_minute = get_i32_fld(ms, "end_minute");
    let f_days = get_i32_list_fld(ms, "days");
    let f_timezone_type = get_str_fld(ms, "timezone_type");
    if f_start_minute.is_none() || f_end_minute.is_none() || f_days.is_none() || f_timezone_type.is_none() {
        return None;
    }
    let start_minute = f_start_minute.unwrap();
    let end_minute = f_end_minute.unwrap();
    let days = f_days.unwrap();
    let timezone_type = f_timezone_type.unwrap();
    Some(DayPart { start_minute, end_minute, days, timezone_type })
}

pub open spec fn spec_dec_day_part_list(items: Seq<JsonV>) -> Option<Seq<DayPartV>>
    decreases items.len(),
{
    if items.len() == 0 {
        Some(Seq::empty())
    } else {
        match spec_dec_day_part(items[0]) {
            None => None,
            Some(x) => match spec_dec_day_part_list(items.drop_first()) {
                None => None,
                Some(rest) => Some(seq![x] + rest),
            },
        }
    }
}

pub fn decode_day_part_list(items: &Vec<Json>, from: usize) -> (r: Option<Vec<DayPart>>)
    requires
        from <= items@.len(),
    ensures
        match r {
            Some(v) => spec_dec_day_part_list(
                views_of(items@).subrange(from as int, items@.len() as int),
            ) == Some(v.deep_view()),
            None => spec_dec_day_part_list(
                views_of(items@).subrange(from as int, items@.len() as int),
            ) is None,
        },
    decreases items@.len() - from,
{
    let ghost tail = views_of(items@).subrange(from as int, items@.len() as int);
    if from == items.len() {
        let out: Vec<DayPart> = Vec::new();
        proof {
            assert(out.deep_view() =~= Seq::<DayPartV>::empty());
        }
        return Some(out);
    }
    proof {
        assert(tail[0] == views_of(items@)[from as int]);
        assert(tail.drop_first() =~= views_of(items@).subrange(
            from + 1 as int,
            items@.len() as int,
        ));
    }
    match decode_day_part(&items[from]) {
        None => None,
        Some(x) => match decode_day_part_list(items, from + 1) {
            None => None,
            Some(rest) => {
                let ghost rest0 = rest.deep_view();
                let mut out = rest;
                out.insert(0, x);
                proof {
                    assert(out.deep_view() =~= seq![x@] + rest0);
                }
                Some(out)
            },
        },
    }
}

pub open spec fn spec_dec_ad_bid_adjustments(v: JsonV) -> Option<AdBidAdjustmentsV>
{
    match v {
        JsonV::Obj(ms) => {
            let f_age_range: Option<Seq<(Seq<char>, Seq<char>)>> = fld_req_num_map(ms, "age_range"@);
            let f_page_types: Option<Option<Seq<char>>> = fld_str(ms, "page_types"@);
            let f_user_groups: Option<Option<Seq<char>>> = fld_str(ms, "user_groups"@);
            if f_age_range is Some && f_page_types is Some && f_user_groups is Some {
                Some(AdBidAdjustmentsV {
                    age_range: f_age_range->0,
                    page_types: f_page_types->0,
                    user_groups: f_user_groups->0,
                })
            } else {
                None
            }
        },
        _ => None,
    }
}

pub fn decode_ad_bid_adjustments(j: &Json) -> (r: Option<AdBidAdjustments>)
    ensures
        match r {
            Some(x) => spec_dec_ad_bid_adjustments(jview(*j)) == Some(x@),
            None => spec_dec_ad_bid_adjustments(jview(*j)) is None,
        },
{
    let ms = match j {
        Json::Obj(ms) => ms,
        _ => {
            return None;
        },
    };
    let f_age_range = get_req_num_map_fld(ms, "age_range");
    let f_page_types = get_str_fld(ms, "page_types");
    let f_user_groups = get_str_fld(ms, "user_groups");
    if f_age_range.is_none() || f_page_types.is_none() || f_user_groups.is_none() {
        return None;
    }
    let age_range = f_age_range.unwrap();
    let page_types = f_page_types.unwrap();
    let user_groups = f_user_groups.unwrap();
    Some(AdBidAdjustments { age_range, page_types, user_groups })
}

pub open spec fn spec_dec_ad_campaign_frequency_control_specs(v: JsonV) -> Option<AdCampaignFrequencyControlSpecsV>
{
    match v {
        JsonV::Obj(ms) => {
            let f_event: Option<Option<Seq<char>>> = fld_str(ms, "event"@);
            let f_interval_days: Option<Option<u32>> = fld_u32(ms, "interval_days"@);
            let f_max_frequency: Option<Option<u32>> = fld_u32(ms, "max_frequency"@);
            if f_event is Some && f_interval_days is Some && f_max_frequency is Some {
                Some(AdCampaignFrequencyControlSpecsV {
                    event: f_event->0,
                    interval_days: f_interval_days->0,
                    max_frequency: f_max_frequency->0,
                })
            } else {
                None
            }
        },
        _ => None,
    }
}

pub fn decode_ad_campaign_frequency_control_specs(j: &Json) -> (r: Option<AdCampaignFrequencyControlSpecs>)
    ensures
        match r {
            Some(x) => spec_dec_ad_campaign_frequency_control_specs(jview(*j)) == Some(x@),
            None => spec_dec_ad_campaign_frequency_control_specs(jview(*j)) is None,
        },
{
    let ms = match j {
        Json::Obj(ms) => ms,
        _ => {
            return None;
        },
    };
    let f_event = get_str_fld(ms, "event");
    let f_interval_days = get_u32_fld(ms, "interval_days");
    let f_max_frequency = get_u32_fld(ms, "max_frequency");
    if f_event.is_none() || f_interval_days.is_none() || f_max_frequency.is_none() {
        return None;
    }
    let event = f_event.unwrap();
    let interval_days = f_interval_days.unwrap();
    let max_frequency = f_max_frequency.unwrap();
    Some(AdCampaignFrequencyControlSpecs { event, interval_days, max_frequency })
}

pub open spec fn spec_dec_ad_campaign_frequency_control_specs_list(items: Seq<JsonV>) -> Option<Seq<AdCampaignFrequencyControlSpecsV>>
    decreases items.len(),
{
    if items.len() == 0 {
        Some(Seq::empty())
    } else {
        match spec_dec_ad_campaign_frequency_control_specs(items[0]) {
            None => None,
            Some(x) => match spec_dec_ad_campaign_frequency_control_specs_list(items.drop_first()) {
                None => None,
                Some(rest) => Some(seq![x] + rest),
            },
        }
    }
}

pub fn decode_ad_campaign_frequency_control_specs_list(items: &Vec<Json>, from: usize) -> (r: Option<Vec<AdCampaignFrequencyControlSpecs>>)
    requires
        from <= items@.len(),
    ensures
        match r {
            Some(v) => spec_dec_ad_campaign_frequency_control_specs_list(
                views_of(items@).subrange(from as int, items@.len() as int),
            ) == Some(v.deep_view()),
            None => spec_dec_ad_campaign_frequency_control_specs_list(
                views_of(items@).subrange(from as int, items@.len() as int),
            ) is None,
        },
    decreases items@.len() - from,
{
    let ghost tail = views_of(items@).subrange(from as int, items@.len() as int);
    if from == items.len() {
        let out: Vec<AdCampaignFrequencyControlSpecs> = Vec::new();
        proof {
            assert(out.deep_view() =~= Seq::<AdCampaignFrequencyControlSpecsV>::empty());
        }
        return Some(out);
    }
    proof {
        assert(tail[0] == views_of(items@)[from as int]);
        assert(tail.drop_first() =~= views_of(items@).subrange(
            from + 1 as int,
            items@.len() as int,
        ));
    }
    match decode_ad_campaign_frequency_control_specs(&items[from]) {
        None => None,
        Some(x) => match decode_ad_campaign_frequency_control_specs_list(items, from + 1) {
            None => None,
            Some(rest) => {
                let ghost rest0 = rest.deep_view();
                let mut out = rest;
                out.insert(0, x);
                proof {
                    assert(out.deep_view() =~= seq![x@] + rest0);
                }
                Some(out)
            },
        },
    }
}

pub open spec fn spec_dec_ad_campaign_learning_stage_info(v: JsonV) -> Option<AdCampaignLearningStageInfoV>
{
    match v {
        JsonV::Obj(ms) => {
            let f_attribution_windows: Option<Option<Seq<Seq<char>>>> = fld_str_list(ms, "attribution_windows"@);
            let f_conversions: Option<Option<u32>> = fld_u32(ms, "conversions"@);
            let f_last_sig_edit_ts: Option<Option<i64>> = fld_i64(ms, "last_sig_edit_ts"@);
            let f_status: Option<Option<Seq<char>>> = fld_str(ms, "status"@);
            if f_attribution_windows is Some && f_conversions is Some && f_last_sig_edit_ts is Some && f_status is Some {
                Some(AdCampaignLearningStageInfoV {
                    attribution_windows: f_attribution_windows->0,
                    conversions: f_conversions->0,
                    last_sig_edit_ts: f_last_sig_edit_ts->0,
                    status: f_status->0,
                })
            } else {
                None
            }
        },
        _ => None,
    }
}

pub fn decode_ad_campaign_learning_stage_info(j: &Json) -> (r: Option<AdCampaignLearningStageInfo>)
    ensures
        match r {
            Some(x) => spec_dec_ad_campaign_learning_stage_info(jview(*j)) == Some(x@),
            None => spec_dec_ad_campaign_learning_stage_info(jview(*j)) is None,
        },
{
    let ms = match j {
        Json::Obj(ms) => ms,
        _ => {
            return None;
        },
    };
    let f_attribution_windows = get_str_list_fld(ms, "attribution_windows");
    let f_conversions = get_u32_fld(ms, "conversions");
    let f_last_sig_edit_ts = get_i64_fld(ms, "last_sig_edit_ts");
    let f_status = get_str_fld(ms, "status");
    if f_attribution_windows.is_none() || f_conversions.is_none() || f_last_sig_edit_ts.is_none() || f_status.is_none() {
        return None;
    }
    let attribution_windows = f_attribution_windows.unwrap();
    let conversions = f_conversions.unwrap();
    let last_sig_edit_ts = f_last_sig_edit_ts.unwrap();
    let status = f_status.unwrap();
    Some(AdCampaignLearningStageInfo { attribution_windows, conversions, last_sig_edit_ts, status })
}

pub open spec fn spec_dec_ad_recommendation(v: JsonV) -> Option<AdRecommendationV>
{
    match v {
        JsonV::Obj(ms) => {
            let f_recommendation_signature: Option<Seq<char>> = fld_req_str(ms, "recommendation_signature"@);
            let f_rec_type: Option<Seq<char>> = fld_req_str(ms, "type"@);
            let f_object_ids: Option<Option<Seq<Seq<char>>>> = fld_str_list(ms, "object_ids"@);
            if f_recommendation_signature is Some && f_rec_type is Some && f_object_ids is Some {
                Some(AdRecommendationV {
                    recommendation_signature: f_recommendation_signature->0,
                    rec_type: f_rec_type->0,
                    object_ids: f_object_ids->0,
                })
            } else {
                None
            }
        },
        _ => None,
    }
}

pub fn decode_ad_recommendation(j: &Json) -> (r: Option<AdRecommendation>)
    ensures
        match r {
            Some(x) => spec_dec_ad_recommendation(jview(*j)) == Some(x@),
            None => spec_dec_ad_recommendation(jview(*j)) is None,
        },
{
    let ms = match j {
        Json::Obj(ms) => ms,
        _ => {
            return None;
        },
    };
    let f_recommendation_signature = get_req_str_fld(ms, "recommendation_signature");
    let f_rec_type = get_req_str_fld(ms, "type");
    let f_object_ids = get_str_list_fld(ms, "object_ids");
    if f_recommendation_signature.is_none() || f_rec_type.is_none() || f_object_ids.is_none() {
        return None;
    }
    let recommendation_signature = f_recommendation_signature.unwrap();
    let rec_type = f_rec_type.unwrap();
    let object_ids = f_object_ids.unwrap();
    Some(AdRecommendation { recommendation_signature, rec_type, object_ids })
}

pub open spec fn spec_dec_ad_recommendation_list(items: Seq<JsonV>) -> Option<Seq<AdRecommendationV>>
    decreases items.len(),
{
    if items.len() == 0 {
        Some(Seq::empty())
    } else {
        match spec_dec_ad_recommendation(items[0]) {
            None => None,
            Some(x) => match spec_dec_ad_recommendation_list(items.drop_first()) {
                None => None,
                Some(rest) => Some(seq![x] + rest),
            },
        }
    }
}

pub fn decode_ad_recommendation_list(items: &Vec<Json>, from: usize) -> (r: Option<Vec<AdRecommendation>>)
    requires
        from <= items@.len(),
    ensures
        match r {
            Some(v) => spec_dec_ad_recommendation_list(
                views_of(items@).subrange(from as int, items@.len() as int),
            ) == Some(v.deep_view()),
            None => spec_dec_ad_recommendation_list(
                views_of(items@).subrange(from as int, items@.len() as int),
            ) is None,
        },
    decreases items@.len() - from,
{
    let ghost tail = views_of(items@).subrange(from as int, items@.len() as int);
    if from == items.len() {
        let out: Vec<AdRecommendation> = Vec::new();
        proof {
            assert(out.deep_view() =~= Seq::<AdRecommendationV>::empty());
        }
        return Some(out);
    }
    proof {
        assert(tail[0] == views_of(items@)[from as int]);
        assert(tail.drop_first() =~= views_of(items@).subrange(
            from + 1 as int,
            items@.len() as int,
        ));
    }
    match decode_ad_recommendation(&items[from]) {
        None => None,
        Some(x) => match decode_ad_recommendation_list(items, from + 1) {
            None => None,
            Some(rest) => {
                let ghost rest0 = rest.deep_view();
                let mut out = rest;
                out.insert(0, x);
                proof {
                    assert(out.deep_view() =~= seq![x@] + rest0);
                }
                Some(out)
            },
        },
    }
}

pub open spec fn spec_dec_location_key(v: JsonV) -> Option<LocationKeyV>
{
    match v {
        JsonV::Obj(ms) => {
            let f_key: Option<Seq<char>> = fld_req_str(ms, "key"@);
            if f_key is Some {
                Some(LocationKeyV {
                    key: f_key->0,
                })
            } else {
                None
            }
        },
        _ => None,
    }
}

pub fn decode_location_key(j: &Json) -> (r: Option<LocationKey>)
    ensures
        match r {
            Some(x) => spec_dec_location_key(jview(*j)) == Some(x@),
            None => spec_dec_location_key(jview(*j)) is None,
        },
{
    let ms = match j {
        Json::Obj(ms) => ms,
        _ => {
            return None;
        },
    };
    let f_key = get_req_str_fld(ms, "key");
    if f_key.is_none() {
        return None;
    }
    let key = f_key.unwrap();
    Some(LocationKey { key })
}

pub open spec fn spec_dec_location_key_list(items: Seq<JsonV>) -> Option<Seq<LocationKeyV>>
    decreases items.len(),
{
    if items.len() == 0 {
        Some(Seq::empty())
    } else {
        match spec_dec_location_key(items[0]) {
            None => None,
            Some(x) => match spec_dec_location_key_list(items.drop_first()) {
                None => None,
                Some(rest) => Some(seq![x] + rest),
            },
        }
    }
}

pub fn decode_location_key_list(items: &Vec<Json>, from: usize) -> (r: Option<Vec<LocationKey>>)
    requires
        from <= items@.len(),
    ensures
        match r {
            Some(v) => spec_dec_location_key_list(
                views_of(items@).subrange(from as int, items@.len() as int),
            ) == Some(v.deep_view()),
            None => spec_dec_location_key_list(
                views_of(items@).subrange(from as int, items@.len() as int),
            ) is None,
        },
    decreases items@.len() - from,
{
    let ghost tail = views_of(items@).subrange(from as int, items@.len() as int);
    if from == items.len() {
        let out: Vec<LocationKey> = Vec::new();
        proof {
            assert(out.deep_view() =~= Seq::<LocationKeyV>::empty());
        }
        return Some(out);
    }
    proof {
        assert(tail[0] == views_of(items@)[from as int]);
        assert(tail.drop_first() =~= views_of(items@).subrange(
            from + 1 as int,
            items@.len() as int,
        ));
    }
    match decode_location_key(&items[from]) {
        None => None,
        Some(x) => match decode_location_key_list(items, from + 1) {
            None => None,
            Some(rest) => {
                let ghost rest0 = rest.deep_view();
                let mut out = rest;
                out.insert(0, x);
                proof {
                    assert(out.deep_view() =~= seq![x@] + rest0);
                }
                Some(out)
            },
        },
    }
}

pub open spec fn spec_dec_city_targeting(v: JsonV) -> Option<CityTargetingV>
{
    match v {
        JsonV::Obj(ms) => {
            let f_key: Option<Seq<char>> = fld_req_str(ms, "key"@);
            let f_radius: Option<u8> = fld_req_u8(ms, "radius"@);
            let f_distance_unit: Option<Seq<char>> = fld_req_str(ms, "distance_unit"@);
            if f_key is Some && f_radius is Some && f_distance_unit is Some {
                Some(CityTargetingV {
                    key: f_key->0,
                    radius: f_radius->0,
                    distance_unit: f_distance_unit->0,
                })
            } else {
                None
            }
        },
        _ => None,
    }
}

pub fn decode_city_targeting(j: &Json) -> (r: Option<CityTargeting>)
    ensures
        match r {
            Some(x) => spec_dec_city_targeting(jview(*j)) == Some(x@),
            None => spec_dec_city_targeting(jview(*j)) is None,
        },
{
    let ms = match j {
        Json::Obj(ms) => ms,
        _ => {
            return None;
        },
    };
    let f_key = get_req_str_fld(ms, "key");
    let f_radius = get_req_u8_fld(ms, "radius");
    let f_distance_unit = get_req_str_fld(ms, "distance_unit");
    if f_key.is_none() || f_radius.is_none() || f_distance_unit.is_none() {
        return None;
    }
    let key = f_key.unwrap();
    let radius = f_radius.unwrap();
    let distance_unit = f_distance_unit.unwrap();
    Some(CityTargeting { key, radius, distance_unit })
}

pub open spec fn spec_dec_city_targeting_list(items: Seq<JsonV>) -> Option<Seq<CityTargetingV>>
    decreases items.len(),
{
    if items.len() == 0 {
        Some(Seq::empty())
    } else {
        match spec_dec_city_targeting(items[0]) {
            None => None,
            Some(x) => match spec_dec_city_targeting_list(items.drop_first()) {
                None => None,
                Some(rest) => Some(seq![x] + rest),
            },
        }
    }
}

pub fn decode_city_targeting_list(items: &Vec<Json>, from: usize) -> (r: Option<Vec<CityTargeting>>)
    requires
        from <= items@.len(),
    ensures
        match r {
            Some(v) => spec_dec_city_targeting_list(
                views_of(items@).subrange(from as int, items@.len() as int),
            ) == Some(v.deep_view()),
            None => spec_dec_city_targeting_list(
                views_of(items@).subrange(from as int, items@.len() as int),
            ) is None,
        },
    decreases items@.len() - from,
{
    let ghost tail = views_of(items@).subrange(from as int, items@.len() as int);
    if from == items.len() {
        let out: Vec<CityTargeting> = Vec::new();
        proof {
            assert(out.deep_view() =~= Seq::<CityTargetingV>::empty());
        }
        return Some(out);
    }
    proof {
        assert(tail[0] == views_of(items@)[from as int]);
        assert(tail.drop_first() =~= views_of(items@).subrange(
            from + 1 as int,
            items@.len() as int,
        ));
    }
    match decode_city_targeting(&items[from]) {
        None => None,
        Some(x) => match decode_city_targeting_list(items, from + 1) {
            None => None,
            Some(rest) => {
                let ghost rest0 = rest.deep_view();
                let mut out = rest;
                out.insert(0, x);
                proof {
                    assert(out.deep_view() =~= seq![x@] + rest0);
                }
                Some(out)
            },
        },
    }
}

pub open spec fn spec_dec_place_targeting(v: JsonV) -> Option<PlaceTargetingV>
{
    match v {
        JsonV::Obj(ms) => {
            let f_key: Option<Seq<char>> = fld_req_str(ms, "key"@);
            let f_name: Option<Seq<char>> = fld_req_str(ms, "name"@);
            let f_radius: Option<u8> = fld_req_u8(ms, "radius"@);
            let f_distance_unit: Option<Seq<char>> = fld_req_str(ms, "distance_unit"@);
            if f_key is Some && f_name is Some && f_radius is Some && f_distance_unit is Some {
                Some(PlaceTargetingV {
                    key: f_key->0,
                    name: f_name->0,
                    radius: f_radius->0,
                    distance_unit: f_distance_unit->0,
                })
            } else {
                None
            }
        },
        _ => None,
    }
}

pub fn decode_place_targeting(j: &Json) -> (r: Option<PlaceTargeting>)
    ensures
        match r {
            Some(x) => spec_dec_place_targeting(jview(*j)) == Some(x@),
            None => spec_dec_place_targeting(jview(*j)) is None,
        },
{
    let ms = match j {
        Json::Obj(ms) => ms,
        _ => {
            return None;
        },
    };
    let f_key = get_req_str_fld(ms, "key");
    let f_name = get_req_str_fld(ms, "name");
    let f_radius = get_req_u8_fld(ms, "radius");
    let f_distance_unit = get_req_str_fld(ms, "distance_unit");
    if f_key.is_none() || f_name.is_none() || f_radius.is_none() || f_distance_unit.is_none() {
        return None;
    }
    let key = f_key.unwrap();
    let name = f_name.unwrap();
    let radius = f_radius.unwrap();
    let distance_unit = f_distance_unit.unwrap();
    Some(PlaceTargeting { key, name, radius, distance_unit })
}

pub open spec fn spec_dec_place_targeting_list(items: Seq<JsonV>) -> Option<Seq<PlaceTargetingV>>
    decreases items.len(),
{
    if items.len() == 0 {
        Some(Seq::empty())
    } else {
        match spec_dec_place_targeting(items[0]) {
            None => None,
            Some(x) => match spec_dec_place_targeting_list(items.drop_first()) {
                None => None,
                Some(rest) => Some(seq![x] + rest),
            },
        }
    }
}

pub fn decode_place_targeting_list(items: &Vec<Json>, from: usize) -> (r: Option<Vec<PlaceTargeting>>)
    requires
        from <= items@.len(),
    ensures
        match r {
            Some(v) => spec_dec_place_targeting_list(
                views_of(items@).subrange(from as int, items@.len() as int),
            ) == Some(v.deep_view()),
            None => spec_dec_place_targeting_list(
                views_of(items@).subrange(from as int, items@.len() as int),
            ) is None,
        },
    decreases items@.len() - from,
{
    let ghost tail = views_of(items@).subrange(from as int, items@.len() as int);
    if from == items.len() {
        let out: Vec<PlaceTargeting> = Vec::new();
        proof {
            assert(out.deep_view() =~= Seq::<PlaceTargetingV>::empty());
        }
        return Some(out);
    }
    proof {
        assert(tail[0] == views_of(items@)[from as int]);
        assert(tail.drop_first() =~= views_of(items@).subrange(
            from + 1 as int,
            items@.len() as int,
        ));
    }
    match decode_place_targeting(&items[from]) {
        None => None,
        Some(x) => match decode_place_targeting_list(items, from + 1) {
            None => None,
            Some(rest) => {
                let ghost rest0 = rest.deep_view();
                let mut out = rest;
                out.insert(0, x);
                proof {
                    assert(out.deep_view() =~= seq![x@] + rest0);
                }
                Some(out)
            },
        },
    }
}

pub open spec fn spec_dec_custom_location(v: JsonV) -> Option<CustomLocationV>
{
    match v {
        JsonV::Obj(ms) => {
            let f_latitude: Option<Seq<char>> = fld_req_numtext(ms, "latitude"@);
            let f_longitude: Option<Seq<char>> = fld_req_numtext(ms, "longitude"@);
            let f_name: Option<Option<Seq<char>>> = fld_str(ms, "name"@);
            let f_radius: Option<Seq<char>> = fld_req_numtext(ms, "radius"@);
            let f_distance_unit: Option<Option<Seq<char>>> = fld_str(ms, "distance_unit"@);
            let f_address_string: Option<Option<Seq<char>>> = fld_str(ms, "address_string"@);
            if f_latitude is Some && f_longitude is Some && f_name is Some && f_radius is Some && f_distance_unit is Some && f_address_string is Some {
                Some(CustomLocationV {
                    latitude: f_latitude->0,
                    longitude: f_longitude->0,
                    name: f_name->0,
                    radius: f_radius->0,
                    distance_unit: f_distance_unit->0,
                    address_string: f_address_string->0,
                })
            } else {
                None
            }
        },
        _ => None,
    }
}

pub fn decode_custom_location(j: &Json) -> (r: Option<CustomLocation>)
    ensures
        match r {
            Some(x) => spec_dec_custom_location(jview(*j)) == Some(x@),
            None => spec_dec_custom_location(jview(*j)) is None,
        },
{
    let ms = match j {
        Json::Obj(ms) => ms,
        _ => {
            return None;
        },
    };
    let f_latitude = get_req_numtext_fld(ms, "latitude");
    let f_longitude = get_req_numtext_fld(ms, "longitude");
    let f_name = get_str_fld(ms, "name");
    let f_radius = get_req_numtext_fld(ms, "radius");
    let f_distance_unit = get_str_fld(ms, "distance_unit");
    let f_address_string = get_str_fld(ms, "address_string");
    if f_latitude.is_none() || f_longitude.is_none() || f_name.is_none() || f_radius.is_none() || f_distance_unit.is_none() || f_address_string.is_none() {
        return None;
    }
    let latitude = f_latitude.unwrap();
    let longitude = f_longitude.unwrap();
    let name = f_name.unwrap();
    let radius = f_radius.unwrap();
    let distance_unit = f_distance_unit.unwrap();
    let address_string = f_address_string.unwrap();
    Some(CustomLocation { latitude, longitude, name, radius, distance_unit, address_string })
}

pub open spec fn spec_dec_custom_location_list(items: Seq<JsonV>) -> Option<Seq<CustomLocationV>>
    decreases items.len(),
{
    if items.len() == 0 {
        Some(Seq::empty())
    } else {
        match spec_dec_custom_location(items[0]) {
            None => None,
            Some(x) => match spec_dec_custom_location_list(items.drop_first()) {
                None => None,
                Some(rest) => Some(seq![x] + rest),
            },
        }
    }
}

pub fn decode_custom_location_list(items: &Vec<Json>, from: usize) -> (r: Option<Vec<CustomLocation>>)
    requires
        from <= items@.len(),
    ensures
        match r {
            Some(v) => spec_dec_custom_location_list(
                views_of(items@).subrange(from as int, items@.len() as int),
            ) == Some(v.deep_view()),
            None => spec_dec_custom_location_list(
                views_of(items@).subrange(from as int, items@.len() as int),
            ) is None,
        },
    decreases items@.len() - from,
{
    let ghost tail = views_of(items@).subrange(from as int, items@.len() as int);
    if from == items.len() {
        let out: Vec<CustomLocation> = Vec::new();
        proof {
            assert(out.deep_view() =~= Seq::<CustomLocationV>::empty());
        }
        return Some(out);
    }
    proof {
        assert(tail[0] == views_of(items@)[from as int]);
        assert(tail.drop_first() =~= views_of(items@).subrange(
            from + 1 as int,
            items@.len() as int,
        ));
    }
    match decode_custom_location(&items[from]) {
        None => None,
        Some(x) => match decode_custom_location_list(items, from + 1) {
            None => None,
            Some(rest) => {
                let ghost rest0 = rest.deep_view();
                let mut out = rest;
                out.insert(0, x);
                proof {
                    assert(out.deep_view() =~= seq![x@] + rest0);
                }
                Some(out)
            },
        },
    }
}

pub open spec fn spec_dec_interest_or_behavior(v: JsonV) -> Option<InterestOrBehaviorV>
{
    match v {
        JsonV::Obj(ms) => {
            let f_id: Option<u64> = fld_req_u64(ms, "id"@);
            let f_name: Option<Option<Seq<char>>> = fld_str(ms, "name"@);
            if f_id is Some && f_name is Some {
                Some(InterestOrBehaviorV {
                    id: f_id->0,
                    name: f_name->0,
                })
            } else {
                None
            }
        },
        _ => None,
    }
}

pub fn decode_interest_or_behavior(j: &Json) -> (r: Option<InterestOrBehavior>)
    ensures
        match r {
            Some(x) => spec_dec_interest_or_behavior(jview(*j)) == Some(x@),
            None => spec_dec_interest_or_behavior(jview(*j)) is None,
        },
{
    let ms = match j {
        Json::Obj(ms) => ms,
        _ => {
            return None;
        },
    };
    let f_id = get_req_u64_fld(ms, "id");
    let f_name = get_str_fld(ms, "name");
    if f_id.is_none() || f_name.is_none() {
        return None;
    }
    let id = f_id.unwrap();
    let name = f_name.unwrap();
    Some(InterestOrBehavior { id, name })
}

pub open spec fn spec_dec_interest_or_behavior_list(items: Seq<JsonV>) -> Option<Seq<InterestOrBehaviorV>>
    decreases items.len(),
{
    if items.len() == 0 {
        Some(Seq::empty())
    } else {
        match spec_dec_interest_or_behavior(items[0]) {
            None => None,
            Some(x) => match spec_dec_interest_or_behavior_list(items.drop_first()) {
                None => None,
                Some(rest) => Some(seq![x] + rest),
            },
        }
    }
}

pub fn decode_interest_or_behavior_list(items: &Vec<Json>, from: usize) -> (r: Option<Vec<InterestOrBehavior>>)
    requires
        from <= items@.len(),
    ensures
        match r {
            Some(v) => spec_dec_interest_or_behavior_list(
                views_of(items@).subrange(from as int, items@.len() as int),
            ) == Some(v.deep_view()),
            None => spec_dec_interest_or_behavior_list(
                views_of(items@).subrange(from as int, items@.len() as int),
            ) is None,
        },
    decreases items@.len() - from,
{
    let ghost tail = views_of(items@).subrange(from as int, items@.len() as int);
    if from == items.len() {
        let out: Vec<InterestOrBehavior> = Vec::new();
        proof {
            assert(out.deep_view() =~= Seq::<InterestOrBehaviorV>::empty());
        }
        return Some(out);
    }
    proof {
        assert(tail[0] == views_of(items@)[from as int]);
        assert(tail.drop_first() =~= views_of(items@).subrange(
            from + 1 as int,
            items@.len() as int,
        ));
    }
    match decode_interest_or_behavior(&items[from]) {
        None => None,
        Some(x) => match decode_interest_or_behavior_list(items, from + 1) {
            None => None,
            Some(rest) => {
                let ghost rest0 = rest.deep_view();
                let mut out = rest;
                out.insert(0, x);
                proof {
                    assert(out.deep_view() =~= seq![x@] + rest0);
                }
                Some(out)
            },
        },
    }
}

pub open spec fn spec_dec_targeting_optimization_types(v: JsonV) -> Option<TargetingOptimizationTypesV>
{
    match v {
        JsonV::Obj(ms) => {
            let f_key: Option<Option<Seq<char>>> = fld_str(ms, "key"@);
            let f_value: Option<Option<i64>> = fld_i64(ms, "value"@);
            if f_key is Some && f_value is Some {
                Some(TargetingOptimizationTypesV {
                    key: f_key->0,
                    value: f_value->0,
                })
            } else {
                None
            }
        },
        _ => None,
    }
}

pub fn decode_targeting_optimization_types(j: &Json) -> (r: Option<TargetingOptimizationTypes>)
    ensures
        match r {
            Some(x) => spec_dec_targeting_optimization_types(jview(*j)) == Some(x@),
            None => spec_dec_targeting_optimization_types(jview(*j)) is None,
        },
{
    let ms = match j {
        Json::Obj(ms) => ms,
        _ => {
            return None;
        },
    };
    let f_key = get_str_fld(ms, "key");
    let f_value = get_i64_fld(ms, "value");
    if f_key.is_none() || f_value.is_none() {
        return None;
    }
    let key = f_key.unwrap();
    let value = f_value.unwrap();
    Some(TargetingOptimizationTypes { key, value })
}

pub open spec fn spec_dec_targeting_optimization_types_list(items: Seq<JsonV>) -> Option<Seq<TargetingOptimizationTypesV>>
    decreases items.len(),
{
    if items.len() == 0 {
        Some(Seq::empty())
    } else {
        match spec_dec_targeting_optimization_types(items[0]) {
            None => None,
            Some(x) => match spec_dec_targeting_optimization_types_list(items.drop_first()) {
                None => None,
                Some(rest) => Some(seq![x] + rest),
            },
        }
    }
}

pub fn decode_targeting_optimization_types_list(items: &Vec<Json>, from: usize) -> (r: Option<Vec<TargetingOptimizationTypes>>)
    requires
        from <= items@.len(),
    ensures
        match r {
            Some(v) => spec_dec_targeting_optimization_types_list(
                views_of(items@).subrange(from as int, items@.len() as int),
            ) == Some(v.deep_view()),
            None => spec_dec_targeting_optimization_types_list(
                views_of(items@).subrange(from as int, items@.len() as int),
            ) is None,
        },
    decreases items@.len() - from,
{
    let ghost tail = views_of(items@).subrange(from as int, items@.len() as int);
    if from == items.len() {
        let out: Vec<TargetingOptimizationTypes> = Vec::new();
        proof {
            assert(out.deep_view() =~= Seq::<TargetingOptimizationTypesV>::empty());
        }
        return Some(out);
    }
    proof {
        assert(tail[0] == views_of(items@)[from as int]);
        assert(tail.drop_first() =~= views_of(items@).subrange(
            from + 1 as int,
            items@.len() as int,
        ));
    }
    match decode_targeting_optimization_types(&items[from]) {
        None => None,
        Some(x) => match decode_targeting_optimization_types_list(items, from + 1) {
            None => None,
            Some(rest) => {
                let ghost rest0 = rest.deep_view();
                let mut out = rest;
                out.insert(0, x);
                proof {
                    assert(out.deep_view() =~= seq![x@] + rest0);
                }
                Some(out)
            },
        },
    }
}

pub open spec fn spec_dec_targeting(v: JsonV) -> Option<TargetingV>
{
    match v {
        JsonV::Obj(ms) => {
            let f_genders: Option<Option<Seq<u8>>> = fld_u8_list(ms, "genders"@);
            let f_age_min: Option<Option<u8>> = fld_u8(ms, "age_min"@);
            let f_age_max: Option<Option<u8>> = fld_u8(ms, "age_max"@);
            let f_countries: Option<Option<Seq<Seq<char>>>> = fld_str_list(ms, "countries"@);
            let f_regions: Option<Option<Seq<LocationKeyV>>> = match obj_lookup(ms, "regions"@) {
                None => Some(None),
                Some(x) => match x {
                    JsonV::Null => Some(None),
                    JsonV::Arr(items) => match spec_dec_location_key_list(items) {
                        Some(r) => Some(Some(r)),
                        None => None,
                    },
                    _ => None,
                },
            };
            let f_cities: Option<Option<Seq<CityTargetingV>>> = match obj_lookup(ms, "cities"@) {
                None => Some(None),
                Some(x) => match x {
                    JsonV::Null => Some(None),
                    JsonV::Arr(items) => match spec_dec_city_targeting_list(items) {
                        Some(r) => Some(Some(r)),
                        None => None,
                    },
                    _ => None,
                },
            };
            let f_zips: Option<Option<Seq<LocationKeyV>>> = match obj_lookup(ms, "zips"@) {
                None => Some(None),
                Some(x) => match x {
                    JsonV::Null => Some(None),
                    JsonV::Arr(items) => match spec_dec_location_key_list(items) {
                        Some(r) => Some(Some(r)),
                        None => None,
                    },
                    _ => None,
                },
            };
            let f_places: Option<Option<Seq<PlaceTargetingV>>> = match obj_lookup(ms, "places"@) {
                None => Some(None),
                Some(x) => match x {
                    JsonV::Null => Some(None),
                    JsonV::Arr(items) => match spec_dec_place_targeting_list(items) {
                        Some(r) => Some(Some(r)),
                        None => None,
                    },
                    _ => None,
                },
            };
            let f_custom_locations: Option<Option<Seq<CustomLocationV>>> = match obj_lookup(ms, "custom_locations"@) {
                None => Some(None),
                Some(x) => match x {
                    JsonV::Null => Some(None),
                    JsonV::Arr(items) => match spec_dec_custom_location_list(items) {
                        Some(r) => Some(Some(r)),
                        None => None,
                    },
                    _ => None,
                },
            };
            let f_geo_markets: Option<Option<Seq<LocationKeyV>>> = match obj_lookup(ms, "geo_markets"@) {
                None => Some(None),
                Some(x) => match x {
                    JsonV::Null => Some(None),
                    JsonV::Arr(items) => match spec_dec_location_key_list(items) {
                        Some(r) => Some(Some(r)),
                        None => None,
                    },
                    _ => None,
                },
            };
            let f_electoral_districts: Option<Option<Seq<LocationKeyV>>> = match obj_lookup(ms, "electoral_districts"@) {
                None => Some(None),
                Some(x) => match x {
                    JsonV::Null => Some(None),
                    JsonV::Arr(items) => match spec_dec_location_key_list(items) {
                        Some(r) => Some(Some(r)),
                        None => None,
                    },
                    _ => None,
                },
            };
            let f_location_types: Option<Option<Seq<Seq<char>>>> = fld_str_list(ms, "location_types"@);
            let f_country_groups: Option<Option<Seq<Seq<char>>>> = fld_str_list(ms, "country_groups"@);
            let f_interests: Option<Option<Seq<InterestOrBehaviorV>>> = match obj_lookup(ms, "interests"@) {
                None => Some(None),
                Some(x) => match x {
                    JsonV::Null => Some(None),
                    JsonV::Arr(items) => match spec_dec_interest_or_behavior_list(items) {
                        Some(r) => Some(Some(r)),
                        None => None,
                    },
                    _ => None,
                },
            };
            let f_behaviors: Option<Option<Seq<InterestOrBehaviorV>>> = match obj_lookup(ms, "behaviors"@) {
                None => Some(None),
                Some(x) => match x {
                    JsonV::Null => Some(None),
                    JsonV::Arr(items) => match spec_dec_interest_or_behavior_list(items) {
                        Some(r) => Some(Some(r)),
                        None => None,
                    },
                    _ => None,
                },
            };
            if f_genders is Some && f_age_min is Some && f_age_max is Some && f_countries is Some && f_regions is Some && f_cities is Some && f_zips is Some && f_places is Some && f_custom_locations is Some && f_geo_markets is Some && f_electoral_districts is Some && f_location_types is Some && f_country_groups is Some && f_interests is Some && f_behaviors is Some {
                Some(TargetingV {
                    genders: f_genders->0,
                    age_min: f_age_min->0,
                    age_max: f_age_max->0,
                    countries: f_countries->0,
                    regions: f_regions->0,
                    cities: f_cities->0,
                    zips: f_zips->0,
                    places: f_places->0,
                    custom_locations: f_custom_locations->0,
                    geo_markets: f_geo_markets->0,
                    electoral_districts: f_electoral_districts->0,
                    location_types: f_location_types->0,
                    country_groups: f_country_groups->0,
                    interests: f_interests->0,
                    behaviors: f_behaviors->0,
                })
            } else {
                None
            }
        },
        _ => None,
    }
}

#[verifier::rlimit(100)]
#[verifier::spinoff_prover]
pub fn decode_targeting(j: &Json) -> (r: Option<Targeting>)
    ensures
        match r {
            Some(x) => spec_dec_targeting(jview(*j)) == Some(x@),
            None => spec_dec_targeting(jview(*j)) is None,
        },
{
    let ms = match j {
        Json::Obj(ms) => ms,
        _ => {
            return None;
        },
    };
    let f_genders = get_u8_list_fld(ms, "genders");
    let f_age_min = get_u8_fld(ms, "age_min");
    let f_age_max = get_u8_fld(ms, "age_max");
    let f_countries = get_str_list_fld(ms, "countries");
    let f_regions: Option<Option<Vec<LocationKey>>> = match obj_get(ms, "regions") {
        None => Some(None),
        Some(x) => match x {
            Json::Null => Some(None),
            Json::Arr(items) => {
                proof {
                    assert(views_of(items@).subrange(0, items@.len() as int) =~= views_of(
                        items@,
                    ));
                }
                match decode_location_key_list(items, 0) {
                    Some(r) => Some(Some(r)),
                    None => None,
                }
            },
            _ => None,
        },
    };
    let f_cities: Option<Option<Vec<CityTargeting>>> = match obj_get(ms, "cities") {
        None => Some(None),
        Some(x) => match x {
            Json::Null => Some(None),
            Json::Arr(items) => {
                proof {
                    assert(views_of(items@).subrange(0, items@.len() as int) =~= views_of(
                        items@,
                    ));
                }
                match decode_city_targeting_list(items, 0) {
                    Some(r) => Some(Some(r)),
                    None => None,
                }
            },
            _ => None,
        },
    };
    let f_zips: Option<Option<Vec<LocationKey>>> = match obj_get(ms, "zips") {
        None => Some(None),
        Some(x) => match x {
            Json::Null => Some(None),
            Json::Arr(items) => {
                proof {
                    assert(views_of(items@).subrange(0, items@.len() as int) =~= views_of(
                        items@,
                    ));
                }
                match decode_location_key_list(items, 0) {
                    Some(r) => Some(Some(r)),
                    None => None,
                }
            },
            _ => None,
        },
    };
    let f_places: Option<Option<Vec<PlaceTargeting>>> = match obj_get(ms, "places") {
        None => Some(None),
        Some(x) => match x {
            Json::Null => Some(None),
            Json::Arr(items) => {
                proof {
                    assert(views_of(items@).subrange(0, items@.len() as int) =~= views_of(
                        items@,
                    ));
                }
                match decode_place_targeting_list(items, 0) {
                    Some(r) => Some(Some(r)),
                    None => None,
                }
            },
            _ => None,
        },
    };
    let f_custom_locations: Option<Option<Vec<CustomLocation>>> = match obj_get(ms, "custom_locations") {
        None => Some(None),
        Some(x) => match x {
            Json::Null => Some(None),
            Json::Arr(items) => {
                proof {
                    assert(views_of(items@).subrange(0, items@.len() as int) =~= views_of(
                        items@,
                    ));
                }
                match decode_custom_location_list(items, 0) {
                    Some(r) => Some(Some(r)),
                    None => None,
                }
            },
            _ => None,
        },
    };
    let f_geo_markets: Option<Option<Vec<LocationKey>>> = match obj_get(ms, "geo_markets") {
        None => Some(None),
        Some(x) => match x {
            Json::Null => Some(None),
            Json::Arr(items) => {
                proof {
                    assert(views_of(items@).subrange(0, items@.len() as int) =~= views_of(
                        items@,
                    ));
                }
                match decode_location_key_list(items, 0) {
                    Some(r) => Some(Some(r)),
                    None => None,
                }
            },
            _ => None,
        },
    };
    let f_electoral_districts: Option<Option<Vec<LocationKey>>> = match obj_get(ms, "electoral_districts") {
        None => Some(None),
        Some(x) => match x {
            Json::Null => Some(None),
            Json::Arr(items) => {
                proof {
                    assert(views_of(items@).subrange(0, items@.len() as int) =~= views_of(
                        items@,
                    ));
                }
                match decode_location_key_list(items, 0) {
                    Some(r) => Some(Some(r)),
                    None => None,
                }
            },
            _ => None,
        },
    };
    let f_location_types = get_str_list_fld(ms, "location_types");
    let f_country_groups = get_str_list_fld(ms, "country_groups");
    let f_interests: Option<Option<Vec<InterestOrBehavior>>> = match obj_get(ms, "interests") {
        None => Some(None),
        Some(x) => match x {
            Json::Null => Some(None),
            Json::Arr(items) => {
                proof {
                    assert(views_of(items@).subrange(0, items@.len() as int) =~= views_of(
                        items@,
                    ));
                }
                match decode_interest_or_behavior_list(items, 0) {
                    Some(r) => Some(Some(r)),
                    None => None,
                }
            },
            _ => None,
        },
    };
    let f_behaviors: Option<Option<Vec<InterestOrBehavior>>> = match obj_get(ms, "behaviors") {
        None => Some(None),
        Some(x) => match x {
            Json::Null => Some(None),
            Json::Arr(items) => {
                proof {
                    assert(views_of(items@).subrange(0, items@.len() as int) =~= views_of(
                        items@,
                    ));
                }
                match decode_interest_or_behavior_list(items, 0) {
                    Some(r) => Some(Some(r)),
                    None => None,
                }
            },
            _ => None,
        },
    };
    if f_genders.is_none() || f_age_min.is_none() || f_age_max.is_none() || f_countries.is_none() || f_regions.is_none() || f_cities.is_none() || f_zips.is_none() || f_places.is_none() || f_custom_locations.is_none() || f_geo_markets.is_none() || f_electoral_districts.is_none() || f_location_types.is_none() || f_country_groups.is_none() || f_interests.is_none() || f_behaviors.is_none() {
        return None;
    }
    let genders = f_genders.unwrap();
    let age_min = f_age_min.unwrap();
    let age_max = f_age_max.unwrap();
    let countries = f_countries.unwrap();
    let regions = f_regions.unwrap();
    let cities = f_cities.unwrap();
    let zips = f_zips.unwrap();
    let places = f_places.unwrap();
    let custom_locations = f_custom_locations.unwrap();
    let geo_markets = f_geo_markets.unwrap();
    let electoral_districts = f_electoral_districts.unwrap();
    let location_types = f_location_types.unwrap();
    let country_groups = f_country_groups.unwrap();
    let interests = f_interests.unwrap();
    let behaviors = f_behaviors.unwrap();
    Some(Targeting { genders, age_min, age_max, countries, regions, cities, zips, places, custom_locations, geo_markets, electoral_districts, location_types, country_groups, interests, behaviors })
}

pub open spec fn spec_dec_campaign(v: JsonV) -> Option<CampaignV>
    decreases v,
    via spec_dec_campaign_dec
{
    match v {
        JsonV::Obj(ms) => {
            let f_id: Option<Option<Seq<char>>> = fld_str(ms, "id"@);
            let f_account_id: Option<Option<Seq<char>>> = fld_str(ms, "account_id"@);
            let f_adlabels: Option<Option<Seq<AdLabelV>>> = match obj_lookup(ms, "adlabels"@) {
                None => Some(None),
                Some(x) => match x {
                    JsonV::Null => Some(None),
                    JsonV::Arr(items) => match spec_dec_ad_label_list(items) {
                        Some(r) => Some(Some(r)),
                        None => None,
                    },
                    _ => None,
                },
            };
            let f_bid_strategy: Option<Option<Seq<char>>> = fld_str(ms, "bid_strategy"@);
            let f_boosted_object_id: Option<Option<Seq<char>>> = fld_str(ms, "boosted_object_id"@);
            let f_brand_lift_studies: Option<Option<Seq<AdStudyV>>> = match obj_lookup(ms, "brand_lift_studies"@) {
                None => Some(None),
                Some(x) => match x {
                    JsonV::Null => Some(None),
                    JsonV::Arr(items) => match spec_dec_ad_study_list(items) {
                        Some(r) => Some(Some(r)),
                        None => None,
                    },
                    _ => None,
                },
            };
            let f_budget_rebalance_flag: Option<Option<bool>> = fld_bool(ms, "budget_rebalance_flag"@);
            let f_budget_remaining: Option<Option<Seq<char>>> = fld_str(ms, "budget_remaining"@);
            let f_buying_type: Option<Option<Seq<char>>> = fld_str(ms, "buying_type"@);
            let f_campaign_group_active_time: Option<Option<Seq<char>>> = fld_str(ms, "campaign_group_active_time"@);
            let f_can_create_brand_lift_study: Option<Option<bool>> = fld_bool(ms, "can_create_brand_lift_study"@);
            let f_can_use_spend_cap: Option<Option<bool>> = fld_bool(ms, "can_use_spend_cap"@);
            let f_configured_status: Option<Option<Seq<char>>> = fld_str(ms, "configured_status"@);
            let f_created_time: Option<Option<Seq<char>>> = fld_str(ms, "created_time"@);
            let f_daily_budget: Option<Option<Seq<char>>> = fld_str(ms, "daily_budget"@);
            let f_effective_status: Option<Option<Seq<char>>> = fld_str(ms, "effective_status"@);
            let f_has_secondary_skadnetwork_reporting: Option<Option<bool>> = fld_bool(ms, "has_secondary_skadnetwork_reporting"@);
            let f_is_budget_schedule_enabled: Option<Option<bool>> = fld_bool(ms, "is_budget_schedule_enabled"@);
            let f_is_skadnetwork_attribution: Option<Option<bool>> = fld_bool(ms, "is_skadnetwork_attribution"@);
            let f_issues_info: Option<Option<Seq<AdCampaignIssuesInfoV>>> = match obj_lookup(ms, "issues_info"@) {
                None => Some(None),
                Some(x) => match x {
                    JsonV::Null => Some(None),
                    JsonV::Arr(items) => match spec_dec_ad_campaign_issues_info_list(items) {
                        Some(r) => Some(Some(r)),
                        None => None,
                    },
                    _ => None,
                },
            };
            let f_last_budget_toggling_time: Option<Option<Seq<char>>> = fld_str(ms, "last_budget_toggling_time"@);
            let f_lifetime_budget: Option<Option<Seq<char>>> = fld_str(ms, "lifetime_budget"@);
            let f_name: Option<Option<Seq<char>>> = fld_str(ms, "name"@);
            let f_objective: Option<Option<Seq<char>>> = fld_str(ms, "objective"@);
            let f_pacing_type: Option<Option<Seq<Seq<char>>>> = fld_str_list(ms, "pacing_type"@);
            let f_primary_attribution: Option<Option<Seq<char>>> = fld_str(ms, "primary_attribution"@);
            let f_promoted_object: Option<Option<AdPromotedObjectV>> = match obj_lookup(ms, "promoted_object"@) {
                None => Some(None),
                Some(x) => if x is Null {
                    Some(None)
                } else {
                    match spec_dec_ad_promoted_object(x) {
                        Some(r) => Some(Some(r)),
                        None => None,
                    }
                },
            };
            let f_smart_promotion_type: Option<Option<Seq<char>>> = fld_str(ms, "smart_promotion_type"@);
            let f_source_campaign: Option<Option<Box<CampaignV>>> = match obj_lookup(ms, "source_campaign"@) {
                None => Some(None),
                Some(x) => if x is Null {
                    Some(None)
                } else {
                    match spec_dec_campaign(x) {
                        Some(r) => Some(Some(Box::new(r))),
                        None => None,
                    }
                },
            };
            let f_source_campaign_id: Option<Option<Seq<char>>> = fld_str(ms, "source_campaign_id"@);
            let f_special_ad_categories: Option<Option<Seq<Seq<char>>>> = fld_str_list(ms, "special_ad_categories"@);
            let f_special_ad_category: Option<Option<Seq<char>>> = fld_str(ms, "special_ad_category"@);
            let f_special_ad_category_country: Option<Option<Seq<Seq<char>>>> = fld_str_list(ms, "special_ad_category_country"@);
            let f_spend_cap: Option<Option<Seq<char>>> = fld_str(ms, "spend_cap"@);
            let f_start_time: Option<Option<Seq<char>>> = fld_str(ms, "start_time"@);
            let f_status: Option<Option<Seq<char>>> = fld_str(ms, "status"@);
            let f_stop_time: Option<Option<Seq<char>>> = fld_str(ms, "stop_time"@);
            let f_topline_id: Option<Option<Seq<char>>> = fld_str(ms, "topline_id"@);
            let f_updated_time: Option<Option<Seq<char>>> = fld_str(ms, "updated_time"@);
            if f_id is Some && f_account_id is Some && f_adlabels is Some && f_bid_strategy is Some && f_boosted_object_id is Some && f_brand_lift_studies is Some && f_budget_rebalance_flag is Some && f_budget_remaining is Some && f_buying_type is Some && f_campaign_group_active_time is Some && f_can_create_brand_lift_study is Some && f_can_use_spend_cap is Some && f_configured_status is Some && f_created_time is Some && f_daily_budget is Some && f_effective_status is Some && f_has_secondary_skadnetwork_reporting is Some && f_is_budget_schedule_enabled is Some && f_is_skadnetwork_attribution is Some && f_issues_info is Some && f_last_budget_toggling_time is Some && f_lifetime_budget is Some && f_name is Some && f_objective is Some && f_pacing_type is Some && f_primary_attribution is Some && f_promoted_object is Some && f_smart_promotion_type is Some && f_source_campaign is Some && f_source_campaign_id is Some && f_special_ad_categories is Some && f_special_ad_category is Some && f_special_ad_category_country is Some && f_spend_cap is Some && f_start_time is Some && f_status is Some && f_stop_time is Some && f_topline_id is Some && f_updated_time is Some {
                Some(CampaignV {
                    id: f_id->0,
                    account_id: f_account_id->0,
                    adlabels: f_adlabels->0,
                    bid_strategy: f_bid_strategy->0,
                    boosted_object_id: f_boosted_object_id->0,
                    brand_lift_studies: f_brand_lift_studies->0,
                    budget_rebalance_flag: f_budget_rebalance_flag->0,
                    budget_remaining: f_budget_remaining->0,
                    buying_type: f_buying_type->0,
                    campaign_group_active_time: f_campaign_group_active_time->0,
                    can_create_brand_lift_study: f_can_create_brand_lift_study->0,
                    can_use_spend_cap: f_can_use_spend_cap->0,
                    configured_status: f_configured_status->0,
                    created_time: f_created_time->0,
                    daily_budget: f_daily_budget->0,
                    effective_status: f_effective_status->0,
                    has_secondary_skadnetwork_reporting: f_has_secondary_skadnetwork_reporting->0,
                    is_budget_schedule_enabled: f_is_budget_schedule_enabled->0,
                    is_skadnetwork_attribution: f_is_skadnetwork_attribution->0,
                    issues_info: f_issues_info->0,
                    last_budget_toggling_time: f_last_budget_toggling_time->0,
                    lifetime_budget: f_lifetime_budget->0,
                    name: f_name->0,
                    objective: f_objective->0,
                    pacing_type: f_pacing_type->0,
                    primary_attribution: f_primary_attribution->0,
                    promoted_object: f_promoted_object->0,
                    smart_promotion_type: f_smart_promotion_type->0,
                    source_campaign: f_source_campaign->0,
                    source_campaign_id: f_source_campaign_id->0,
                    special_ad_categories: f_special_ad_categories->0,
                    special_ad_category: f_special_ad_category->0,
                    special_ad_category_country: f_special_ad_category_country->0,
                    spend_cap: f_spend_cap->0,
                    start_time: f_start_time->0,
                    status: f_status->0,
                    stop_time: f_stop_time->0,
                    topline_id: f_topline_id->0,
                    updated_time: f_updated_time->0,
                })
            } else {
                None
            }
        },
        _ => None,
    }
}

#[via_fn]
proof fn spec_dec_campaign_dec(v: JsonV) {
    lemma_lookup_descends(v);
}

#[verifier::rlimit(100)]
pub fn decode_campaign(j: &Json) -> (r: Option<Campaign>)
    ensures
        match r {
            Some(x) => spec_dec_campaign(jview(*j)) == Some(x@),
            None => spec_dec_campaign(jview(*j)) is None,
        },
    decreases *j,
{
    let ms = match j {
        Json::Obj(ms) => ms,
        _ => {
            return None;
        },
    };
    let f_id = get_str_fld(ms, "id");
    let f_account_id = get_str_fld(ms, "account_id");
    let f_adlabels: Option<Option<Vec<AdLabel>>> = match obj_get(ms, "adlabels") {
        None => Some(None),
        Some(x) => match x {
            Json::Null => Some(None),
            Json::Arr(items) => {
                proof {
                    assert(views_of(items@).subrange(0, items@.len() as int) =~= views_of(
                        items@,
                    ));
                }
                match decode_ad_label_list(items, 0) {
                    Some(r) => Some(Some(r)),
                    None => None,
                }
            },
            _ => None,
        },
    };
    let f_bid_strategy = get_str_fld(ms, "bid_strategy");
    let f_boosted_object_id = get_str_fld(ms, "boosted_object_id");
    let f_brand_lift_studies: Option<Option<Vec<AdStudy>>> = match obj_get(ms, "brand_lift_studies") {
        None => Some(None),
        Some(x) => match x {
            Json::Null => Some(None),
            Json::Arr(items) => {
                proof {
                    assert(views_of(items@).subrange(0, items@.len() as int) =~= views_of(
                        items@,
                    ));
                }
                match decode_ad_study_list(items, 0) {
                    Some(r) => Some(Some(r)),
                    None => None,
                }
            },
            _ => None,
        },
    };
    let f_budget_rebalance_flag = get_bool_fld(ms, "budget_rebalance_flag");
    let f_budget_remaining = get_str_fld(ms, "budget_remaining");
    let f_buying_type = get_str_fld(ms, "buying_type");
    let f_campaign_group_active_time = get_str_fld(ms, "campaign_group_active_time");
    let f_can_create_brand_lift_study = get_bool_fld(ms, "can_create_brand_lift_study");
    let f_can_use_spend_cap = get_bool_fld(ms, "can_use_spend_cap");
    let f_configured_status = get_str_fld(ms, "configured_status");
    let f_created_time = get_str_fld(ms, "created_time");
    let f_daily_budget = get_str_fld(ms, "daily_budget");
    let f_effective_status = get_str_fld(ms, "effective_status");
    let f_has_secondary_skadnetwork_reporting = get_bool_fld(ms, "has_secondary_skadnetwork_reporting");
    let f_is_budget_schedule_enabled = get_bool_fld(ms, "is_budget_schedule_enabled");
    let f_is_skadnetwork_attribution = get_bool_fld(ms, "is_skadnetwork_attribution");
    let f_issues_info: Option<Option<Vec<AdCampaignIssuesInfo>>> = match obj_get(ms, "issues_info") {
        None => Some(None),
        Some(x) => match x {
            Json::Null => Some(None),
            Json::Arr(items) => {
                proof {
                    assert(views_of(items@).subrange(0, items@.len() as int) =~= views_of(
                        items@,
                    ));
                }
                match decode_ad_campaign_issues_info_list(items, 0) {
                    Some(r) => Some(Some(r)),
                    None => None,
                }
            },
            _ => None,
        },
    };
    let f_last_budget_toggling_time = get_str_fld(ms, "last_budget_toggling_time");
    let f_lifetime_budget = get_str_fld(ms, "lifetime_budget");
    let f_name = get_str_fld(ms, "name");
    let f_objective = get_str_fld(ms, "objective");
    let f_pacing_type = get_str_list_fld(ms, "pacing_type");
    let f_primary_attribution = get_str_fld(ms, "primary_attribution");
    let f_promoted_object: Option<Option<AdPromotedObject>> = match obj_get(ms, "promoted_object") {
        None => Some(None),
        Some(x) => match x {
            Json::Null => Some(None),
            _ => {
                match decode_ad_promoted_object(x) {
                    Some(r) => Some(Some(r)),
                    None => None,
                }
            },
        },
    };
    let f_smart_promotion_type = get_str_fld(ms, "smart_promotion_type");
    let f_source_campaign: Option<Option<Box<Campaign>>> = match obj_get(ms, "source_campaign") {
        None => Some(None),
        Some(x) => match x {
            Json::Null => Some(None),
            _ => {
                proof {
                        let q = choose|q: int| 0 <= q < ms@.len() && *x == ms@[q].1;
                        assert(decreases_to!(*j => j->Obj_0));
                        assert(decreases_to!(*ms => ms@));
                        assert(decreases_to!(ms@ => ms@[q]));
                        assert(decreases_to!(ms@[q] => ms@[q].1));
                        assert(decreases_to!(*j => *x));
                    }
                    match decode_campaign(x) {
                    Some(r) => Some(Some(Box::new(r))),
                    None => None,
                }
            },
        },
    };
    let f_source_campaign_id = get_str_fld(ms, "source_campaign_id");
    let f_special_ad_categories = get_str_list_fld(ms, "special_ad_categories");
    let f_special_ad_category = get_str_fld(ms, "special_ad_category");
    let f_special_ad_category_country = get_str_list_fld(ms, "special_ad_category_country");
    let f_spend_cap = get_str_fld(ms, "spend_cap");
    let f_start_time = get_str_fld(ms, "start_time");
    let f_status = get_str_fld(ms, "status");
    let f_stop_time = get_str_fld(ms, "stop_time");
    let f_topline_id = get_str_fld(ms, "topline_id");
    let f_updated_time = get_str_fld(ms, "updated_time");
    if f_id.is_none() || f_account_id.is_none() || f_adlabels.is_none() || f_bid_strategy.is_none() || f_boosted_object_id.is_none() || f_brand_lift_studies.is_none() || f_budget_rebalance_flag.is_none() || f_budget_remaining.is_none() || f_buying_type.is_none() || f_campaign_group_active_time.is_none() || f_can_create_brand_lift_study.is_none() || f_can_use_spend_cap.is_none() || f_configured_status.is_none() || f_created_time.is_none() || f_daily_budget.is_none() || f_effective_status.is_none() || f_has_secondary_skadnetwork_reporting.is_none() || f_is_budget_schedule_enabled.is_none() || f_is_skadnetwork_attribution.is_none() || f_issues_info.is_none() || f_last_budget_toggling_time.is_none() || f_lifetime_budget.is_none() || f_name.is_none() || f_objective.is_none() || f_pacing_type.is_none() || f_primary_attribution.is_none() || f_promoted_object.is_none() || f_smart_promotion_type.is_none() || f_source_campaign.is_none() || f_source_campaign_id.is_none() || f_special_ad_categories.is_none() || f_special_ad_category.is_none() || f_special_ad_category_country.is_none() || f_spend_cap.is_none() || f_start_time.is_none() || f_status.is_none() || f_stop_time.is_none() || f_topline_id.is_none() || f_updated_time.is_none() {
        return None;
    }
    let id = f_id.unwrap();
    let account_id = f_account_id.unwrap();
    let adlabels = f_adlabels.unwrap();
    let bid_strategy = f_bid_strategy.unwrap();
    let boosted_object_id = f_boosted_object_id.unwrap();
    let brand_lift_studies = f_brand_lift_studies.unwrap();
    let budget_rebalance_flag = f_budget_rebalance_flag.unwrap();
    let budget_remaining = f_budget_remaining.unwrap();
    let buying_type = f_buying_type.unwrap();
    let campaign_group_active_time = f_campaign_group_active_time.unwrap();
    let can_create_brand_lift_study = f_can_create_brand_lift_study.unwrap();
    let can_use_spend_cap = f_can_use_spend_cap.unwrap();
    let configured_status = f_configured_status.unwrap();
    let created_time = f_created_time.unwrap();
    let daily_budget = f_daily_budget.unwrap();
    let effective_status = f_effective_status.unwrap();
    let has_secondary_skadnetwork_reporting = f_has_secondary_skadnetwork_reporting.unwrap();
    let is_budget_schedule_enabled = f_is_budget_schedule_enabled.unwrap();
    let is_skadnetwork_attribution = f_is_skadnetwork_attribution.unwrap();
    let issues_info = f_issues_info.unwrap();
    let last_budget_toggling_time = f_last_budget_toggling_time.unwrap();
    let lifetime_budget = f_lifetime_budget.unwrap();
    let name = f_name.unwrap();
    let objective = f_objective.unwrap();
    let pacing_type = f_pacing_type.unwrap();
    let primary_attribution = f_primary_attribution.unwrap();
    let promoted_object = f_promoted_object.unwrap();
    let smart_promotion_type = f_smart_promotion_type.unwrap();
    let source_campaign = f_source_campaign.unwrap();
    let source_campaign_id = f_source_campaign_id.unwrap();
    let special_ad_categories = f_special_ad_categories.unwrap();
    let special_ad_category = f_special_ad_category.unwrap();
    let special_ad_category_country = f_special_ad_category_country.unwrap();
    let spend_cap = f_spend_cap.unwrap();
    let start_time = f_start_time.unwrap();
    let status = f_status.unwrap();
    let stop_time = f_stop_time.unwrap();
    let topline_id = f_topline_id.unwrap();
    let updated_time = f_updated_time.unwrap();
    Some(Campaign { id, account_id, adlabels, bid_strategy, boosted_object_id, brand_lift_studies, budget_rebalance_flag, budget_remaining, buying_type, campaign_group_active_time, can_create_brand_lift_study, can_use_spend_cap, configured_status, created_time, daily_budget, effective_status, has_secondary_skadnetwork_reporting, is_budget_schedule_enabled, is_skadnetwork_attribution, issues_info, last_budget_toggling_time, lifetime_budget, name, objective, pacing_type, primary_attribution, promoted_object, smart_promotion_type, source_campaign, source_campaign_id, special_ad_categories, special_ad_category, special_ad_category_country, spend_cap, start_time, status, stop_time, topline_id, updated_time })
}

pub open spec fn spec_dec_campaign_list(items: Seq<JsonV>) -> Option<Seq<CampaignV>>
    decreases items.len(),
{
    if items.len() == 0 {
        Some(Seq::empty())
    } else {
        match spec_dec_campaign(items[0]) {
            None => None,
            Some(x) => match spec_dec_campaign_list(items.drop_first()) {
                None => None,
                Some(rest) => Some(seq![x] + rest),
            },
        }
    }
}

pub fn decode_campaign_list(items: &Vec<Json>, from: usize) -> (r: Option<Vec<Campaign>>)
    requires
        from <= items@.len(),
    ensures
        match r {
            Some(v) => spec_dec_campaign_list(
                views_of(items@).subrange(from as int, items@.len() as int),
            ) == Some(v.deep_view()),
            None => spec_dec_campaign_list(
                views_of(items@).subrange(from as int, items@.len() as int),
            ) is None,
        },
    decreases items@.len() - from,
{
    let ghost tail = views_of(items@).subrange(from as int, items@.len() as int);
    if from == items.len() {
        let out: Vec<Campaign> = Vec::new();
        proof {
            assert(out.deep_view() =~= Seq::<CampaignV>::empty());
        }
        return Some(out);
    }
    proof {
        assert(tail[0] == views_of(items@)[from as int]);
        assert(tail.drop_first() =~= views_of(items@).subrange(
            from + 1 as int,
            items@.len() as int,
        ));
    }
    match decode_campaign(&items[from]) {
        None => None,
        Some(x) => match decode_campaign_list(items, from + 1) {
            None => None,
            Some(rest) => {
                let ghost rest0 = rest.deep_view();
                let mut out = rest;
                out.insert(0, x);
                proof {
                    assert(out.deep_view() =~= seq![x@] + rest0);
                }
                Some(out)
            },
        },
    }
}

pub open spec fn spec_dec_campaigns_response(v: JsonV) -> Option<CampaignsResponseV>
{
    match v {
        JsonV::Obj(ms) => {
            let f_data: Option<Seq<CampaignV>> = match obj_lookup(ms, "data"@) {
                Some(x) => match x {
                    JsonV::Arr(items) => spec_dec_campaign_list(items),
                    _ => None,
                },
                None => None,
            };
            let f_paging: Option<PagingV> = match obj_lookup(ms, "paging"@) {
                Some(x) => match spec_dec_paging(x) {
                    Some(r) => Some(r),
                    None => None,
                },
                None => None,
            };
            if f_data is Some && f_paging is Some {
                Some(CampaignsResponseV {
                    data: f_data->0,
                    paging: f_paging->0,
                })
            } else {
                None
            }
        },
        _ => None,
    }
}

pub fn decode_campaigns_response(j: &Json) -> (r: Option<CampaignsResponse>)
    ensures
        match r {
            Some(x) => spec_dec_campaigns_response(jview(*j)) == Some(x@),
            None => spec_dec_campaigns_response(jview(*j)) is None,
        },
{
    let ms = match j {
        Json::Obj(ms) => ms,
        _ => {
            return None;
        },
    };
    let f_data: Option<Vec<Campaign>> = match obj_get(ms, "data") {
        Some(x) => match x {
            Json::Arr(items) => {
                proof {
                    assert(views_of(items@).subrange(0, items@.len() as int) =~= views_of(
                        items@,
                    ));
                }
                decode_campaign_list(items, 0)
            },
            _ => None,
        },
        None => None,
    };
    let f_paging: Option<Paging> = match obj_get(ms, "paging") {
        Some(x) => decode_paging(x),
        None => None,
    };
    if f_data.is_none() || f_paging.is_none() {
        return None;
    }
    let data = f_data.unwrap();
    let paging = f_paging.unwrap();
    Some(CampaignsResponse { data, paging })
}

pub open spec fn adset_f_id(ms: Seq<(Seq<char>, JsonV)>) -> Option<
    Option<Seq<char>>,
> {
    fld_str(ms, "id"@)
}

pub open spec fn adset_f_account_id(ms: Seq<(Seq<char>, JsonV)>) -> Option<
    Option<Seq<char>>,
> {
    fld_str(ms, "account_id"@)
}

pub open spec fn adset_f_adlabels(ms: Seq<(Seq<char>, JsonV)>) -> Option<
    Option<Seq<AdLabelV>>,
> {
    match obj_lookup(ms, "adlabels"@) {
        None => Some(None),
        Some(x) => match x {
            JsonV::Null => Some(None),
            JsonV::Arr(items) => match spec_dec_ad_label_list(items) {
                Some(r) => Some(Some(r)),
                None => None,
            },
            _ => None,
        },
    }
}

pub open spec fn adset_f_adset_schedule(ms: Seq<(Seq<char>, JsonV)>) -> Option<
    Option<Seq<DayPartV>>,
> {
    match obj_lookup(ms, "adset_schedule"@) {
        None => Some(None),
        Some(x) => match x {
            JsonV::Null => Some(None),
            JsonV::Arr(items) => match spec_dec_day_part_list(items) {
                Some(r) => Some(Some(r)),
                None => None,
            },
            _ => None,
        },
    }
}

pub open spec fn adset_f_asset_feed_id(ms: Seq<(Seq<char>, JsonV)>) -> Option<
    Option<Seq<char>>,
> {
    fld_str(ms, "asset_feed_id"@)
}

pub open spec fn adset_f_attribution_spec(ms: Seq<(Seq<char>, JsonV)>) -> Option<
    Option<Seq<Seq<char>>>,
> {
    fld_str_list(ms, "attribution_spec"@)
}

pub open spec fn adset_f_bid_adjustments(ms: Seq<(Seq<char>, JsonV)>) -> Option<
    Option<AdBidAdjustmentsV>,
> {
    match obj_lookup(ms, "bid_adjustments"@) {
        None => Some(None),
        Some(x) => if x is Null {
            Some(None)
        } else {
            match spec_dec_ad_bid_adjustments(x) {
                Some(r) => Some(Some(r)),
                None => None,
            }
        },
    }
}

pub open spec fn adset_f_bid_amount(ms: Seq<(Seq<char>, JsonV)>) -> Option<
    Option<u32>,
> {
    fld_u32(ms, "bid_amount"@)
}

pub open spec fn adset_f_bid_constraints(ms: Seq<(Seq<char>, JsonV)>) -> Option<
    Option<AdCampaignBidConstraintV>,
> {
    match obj_lookup(ms, "bid_constraints"@) {
        None => Some(None),
        Some(x) => if x is Null {
            Some(None)
        } else {
            None
        },
    }
}

pub open spec fn adset_f_bid_info(ms: Seq<(Seq<char>, JsonV)>) -> Option<
    Option<Seq<(Seq<char>, u32)>>,
> {
    fld_u32_map(ms, "bid_info"@)
}

pub open spec fn adset_f_bid_strategy(ms: Seq<(Seq<char>, JsonV)>) -> Option<
    Option<Seq<char>>,
> {
    fld_str(ms, "bid_strategy"@)
}

pub open spec fn adset_f_billing_event(ms: Seq<(Seq<char>, JsonV)>) -> Option<
    Option<Seq<char>>,
> {
    fld_str(ms, "billing_event"@)
}

pub open spec fn adset_f_brand_safety_config(ms: Seq<(Seq<char>, JsonV)>) -> Option<
    Option<Seq<char>>,
> {
    fld_str(ms, "brand_safety_config"@)
}

pub open spec fn adset_f_budget_remaining(ms: Seq<(Seq<char>, JsonV)>) -> Option<
    Option<Seq<char>>,
> {
    fld_str(ms, "budget_remaining"@)
}

pub open spec fn adset_f_campaign(ms: Seq<(Seq<char>, JsonV)>) -> Option<
    Option<CampaignV>,
> {
    match obj_lookup(ms, "campaign"@) {
        None => Some(None),
        Some(x) => if x is Null {
            Some(None)
        } else {
            match spec_dec_campaign(x) {
                Some(r) => Some(Some(r)),
                None => None,
            }
        },
    }
}

pub open spec fn adset_f_campaign_active_time(ms: Seq<(Seq<char>, JsonV)>) -> Option<
    Option<Seq<char>>,
> {
    fld_str(ms, "campaign_active_time"@)
}

pub open spec fn adset_f_campaign_attribution(ms: Seq<(Seq<char>, JsonV)>) -> Option<
    Option<Seq<char>>,
> {
    fld_str(ms, "campaign_attribution"@)
}

pub open spec fn adset_f_campaign_id(ms: Seq<(Seq<char>, JsonV)>) -> Option<
    Option<Seq<char>>,
> {
    fld_str(ms, "campaign_id"@)
}

pub open spec fn adset_f_configured_status(ms: Seq<(Seq<char>, JsonV)>) -> Option<
    Option<Seq<char>>,
> {
    fld_str(ms, "configured_status"@)
}

pub open spec fn adset_f_contextual_bundling_spec(ms: Seq<(Seq<char>, JsonV)>) -> Option<
    Option<Seq<char>>,
> {
    fld_str(ms, "contextual_bundling_spec"@)
}

pub open spec fn adset_f_created_time(ms: Seq<(Seq<char>, JsonV)>) -> Option<
    Option<Seq<char>>,
> {
    fld_str(ms, "created_time"@)
}

pub open spec fn adset_f_creative_sequence(ms: Seq<(Seq<char>, JsonV)>) -> Option<
    Option<Seq<Seq<char>>>,
> {
    fld_str_list(ms, "creative_sequence"@)
}

pub open spec fn adset_f_daily_budget(ms: Seq<(Seq<char>, JsonV)>) -> Option<
    Option<Seq<char>>,
> {
    fld_str(ms, "daily_budget"@)
}

pub open spec fn adset_f_daily_min_spend_target(ms: Seq<(Seq<char>, JsonV)>) -> Option<
    Option<Seq<char>>,
> {
    fld_str(ms, "daily_min_spend_target"@)
}

pub open spec fn adset_f_daily_spend_cap(ms: Seq<(Seq<char>, JsonV)>) -> Option<
    Option<Seq<char>>,
> {
    fld_str(ms, "daily_spend_cap"@)
}

pub open spec fn adset_f_destination_type(ms: Seq<(Seq<char>, JsonV)>) -> Option<
    Option<Seq<char>>,
> {
    fld_str(ms, "destination_type"@)
}

pub open spec fn adset_f_dsa_beneficiary(ms: Seq<(Seq<char>, JsonV)>) -> Option<
    Option<Seq<char>>,
> {
    fld_str(ms, "dsa_beneficiary"@)
}

pub open spec fn adset_f_dsa_payor(ms: Seq<(Seq<char>, JsonV)>) -> Option<
    Option<Seq<char>>,
> {
    fld_str(ms, "dsa_payor"@)
}

pub open spec fn adset_f_effective_status(ms: Seq<(Seq<char>, JsonV)>) -> Option<
    Option<Seq<char>>,
> {
    fld_str(ms, "effective_status"@)
}

pub open spec fn adset_f_end_time(ms: Seq<(Seq<char>, JsonV)>) -> Option<
    Option<Seq<char>>,
> {
    fld_str(ms, "end_time"@)
}

pub open spec fn adset_f_frequency_control_specs(ms: Seq<(Seq<char>, JsonV)>) -> Option<
    Option<Seq<AdCampaignFrequencyControlSpecsV>>,
> {
    match obj_lookup(ms, "frequency_control_specs"@) {
        None => Some(None),
        Some(x) => match x {
            JsonV::Null => Some(None),
            JsonV::Arr(items) => match spec_dec_ad_campaign_frequency_control_specs_list(items) {
                Some(r) => Some(Some(r)),
                None => None,
            },
            _ => None,
        },
    }
}

pub open spec fn adset_f_instagram_user_id(ms: Seq<(Seq<char>, JsonV)>) -> Option<
    Option<Seq<char>>,
> {
    fld_str(ms, "instagram_user_id"@)
}

pub open spec fn adset_f_is_dynamic_creative(ms: Seq<(Seq<char>, JsonV)>) -> Option<
    Option<bool>,
> {
    fld_bool(ms, "is_dynamic_creative"@)
}

pub open spec fn adset_f_issues_info(ms: Seq<(Seq<char>, JsonV)>) -> Option<
    Option<Seq<AdCampaignIssuesInfoV>>,
> {
    match obj_lookup(ms, "issues_info"@) {
        None => Some(None),
        Some(x) => match x {
            JsonV::Null => Some(None),
            JsonV::Arr(items) => match spec_dec_ad_campaign_issues_info_list(items) {
                Some(r) => Some(Some(r)),
                None => None,
            },
            _ => None,
        },
    }
}

pub open spec fn adset_f_learning_stage_info(ms: Seq<(Seq<char>, JsonV)>) -> Option<
    Option<AdCampaignLearningStageInfoV>,
> {
    match obj_lookup(ms, "learning_stage_info"@) {
        None => Some(None),
        Some(x) => if x is Null {
            Some(None)
        } else {
            match spec_dec_ad_campaign_learning_stage_info(x) {
                Some(r) => Some(Some(r)),
                None => None,
            }
        },
    }
}

pub open spec fn adset_f_lifetime_budget(ms: Seq<(Seq<char>, JsonV)>) -> Option<
    Option<Seq<char>>,
> {
    fld_str(ms, "lifetime_budget"@)
}

pub open spec fn adset_f_lifetime_imps(ms: Seq<(Seq<char>, JsonV)>) -> Option<
    Option<i32>,
> {
    fld_i32(ms, "lifetime_imps"@)
}

pub open spec fn adset_f_lifetime_min_spend_target(ms: Seq<(Seq<char>, JsonV)>) -> Option<
    Option<Seq<char>>,
> {
    fld_str(ms, "lifetime_min_spend_target"@)
}

pub open spec fn adset_f_lifetime_spend_cap(ms: Seq<(Seq<char>, JsonV)>) -> Option<
    Option<Seq<char>>,
> {
    fld_str(ms, "lifetime_spend_cap"@)
}

pub open spec fn adset_f_min_budget_spend_percentage(ms: Seq<(Seq<char>, JsonV)>) -> Option<
    Option<Seq<char>>,
> {
    fld_str(ms, "min_budget_spend_percentage"@)
}

pub open spec fn adset_f_multi_optimization_goal_weight(ms: Seq<(Seq<char>, JsonV)>) -> Option<
    Option<Seq<char>>,
> {
    fld_str(ms, "multi_optimization_goal_weight"@)
}

pub open spec fn adset_f_name(ms: Seq<(Seq<char>, JsonV)>) -> Option<
    Option<Seq<char>>,
> {
    fld_str(ms, "name"@)
}

pub open spec fn adset_f_optimization_goal(ms: Seq<(Seq<char>, JsonV)>) -> Option<
    Option<Seq<char>>,
> {
    fld_str(ms, "optimization_goal"@)
}

pub open spec fn adset_f_optimization_sub_event(ms: Seq<(Seq<char>, JsonV)>) -> Option<
    Option<Seq<char>>,
> {
    fld_str(ms, "optimization_sub_event"@)
}

pub open spec fn adset_f_pacing_type(ms: Seq<(Seq<char>, JsonV)>) -> Option<
    Option<Seq<Seq<char>>>,
> {
    fld_str_list(ms, "pacing_type"@)
}

pub open spec fn adset_f_promoted_object(ms: Seq<(Seq<char>, JsonV)>) -> Option<
    Option<AdPromotedObjectV>,
> {
    match obj_lookup(ms, "promoted_object"@) {
        None => Some(None),
        Some(x) => if x is Null {
            Some(None)
        } else {
            match spec_dec_ad_promoted_object(x) {
                Some(r) => Some(Some(r)),
                None => None,
            }
        },
    }
}

pub open spec fn adset_f_recommendations(ms: Seq<(Seq<char>, JsonV)>) -> Option<
    Option<Seq<AdRecommendationV>>,
> {
    match obj_lookup(ms, "recommendations"@) {
        None => Some(None),
        Some(x) => match x {
            JsonV::Null => Some(None),
            JsonV::Arr(items) => match spec_dec_ad_recommendation_list(items) {
                Some(r) => Some(Some(r)),
                None => None,
            },
            _ => None,
        },
    }
}

pub open spec fn adset_f_recurring_budget_semantics(ms: Seq<(Seq<char>, JsonV)>) -> Option<
    Option<bool>,
> {
    fld_bool(ms, "recurring_budget_semantics"@)
}

pub open spec fn adset_f_regional_regulated_categories(ms: Seq<(Seq<char>, JsonV)>) -> Option<
    Option<Seq<Seq<char>>>,
> {
    fld_str_list(ms, "regional_regulated_categories"@)
}

pub open spec fn adset_f_regional_regulation_identities(ms: Seq<(Seq<char>, JsonV)>) -> Option<
    Option<Seq<char>>,
> {
    fld_str(ms, "regional_regulation_identities"@)
}

pub open spec fn adset_f_review_feedback(ms: Seq<(Seq<char>, JsonV)>) -> Option<
    Option<Seq<char>>,
> {
    fld_str(ms, "review_feedback"@)
}

pub open spec fn adset_f_rf_prediction_id(ms: Seq<(Seq<char>, JsonV)>) -> Option<
    Option<Seq<char>>,
> {
    fld_str(ms, "rf_prediction_id"@)
}

pub open spec fn adset_f_source_adset(ms: Seq<(Seq<char>, JsonV)>) -> Option<
    Option<Box<AdSetV>>,
>
    decreases ms,
    via adset_f_source_adset_dec
{
    match obj_lookup(ms, "source_adset"@) {
        None => Some(None),
        Some(x) => if x is Null {
            Some(None)
        } else {
            match spec_dec_ad_set(x) {
                Some(r) => Some(Some(Box::new(r))),
                None => None,
            }
        },
    }
}

#[via_fn]
proof fn adset_f_source_adset_dec(ms: Seq<(Seq<char>, JsonV)>) {
    lemma_lookup_descends_seq(ms);
}

pub open spec fn adset_f_source_adset_id(ms: Seq<(Seq<char>, JsonV)>) -> Option<
    Option<Seq<char>>,
> {
    fld_str(ms, "source_adset_id"@)
}

pub open spec fn adset_f_start_time(ms: Seq<(Seq<char>, JsonV)>) -> Option<
    Option<Seq<char>>,
> {
    fld_str(ms, "start_time"@)
}

pub open spec fn adset_f_status(ms: Seq<(Seq<char>, JsonV)>) -> Option<
    Option<Seq<char>>,
> {
    fld_str(ms, "status"@)
}

pub open spec fn adset_f_targeting(ms: Seq<(Seq<char>, JsonV)>) -> Option<
    Option<TargetingV>,
> {
    match obj_lookup(ms, "targeting"@) {
        None => Some(None),
        Some(x) => if x is Null {
            Some(None)
        } else {
            match spec_dec_targeting(x) {
                Some(r) => Some(Some(r)),
                None => None,
            }
        },
    }
}

pub open spec fn adset_f_targeting_optimization_types(ms: Seq<(Seq<char>, JsonV)>) -> Option<
    Option<Seq<TargetingOptimizationTypesV>>,
> {
    match obj_lookup(ms, "targeting_optimization_types"@) {
        None => Some(None),
        Some(x) => match x {
            JsonV::Null => Some(None),
            JsonV::Arr(items) => match spec_dec_targeting_optimization_types_list(items) {
                Some(r) => Some(Some(r)),
                None => None,
            },
            _ => None,
        },
    }
}

pub open spec fn adset_f_time_based_ad_rotation_id_blocks(ms: Seq<(Seq<char>, JsonV)>) -> Option<
    Option<Seq<Seq<i32>>>,
> {
    fld_i32_list_list(ms, "time_based_ad_rotation_id_blocks"@)
}

pub open spec fn adset_f_time_based_ad_rotation_intervals(ms: Seq<(Seq<char>, JsonV)>) -> Option<
    Option<Seq<u32>>,
> {
    fld_u32_list(ms, "time_based_ad_rotation_intervals"@)
}

pub open spec fn adset_f_updated_time(ms: Seq<(Seq<char>, JsonV)>) -> Option<
    Option<Seq<char>>,
> {
    fld_str(ms, "updated_time"@)
}

pub open spec fn adset_f_use_new_app_click(ms: Seq<(Seq<char>, JsonV)>) -> Option<
    Option<bool>,
> {
    fld_bool(ms, "use_new_app_click"@)
}

pub open spec fn spec_dec_ad_set(v: JsonV) -> Option<AdSetV>
    decreases v,
    via spec_dec_ad_set_dec
{
    match v {
        JsonV::Obj(ms) => {
            if adset_f_id(ms) is Some && adset_f_account_id(ms) is Some && adset_f_adlabels(ms) is Some && adset_f_adset_schedule(ms) is Some && adset_f_asset_feed_id(ms) is Some && adset_f_attribution_spec(ms) is Some && adset_f_bid_adjustments(ms) is Some && adset_f_bid_amount(ms) is Some && adset_f_bid_constraints(ms) is Some && adset_f_bid_info(ms) is Some && adset_f_bid_strategy(ms) is Some && adset_f_billing_event(ms) is Some && adset_f_brand_safety_config(ms) is Some && adset_f_budget_remaining(ms) is Some && adset_f_campaign(ms) is Some && adset_f_campaign_active_time(ms) is Some && adset_f_campaign_attribution(ms) is Some && adset_f_campaign_id(ms) is Some && adset_f_configured_status(ms) is Some && adset_f_contextual_bundling_spec(ms) is Some && adset_f_created_time(ms) is Some && adset_f_creative_sequence(ms) is Some && adset_f_daily_budget(ms) is Some && adset_f_daily_min_spend_target(ms) is Some && adset_f_daily_spend_cap(ms) is Some && adset_f_destination_type(ms) is Some && adset_f_dsa_beneficiary(ms) is Some && adset_f_dsa_payor(ms) is Some && adset_f_effective_status(ms) is Some && adset_f_end_time(ms) is Some && adset_f_frequency_control_specs(ms) is Some && adset_f_instagram_user_id(ms) is Some && adset_f_is_dynamic_creative(ms) is Some && adset_f_issues_info(ms) is Some && adset_f_learning_stage_info(ms) is Some && adset_f_lifetime_budget(ms) is Some && adset_f_lifetime_imps(ms) is Some && adset_f_lifetime_min_spend_target(ms) is Some && adset_f_lifetime_spend_cap(ms) is Some && adset_f_min_budget_spend_percentage(ms) is Some && adset_f_multi_optimization_goal_weight(ms) is Some && adset_f_name(ms) is Some && adset_f_optimization_goal(ms) is Some && adset_f_optimization_sub_event(ms) is Some && adset_f_pacing_type(ms) is Some && adset_f_promoted_object(ms) is Some && adset_f_recommendations(ms) is Some && adset_f_recurring_budget_semantics(ms) is Some && adset_f_regional_regulated_categories(ms) is Some && adset_f_regional_regulation_identities(ms) is Some && adset_f_review_feedback(ms) is Some && adset_f_rf_prediction_id(ms) is Some && adset_f_source_adset(ms) is Some && adset_f_source_adset_id(ms) is Some && adset_f_start_time(ms) is Some && adset_f_status(ms) is Some && adset_f_targeting(ms) is Some && adset_f_targeting_optimization_types(ms) is Some && adset_f_time_based_ad_rotation_id_blocks(ms) is Some && adset_f_time_based_ad_rotation_intervals(ms) is Some && adset_f_updated_time(ms) is Some && adset_f_use_new_app_click(ms) is Some {
                Some(AdSetV {
                    id: adset_f_id(ms)->0,
                    account_id: adset_f_account_id(ms)->0,
                    adlabels: adset_f_adlabels(ms)->0,
                    adset_schedule: adset_f_adset_schedule(ms)->0,
                    asset_feed_id: adset_f_asset_feed_id(ms)->0,
                    attribution_spec: adset_f_attribution_spec(ms)->0,
                    bid_adjustments: adset_f_bid_adjustments(ms)->0,
                    bid_amount: adset_f_bid_amount(ms)->0,
                    bid_constraints: adset_f_bid_constraints(ms)->0,
                    bid_info: adset_f_bid_info(ms)->0,
                    bid_strategy: adset_f_bid_strategy(ms)->0,
                    billing_event: adset_f_billing_event(ms)->0,
                    brand_safety_config: adset_f_brand_safety_config(ms)->0,
                    budget_remaining: adset_f_budget_remaining(ms)->0,
                    campaign: adset_f_campaign(ms)->0,
                    campaign_active_time: adset_f_campaign_active_time(ms)->0,
                    campaign_attribution: adset_f_campaign_attribution(ms)->0,
                    campaign_id: adset_f_campaign_id(ms)->0,
                    configured_status: adset_f_configured_status(ms)->0,
                    contextual_bundling_spec: adset_f_contextual_bundling_spec(ms)->0,
                    created_time: adset_f_created_time(ms)->0,
                    creative_sequence: adset_f_creative_sequence(ms)->0,
                    daily_budget: adset_f_daily_budget(ms)->0,
                    daily_min_spend_target: adset_f_daily_min_spend_target(ms)->0,
                    daily_spend_cap: adset_f_daily_spend_cap(ms)->0,
                    destination_type: adset_f_destination_type(ms)->0,
                    dsa_beneficiary: adset_f_dsa_beneficiary(ms)->0,
                    dsa_payor: adset_f_dsa_payor(ms)->0,
                    effective_status: adset_f_effective_status(ms)->0,
                    end_time: adset_f_end_time(ms)->0,
                    frequency_control_specs: adset_f_frequency_control_specs(ms)->0,
                    instagram_user_id: adset_f_instagram_user_id(ms)->0,
                    is_dynamic_creative: adset_f_is_dynamic_creative(ms)->0,
                    issues_info: adset_f_issues_info(ms)->0,
                    learning_stage_info: adset_f_learning_stage_info(ms)->0,
                    lifetime_budget: adset_f_lifetime_budget(ms)->0,
                    lifetime_imps: adset_f_lifetime_imps(ms)->0,
                    lifetime_min_spend_target: adset_f_lifetime_min_spend_target(ms)->0,
                    lifetime_spend_cap: adset_f_lifetime_spend_cap(ms)->0,
                    min_budget_spend_percentage: adset_f_min_budget_spend_percentage(ms)->0,
                    multi_optimization_goal_weight: adset_f_multi_optimization_goal_weight(ms)->0,
                    name: adset_f_name(ms)->0,
                    optimization_goal: adset_f_optimization_goal(ms)->0,
                    optimization_sub_event: adset_f_optimization_sub_event(ms)->0,
                    pacing_type: adset_f_pacing_type(ms)->0,
                    promoted_object: adset_f_promoted_object(ms)->0,
                    recommendations: adset_f_recommendations(ms)->0,
                    recurring_budget_semantics: adset_f_recurring_budget_semantics(ms)->0,
                    regional_regulated_categories: adset_f_regional_regulated_categories(ms)->0,
                    regional_regulation_identities: adset_f_regional_regulation_identities(ms)->0,
                    review_feedback: adset_f_review_feedback(ms)->0,
                    rf_prediction_id: adset_f_rf_prediction_id(ms)->0,
                    source_adset: adset_f_source_adset(ms)->0,
                    source_adset_id: adset_f_source_adset_id(ms)->0,
                    start_time: adset_f_start_time(ms)->0,
                    status: adset_f_status(ms)->0,
                    targeting: adset_f_targeting(ms)->0,
                    targeting_optimization_types: adset_f_targeting_optimization_types(ms)->0,
                    time_based_ad_rotation_id_blocks: adset_f_time_based_ad_rotation_id_blocks(ms)->0,
                    time_based_ad_rotation_intervals: adset_f_time_based_ad_rotation_intervals(ms)->0,
                    updated_time: adset_f_updated_time(ms)->0,
                    use_new_app_click: adset_f_use_new_app_click(ms)->0,
                })
            } else {
                None
            }
        },
        _ => None,
    }
}

#[via_fn]
proof fn spec_dec_ad_set_dec(v: JsonV) {
    lemma_lookup_descends(v);
}

struct AdSetPartA {
    id: Option<String>,
    account_id: Option<String>,
    adlabels: Option<Vec<AdLabel>>,
    adset_schedule: Option<Vec<DayPart>>,
    asset_feed_id: Option<String>,
    attribution_spec: Option<Vec<String>>,
    bid_adjustments: Option<AdBidAdjustments>,
    bid_amount: Option<u32>,
    bid_constraints: Option<AdCampaignBidConstraint>,
    bid_info: Option<Vec<(String, u32)>>,
    bid_strategy: Option<String>,
    billing_event: Option<String>,
    brand_safety_config: Option<String>,
    budget_remaining: Option<String>,
    campaign: Option<Campaign>,
    campaign_active_time: Option<String>,
    campaign_attribution: Option<String>,
    campaign_id: Option<String>,
    configured_status: Option<String>,
    contextual_bundling_spec: Option<String>,
    created_time: Option<String>,
    creative_sequence: Option<Vec<String>>,
    daily_budget: Option<String>,
    daily_min_spend_target: Option<String>,
    daily_spend_cap: Option<String>,
    destination_type: Option<String>,
    dsa_beneficiary: Option<String>,
    dsa_payor: Option<String>,
    effective_status: Option<String>,
    end_time: Option<String>,
    frequency_control_specs: Option<Vec<AdCampaignFrequencyControlSpecs>>,
}

#[verifier::rlimit(100)]
#[verifier::spinoff_prover]
fn decode_ad_set_a(ms: &Vec<(String, Json)>) -> (r: Option<AdSetPartA>)
    ensures
        match r {
            Some(p) => adset_f_id(views_of_pairs(ms@)) == Some(p.id.deep_view()) && adset_f_account_id(views_of_pairs(ms@)) == Some(p.account_id.deep_view()) && adset_f_adlabels(views_of_pairs(ms@)) == Some(p.adlabels.deep_view()) && adset_f_adset_schedule(views_of_pairs(ms@)) == Some(p.adset_schedule.deep_view()) && adset_f_asset_feed_id(views_of_pairs(ms@)) == Some(p.asset_feed_id.deep_view()) && adset_f_attribution_spec(views_of_pairs(ms@)) == Some(p.attribution_spec.deep_view()) && adset_f_bid_adjustments(views_of_pairs(ms@)) == Some(p.bid_adjustments.deep_view()) && adset_f_bid_amount(views_of_pairs(ms@)) == Some(p.bid_amount) && adset_f_bid_constraints(views_of_pairs(ms@)) == Some(p.bid_constraints.deep_view()) && adset_f_bid_info(views_of_pairs(ms@)) == Some(p.bid_info.deep_view()) && adset_f_bid_strategy(views_of_pairs(ms@)) == Some(p.bid_strategy.deep_view()) && adset_f_billing_event(views_of_pairs(ms@)) == Some(p.billing_event.deep_view()) && adset_f_brand_safety_config(views_of_pairs(ms@)) == Some(p.brand_safety_config.deep_view()) && adset_f_budget_remaining(views_of_pairs(ms@)) == Some(p.budget_remaining.deep_view()) && adset_f_campaign(views_of_pairs(ms@)) == Some(p.campaign.deep_view()) && adset_f_campaign_active_time(views_of_pairs(ms@)) == Some(p.campaign_active_time.deep_view()) && adset_f_campaign_attribution(views_of_pairs(ms@)) == Some(p.campaign_attribution.deep_view()) && adset_f_campaign_id(views_of_pairs(ms@)) == Some(p.campaign_id.deep_view()) && adset_f_configured_status(views_of_pairs(ms@)) == Some(p.configured_status.deep_view()) && adset_f_contextual_bundling_spec(views_of_pairs(ms@)) == Some(p.contextual_bundling_spec.deep_view()) && adset_f_created_time(views_of_pairs(ms@)) == Some(p.created_time.deep_view()) && adset_f_creative_sequence(views_of_pairs(ms@)) == Some(p.creative_sequence.deep_view()) && adset_f_daily_budget(views_of_pairs(ms@)) == Some(p.daily_budget.deep_view()) && adset_f_daily_min_spend_target(views_of_pairs(ms@)) == Some(p.daily_min_spend_target.deep_view()) && adset_f_daily_spend_cap(views_of_pairs(ms@)) == Some(p.daily_spend_cap.deep_view()) && adset_f_destination_type(views_of_pairs(ms@)) == Some(p.destination_type.deep_view()) && adset_f_dsa_beneficiary(views_of_pairs(ms@)) == Some(p.dsa_beneficiary.deep_view()) && adset_f_dsa_payor(views_of_pairs(ms@)) == Some(p.dsa_payor.deep_view()) && adset_f_effective_status(views_of_pairs(ms@)) == Some(p.effective_status.deep_view()) && adset_f_end_time(views_of_pairs(ms@)) == Some(p.end_time.deep_view()) && adset_f_frequency_control_specs(views_of_pairs(ms@)) == Some(p.frequency_control_specs.deep_view()),
            None => adset_f_id(views_of_pairs(ms@)) is None || adset_f_account_id(views_of_pairs(ms@)) is None || adset_f_adlabels(views_of_pairs(ms@)) is None || adset_f_adset_schedule(views_of_pairs(ms@)) is None || adset_f_asset_feed_id(views_of_pairs(ms@)) is None || adset_f_attribution_spec(views_of_pairs(ms@)) is None || adset_f_bid_adjustments(views_of_pairs(ms@)) is None || adset_f_bid_amount(views_of_pairs(ms@)) is None || adset_f_bid_constraints(views_of_pairs(ms@)) is None || adset_f_bid_info(views_of_pairs(ms@)) is None || adset_f_bid_strategy(views_of_pairs(ms@)) is None || adset_f_billing_event(views_of_pairs(ms@)) is None || adset_f_brand_safety_config(views_of_pairs(ms@)) is None || adset_f_budget_remaining(views_of_pairs(ms@)) is None || adset_f_campaign(views_of_pairs(ms@)) is None || adset_f_campaign_active_time(views_of_pairs(ms@)) is None || adset_f_campaign_attribution(views_of_pairs(ms@)) is None || adset_f_campaign_id(views_of_pairs(ms@)) is None || adset_f_configured_status(views_of_pairs(ms@)) is None || adset_f_contextual_bundling_spec(views_of_pairs(ms@)) is None || adset_f_created_time(views_of_pairs(ms@)) is None || adset_f_creative_sequence(views_of_pairs(ms@)) is None || adset_f_daily_budget(views_of_pairs(ms@)) is None || adset_f_daily_min_spend_target(views_of_pairs(ms@)) is None || adset_f_daily_spend_cap(views_of_pairs(ms@)) is None || adset_f_destination_type(views_of_pairs(ms@)) is None || adset_f_dsa_beneficiary(views_of_pairs(ms@)) is None || adset_f_dsa_payor(views_of_pairs(ms@)) is None || adset_f_effective_status(views_of_pairs(ms@)) is None || adset_f_end_time(views_of_pairs(ms@)) is None || adset_f_frequency_control_specs(views_of_pairs(ms@)) is None,
        },
{
    let f_id = get_str_fld(ms, "id");
    let f_account_id = get_str_fld(ms, "account_id");
    let f_adlabels: Option<Option<Vec<AdLabel>>> = match obj_get(ms, "adlabels") {
        None => Some(None),
        Some(x) => match x {
            Json::Null => Some(None),
            Json::Arr(items) => {
                proof {
                    assert(views_of(items@).subrange(0, items@.len() as int) =~= views_of(
                        items@,
                    ));
                }
                match decode_ad_label_list(items, 0) {
                    Some(r) => Some(Some(r)),
                    None => None,
                }
            },
            _ => None,
        },
    };
    let f_adset_schedule: Option<Option<Vec<DayPart>>> = match obj_get(ms, "adset_schedule") {
        None => Some(None),
        Some(x) => match x {
            Json::Null => Some(None),
            Json::Arr(items) => {
                proof {
                    assert(views_of(items@).subrange(0, items@.len() as int) =~= views_of(
                        items@,
                    ));
                }
                match decode_day_part_list(items, 0) {
                    Some(r) => Some(Some(r)),
                    None => None,
                }
            },
            _ => None,
        },
    };
    let f_asset_feed_id = get_str_fld(ms, "asset_feed_id");
    let f_attribution_spec = get_str_list_fld(ms, "attribution_spec");
    let f_bid_adjustments: Option<Option<AdBidAdjustments>> = match obj_get(ms, "bid_adjustments") {
        None => Some(None),
        Some(x) => match x {
            Json::Null => Some(None),
            _ => {
                match decode_ad_bid_adjustments(x) {
                    Some(r) => Some(Some(r)),
                    None => None,
                }
            },
        },
    };
    let f_bid_amount = get_u32_fld(ms, "bid_amount");
    let f_bid_constraints: Option<Option<AdCampaignBidConstraint>> = match obj_get(ms, "bid_constraints") {
        None => Some(None),
        Some(x) => match x {
            Json::Null => Some(None),
            _ => None,
        },
    };
    let f_bid_info = get_u32_map_fld(ms, "bid_info");
    let f_bid_strategy = get_str_fld(ms, "bid_strategy");
    let f_billing_event = get_str_fld(ms, "billing_event");
    let f_brand_safety_config = get_str_fld(ms, "brand_safety_config");
    let f_budget_remaining = get_str_fld(ms, "budget_remaining");
    let f_campaign: Option<Option<Campaign>> = match obj_get(ms, "campaign") {
        None => Some(None),
        Some(x) => match x {
            Json::Null => Some(None),
            _ => {
                match decode_campaign(x) {
                    Some(r) => Some(Some(r)),
                    None => None,
                }
            },
        },
    };
    let f_campaign_active_time = get_str_fld(ms, "campaign_active_time");
    let f_campaign_attribution = get_str_fld(ms, "campaign_attribution");
    let f_campaign_id = get_str_fld(ms, "campaign_id");
    let f_configured_status = get_str_fld(ms, "configured_status");
    let f_contextual_bundling_spec = get_str_fld(ms, "contextual_bundling_spec");
    let f_created_time = get_str_fld(ms, "created_time");
    let f_creative_sequence = get_str_list_fld(ms, "creative_sequence");
    let f_daily_budget = get_str_fld(ms, "daily_budget");
    let f_daily_min_spend_target = get_str_fld(ms, "daily_min_spend_target");
    let f_daily_spend_cap = get_str_fld(ms, "daily_spend_cap");
    let f_destination_type = get_str_fld(ms, "destination_type");
    let f_dsa_beneficiary = get_str_fld(ms, "dsa_beneficiary");
    let f_dsa_payor = get_str_fld(ms, "dsa_payor");
    let f_effective_status = get_str_fld(ms, "effective_status");
    let f_end_time = get_str_fld(ms, "end_time");
    let f_frequency_control_specs: Option<Option<Vec<AdCampaignFrequencyControlSpecs>>> = match obj_get(ms, "frequency_control_specs") {
        None => Some(None),
        Some(x) => match x {
            Json::Null => Some(None),
            Json::Arr(items) => {
                proof {
                    assert(views_of(items@).subrange(0, items@.len() as int) =~= views_of(
                        items@,
                    ));
                }
                match decode_ad_campaign_frequency_control_specs_list(items, 0) {
                    Some(r) => Some(Some(r)),
                    None => None,
                }
            },
            _ => None,
        },
    };
    if f_id.is_none() || f_account_id.is_none() || f_adlabels.is_none() || f_adset_schedule.is_none() || f_asset_feed_id.is_none() || f_attribution_spec.is_none() || f_bid_adjustments.is_none() || f_bid_amount.is_none() || f_bid_constraints.is_none() || f_bid_info.is_none() || f_bid_strategy.is_none() || f_billing_event.is_none() || f_brand_safety_config.is_none() || f_budget_remaining.is_none() || f_campaign.is_none() || f_campaign_active_time.is_none() || f_campaign_attribution.is_none() || f_campaign_id.is_none() || f_configured_status.is_none() || f_contextual_bundling_spec.is_none() || f_created_time.is_none() || f_creative_sequence.is_none() || f_daily_budget.is_none() || f_daily_min_spend_target.is_none() || f_daily_spend_cap.is_none() || f_destination_type.is_none() || f_dsa_beneficiary.is_none() || f_dsa_payor.is_none() || f_effective_status.is_none() || f_end_time.is_none() || f_frequency_control_specs.is_none() {
        return None;
    }
    let id = f_id.unwrap();
    let account_id = f_account_id.unwrap();
    let adlabels = f_adlabels.unwrap();
    let adset_schedule = f_adset_schedule.unwrap();
    let asset_feed_id = f_asset_feed_id.unwrap();
    let attribution_spec = f_attribution_spec.unwrap();
    let bid_adjustments = f_bid_adjustments.unwrap();
    let bid_amount = f_bid_amount.unwrap();
    let bid_constraints = f_bid_constraints.unwrap();
    let bid_info = f_bid_info.unwrap();
    let bid_strategy = f_bid_strategy.unwrap();
    let billing_event = f_billing_event.unwrap();
    let brand_safety_config = f_brand_safety_config.unwrap();
    let budget_remaining = f_budget_remaining.unwrap();
    let campaign = f_campaign.unwrap();
    let campaign_active_time = f_campaign_active_time.unwrap();
    let campaign_attribution = f_campaign_attribution.unwrap();
    let campaign_id = f_campaign_id.unwrap();
    let configured_status = f_configured_status.unwrap();
    let contextual_bundling_spec = f_contextual_bundling_spec.unwrap();
    let created_time = f_created_time.unwrap();
    let creative_sequence = f_creative_sequence.unwrap();
    let daily_budget = f_daily_budget.unwrap();
    let daily_min_spend_target = f_daily_min_spend_target.unwrap();
    let daily_spend_cap = f_daily_spend_cap.unwrap();
    let destination_type = f_destination_type.unwrap();
    let dsa_beneficiary = f_dsa_beneficiary.unwrap();
    let dsa_payor = f_dsa_payor.unwrap();
    let effective_status = f_effective_status.unwrap();
    let end_time = f_end_time.unwrap();
    let frequency_control_specs = f_frequency_control_specs.unwrap();
    Some(AdSetPartA { id, account_id, adlabels, adset_schedule, asset_feed_id, attribution_spec, bid_adjustments, bid_amount, bid_constraints, bid_info, bid_strategy, billing_event, brand_safety_config, budget_remaining, campaign, campaign_active_time, campaign_attribution, campaign_id, configured_status, contextual_bundling_spec, created_time, creative_sequence, daily_budget, daily_min_spend_target, daily_spend_cap, destination_type, dsa_beneficiary, dsa_payor, effective_status, end_time, frequency_control_specs })
}

struct AdSetPartB {
    instagram_user_id: Option<String>,
    is_dynamic_creative: Option<bool>,
    issues_info: Option<Vec<AdCampaignIssuesInfo>>,
    learning_stage_info: Option<AdCampaignLearningStageInfo>,
    lifetime_budget: Option<String>,
    lifetime_imps: Option<i32>,
    lifetime_min_spend_target: Option<String>,
    lifetime_spend_cap: Option<String>,
    min_budget_spend_percentage: Option<String>,
    multi_optimization_goal_weight: Option<String>,
    name: Option<String>,
    optimization_goal: Option<String>,
    optimization_sub_event: Option<String>,
    pacing_type: Option<Vec<String>>,
    promoted_object: Option<AdPromotedObject>,
    recommendations: Option<Vec<AdRecommendation>>,
    recurring_budget_semantics: Option<bool>,
    regional_regulated_categories: Option<Vec<String>>,
    regional_regulation_identities: Option<String>,
    review_feedback: Option<String>,
    rf_prediction_id: Option<String>,
    source_adset: Option<Box<AdSet>>,
    source_adset_id: Option<String>,
    start_time: Option<String>,
    status: Option<String>,
    targeting: Option<Targeting>,
    targeting_optimization_types: Option<Vec<TargetingOptimizationTypes>>,
    time_based_ad_rotation_id_blocks: Option<Vec<Vec<i32>>>,
    time_based_ad_rotation_intervals: Option<Vec<u32>>,
    updated_time: Option<String>,
    use_new_app_click: Option<bool>,
}

#[verifier::rlimit(100)]
#[verifier::spinoff_prover]
fn decode_ad_set_b(ms: &Vec<(String, Json)>) -> (r: Option<AdSetPartB>)
    ensures
        match r {
            Some(p) => adset_f_instagram_user_id(views_of_pairs(ms@)) == Some(p.instagram_user_id.deep_view()) && adset_f_is_dynamic_creative(views_of_pairs(ms@)) == Some(p.is_dynamic_creative) && adset_f_issues_info(views_of_pairs(ms@)) == Some(p.issues_info.deep_view()) && adset_f_learning_stage_info(views_of_pairs(ms@)) == Some(p.learning_stage_info.deep_view()) && adset_f_lifetime_budget(views_of_pairs(ms@)) == Some(p.lifetime_budget.deep_view()) && adset_f_lifetime_imps(views_of_pairs(ms@)) == Some(p.lifetime_imps) && adset_f_lifetime_min_spend_target(views_of_pairs(ms@)) == Some(p.lifetime_min_spend_target.deep_view()) && adset_f_lifetime_spend_cap(views_of_pairs(ms@)) == Some(p.lifetime_spend_cap.deep_view()) && adset_f_min_budget_spend_percentage(views_of_pairs(ms@)) == Some(p.min_budget_spend_percentage.deep_view()) && adset_f_multi_optimization_goal_weight(views_of_pairs(ms@)) == Some(p.multi_optimization_goal_weight.deep_view()) && adset_f_name(views_of_pairs(ms@)) == Some(p.name.deep_view()) && adset_f_optimization_goal(views_of_pairs(ms@)) == Some(p.optimization_goal.deep_view()) && adset_f_optimization_sub_event(views_of_pairs(ms@)) == Some(p.optimization_sub_event.deep_view()) && adset_f_pacing_type(views_of_pairs(ms@)) == Some(p.pacing_type.deep_view()) && adset_f_promoted_object(views_of_pairs(ms@)) == Some(p.promoted_object.deep_view()) && adset_f_recommendations(views_of_pairs(ms@)) == Some(p.recommendations.deep_view()) && adset_f_recurring_budget_semantics(views_of_pairs(ms@)) == Some(p.recurring_budget_semantics) && adset_f_regional_regulated_categories(views_of_pairs(ms@)) == Some(p.regional_regulated_categories.deep_view()) && adset_f_regional_regulation_identities(views_of_pairs(ms@)) == Some(p.regional_regulation_identities.deep_view()) && adset_f_review_feedback(views_of_pairs(ms@)) == Some(p.review_feedback.deep_view()) && adset_f_rf_prediction_id(views_of_pairs(ms@)) == Some(p.rf_prediction_id.deep_view()) && adset_f_source_adset(views_of_pairs(ms@)) == Some((match p.source_adset { Some(b) => Some(Box::new(ad_set_v(*b))), None => None })) && adset_f_source_adset_id(views_of_pairs(ms@)) == Some(p.source_adset_id.deep_view()) && adset_f_start_time(views_of_pairs(ms@)) == Some(p.start_time.deep_view()) && adset_f_status(views_of_pairs(ms@)) == Some(p.status.deep_view()) && adset_f_targeting(views_of_pairs(ms@)) == Some(p.targeting.deep_view()) && adset_f_targeting_optimization_types(views_of_pairs(ms@)) == Some(p.targeting_optimization_types.deep_view()) && adset_f_time_based_ad_rotation_id_blocks(views_of_pairs(ms@)) == Some(p.time_based_ad_rotation_id_blocks.deep_view()) && adset_f_time_based_ad_rotation_intervals(views_of_pairs(ms@)) == Some(p.time_based_ad_rotation_intervals.deep_view()) && adset_f_updated_time(views_of_pairs(ms@)) == Some(p.updated_time.deep_view()) && adset_f_use_new_app_click(views_of_pairs(ms@)) == Some(p.use_new_app_click),
            None => adset_f_instagram_user_id(views_of_pairs(ms@)) is None || adset_f_is_dynamic_creative(views_of_pairs(ms@)) is None || adset_f_issues_info(views_of_pairs(ms@)) is None || adset_f_learning_stage_info(views_of_pairs(ms@)) is None || adset_f_lifetime_budget(views_of_pairs(ms@)) is None || adset_f_lifetime_imps(views_of_pairs(ms@)) is None || adset_f_lifetime_min_spend_target(views_of_pairs(ms@)) is None || adset_f_lifetime_spend_cap(views_of_pairs(ms@)) is None || adset_f_min_budget_spend_percentage(views_of_pairs(ms@)) is None || adset_f_multi_optimization_goal_weight(views_of_pairs(ms@)) is None || adset_f_name(views_of_pairs(ms@)) is None || adset_f_optimization_goal(views_of_pairs(ms@)) is None || adset_f_optimization_sub_event(views_of_pairs(ms@)) is None || adset_f_pacing_type(views_of_pairs(ms@)) is None || adset_f_promoted_object(views_of_pairs(ms@)) is None || adset_f_recommendations(views_of_pairs(ms@)) is None || adset_f_recurring_budget_semantics(views_of_pairs(ms@)) is None || adset_f_regional_regulated_categories(views_of_pairs(ms@)) is None || adset_f_regional_regulation_identities(views_of_pairs(ms@)) is None || adset_f_review_feedback(views_of_pairs(ms@)) is None || adset_f_rf_prediction_id(views_of_pairs(ms@)) is None || adset_f_source_adset(views_of_pairs(ms@)) is None || adset_f_source_adset_id(views_of_pairs(ms@)) is None || adset_f_start_time(views_of_pairs(ms@)) is None || adset_f_status(views_of_pairs(ms@)) is None || adset_f_targeting(views_of_pairs(ms@)) is None || adset_f_targeting_optimization_types(views_of_pairs(ms@)) is None || adset_f_time_based_ad_rotation_id_blocks(views_of_pairs(ms@)) is None || adset_f_time_based_ad_rotation_intervals(views_of_pairs(ms@)) is None || adset_f_updated_time(views_of_pairs(ms@)) is None || adset_f_use_new_app_click(views_of_pairs(ms@)) is None,
        },
    decreases *ms, 0int,
{
    let f_instagram_user_id = get_str_fld(ms, "instagram_user_id");
    let f_is_dynamic_creative = get_bool_fld(ms, "is_dynamic_creative");
    let f_issues_info: Option<Option<Vec<AdCampaignIssuesInfo>>> = match obj_get(ms, "issues_info") {
        None => Some(None),
        Some(x) => match x {
            Json::Null => Some(None),
            Json::Arr(items) => {
                proof {
                    assert(views_of(items@).subrange(0, items@.len() as int) =~= views_of(
                        items@,
                    ));
                }
                match decode_ad_campaign_issues_info_list(items, 0) {
                    Some(r) => Some(Some(r)),
                    None => None,
                }
            },
            _ => None,
        },
    };
    let f_learning_stage_info: Option<Option<AdCampaignLearningStageInfo>> = match obj_get(ms, "learning_stage_info") {
        None => Some(None),
        Some(x) => match x {
            Json::Null => Some(None),
            _ => {
                match decode_ad_campaign_learning_stage_info(x) {
                    Some(r) => Some(Some(r)),
                    None => None,
                }
            },
        },
    };
    let f_lifetime_budget = get_str_fld(ms, "lifetime_budget");
    let f_lifetime_imps = get_i32_fld(ms, "lifetime_imps");
    let f_lifetime_min_spend_target = get_str_fld(ms, "lifetime_min_spend_target");
    let f_lifetime_spend_cap = get_str_fld(ms, "lifetime_spend_cap");
    let f_min_budget_spend_percentage = get_str_fld(ms, "min_budget_spend_percentage");
    let f_multi_optimization_goal_weight = get_str_fld(ms, "multi_optimization_goal_weight");
    let f_name = get_str_fld(ms, "name");
    let f_optimization_goal = get_str_fld(ms, "optimization_goal");
    let f_optimization_sub_event = get_str_fld(ms, "optimization_sub_event");
    let f_pacing_type = get_str_list_fld(ms, "pacing_type");
    let f_promoted_object: Option<Option<AdPromotedObject>> = match obj_get(ms, "promoted_object") {
        None => Some(None),
        Some(x) => match x {
            Json::Null => Some(None),
            _ => {
                match decode_ad_promoted_object(x) {
                    Some(r) => Some(Some(r)),
                    None => None,
                }
            },
        },
    };
    let f_recommendations: Option<Option<Vec<AdRecommendation>>> = match obj_get(ms, "recommendations") {
        None => Some(None),
        Some(x) => match x {
            Json::Null => Some(None),
            Json::Arr(items) => {
                proof {
                    assert(views_of(items@).subrange(0, items@.len() as int) =~= views_of(
                        items@,
                    ));
                }
                match decode_ad_recommendation_list(items, 0) {
                    Some(r) => Some(Some(r)),
                    None => None,
                }
            },
            _ => None,
        },
    };
    let f_recurring_budget_semantics = get_bool_fld(ms, "recurring_budget_semantics");
    let f_regional_regulated_categories = get_str_list_fld(ms, "regional_regulated_categories");
    let f_regional_regulation_identities = get_str_fld(ms, "regional_regulation_identities");
    let f_review_feedback = get_str_fld(ms, "review_feedback");
    let f_rf_prediction_id = get_str_fld(ms, "rf_prediction_id");
    let f_source_adset: Option<Option<Box<AdSet>>> = match obj_get(ms, "source_adset") {
        None => Some(None),
        Some(x) => match x {
            Json::Null => Some(None),
            _ => {
                proof {
                        let q = choose|q: int| 0 <= q < ms@.len() && *x == ms@[q].1;
                        assert(decreases_to!(*ms => ms@));
                        assert(decreases_to!(ms@ => ms@[q]));
                        assert(decreases_to!(ms@[q] => ms@[q].1));
                        assert(decreases_to!(*ms => *x));
                    }
                    match decode_ad_set(x) {
                    Some(r) => Some(Some(Box::new(r))),
                    None => None,
                }
            },
        },
    };
    let f_source_adset_id = get_str_fld(ms, "source_adset_id");
    let f_start_time = get_str_fld(ms, "start_time");
    let f_status = get_str_fld(ms, "status");
    let f_targeting: Option<Option<Targeting>> = match obj_get(ms, "targeting") {
        None => Some(None),
        Some(x) => match x {
            Json::Null => Some(None),
            _ => {
                match decode_targeting(x) {
                    Some(r) => Some(Some(r)),
                    None => None,
                }
            },
        },
    };
    let f_targeting_optimization_types: Option<Option<Vec<TargetingOptimizationTypes>>> = match obj_get(ms, "targeting_optimization_types") {
        None => Some(None),
        Some(x) => match x {
            Json::Null => Some(None),
            Json::Arr(items) => {
                proof {
                    assert(views_of(items@).subrange(0, items@.len() as int) =~= views_of(
                        items@,
                    ));
                }
                match decode_targeting_optimization_types_list(items, 0) {
                    Some(r) => Some(Some(r)),
                    None => None,
                }
            },
            _ => None,
        },
    };
    let f_time_based_ad_rotation_id_blocks = get_i32_list_list_fld(ms, "time_based_ad_rotation_id_blocks");
    let f_time_based_ad_rotation_intervals = get_u32_list_fld(ms, "time_based_ad_rotation_intervals");
    let f_updated_time = get_str_fld(ms, "updated_time");
    let f_use_new_app_click = get_bool_fld(ms, "use_new_app_click");
    if f_instagram_user_id.is_none() || f_is_dynamic_creative.is_none() || f_issues_info.is_none() || f_learning_stage_info.is_none() || f_lifetime_budget.is_none() || f_lifetime_imps.is_none() || f_lifetime_min_spend_target.is_none() || f_lifetime_spend_cap.is_none() || f_min_budget_spend_percentage.is_none() || f_multi_optimization_goal_weight.is_none() || f_name.is_none() || f_optimization_goal.is_none() || f_optimization_sub_event.is_none() || f_pacing_type.is_none() || f_promoted_object.is_none() || f_recommendations.is_none() || f_recurring_budget_semantics.is_none() || f_regional_regulated_categories.is_none() || f_regional_regulation_identities.is_none() || f_review_feedback.is_none() || f_rf_prediction_id.is_none() || f_source_adset.is_none() || f_source_adset_id.is_none() || f_start_time.is_none() || f_status.is_none() || f_targeting.is_none() || f_targeting_optimization_types.is_none() || f_time_based_ad_rotation_id_blocks.is_none() || f_time_based_ad_rotation_intervals.is_none() || f_updated_time.is_none() || f_use_new_app_click.is_none() {
        return None;
    }
    let instagram_user_id = f_instagram_user_id.unwrap();
    let is_dynamic_creative = f_is_dynamic_creative.unwrap();
    let issues_info = f_issues_info.unwrap();
    let learning_stage_info = f_learning_stage_info.unwrap();
    let lifetime_budget = f_lifetime_budget.unwrap();
    let lifetime_imps = f_lifetime_imps.unwrap();
    let lifetime_min_spend_target = f_lifetime_min_spend_target.unwrap();
    let lifetime_spend_cap = f_lifetime_spend_cap.unwrap();
    let min_budget_spend_percentage = f_min_budget_spend_percentage.unwrap();
    let multi_optimization_goal_weight = f_multi_optimization_goal_weight.unwrap();
    let name = f_name.unwrap();
    let optimization_goal = f_optimization_goal.unwrap();
    let optimization_sub_event = f_optimization_sub_event.unwrap();
    let pacing_type = f_pacing_type.unwrap();
    let promoted_object = f_promoted_object.unwrap();
    let recommendations = f_recommendations.unwrap();
    let recurring_budget_semantics = f_recurring_budget_semantics.unwrap();
    let regional_regulated_categories = f_regional_regulated_categories.unwrap();
    let regional_regulation_identities = f_regional_regulation_identities.unwrap();
    let review_feedback = f_review_feedback.unwrap();
    let rf_prediction_id = f_rf_prediction_id.unwrap();
    let source_adset = f_source_adset.unwrap();
    let source_adset_id = f_source_adset_id.unwrap();
    let start_time = f_start_time.unwrap();
    let status = f_status.unwrap();
    let targeting = f_targeting.unwrap();
    let targeting_optimization_types = f_targeting_optimization_types.unwrap();
    let time_based_ad_rotation_id_blocks = f_time_based_ad_rotation_id_blocks.unwrap();
    let time_based_ad_rotation_intervals = f_time_based_ad_rotation_intervals.unwrap();
    let updated_time = f_updated_time.unwrap();
    let use_new_app_click = f_use_new_app_click.unwrap();
    Some(AdSetPartB { instagram_user_id, is_dynamic_creative, issues_info, learning_stage_info, lifetime_budget, lifetime_imps, lifetime_min_spend_target, lifetime_spend_cap, min_budget_spend_percentage, multi_optimization_goal_weight, name, optimization_goal, optimization_sub_event, pacing_type, promoted_object, recommendations, recurring_budget_semantics, regional_regulated_categories, regional_regulation_identities, review_feedback, rf_prediction_id, source_adset, source_adset_id, start_time, status, targeting, targeting_optimization_types, time_based_ad_rotation_id_blocks, time_based_ad_rotation_intervals, updated_time, use_new_app_click })
}

#[verifier::rlimit(100)]
#[verifier::spinoff_prover]
proof fn lemma_ad_set_none(ms: Seq<(Seq<char>, JsonV)>)
    requires
        adset_f_id(ms) is None || adset_f_account_id(ms) is None || adset_f_adlabels(ms) is None || adset_f_adset_schedule(ms) is None || adset_f_asset_feed_id(ms) is None || adset_f_attribution_spec(ms) is None || adset_f_bid_adjustments(ms) is None || adset_f_bid_amount(ms) is None || adset_f_bid_constraints(ms) is None || adset_f_bid_info(ms) is None || adset_f_bid_strategy(ms) is None || adset_f_billing_event(ms) is None || adset_f_brand_safety_config(ms) is None || adset_f_budget_remaining(ms) is None || adset_f_campaign(ms) is None || adset_f_campaign_active_time(ms) is None || adset_f_campaign_attribution(ms) is None || adset_f_campaign_id(ms) is None || adset_f_configured_status(ms) is None || adset_f_contextual_bundling_spec(ms) is None || adset_f_created_time(ms) is None || adset_f_creative_sequence(ms) is None || adset_f_daily_budget(ms) is None || adset_f_daily_min_spend_target(ms) is None || adset_f_daily_spend_cap(ms) is None || adset_f_destination_type(ms) is None || adset_f_dsa_beneficiary(ms) is None || adset_f_dsa_payor(ms) is None || adset_f_effective_status(ms) is None || adset_f_end_time(ms) is None || adset_f_frequency_control_specs(ms) is None || adset_f_instagram_user_id(ms) is None || adset_f_is_dynamic_creative(ms) is None || adset_f_issues_info(ms) is None || adset_f_learning_stage_info(ms) is None || adset_f_lifetime_budget(ms) is None || adset_f_lifetime_imps(ms) is None || adset_f_lifetime_min_spend_target(ms) is None || adset_f_lifetime_spend_cap(ms) is None || adset_f_min_budget_spend_percentage(ms) is None || adset_f_multi_optimization_goal_weight(ms) is None || adset_f_name(ms) is None || adset_f_optimization_goal(ms) is None || adset_f_optimization_sub_event(ms) is None || adset_f_pacing_type(ms) is None || adset_f_promoted_object(ms) is None || adset_f_recommendations(ms) is None || adset_f_recurring_budget_semantics(ms) is None || adset_f_regional_regulated_categories(ms) is None || adset_f_regional_regulation_identities(ms) is None || adset_f_review_feedback(ms) is None || adset_f_rf_prediction_id(ms) is None || adset_f_source_adset(ms) is None || adset_f_source_adset_id(ms) is None || adset_f_start_time(ms) is None || adset_f_status(ms) is None || adset_f_targeting(ms) is None || adset_f_targeting_optimization_types(ms) is None || adset_f_time_based_ad_rotation_id_blocks(ms) is None || adset_f_time_based_ad_rotation_intervals(ms) is None || adset_f_updated_time(ms) is None || adset_f_use_new_app_click(ms) is None,
    ensures
        spec_dec_ad_set(JsonV::Obj(ms)) is None,
{
}

#[verifier::rlimit(100)]
#[verifier::spinoff_prover]
proof fn lemma_ad_set_some(ms: Seq<(Seq<char>, JsonV)>, x: AdSet)
    requires
        adset_f_id(ms) == Some(x.id.deep_view()),
        adset_f_account_id(ms) == Some(x.account_id.deep_view()),
        adset_f_adlabels(ms) == Some(x.adlabels.deep_view()),
        adset_f_adset_schedule(ms) == Some(x.adset_schedule.deep_view()),
        adset_f_asset_feed_id(ms) == Some(x.asset_feed_id.deep_view()),
        adset_f_attribution_spec(ms) == Some(x.attribution_spec.deep_view()),
        adset_f_bid_adjustments(ms) == Some(x.bid_adjustments.deep_view()),
        adset_f_bid_amount(ms) == Some(x.bid_amount),
        adset_f_bid_constraints(ms) == Some(x.bid_constraints.deep_view()),
        adset_f_bid_info(ms) == Some(x.bid_info.deep_view()),
        adset_f_bid_strategy(ms) == Some(x.bid_strategy.deep_view()),
        adset_f_billing_event(ms) == Some(x.billing_event.deep_view()),
        adset_f_brand_safety_config(ms) == Some(x.brand_safety_config.deep_view()),
        adset_f_budget_remaining(ms) == Some(x.budget_remaining.deep_view()),
        adset_f_campaign(ms) == Some(x.campaign.deep_view()),
        adset_f_campaign_active_time(ms) == Some(x.campaign_active_time.deep_view()),
        adset_f_campaign_attribution(ms) == Some(x.campaign_attribution.deep_view()),
        adset_f_campaign_id(ms) == Some(x.campaign_id.deep_view()),
        adset_f_configured_status(ms) == Some(x.configured_status.deep_view()),
        adset_f_contextual_bundling_spec(ms) == Some(x.contextual_bundling_spec.deep_view()),
        adset_f_created_time(ms) == Some(x.created_time.deep_view()),
        adset_f_creative_sequence(ms) == Some(x.creative_sequence.deep_view()),
        adset_f_daily_budget(ms) == Some(x.daily_budget.deep_view()),
        adset_f_daily_min_spend_target(ms) == Some(x.daily_min_spend_target.deep_view()),
        adset_f_daily_spend_cap(ms) == Some(x.daily_spend_cap.deep_view()),
        adset_f_destination_type(ms) == Some(x.destination_type.deep_view()),
        adset_f_dsa_beneficiary(ms) == Some(x.dsa_beneficiary.deep_view()),
        adset_f_dsa_payor(ms) == Some(x.dsa_payor.deep_view()),
        adset_f_effective_status(ms) == Some(x.effective_status.deep_view()),
        adset_f_end_time(ms) == Some(x.end_time.deep_view()),
        adset_f_frequency_control_specs(ms) == Some(x.frequency_control_specs.deep_view()),
        adset_f_instagram_user_id(ms) == Some(x.instagram_user_id.deep_view()),
        adset_f_is_dynamic_creative(ms) == Some(x.is_dynamic_creative),
        adset_f_issues_info(ms) == Some(x.issues_info.deep_view()),
        adset_f_learning_stage_info(ms) == Some(x.learning_stage_info.deep_view()),
        adset_f_lifetime_budget(ms) == Some(x.lifetime_budget.deep_view()),
        adset_f_lifetime_imps(ms) == Some(x.lifetime_imps),
        adset_f_lifetime_min_spend_target(ms) == Some(x.lifetime_min_spend_target.deep_view()),
        adset_f_lifetime_spend_cap(ms) == Some(x.lifetime_spend_cap.deep_view()),
        adset_f_min_budget_spend_percentage(ms) == Some(x.min_budget_spend_percentage.deep_view()),
        adset_f_multi_optimization_goal_weight(ms) == Some(x.multi_optimization_goal_weight.deep_view()),
        adset_f_name(ms) == Some(x.name.deep_view()),
        adset_f_optimization_goal(ms) == Some(x.optimization_goal.deep_view()),
        adset_f_optimization_sub_event(ms) == Some(x.optimization_sub_event.deep_view()),
        adset_f_pacing_type(ms) == Some(x.pacing_type.deep_view()),
        adset_f_promoted_object(ms) == Some(x.promoted_object.deep_view()),
        adset_f_recommendations(ms) == Some(x.recommendations.deep_view()),
        adset_f_recurring_budget_semantics(ms) == Some(x.recurring_budget_semantics),
        adset_f_regional_regulated_categories(ms) == Some(x.regional_regulated_categories.deep_view()),
        adset_f_regional_regulation_identities(ms) == Some(x.regional_regulation_identities.deep_view()),
        adset_f_review_feedback(ms) == Some(x.review_feedback.deep_view()),
        adset_f_rf_prediction_id(ms) == Some(x.rf_prediction_id.deep_view()),
        adset_f_source_adset(ms) == Some((match x.source_adset { Some(b) => Some(Box::new(ad_set_v(*b))), None => None })),
        adset_f_source_adset_id(ms) == Some(x.source_adset_id.deep_view()),
        adset_f_start_time(ms) == Some(x.start_time.deep_view()),
        adset_f_status(ms) == Some(x.status.deep_view()),
        adset_f_targeting(ms) == Some(x.targeting.deep_view()),
        adset_f_targeting_optimization_types(ms) == Some(x.targeting_optimization_types.deep_view()),
        adset_f_time_based_ad_rotation_id_blocks(ms) == Some(x.time_based_ad_rotation_id_blocks.deep_view()),
        adset_f_time_based_ad_rotation_intervals(ms) == Some(x.time_based_ad_rotation_intervals.deep_view()),
        adset_f_updated_time(ms) == Some(x.updated_time.deep_view()),
        adset_f_use_new_app_click(ms) == Some(x.use_new_app_click),
    ensures
        spec_dec_ad_set(JsonV::Obj(ms)) == Some(ad_set_v(x)),
{
}

#[verifier::rlimit(100)]
#[verifier::spinoff_prover]
pub fn decode_ad_set(j: &Json) -> (r: Option<AdSet>)
    ensures
        match r {
            Some(x) => spec_dec_ad_set(jview(*j)) == Some(x@),
            None => spec_dec_ad_set(jview(*j)) is None,
        },
    decreases *j, 1int,
{
    let ms = match j {
        Json::Obj(ms) => ms,
        _ => {
            return None;
        },
    };
    proof {
        assert(decreases_to!(*j => j->Obj_0));
    }
    let pa = match decode_ad_set_a(ms) {
        Some(p) => p,
        None => {
            proof {
                lemma_ad_set_none(views_of_pairs(ms@));
            }
            return None;
        },
    };
    let pb = match decode_ad_set_b(ms) {
        Some(p) => p,
        None => {
            proof {
                lemma_ad_set_none(views_of_pairs(ms@));
            }
            return None;
        },
    };
    let out = AdSet {
        id: pa.id,
        account_id: pa.account_id,
        adlabels: pa.adlabels,
        adset_schedule: pa.adset_schedule,
        asset_feed_id: pa.asset_feed_id,
        attribution_spec: pa.attribution_spec,
        bid_adjustments: pa.bid_adjustments,
        bid_amount: pa.bid_amount,
        bid_constraints: pa.bid_constraints,
        bid_info: pa.bid_info,
        bid_strategy: pa.bid_strategy,
        billing_event: pa.billing_event,
        brand_safety_config: pa.brand_safety_config,
        budget_remaining: pa.budget_remaining,
        campaign: pa.campaign,
        campaign_active_time: pa.campaign_active_time,
        campaign_attribution: pa.campaign_attribution,
        campaign_id: pa.campaign_id,
        configured_status: pa.configured_status,
        contextual_bundling_spec: pa.contextual_bundling_spec,
        created_time: pa.created_time,
        creative_sequence: pa.creative_sequence,
        daily_budget: pa.daily_budget,
        daily_min_spend_target: pa.daily_min_spend_target,
        daily_spend_cap: pa.daily_spend_cap,
        destination_type: pa.destination_type,
        dsa_beneficiary: pa.dsa_beneficiary,
        dsa_payor: pa.dsa_payor,
        effective_status: pa.effective_status,
        end_time: pa.end_time,
        frequency_control_specs: pa.frequency_control_specs,
        instagram_user_id: pb.instagram_user_id,
        is_dynamic_creative: pb.is_dynamic_creative,
        issues_info: pb.issues_info,
        learning_stage_info: pb.learning_stage_info,
        lifetime_budget: pb.lifetime_budget,
        lifetime_imps: pb.lifetime_imps,
        lifetime_min_spend_target: pb.lifetime_min_spend_target,
        lifetime_spend_cap: pb.lifetime_spend_cap,
        min_budget_spend_percentage: pb.min_budget_spend_percentage,
        multi_optimization_goal_weight: pb.multi_optimization_goal_weight,
        name: pb.name,
        optimization_goal: pb.optimization_goal,
        optimization_sub_event: pb.optimization_sub_event,
        pacing_type: pb.pacing_type,
        promoted_object: pb.promoted_object,
        recommendations: pb.recommendations,
        recurring_budget_semantics: pb.recurring_budget_semantics,
        regional_regulated_categories: pb.regional_regulated_categories,
        regional_regulation_identities: pb.regional_regulation_identities,
        review_feedback: pb.review_feedback,
        rf_prediction_id: pb.rf_prediction_id,
        source_adset: pb.source_adset,
        source_adset_id: pb.source_adset_id,
        start_time: pb.start_time,
        status: pb.status,
        targeting: pb.targeting,
        targeting_optimization_types: pb.targeting_optimization_types,
        time_based_ad_rotation_id_blocks: pb.time_based_ad_rotation_id_blocks,
        time_based_ad_rotation_intervals: pb.time_based_ad_rotation_intervals,
        updated_time: pb.updated_time,
        use_new_app_click: pb.use_new_app_click,
    };
    proof {
        lemma_ad_set_some(views_of_pairs(ms@), out);
    }
    Some(out)
}

pub open spec fn spec_dec_ad_set_list(items: Seq<JsonV>) -> Option<Seq<AdSetV>>
    decreases items.len(),
{
    if items.len() == 0 {
        Some(Seq::empty())
    } else {
        match spec_dec_ad_set(items[0]) {
            None => None,
            Some(x) => match spec_dec_ad_set_list(items.drop_first()) {
                None => None,
                Some(rest) => Some(seq![x] + rest),
            },
        }
    }
}

pub fn decode_ad_set_list(items: &Vec<Json>, from: usize) -> (r: Option<Vec<AdSet>>)
    requires
        from <= items@.len(),
    ensures
        match r {
            Some(v) => spec_dec_ad_set_list(
                views_of(items@).subrange(from as int, items@.len() as int),
            ) == Some(v.deep_view()),
            None => spec_dec_ad_set_list(
                views_of(items@).subrange(from as int, items@.len() as int),
            ) is None,
        },
    decreases items@.len() - from,
{
    let ghost tail = views_of(items@).subrange(from as int, items@.len() as int);
    if from == items.len() {
        let out: Vec<AdSet> = Vec::new();
        proof {
            assert(out.deep_view() =~= Seq::<AdSetV>::empty());
        }
        return Some(out);
    }
    proof {
        assert(tail[0] == views_of(items@)[from as int]);
        assert(tail.drop_first() =~= views_of(items@).subrange(
            from + 1 as int,
            items@.len() as int,
        ));
    }
    match decode_ad_set(&items[from]) {
        None => None,
        Some(x) => match decode_ad_set_list(items, from + 1) {
            None => None,
            Some(rest) => {
                let ghost rest0 = rest.deep_view();
                let mut out = rest;
                out.insert(0, x);
                proof {
                    assert(out.deep_view() =~= seq![x@] + rest0);
                }
                Some(out)
            },
        },
    }
}

pub open spec fn spec_dec_ad_set_response(v: JsonV) -> Option<AdSetResponseV>
{
    match v {
        JsonV::Obj(ms) => {
            let f_data: Option<Seq<AdSetV>> = match obj_lookup(ms, "data"@) {
                Some(x) => match x {
                    JsonV::Arr(items) => spec_dec_ad_set_list(items),
                    _ => None,
                },
                None => None,
            };
            let f_paging: Option<PagingV> = match obj_lookup(ms, "paging"@) {
                Some(x) => match spec_dec_paging(x) {
                    Some(r) => Some(r),
                    None => None,
                },
                None => None,
            };
            if f_data is Some && f_paging is Some {
                Some(AdSetResponseV {
                    data: f_data->0,
                    paging: f_paging->0,
                })
            } else {
                None
            }
        },
        _ => None,
    }
}

pub fn decode_ad_set_response(j: &Json) -> (r: Option<AdSetResponse>)
    ensures
        match r {
            Some(x) => spec_dec_ad_set_response(jview(*j)) == Some(x@),
            None => spec_dec_ad_set_response(jview(*j)) is None,
        },
{
    let ms = match j {
        Json::Obj(ms) => ms,
        _ => {
            return None;
        },
    };
    let f_data: Option<Vec<AdSet>> = match obj_get(ms, "data") {
        Some(x) => match x {
            Json::Arr(items) => {
                proof {
                    assert(views_of(items@).subrange(0, items@.len() as int) =~= views_of(
                        items@,
                    ));
                }
                decode_ad_set_list(items, 0)
            },
            _ => None,
        },
        None => None,
    };
    let f_paging: Option<Paging> = match obj_get(ms, "paging") {
        Some(x) => decode_paging(x),
        None => None,
    };
    if f_data.is_none() || f_paging.is_none() {
        return None;
    }
    let data = f_data.unwrap();
    let paging = f_paging.unwrap();
    Some(AdSetResponse { data, paging })
}

pub open spec fn spec_dec_ad_response(v: JsonV) -> Option<AdResponseV>
{
    match v {
        JsonV::Obj(ms) => {
            let f_data: Option<Seq<AdSetV>> = match obj_lookup(ms, "data"@) {
                Some(x) => match x {
                    JsonV::Arr(items) => spec_dec_ad_set_list(items),
                    _ => None,
                },
                None => None,
            };
            let f_paging: Option<PagingV> = match obj_lookup(ms, "paging"@) {
                Some(x) => match spec_dec_paging(x) {
                    Some(r) => Some(r),
                    None => None,
                },
                None => None,
            };
            if f_data is Some && f_paging is Some {
                Some(AdResponseV {
                    data: f_data->0,
                    paging: f_paging->0,
                })
            } else {
                None
            }
        },
        _ => None,
    }
}

pub fn decode_ad_response(j: &Json) -> (r: Option<AdResponse>)
    ensures
        match r {
            Some(x) => spec_dec_ad_response(jview(*j)) == Some(x@),
            None => spec_dec_ad_response(jview(*j)) is None,
        },
{
    let ms = match j {
        Json::Obj(ms) => ms,
        _ => {
            return None;
        },
    };
    let f_data: Option<Vec<AdSet>> = match obj_get(ms, "data") {
        Some(x) => match x {
            Json::Arr(items) => {
                proof {
                    assert(views_of(items@).subrange(0, items@.len() as int) =~= views_of(
                        items@,
                    ));
                }
                decode_ad_set_list(items, 0)
            },
            _ => None,
        },
        None => None,
    };
    let f_paging: Option<Paging> = match obj_get(ms, "paging") {
        Some(x) => decode_paging(x),
        None => None,
    };
    if f_data.is_none() || f_paging.is_none() {
        return None;
    }
    let data = f_data.unwrap();
    let paging = f_paging.unwrap();
    Some(AdResponse { data, paging })
}

pub open spec fn spec_dec_adgroup_issues_info(v: JsonV) -> Option<AdgroupIssuesInfoV>
{
    match v {
        JsonV::Obj(ms) => {
            let f_error_code: Option<Option<i32>> = fld_i32(ms, "error_code"@);
            let f_error_message: Option<Option<Seq<char>>> = fld_str(ms, "error_message"@);
            let f_error_summary: Option<Option<Seq<char>>> = fld_str(ms, "error_summary"@);
            let f_error_type: Option<Option<Seq<char>>> = fld_str(ms, "error_type"@);
            let f_level: Option<Option<Seq<char>>> = fld_str(ms, "level"@);
            if f_error_code is Some && f_error_message is Some && f_error_summary is Some && f_error_type is Some && f_level is Some {
                Some(AdgroupIssuesInfoV {
                    error_code: f_error_code->0,
                    error_message: f_error_message->0,
                    error_summary: f_error_summary->0,
                    error_type: f_error_type->0,
                    level: f_level->0,
                })
            } else {
                None
            }
        },
        _ => None,
    }
}

pub fn decode_adgroup_issues_info(j: &Json) -> (r: Option<AdgroupIssuesInfo>)
    ensures
        match r {
            Some(x) => spec_dec_adgroup_issues_info(jview(*j)) == Some(x@),
            None => spec_dec_adgroup_issues_info(jview(*j)) is None,
        },
{
    let ms = match j {
        Json::Obj(ms) => ms,
        _ => {
            return None;
        },
    };
    let f_error_code = get_i32_fld(ms, "error_code");
    let f_error_message = get_str_fld(ms, "error_message");
    let f_error_summary = get_str_fld(ms, "error_summary");
    let f_error_type = get_str_fld(ms, "error_type");
    let f_level = get_str_fld(ms, "level");
    if f_error_code.is_none() || f_error_message.is_none() || f_error_summary.is_none() || f_error_type.is_none() || f_level.is_none() {
        return None;
    }
    let error_code = f_error_code.unwrap();
    let error_message = f_error_message.unwrap();
    let error_summary = f_error_summary.unwrap();
    let error_type = f_error_type.unwrap();
    let level = f_level.unwrap();
    Some(AdgroupIssuesInfo { error_code, error_message, error_summary, error_type, level })
}

pub open spec fn spec_dec_adgroup_issues_info_list(items: Seq<JsonV>) -> Option<Seq<AdgroupIssuesInfoV>>
    decreases items.len(),
{
    if items.len() == 0 {
        Some(Seq::empty())
    } else {
        match spec_dec_adgroup_issues_info(items[0]) {
            None => None,
            Some(x) => match spec_dec_adgroup_issues_info_list(items.drop_first()) {
                None => None,
                Some(rest) => Some(seq![x] + rest),
            },
        }
    }
}

pub fn decode_adgroup_issues_info_list(items: &Vec<Json>, from: usize) -> (r: Option<Vec<AdgroupIssuesInfo>>)
    requires
        from <= items@.len(),
    ensures
        match r {
            Some(v) => spec_dec_adgroup_issues_info_list(
                views_of(items@).subrange(from as int, items@.len() as int),
            ) == Some(v.deep_view()),
            None => spec_dec_adgroup_issues_info_list(
                views_of(items@).subrange(from as int, items@.len() as int),
            ) is None,
        },
    decreases items@.len() - from,
{
    let ghost tail = views_of(items@).subrange(from as int, items@.len() as int);
    if from == items.len() {
        let out: Vec<AdgroupIssuesInfo> = Vec::new();
        proof {
            assert(out.deep_view() =~= Seq::<AdgroupIssuesInfoV>::empty());
        }
        return Some(out);
    }
    proof {
        assert(tail[0] == views_of(items@)[from as int]);
        assert(tail.drop_first() =~= views_of(items@).subrange(
            from + 1 as int,
            items@.len() as int,
        ));
    }
    match decode_adgroup_issues_info(&items[from]) {
        None => None,
        Some(x) => match decode_adgroup_issues_info_list(items, from + 1) {
            None => None,
            Some(rest) => {
                let ghost rest0 = rest.deep_view();
                let mut out = rest;
                out.insert(0, x);
                proof {
                    assert(out.deep_view() =~= seq![x@] + rest0);
                }
                Some(out)
            },
        },
    }
}

pub open spec fn spec_dec_conversion_action_query(v: JsonV) -> Option<ConversionActionQueryV>
{
    match v {
        JsonV::Obj(ms) => {
            let f_action_type: Option<Option<Seq<Seq<char>>>> = fld_str_list(ms, "action_type"@);
            let f_application: Option<Option<Seq<Seq<char>>>> = fld_str_list(ms, "application"@);
            let f_conversion_id: Option<Option<Seq<Seq<char>>>> = fld_str_list(ms, "conversion_id"@);
            let f_creative: Option<Option<Seq<Seq<char>>>> = fld_str_list(ms, "creative"@);
            let f_dataset: Option<Option<Seq<Seq<char>>>> = fld_str_list(ms, "dataset"@);
            let f_event: Option<Option<Seq<Seq<char>>>> = fld_str_list(ms, "event"@);
            let f_event_creator: Option<Option<Seq<Seq<char>>>> = fld_str_list(ms, "event_creator"@);
            let f_event_type: Option<Option<Seq<Seq<char>>>> = fld_str_list(ms, "event_type"@);
            let f_fb_pixel: Option<Option<Seq<Seq<char>>>> = fld_str_list(ms, "fb_pixel"@);
            let f_fb_pixel_event: Option<Option<Seq<Seq<char>>>> = fld_str_list(ms, "fb_pixel_event"@);
            let f_leadgen: Option<Option<Seq<Seq<char>>>> = fld_str_list(ms, "leadgen"@);
            let f_object: Option<Option<Seq<Seq<char>>>> = fld_str_list(ms, "object"@);
            let f_object_domain: Option<Option<Seq<Seq<char>>>> = fld_str_list(ms, "object_domain"@);
            let f_offer: Option<Option<Seq<Seq<char>>>> = fld_str_list(ms, "offer"@);
            let f_offer_creator: Option<Option<Seq<Seq<char>>>> = fld_str_list(ms, "offer_creator"@);
            let f_offsite_pixel: Option<Option<Seq<Seq<char>>>> = fld_str_list(ms, "offsite_pixel"@);
            let f_page: Option<Option<Seq<Seq<char>>>> = fld_str_list(ms, "page"@);
            let f_page_parent: Option<Option<Seq<Seq<char>>>> = fld_str_list(ms, "page_parent"@);
            let f_post: Option<Option<Seq<Seq<char>>>> = fld_str_list(ms, "post"@);
            let f_post_object: Option<Option<Seq<Seq<char>>>> = fld_str_list(ms, "post_object"@);
            let f_post_object_wall: Option<Option<Seq<Seq<char>>>> = fld_str_list(ms, "post_object_wall"@);
            let f_post_wall: Option<Option<Seq<Seq<char>>>> = fld_str_list(ms, "post_wall"@);
            let f_question: Option<Option<Seq<Seq<char>>>> = fld_str_list(ms, "question"@);
            let f_question_creator: Option<Option<Seq<Seq<char>>>> = fld_str_list(ms, "question_creator"@);
            let f_response: Option<Option<Seq<Seq<char>>>> = fld_str_list(ms, "response"@);
            let f_subtype: Option<Option<Seq<Seq<char>>>> = fld_str_list(ms, "subtype"@);
            if f_action_type is Some && f_application is Some && f_conversion_id is Some && f_creative is Some && f_dataset is Some && f_event is Some && f_event_creator is Some && f_event_type is Some && f_fb_pixel is Some && f_fb_pixel_event is Some && f_leadgen is Some && f_object is Some && f_object_domain is Some && f_offer is Some && f_offer_creator is Some && f_offsite_pixel is Some && f_page is Some && f_page_parent is Some && f_post is Some && f_post_object is Some && f_post_object_wall is Some && f_post_wall is Some && f_question is Some && f_question_creator is Some && f_response is Some && f_subtype is Some {
                Some(ConversionActionQueryV {
                    action_type: f_action_type->0,
                    application: f_application->0,
                    conversion_id: f_conversion_id->0,
                    creative: f_creative->0,
                    dataset: f_dataset->0,
                    event: f_event->0,
                    event_creator: f_event_creator->0,
                    event_type: f_event_type->0,
                    fb_pixel: f_fb_pixel->0,
                    fb_pixel_event: f_fb_pixel_event->0,
                    leadgen: f_leadgen->0,
                    object: f_object->0,
                    object_domain: f_object_domain->0,
                    offer: f_offer->0,
                    offer_creator: f_offer_creator->0,
                    offsite_pixel: f_offsite_pixel->0,
                    page: f_page->0,
                    page_parent: f_page_parent->0,
                    post: f_post->0,
                    post_object: f_post_object->0,
                    post_object_wall: f_post_object_wall->0,
                    post_wall: f_post_wall->0,
                    question: f_question->0,
                    question_creator: f_question_creator->0,
                    response: f_response->0,
                    subtype: f_subtype->0,
                })
            } else {
                None
            }
        },
        _ => None,
    }
}

pub fn decode_conversion_action_query(j: &Json) -> (r: Option<ConversionActionQuery>)
    ensures
        match r {
            Some(x) => spec_dec_conversion_action_query(jview(*j)) == Some(x@),
            None => spec_dec_conversion_action_query(jview(*j)) is None,
        },
{
    let ms = match j {
        Json::Obj(ms) => ms,
        _ => {
            return None;
        },
    };
    let f_action_type = get_str_list_fld(ms, "action_type");
    let f_application = get_str_list_fld(ms, "application");
    let f_conversion_id = get_str_list_fld(ms, "conversion_id");
    let f_creative = get_str_list_fld(ms, "creative");
    let f_dataset = get_str_list_fld(ms, "dataset");
    let f_event = get_str_list_fld(ms, "event");
    let f_event_creator = get_str_list_fld(ms, "event_creator");
    let f_event_type = get_str_list_fld(ms, "event_type");
    let f_fb_pixel = get_str_list_fld(ms, "fb_pixel");
    let f_fb_pixel_event = get_str_list_fld(ms, "fb_pixel_event");
    let f_leadgen = get_str_list_fld(ms, "leadgen");
    let f_object = get_str_list_fld(ms, "object");
    let f_object_domain = get_str_list_fld(ms, "object_domain");
    let f_offer = get_str_list_fld(ms, "offer");
    let f_offer_creator = get_str_list_fld(ms, "offer_creator");
    let f_offsite_pixel = get_str_list_fld(ms, "offsite_pixel");
    let f_page = get_str_list_fld(ms, "page");
    let f_page_parent = get_str_list_fld(ms, "page_parent");
    let f_post = get_str_list_fld(ms, "post");
    let f_post_object = get_str_list_fld(ms, "post_object");
    let f_post_object_wall = get_str_list_fld(ms, "post_object_wall");
    let f_post_wall = get_str_list_fld(ms, "post_wall");
    let f_question = get_str_list_fld(ms, "question");
    let f_question_creator = get_str_list_fld(ms, "question_creator");
    let f_response = get_str_list_fld(ms, "response");
    let f_subtype = get_str_list_fld(ms, "subtype");
    if f_action_type.is_none() || f_application.is_none() || f_conversion_id.is_none() || f_creative.is_none() || f_dataset.is_none() || f_event.is_none() || f_event_creator.is_none() || f_event_type.is_none() || f_fb_pixel.is_none() || f_fb_pixel_event.is_none() || f_leadgen.is_none() || f_object.is_none() || f_object_domain.is_none() || f_offer.is_none() || f_offer_creator.is_none() || f_offsite_pixel.is_none() || f_page.is_none() || f_page_parent.is_none() || f_post.is_none() || f_post_object.is_none() || f_post_object_wall.is_none() || f_post_wall.is_none() || f_question.is_none() || f_question_creator.is_none() || f_response.is_none() || f_subtype.is_none() {
        return None;
    }
    let action_type = f_action_type.unwrap();
    let application = f_application.unwrap();
    let conversion_id = f_conversion_id.unwrap();
    let creative = f_creative.unwrap();
    let dataset = f_dataset.unwrap();
    let event = f_event.unwrap();
    let event_creator = f_event_creator.unwrap();
    let event_type = f_event_type.unwrap();
    let fb_pixel = f_fb_pixel.unwrap();
    let fb_pixel_event = f_fb_pixel_event.unwrap();
    let leadgen = f_leadgen.unwrap();
    let object = f_object.unwrap();
    let object_domain = f_object_domain.unwrap();
    let offer = f_offer.unwrap();
    let offer_creator = f_offer_creator.unwrap();
    let offsite_pixel = f_offsite_pixel.unwrap();
    let page = f_page.unwrap();
    let page_parent = f_page_parent.unwrap();
    let post = f_post.unwrap();
    let post_object = f_post_object.unwrap();
    let post_object_wall = f_post_object_wall.unwrap();
    let post_wall = f_post_wall.unwrap();
    let question = f_question.unwrap();
    let question_creator = f_question_creator.unwrap();
    let response = f_response.unwrap();
    let subtype = f_subtype.unwrap();
    Some(ConversionActionQuery { action_type, application, conversion_id, creative, dataset, event, event_creator, event_type, fb_pixel, fb_pixel_event, leadgen, object, object_domain, offer, offer_creator, offsite_pixel, page, page_parent, post, post_object, post_object_wall, post_wall, question, question_creator, response, subtype })
}

pub open spec fn spec_dec_conversion_action_query_list(items: Seq<JsonV>) -> Option<Seq<ConversionActionQueryV>>
    decreases items.len(),
{
    if items.len() == 0 {
        Some(Seq::empty())
    } else {
        match spec_dec_conversion_action_query(items[0]) {
            None => None,
            Some(x) => match spec_dec_conversion_action_query_list(items.drop_first()) {
                None => None,
                Some(rest) => Some(seq![x] + rest),
            },
        }
    }
}

pub fn decode_conversion_action_query_list(items: &Vec<Json>, from: usize) -> (r: Option<Vec<ConversionActionQuery>>)
    requires
        from <= items@.len(),
    ensures
        match r {
            Some(v) => spec_dec_conversion_action_query_list(
                views_of(items@).subrange(from as int, items@.len() as int),
            ) == Some(v.deep_view()),
            None => spec_dec_conversion_action_query_list(
                views_of(items@).subrange(from as int, items@.len() as int),
            ) is None,
        },
    decreases items@.len() - from,
{
    let ghost tail = views_of(items@).subrange(from as int, items@.len() as int);
    if from == items.len() {
        let out: Vec<ConversionActionQuery> = Vec::new();
        proof {
            assert(out.deep_view() =~= Seq::<ConversionActionQueryV>::empty());
        }
        return Some(out);
    }
    proof {
        assert(tail[0] == views_of(items@)[from as int]);
        assert(tail.drop_first() =~= views_of(items@).subrange(
            from + 1 as int,
            items@.len() as int,
        ));
    }
    match decode_conversion_action_query(&items[from]) {
        None => None,
        Some(x) => match decode_conversion_action_query_list(items, from + 1) {
            None => None,
            Some(rest) => {
                let ghost rest0 = rest.deep_view();
                let mut out = rest;
                out.insert(0, x);
                proof {
                    assert(out.deep_view() =~= seq![x@] + rest0);
                }
                Some(out)
            },
        },
    }
}

pub open spec fn spec_dec_adgroup_placement_specific_review_feedback(v: JsonV) -> Option<AdgroupPlacementSpecificReviewFeedbackV>
{
    match v {
        JsonV::Obj(ms) => {
            let f_account_admin: Option<Option<Seq<(Seq<char>, Seq<char>)>>> = fld_str_map(ms, "account_admin"@);
            let f_ad: Option<Option<Seq<(Seq<char>, Seq<char>)>>> = fld_str_map(ms, "ad"@);
            let f_ads_conversion_experiences: Option<Option<Seq<(Seq<char>, Seq<char>)>>> = fld_str_map(ms, "ads_conversion_experiences"@);
            let f_b2c: Option<Option<Seq<(Seq<char>, Seq<char>)>>> = fld_str_map(ms, "b2c"@);
            let f_b2c_commerce_unified: Option<Option<Seq<(Seq<char>, Seq<char>)>>> = fld_str_map(ms, "b2c_commerce_unified"@);
            let f_bsg: Option<Option<Seq<(Seq<char>, Seq<char>)>>> = fld_str_map(ms, "bsg"@);
            let f_city_community: Option<Option<Seq<(Seq<char>, Seq<char>)>>> = fld_str_map(ms, "city_community"@);
            let f_commerce: Option<Option<Seq<(Seq<char>, Seq<char>)>>> = fld_str_map(ms, "commerce"@);
            let f_compromise: Option<Option<Seq<(Seq<char>, Seq<char>)>>> = fld_str_map(ms, "compromise"@);
            let f_daily_deals: Option<Option<Seq<(Seq<char>, Seq<char>)>>> = fld_str_map(ms, "daily_deals"@);
            let f_daily_deals_legacy: Option<Option<Seq<(Seq<char>, Seq<char>)>>> = fld_str_map(ms, "daily_deals_legacy"@);
            let f_dpa: Option<Option<Seq<(Seq<char>, Seq<char>)>>> = fld_str_map(ms, "dpa"@);
            let f_dri_copyright: Option<Option<Seq<(Seq<char>, Seq<char>)>>> = fld_str_map(ms, "dri_copyright"@);
            let f_dri_counterfeit: Option<Option<Seq<(Seq<char>, Seq<char>)>>> = fld_str_map(ms, "dri_counterfeit"@);
            let f_facebook: Option<Option<Seq<(Seq<char>, Seq<char>)>>> = fld_str_map(ms, "facebook"@);
            let f_facebook_pages_live_shopping: Option<Option<Seq<(Seq<char>, Seq<char>)>>> = fld_str_map(ms, "facebook_pages_live_shopping"@);
            let f_independent_work: Option<Option<Seq<(Seq<char>, Seq<char>)>>> = fld_str_map(ms, "independent_work"@);
            let f_instagram: Option<Option<Seq<(Seq<char>, Seq<char>)>>> = fld_str_map(ms, "instagram"@);
            let f_instagram_shop: Option<Option<Seq<(Seq<char>, Seq<char>)>>> = fld_str_map(ms, "instagram_shop"@);
            let f_job_search: Option<Option<Seq<(Seq<char>, Seq<char>)>>> = fld_str_map(ms, "job_search"@);
            let f_lead_gen_honeypot: Option<Option<Seq<(Seq<char>, Seq<char>)>>> = fld_str_map(ms, "lead_gen_honeypot"@);
            let f_marketplace: Option<Option<Seq<(Seq<char>, Seq<char>)>>> = fld_str_map(ms, "marketplace"@);
            let f_marketplace_home_rentals: Option<Option<Seq<(Seq<char>, Seq<char>)>>> = fld_str_map(ms, "marketplace_home_rentals"@);
            let f_marketplace_home_sales: Option<Option<Seq<(Seq<char>, Seq<char>)>>> = fld_str_map(ms, "marketplace_home_sales"@);
            let f_marketplace_motors: Option<Option<Seq<(Seq<char>, Seq<char>)>>> = fld_str_map(ms, "marketplace_motors"@);
            let f_marketplace_shops: Option<Option<Seq<(Seq<char>, Seq<char>)>>> = fld_str_map(ms, "marketplace_shops"@);
            let f_neighborhoods: Option<Option<Seq<(Seq<char>, Seq<char>)>>> = fld_str_map(ms, "neighborhoods"@);
            let f_page_admin: Option<Option<Seq<(Seq<char>, Seq<char>)>>> = fld_str_map(ms, "page_admin"@);
            let f_product: Option<Option<Seq<(Seq<char>, Seq<char>)>>> = fld_str_map(ms, "product"@);
            let f_product_service: Option<Option<Seq<(Seq<char>, Seq<char>)>>> = fld_str_map(ms, "product_service"@);
            let f_profile: Option<Option<Seq<(Seq<char>, Seq<char>)>>> = fld_str_map(ms, "profile"@);
            let f_seller: Option<Option<Seq<(Seq<char>, Seq<char>)>>> = fld_str_map(ms, "seller"@);
            let f_shops: Option<Option<Seq<(Seq<char>, Seq<char>)>>> = fld_str_map(ms, "shops"@);
            let f_traffic_quality: Option<Option<Seq<(Seq<char>, Seq<char>)>>> = fld_str_map(ms, "traffic_quality"@);
            let f_unified_commerce_content: Option<Option<Seq<(Seq<char>, Seq<char>)>>> = fld_str_map(ms, "unified_commerce_content"@);
            let f_whatsapp: Option<Option<Seq<(Seq<char>, Seq<char>)>>> = fld_str_map(ms, "whatsapp"@);
            if f_account_admin is Some && f_ad is Some && f_ads_conversion_experiences is Some && f_b2c is Some && f_b2c_commerce_unified is Some && f_bsg is Some && f_city_community is Some && f_commerce is Some && f_compromise is Some && f_daily_deals is Some && f_daily_deals_legacy is Some && f_dpa is Some && f_dri_copyright is Some && f_dri_counterfeit is Some && f_facebook is Some && f_facebook_pages_live_shopping is Some && f_independent_work is Some && f_instagram is Some && f_instagram_shop is Some && f_job_search is Some && f_lead_gen_honeypot is Some && f_marketplace is Some && f_marketplace_home_rentals is Some && f_marketplace_home_sales is Some && f_marketplace_motors is Some && f_marketplace_shops is Some && f_neighborhoods is Some && f_page_admin is Some && f_product is Some && f_product_service is Some && f_profile is Some && f_seller is Some && f_shops is Some && f_traffic_quality is Some && f_unified_commerce_content is Some && f_whatsapp is Some {
                Some(AdgroupPlacementSpecificReviewFeedbackV {
                    account_admin: f_account_admin->0,
                    ad: f_ad->0,
                    ads_conversion_experiences: f_ads_conversion_experiences->0,
                    b2c: f_b2c->0,
                    b2c_commerce_unified: f_b2c_commerce_unified->0,
                    bsg: f_bsg->0,
                    city_community: f_city_community->0,
                    commerce: f_commerce->0,
                    compromise: f_compromise->0,
                    daily_deals: f_daily_deals->0,
                    daily_deals_legacy: f_daily_deals_legacy->0,
                    dpa: f_dpa->0,
                    dri_copyright: f_dri_copyright->0,
                    dri_counterfeit: f_dri_counterfeit->0,
                    facebook: f_facebook->0,
                    facebook_pages_live_shopping: f_facebook_pages_live_shopping->0,
                    independent_work: f_independent_work->0,
                    instagram: f_instagram->0,
                    instagram_shop: f_instagram_shop->0,
                    job_search: f_job_search->0,
                    lead_gen_honeypot: f_lead_gen_honeypot->0,
                    marketplace: f_marketplace->0,
                    marketplace_home_rentals: f_marketplace_home_rentals->0,
                    marketplace_home_sales: f_marketplace_home_sales->0,
                    marketplace_motors: f_marketplace_motors->0,
                    marketplace_shops: f_marketplace_shops->0,
                    neighborhoods: f_neighborhoods->0,
                    page_admin: f_page_admin->0,
                    product: f_product->0,
                    product_service: f_product_service->0,
                    profile: f_profile->0,
                    seller: f_seller->0,
                    shops: f_shops->0,
                    traffic_quality: f_traffic_quality->0,
                    unified_commerce_content: f_unified_commerce_content->0,
                    whatsapp: f_whatsapp->0,
                })
            } else {
                None
            }
        },
        _ => None,
    }
}

pub fn decode_adgroup_placement_specific_review_feedback(j: &Json) -> (r: Option<AdgroupPlacementSpecificReviewFeedback>)
    ensures
        match r {
            Some(x) => spec_dec_adgroup_placement_specific_review_feedback(jview(*j)) == Some(x@),
            None => spec_dec_adgroup_placement_specific_review_feedback(jview(*j)) is None,
        },
{
    let ms = match j {
        Json::Obj(ms) => ms,
        _ => {
            return None;
        },
    };
    let f_account_admin = get_str_map_fld(ms, "account_admin");
    let f_ad = get_str_map_fld(ms, "ad");
    let f_ads_conversion_experiences = get_str_map_fld(ms, "ads_conversion_experiences");
    let f_b2c = get_str_map_fld(ms, "b2c");
    let f_b2c_commerce_unified = get_str_map_fld(ms, "b2c_commerce_unified");
    let f_bsg = get_str_map_fld(ms, "bsg");
    let f_city_community = get_str_map_fld(ms, "city_community");
    let f_commerce = get_str_map_fld(ms, "commerce");
    let f_compromise = get_str_map_fld(ms, "compromise");
    let f_daily_deals = get_str_map_fld(ms, "daily_deals");
    let f_daily_deals_legacy = get_str_map_fld(ms, "daily_deals_legacy");
    let f_dpa = get_str_map_fld(ms, "dpa");
    let f_dri_copyright = get_str_map_fld(ms, "dri_copyright");
    let f_dri_counterfeit = get_str_map_fld(ms, "dri_counterfeit");
    let f_facebook = get_str_map_fld(ms, "facebook");
    let f_facebook_pages_live_shopping = get_str_map_fld(ms, "facebook_pages_live_shopping");
    let f_independent_work = get_str_map_fld(ms, "independent_work");
    let f_instagram = get_str_map_fld(ms, "instagram");
    let f_instagram_shop = get_str_map_fld(ms, "instagram_shop");
    let f_job_search = get_str_map_fld(ms, "job_search");
    let f_lead_gen_honeypot = get_str_map_fld(ms, "lead_gen_honeypot");
    let f_marketplace = get_str_map_fld(ms, "marketplace");
    let f_marketplace_home_rentals = get_str_map_fld(ms, "marketplace_home_rentals");
    let f_marketplace_home_sales = get_str_map_fld(ms, "marketplace_home_sales");
    let f_marketplace_motors = get_str_map_fld(ms, "marketplace_motors");
    let f_marketplace_shops = get_str_map_fld(ms, "marketplace_shops");
    let f_neighborhoods = get_str_map_fld(ms, "neighborhoods");
    let f_page_admin = get_str_map_fld(ms, "page_admin");
    let f_product = get_str_map_fld(ms, "product");
    let f_product_service = get_str_map_fld(ms, "product_service");
    let f_profile = get_str_map_fld(ms, "profile");
    let f_seller = get_str_map_fld(ms, "seller");
    let f_shops = get_str_map_fld(ms, "shops");
    let f_traffic_quality = get_str_map_fld(ms, "traffic_quality");
    let f_unified_commerce_content = get_str_map_fld(ms, "unified_commerce_content");
    let f_whatsapp = get_str_map_fld(ms, "whatsapp");
    if f_account_admin.is_none() || f_ad.is_none() || f_ads_conversion_experiences.is_none() || f_b2c.is_none() || f_b2c_commerce_unified.is_none() || f_bsg.is_none() || f_city_community.is_none() || f_commerce.is_none() || f_compromise.is_none() || f_daily_deals.is_none() || f_daily_deals_legacy.is_none() || f_dpa.is_none() || f_dri_copyright.is_none() || f_dri_counterfeit.is_none() || f_facebook.is_none() || f_facebook_pages_live_shopping.is_none() || f_independent_work.is_none() || f_instagram.is_none() || f_instagram_shop.is_none() || f_job_search.is_none() || f_lead_gen_honeypot.is_none() || f_marketplace.is_none() || f_marketplace_home_rentals.is_none() || f_marketplace_home_sales.is_none() || f_marketplace_motors.is_none() || f_marketplace_shops.is_none() || f_neighborhoods.is_none() || f_page_admin.is_none() || f_product.is_none() || f_product_service.is_none() || f_profile.is_none() || f_seller.is_none() || f_shops.is_none() || f_traffic_quality.is_none() || f_unified_commerce_content.is_none() || f_whatsapp.is_none() {
        return None;
    }
    let account_admin = f_account_admin.unwrap();
    let ad = f_ad.unwrap();
    let ads_conversion_experiences = f_ads_conversion_experiences.unwrap();
    let b2c = f_b2c.unwrap();
    let b2c_commerce_unified = f_b2c_commerce_unified.unwrap();
    let bsg = f_bsg.unwrap();
    let city_community = f_city_community.unwrap();
    let commerce = f_commerce.unwrap();
    let compromise = f_compromise.unwrap();
    let daily_deals = f_daily_deals.unwrap();
    let daily_deals_legacy = f_daily_deals_legacy.unwrap();
    let dpa = f_dpa.unwrap();
    let dri_copyright = f_dri_copyright.unwrap();
    let dri_counterfeit = f_dri_counterfeit.unwrap();
    let facebook = f_facebook.unwrap();
    let facebook_pages_live_shopping = f_facebook_pages_live_shopping.unwrap();
    let independent_work = f_independent_work.unwrap();
    let instagram = f_instagram.unwrap();
    let instagram_shop = f_instagram_shop.unwrap();
    let job_search = f_job_search.unwrap();
    let lead_gen_honeypot = f_lead_gen_honeypot.unwrap();
    let marketplace = f_marketplace.unwrap();
    let marketplace_home_rentals = f_marketplace_home_rentals.unwrap();
    let marketplace_home_sales = f_marketplace_home_sales.unwrap();
    let marketplace_motors = f_marketplace_motors.unwrap();
    let marketplace_shops = f_marketplace_shops.unwrap();
    let neighborhoods = f_neighborhoods.unwrap();
    let page_admin = f_page_admin.unwrap();
    let product = f_product.unwrap();
    let product_service = f_product_service.unwrap();
    let profile = f_profile.unwrap();
    let seller = f_seller.unwrap();
    let shops = f_shops.unwrap();
    let traffic_quality = f_traffic_quality.unwrap();
    let unified_commerce_content = f_unified_commerce_content.unwrap();
    let whatsapp = f_whatsapp.unwrap();
    Some(AdgroupPlacementSpecificReviewFeedback { account_admin, ad, ads_conversion_experiences, b2c, b2c_commerce_unified, bsg, city_community, commerce, compromise, daily_deals, daily_deals_legacy, dpa, dri_copyright, dri_counterfeit, facebook, facebook_pages_live_shopping, independent_work, instagram, instagram_shop, job_search, lead_gen_honeypot, marketplace, marketplace_home_rentals, marketplace_home_sales, marketplace_motors, marketplace_shops, neighborhoods, page_admin, product, product_service, profile, seller, shops, traffic_quality, unified_commerce_content, whatsapp })
}

pub open spec fn spec_dec_adgroup_review_feedback(v: JsonV) -> Option<AdgroupReviewFeedbackV>
{
    match v {
        JsonV::Obj(ms) => {
            let f_global_feedback: Option<Option<Seq<(Seq<char>, Seq<char>)>>> = fld_str_map(ms, "global"@);
            let f_placement_specific: Option<Option<AdgroupPlacementSpecificReviewFeedbackV>> = match obj_lookup(ms, "placement_specific"@) {
                None => Some(None),
                Some(x) => if x is Null {
                    Some(None)
                } else {
                    match spec_dec_adgroup_placement_specific_review_feedback(x) {
                        Some(r) => Some(Some(r)),
                        None => None,
                    }
                },
            };
            if f_global_feedback is Some && f_placement_specific is Some {
                Some(AdgroupReviewFeedbackV {
                    global_feedback: f_global_feedback->0,
                    placement_specific: f_placement_specific->0,
                })
            } else {
                None
            }
        },
        _ => None,
    }
}

pub fn decode_adgroup_review_feedback(j: &Json) -> (r: Option<AdgroupReviewFeedback>)
    ensures
        match r {
            Some(x) => spec_dec_adgroup_review_feedback(jview(*j)) == Some(x@),
            None => spec_dec_adgroup_review_feedback(jview(*j)) is None,
        },
{
    let ms = match j {
        Json::Obj(ms) => ms,
        _ => {
            return None;
        },
    };
    let f_global_feedback = get_str_map_fld(ms, "global");
    let f_placement_specific: Option<Option<AdgroupPlacementSpecificReviewFeedback>> = match obj_get(ms, "placement_specific") {
        None => Some(None),
        Some(x) => match x {
            Json::Null => Some(None),
            _ => {
                match decode_adgroup_placement_specific_review_feedback(x) {
                    Some(r) => Some(Some(r)),
                    None => None,
                }
            },
        },
    };
    if f_global_feedback.is_none() || f_placement_specific.is_none() {
        return None;
    }
    let global_feedback = f_global_feedback.unwrap();
    let placement_specific = f_placement_specific.unwrap();
    Some(AdgroupReviewFeedback { global_feedback, placement_specific })
}

pub open spec fn spec_dec_ad(v: JsonV) -> Option<AdV>
    decreases v,
    via spec_dec_ad_dec
{
    match v {
        JsonV::Obj(ms) => {
            let f_id: Option<Option<Seq<char>>> = fld_str(ms, "id"@);
            let f_account_id: Option<Option<Seq<char>>> = fld_str(ms, "account_id"@);
            let f_ad_active_time: Option<Option<Seq<char>>> = fld_str(ms, "ad_active_time"@);
            let f_ad_review_feedback: Option<Option<AdgroupReviewFeedbackV>> = match obj_lookup(ms, "ad_review_feedback"@) {
                None => Some(None),
                Some(x) => if x is Null {
                    Some(None)
                } else {
                    match spec_dec_adgroup_review_feedback(x) {
                        Some(r) => Some(Some(r)),
                        None => None,
                    }
                },
            };
            let f_ad_schedule_end_time: Option<Option<Seq<char>>> = fld_str(ms, "ad_schedule_end_time"@);
            let f_ad_schedule_start_time: Option<Option<Seq<char>>> = fld_str(ms, "ad_schedule_start_time"@);
            let f_adlabels: Option<Option<Seq<AdLabelV>>> = match obj_lookup(ms, "adlabels"@) {
                None => Some(None),
                Some(x) => match x {
                    JsonV::Null => Some(None),
                    JsonV::Arr(items) => match spec_dec_ad_label_list(items) {
                        Some(r) => Some(Some(r)),
                        None => None,
                    },
                    _ => None,
                },
            };
            let f_adset: Option<Option<AdSetV>> = match obj_lookup(ms, "adset"@) {
                None => Some(None),
                Some(x) => if x is Null {
                    Some(None)
                } else {
                    match spec_dec_ad_set(x) {
                        Some(r) => Some(Some(r)),
                        None => None,
                    }
                },
            };
            let f_adset_id: Option<Option<Seq<char>>> = fld_str(ms, "adset_id"@);
            let f_bid_amount: Option<Option<i32>> = fld_i32(ms, "bid_amount"@);
            let f_campaign: Option<Option<CampaignV>> = match obj_lookup(ms, "campaign"@) {
                None => Some(None),
                Some(x) => if x is Null {
                    Some(None)
                } else {
                    match spec_dec_campaign(x) {
                        Some(r) => Some(Some(r)),
                        None => None,
                    }
                },
            };
            let f_campaign_id: Option<Option<Seq<char>>> = fld_str(ms, "campaign_id"@);
            let f_configured_status: Option<Option<Seq<char>>> = fld_str(ms, "configured_status"@);
            let f_conversion_domain: Option<Option<Seq<char>>> = fld_str(ms, "conversion_domain"@);
            let f_created_time: Option<Option<Seq<char>>> = fld_str(ms, "created_time"@);
            let f_effective_status: Option<Option<Seq<char>>> = fld_str(ms, "effective_status"@);
            let f_issues_info: Option<Option<Seq<AdgroupIssuesInfoV>>> = match obj_lookup(ms, "issues_info"@) {
                None => Some(None),
                Some(x) => match x {
                    JsonV::Null => Some(None),
                    JsonV::Arr(items) => match spec_dec_adgroup_issues_info_list(items) {
                        Some(r) => Some(Some(r)),
                        None => None,
                    },
                    _ => None,
                },
            };
            let f_last_updated_by_app_id: Option<Option<Seq<char>>> = fld_str(ms, "last_updated_by_app_id"@);
            let f_name: Option<Option<Seq<char>>> = fld_str(ms, "name"@);
            let f_preview_shareable_link: Option<Option<Seq<char>>> = fld_str(ms, "preview_shareable_link"@);
            let f_recommendations: Option<Option<Seq<AdRecommendationV>>> = match obj_lookup(ms, "recommendations"@) {
                None => Some(None),
                Some(x) => match x {
                    JsonV::Null => Some(None),
                    JsonV::Arr(items) => match spec_dec_ad_recommendation_list(items) {
                        Some(r) => Some(Some(r)),
                        None => None,
                    },
                    _ => None,
                },
            };
            let f_source_ad: Option<Option<Box<AdV>>> = match obj_lookup(ms, "source_ad"@) {
                None => Some(None),
                Some(x) => if x is Null {
                    Some(None)
                } else {
                    match spec_dec_ad(x) {
                        Some(r) => Some(Some(Box::new(r))),
                        None => None,
                    }
                },
            };
            let f_source_ad_id: Option<Option<Seq<char>>> = fld_str(ms, "source_ad_id"@);
            let f_status: Option<Option<Seq<char>>> = fld_str(ms, "status"@);
            let f_tracking_specs: Option<Option<Seq<ConversionActionQueryV>>> = match obj_lookup(ms, "tracking_specs"@) {
                None => Some(None),
                Some(x) => match x {
                    JsonV::Null => Some(None),
                    JsonV::Arr(items) => match spec_dec_conversion_action_query_list(items) {
                        Some(r) => Some(Some(r)),
                        None => None,
                    },
                    _ => None,
                },
            };
            let f_updated_time: Option<Option<Seq<char>>> = fld_str(ms, "updated_time"@);
            if f_id is Some && f_account_id is Some && f_ad_active_time is Some && f_ad_review_feedback is Some && f_ad_schedule_end_time is Some && f_ad_schedule_start_time is Some && f_adlabels is Some && f_adset is Some && f_adset_id is Some && f_bid_amount is Some && f_campaign is Some && f_campaign_id is Some && f_configured_status is Some && f_conversion_domain is Some && f_created_time is Some && f_effective_status is Some && f_issues_info is Some && f_last_updated_by_app_id is Some && f_name is Some && f_preview_shareable_link is Some && f_recommendations is Some && f_source_ad is Some && f_source_ad_id is Some && f_status is Some && f_tracking_specs is Some && f_updated_time is Some {
                Some(AdV {
                    id: f_id->0,
                    account_id: f_account_id->0,
                    ad_active_time: f_ad_active_time->0,
                    ad_review_feedback: f_ad_review_feedback->0,
                    ad_schedule_end_time: f_ad_schedule_end_time->0,
                    ad_schedule_start_time: f_ad_schedule_start_time->0,
                    adlabels: f_adlabels->0,
                    adset: f_adset->0,
                    adset_id: f_adset_id->0,
                    bid_amount: f_bid_amount->0,
                    campaign: f_campaign->0,
                    campaign_id: f_campaign_id->0,
                    configured_status: f_configured_status->0,
                    conversion_domain: f_conversion_domain->0,
                    created_time: f_created_time->0,
                    effective_status: f_effective_status->0,
                    issues_info: f_issues_info->0,
                    last_updated_by_app_id: f_last_updated_by_app_id->0,
                    name: f_name->0,
                    preview_shareable_link: f_preview_shareable_link->0,
                    recommendations: f_recommendations->0,
                    source_ad: f_source_ad->0,
                    source_ad_id: f_source_ad_id->0,
                    status: f_status->0,
                    tracking_specs: f_tracking_specs->0,
                    updated_time: f_updated_time->0,
                })
            } else {
                None
            }
        },
        _ => None,
    }
}

#[via_fn]
proof fn spec_dec_ad_dec(v: JsonV) {
    lemma_lookup_descends(v);
}

#[verifier::rlimit(100)]
pub fn decode_ad(j: &Json) -> (r: Option<Ad>)
    ensures
        match r {
            Some(x) => spec_dec_ad(jview(*j)) == Some(x@),
            None => spec_dec_ad(jview(*j)) is None,
        },
    decreases *j,
{
    let ms = match j {
        Json::Obj(ms) => ms,
        _ => {
            return None;
        },
    };
    let f_id = get_str_fld(ms, "id");
    let f_account_id = get_str_fld(ms, "account_id");
    let f_ad_active_time = get_str_fld(ms, "ad_active_time");
    let f_ad_review_feedback: Option<Option<AdgroupReviewFeedback>> = match obj_get(ms, "ad_review_feedback") {
        None => Some(None),
        Some(x) => match x {
            Json::Null => Some(None),
            _ => {
                match decode_adgroup_review_feedback(x) {
                    Some(r) => Some(Some(r)),
                    None => None,
                }
            },
        },
    };
    let f_ad_schedule_end_time = get_str_fld(ms, "ad_schedule_end_time");
    let f_ad_schedule_start_time = get_str_fld(ms, "ad_schedule_start_time");
    let f_adlabels: Option<Option<Vec<AdLabel>>> = match obj_get(ms, "adlabels") {
        None => Some(None),
        Some(x) => match x {
            Json::Null => Some(None),
            Json::Arr(items) => {
                proof {
                    assert(views_of(items@).subrange(0, items@.len() as int) =~= views_of(
                        items@,
                    ));
                }
                match decode_ad_label_list(items, 0) {
                    Some(r) => Some(Some(r)),
                    None => None,
                }
            },
            _ => None,
        },
    };
    let f_adset: Option<Option<AdSet>> = match obj_get(ms, "adset") {
        None => Some(None),
        Some(x) => match x {
            Json::Null => Some(None),
            _ => {
                match decode_ad_set(x) {
                    Some(r) => Some(Some(r)),
                    None => None,
                }
            },
        },
    };
    let f_adset_id = get_str_fld(ms, "adset_id");
    let f_bid_amount = get_i32_fld(ms, "bid_amount");
    let f_campaign: Option<Option<Campaign>> = match obj_get(ms, "campaign") {
        None => Some(None),
        Some(x) => match x {
            Json::Null => Some(None),
            _ => {
                match decode_campaign(x) {
                    Some(r) => Some(Some(r)),
                    None => None,
                }
            },
        },
    };
    let f_campaign_id = get_str_fld(ms, "campaign_id");
    let f_configured_status = get_str_fld(ms, "configured_status");
    let f_conversion_domain = get_str_fld(ms, "conversion_domain");
    let f_created_time = get_str_fld(ms, "created_time");
    let f_effective_status = get_str_fld(ms, "effective_status");
    let f_issues_info: Option<Option<Vec<AdgroupIssuesInfo>>> = match obj_get(ms, "issues_info") {
        None => Some(None),
        Some(x) => match x {
            Json::Null => Some(None),
            Json::Arr(items) => {
                proof {
                    assert(views_of(items@).subrange(0, items@.len() as int) =~= views_of(
                        items@,
                    ));
                }
                match decode_adgroup_issues_info_list(items, 0) {
                    Some(r) => Some(Some(r)),
                    None => None,
                }
            },
            _ => None,
        },
    };
    let f_last_updated_by_app_id = get_str_fld(ms, "last_updated_by_app_id");
    let f_name = get_str_fld(ms, "name");
    let f_preview_shareable_link = get_str_fld(ms, "preview_shareable_link");
    let f_recommendations: Option<Option<Vec<AdRecommendation>>> = match obj_get(ms, "recommendations") {
        None => Some(None),
        Some(x) => match x {
            Json::Null => Some(None),
            Json::Arr(items) => {
                proof {
                    assert(views_of(items@).subrange(0, items@.len() as int) =~= views_of(
                        items@,
                    ));
                }
                match decode_ad_recommendation_list(items, 0) {
                    Some(r) => Some(Some(r)),
                    None => None,
                }
            },
            _ => None,
        },
    };
    let f_source_ad: Option<Option<Box<Ad>>> = match obj_get(ms, "source_ad") {
        None => Some(None),
        Some(x) => match x {
            Json::Null => Some(None),
            _ => {
                proof {
                        let q = choose|q: int| 0 <= q < ms@.len() && *x == ms@[q].1;
                        assert(decreases_to!(*j => j->Obj_0));
                        assert(decreases_to!(*ms => ms@));
                        assert(decreases_to!(ms@ => ms@[q]));
                        assert(decreases_to!(ms@[q] => ms@[q].1));
                        assert(decreases_to!(*j => *x));
                    }
                    match decode_ad(x) {
                    Some(r) => Some(Some(Box::new(r))),
                    None => None,
                }
            },
        },
    };
    let f_source_ad_id = get_str_fld(ms, "source_ad_id");
    let f_status = get_str_fld(ms, "status");
    let f_tracking_specs: Option<Option<Vec<ConversionActionQuery>>> = match obj_get(ms, "tracking_specs") {
        None => Some(None),
        Some(x) => match x {
            Json::Null => Some(None),
            Json::Arr(items) => {
                proof {
                    assert(views_of(items@).subrange(0, items@.len() as int) =~= views_of(
                        items@,
                    ));
                }
                match decode_conversion_action_query_list(items, 0) {
                    Some(r) => Some(Some(r)),
                    None => None,
                }
            },
            _ => None,
        },
    };
    let f_updated_time = get_str_fld(ms, "updated_time");
    if f_id.is_none() || f_account_id.is_none() || f_ad_active_time.is_none() || f_ad_review_feedback.is_none() || f_ad_schedule_end_time.is_none() || f_ad_schedule_start_time.is_none() || f_adlabels.is_none() || f_adset.is_none() || f_adset_id.is_none() || f_bid_amount.is_none() || f_campaign.is_none() || f_campaign_id.is_none() || f_configured_status.is_none() || f_conversion_domain.is_none() || f_created_time.is_none() || f_effective_status.is_none() || f_issues_info.is_none() || f_last_updated_by_app_id.is_none() || f_name.is_none() || f_preview_shareable_link.is_none() || f_recommendations.is_none() || f_source_ad.is_none() || f_source_ad_id.is_none() || f_status.is_none() || f_tracking_specs.is_none() || f_updated_time.is_none() {
        return None;
    }
    let id = f_id.unwrap();
    let account_id = f_account_id.unwrap();
    let ad_active_time = f_ad_active_time.unwrap();
    let ad_review_feedback = f_ad_review_feedback.unwrap();
    let ad_schedule_end_time = f_ad_schedule_end_time.unwrap();
    let ad_schedule_start_time = f_ad_schedule_start_time.unwrap();
    let adlabels = f_adlabels.unwrap();
    let adset = f_adset.unwrap();
    let adset_id = f_adset_id.unwrap();
    let bid_amount = f_bid_amount.unwrap();
    let campaign = f_campaign.unwrap();
    let campaign_id = f_campaign_id.unwrap();
    let configured_status = f_configured_status.unwrap();
    let conversion_domain = f_conversion_domain.unwrap();
    let created_time = f_created_time.unwrap();
    let effective_status = f_effective_status.unwrap();
    let issues_info = f_issues_info.unwrap();
    let last_updated_by_app_id = f_last_updated_by_app_id.unwrap();
    let name = f_name.unwrap();
    let preview_shareable_link = f_preview_shareable_link.unwrap();
    let recommendations = f_recommendations.unwrap();
    let source_ad = f_source_ad.unwrap();
    let source_ad_id = f_source_ad_id.unwrap();
    let status = f_status.unwrap();
    let tracking_specs = f_tracking_specs.unwrap();
    let updated_time = f_updated_time.unwrap();
    Some(Ad { id, account_id, ad_active_time, ad_review_feedback, ad_schedule_end_time, ad_schedule_start_time, adlabels, adset, adset_id, bid_amount, campaign, campaign_id, configured_status, conversion_domain, created_time, effective_status, issues_info, last_updated_by_app_id, name, preview_shareable_link, recommendations, source_ad, source_ad_id, status, tracking_specs, updated_time })
}

} // verus!
