//! What comes in from sponsors and callers: the rules that a request has
//! to meet, and the records that are made of a request that meets them.

use crate::error::{ApiError, ApiErrorView, ApiResult, STATUS_BAD_REQUEST, STATUS_NOT_FOUND};
use crate::outside::{
    fresh_id, header_name_parses, header_value_parses, is_absolute_url, is_header_name,
    is_header_value, now_micros, to_uppercase, uppercased, url_parses, uuid_hyphenated, uuid_text,
};
use crate::text::{
    is_blank, joined, str_eq, strip_end_slashes, trim, trim_end_slashes, trimmed,
};
use crate::types::{
    opt_text, text_pairs, texts, Campaign, CampaignView, CreateCampaignRequest,
    CreateSponsoredApiRequest, CreateUserRequest, CreatorEvent, CreatorMetricEventRequest,
    SponsoredApi, SponsoredApiView, TaskCompletion, TaskCompletionRequest, TaskCompletionView,
    UserProfile, UserProfileView, DEFAULT_PRICE_CENTS, SPONSORED_API_SERVICE_PREFIX,
};
use vstd::prelude::*;
use vstd::string::*;
use vstd::utf8::encode_utf8;

verus! {

/// Whether a text holds nothing but white space.
pub open spec fn blank(s: Seq<char>) -> bool {
    trimmed(s).len() == 0
}

/// The failure that tells a client what is wrong with its request.
pub open spec fn invalid(message: Seq<char>) -> ApiErrorView {
    ApiErrorView::Http { status: STATUS_BAD_REQUEST, code: "validation_error"@, message }
}

/// The failure that tells a client what its request refers to in vain.
pub open spec fn missing(message: Seq<char>) -> ApiErrorView {
    ApiErrorView::Http { status: STATUS_NOT_FOUND, code: "not_found"@, message }
}

/// Whether the flag at `i` is there and set.
pub open spec fn is_set(flags: Seq<bool>, i: int) -> bool {
    0 <= i < flags.len() && flags[i]
}

/// Whether `i` is the first of the indexes below `n` whose flag is not
/// set.
pub open spec fn is_first_unset(flags: Seq<bool>, n: int, i: int) -> bool {
    &&& 0 <= i < n
    &&& !is_set(flags, i)
    &&& forall|k: int| 0 <= k < i ==> #[trigger] is_set(flags, k)
}

/// For each of the texts, whether it is an absolute URL.
pub open spec fn absolute_flags(urls: Seq<Seq<char>>) -> Seq<bool> {
    Seq::new(urls.len(), |i: int| is_absolute_url(urls[i]))
}

/// Whether a header can be sent: its name is a header name and its value
/// a header value.
pub open spec fn header_ok(header: (Seq<char>, Seq<char>)) -> bool {
    is_header_name(encode_utf8(header.0)) && is_header_value(encode_utf8(header.1))
}

/// Whether `i` is the first index of a header that cannot be sent.
pub open spec fn is_first_bad_header(headers: Seq<(Seq<char>, Seq<char>)>, i: int) -> bool {
    &&& 0 <= i < headers.len()
    &&& !header_ok(headers[i])
    &&& forall|k: int| 0 <= k < i ==> header_ok(#[trigger] headers[k])
}

/// What is wrong with a header that cannot be sent: its name, or else its
/// value.
pub open spec fn header_error(header: (Seq<char>, Seq<char>)) -> ApiErrorView {
    if !is_header_name(encode_utf8(header.0)) {
        invalid("invalid upstream header: "@ + header.0)
    } else {
        invalid("invalid upstream header value for: "@ + header.0)
    }
}

/// What is wrong with a request for a profile, if anything: the first of
/// a blank email and a blank region.
pub open spec fn user_request_error(request: CreateUserRequest) -> Option<ApiErrorView> {
    if blank(request.email@) {
        Some(invalid("email is required"@))
    } else if blank(request.region@) {
        Some(invalid("region is required"@))
    } else {
        None
    }
}

/// The profile made of a request.
pub open spec fn profile_from(
    request: CreateUserRequest,
    id: u128,
    created_at: i64,
) -> UserProfileView {
    UserProfileView {
        id,
        email: request.email@,
        region: request.region@,
        roles: texts(request.roles@),
        tools_used: texts(request.tools_used@),
        attributes: text_pairs(request.attributes@),
        created_at,
    }
}

/// What is wrong with a request for a campaign, if anything, given for
/// each of its query URLs whether it is an absolute URL: the first of a
/// blank name, a blank sponsor, a blank task, a subsidy of zero, a budget
/// of zero, and a query URL that is not absolute.
pub open spec fn campaign_rejection(request: CreateCampaignRequest, absolute: Seq<bool>) -> Option<
    ApiErrorView,
> {
    let urls = texts(request.query_urls@);
    if blank(request.name@) {
        Some(invalid("name is required"@))
    } else if blank(request.sponsor@) {
        Some(invalid("sponsor is required"@))
    } else if blank(request.required_task@) {
        Some(invalid("required_task is required"@))
    } else if request.subsidy_per_call_cents == 0 {
        Some(invalid("subsidy_per_call_cents must be greater than 0"@))
    } else if request.budget_cents == 0 {
        Some(invalid("budget_cents must be greater than 0"@))
    } else if exists|i: int| is_first_unset(absolute, urls.len() as int, i) {
        Some(
            invalid(
                "invalid query URL: "@ + urls[choose|i: int|
                    is_first_unset(absolute, urls.len() as int, i)],
            ),
        )
    } else {
        None
    }
}

/// What is wrong with a request for a campaign, if anything.
pub open spec fn campaign_request_error(request: CreateCampaignRequest) -> Option<ApiErrorView> {
    campaign_rejection(request, absolute_flags(texts(request.query_urls@)))
}

/// The campaign made of a request: all of its budget remains, and it is
/// active.
pub open spec fn campaign_from(
    request: CreateCampaignRequest,
    id: u128,
    created_at: i64,
) -> CampaignView {
    CampaignView {
        id,
        name: request.name@,
        sponsor: request.sponsor@,
        target_roles: texts(request.target_roles@),
        target_tools: texts(request.target_tools@),
        required_task: request.required_task@,
        subsidy_per_call_cents: request.subsidy_per_call_cents,
        budget_total_cents: request.budget_cents,
        budget_remaining_cents: request.budget_cents,
        query_urls: texts(request.query_urls@),
        active: true,
        created_at,
    }
}

/// The method of an upstream as it is stored: `GET` or `POST`, from a
/// text that says so in any case and with any white space around it;
/// `POST` where nothing is said. Any other text is refused.
pub open spec fn normalized_method(method: Option<Seq<char>>) -> Result<Seq<char>, ApiErrorView> {
    accepted_method(method_in_upper_case(method))
}

/// The method, where it is `GET` or `POST`.
pub open spec fn accepted_method(normalized: Seq<char>) -> Result<Seq<char>, ApiErrorView> {
    if normalized == "GET"@ || normalized == "POST"@ {
        Ok(normalized)
    } else {
        Err(invalid("upstream_method must be GET or POST"@))
    }
}

/// The price of a call through a sponsored API: what the request names,
/// or the default price.
pub open spec fn api_price(request: CreateSponsoredApiRequest) -> u64 {
    match request.price_cents {
        Some(p) => p,
        None => DEFAULT_PRICE_CENTS,
    }
}

/// The method that a request for a sponsored API names, trimmed and in
/// upper case; `POST` where it names none.
pub open spec fn method_in_upper_case(method: Option<Seq<char>>) -> Seq<char> {
    uppercased(
        trimmed(
            match method {
                Some(m) => m,
                None => "POST"@,
            },
        ),
    )
}

/// What is wrong with a request for a sponsored API, if anything, given
/// its method in upper case and whether its upstream URL is absolute: the
/// first of a blank name, a blank sponsor, a budget of zero, a price of
/// zero, a method other than `GET` and `POST`, an upstream URL that is
/// not absolute, and a header that cannot be sent.
pub open spec fn api_rejection(
    request: CreateSponsoredApiRequest,
    normalized: Seq<char>,
    url_is_absolute: bool,
) -> Option<ApiErrorView> {
    if blank(request.name@) {
        Some(invalid("name is required"@))
    } else if blank(request.sponsor@) {
        Some(invalid("sponsor is required"@))
    } else if request.budget_cents == 0 {
        Some(invalid("budget_cents must be greater than 0"@))
    } else if api_price(request) == 0 {
        Some(invalid("price_cents must be greater than 0"@))
    } else if accepted_method(normalized) is Err {
        Some(accepted_method(normalized)->Err_0)
    } else if !url_is_absolute {
        Some(invalid("upstream_url must be a valid URL"@))
    } else if exists|i: int| is_first_bad_header(text_pairs(request.upstream_headers@), i) {
        Some(
            header_error(
                text_pairs(request.upstream_headers@)[choose|i: int|
                    is_first_bad_header(text_pairs(request.upstream_headers@), i)],
            ),
        )
    } else {
        None
    }
}

/// What is wrong with a request for a sponsored API, if anything.
pub open spec fn api_request_error(request: CreateSponsoredApiRequest) -> Option<ApiErrorView> {
    api_rejection(
        request,
        method_in_upper_case(opt_text(request.upstream_method)),
        is_absolute_url(trimmed(request.upstream_url@)),
    )
}

/// The key under which a sponsored API is priced and paid.
pub open spec fn service_key(api_id: u128) -> Seq<char> {
    SPONSORED_API_SERVICE_PREFIX@ + "-"@ + uuid_hyphenated(api_id)
}

/// The sponsored API made of a request: all of its budget remains, and it
/// is active.
pub open spec fn api_from(
    request: CreateSponsoredApiRequest,
    id: u128,
    created_at: i64,
) -> SponsoredApiView {
    SponsoredApiView {
        id,
        name: request.name@,
        sponsor: request.sponsor@,
        description: opt_text(request.description),
        upstream_url: request.upstream_url@,
        upstream_method: normalized_method(opt_text(request.upstream_method))->Ok_0,
        upstream_headers: text_pairs(request.upstream_headers@),
        price_cents: api_price(request),
        budget_total_cents: request.budget_cents,
        budget_remaining_cents: request.budget_cents,
        active: true,
        service_key: service_key(id),
        created_at,
    }
}

/// The outcome of a report that a task is done: the evidence, or the
/// failure where the campaign or the caller is unknown.
pub open spec fn completion_outcome(
    request: TaskCompletionRequest,
    campaign_exists: bool,
    user_exists: bool,
    id: u128,
    created_at: i64,
) -> Result<TaskCompletionView, ApiErrorView> {
    if !campaign_exists {
        Err(missing("campaign not found"@))
    } else if !user_exists {
        Err(missing("user not found"@))
    } else {
        Ok(
            TaskCompletionView {
                id,
                campaign_id: request.campaign_id,
                user_id: request.user_id,
                task_name: request.task_name@,
                details: opt_text(request.details),
                created_at,
            },
        )
    }
}

fn invalid_request(message: &str) -> (e: ApiError)
    ensures
        e@ == invalid(message@),
{
    ApiError::validation(message)
}

/// Checks a request for a profile.
pub fn validate_user_request(request: &CreateUserRequest) -> (r: ApiResult<()>)
    ensures
        match user_request_error(*request) {
            Some(e) => r is Err && r->Err_0@ == e,
            None => r is Ok,
        },
{
    if is_blank(request.email.as_str()) {
        return Err(invalid_request("email is required"));
    }
    if is_blank(request.region.as_str()) {
        return Err(invalid_request("region is required"));
    }
    Ok(())
}

/// The profile made of a request, under the given identifier and instant.
pub fn new_profile(request: CreateUserRequest, id: u128, created_at: i64) -> (profile: UserProfile)
    ensures
        profile@ == profile_from(request, id, created_at),
{
    UserProfile {
        id,
        email: request.email,
        region: request.region,
        roles: request.roles,
        tools_used: request.tools_used,
        attributes: request.attributes,
        created_at,
    }
}

/// Makes a profile of a request that meets the rules, under a fresh
/// identifier and with the time of the clock.
pub fn create_profile(request: CreateUserRequest) -> (r: ApiResult<UserProfile>)
    ensures
        match user_request_error(request) {
            Some(e) => r is Err && r->Err_0@ == e,
            None => r is Ok && exists|id: u128, created_at: i64|
                r->Ok_0@ == #[trigger] profile_from(request, id, created_at),
        },
{
    match validate_user_request(&request) {
        Err(e) => Err(e),
        Ok(_) => {
            let id: u128 = fresh_id();
            let created_at: i64 = now_micros();
            Ok(new_profile(request, id, created_at))
        },
    }
}

/// The first of the indexes below `n` whose flag is not set, if there is
/// one.
fn first_unset(flags: &Vec<bool>, n: usize) -> (at: Option<usize>)
    ensures
        match at {
            Some(i) => is_first_unset(flags@, n as int, i as int),
            None => forall|k: int| 0 <= k < n ==> #[trigger] is_set(flags@, k),
        },
{
    let mut i: usize = 0;
    while i < n
        invariant
            i <= n,
            forall|k: int| 0 <= k < i ==> #[trigger] is_set(flags@, k),
        decreases n - i,
    {
        if i >= flags.len() || !flags[i] {
            return Some(i);
        }
        i += 1;
    }
    None
}

/// For each of the texts, whether it is an absolute URL.
fn url_flags(urls: &Vec<String>) -> (flags: Vec<bool>)
    ensures
        flags@ == absolute_flags(texts(urls@)),
{
    let mut flags: Vec<bool> = Vec::new();
    let mut i: usize = 0;
    while i < urls.len()
        invariant
            i <= urls.len(),
            flags.len() == i,
            forall|k: int| 0 <= k < i ==> flags[k] == is_absolute_url(texts(urls@)[k]),
        decreases urls.len() - i,
    {
        flags.push(url_parses(urls[i].as_str()));
        i += 1;
    }
    flags
}

/// Checks a request for a campaign, given for each of its query URLs
/// whether it is an absolute URL. A URL without a flag counts as not
/// absolute.
pub fn check_campaign_request(request: &CreateCampaignRequest, absolute: &Vec<bool>) -> (r:
    ApiResult<()>)
    ensures
        match campaign_rejection(*request, absolute@) {
            Some(e) => r is Err && r->Err_0@ == e,
            None => r is Ok,
        },
{
    if is_blank(request.name.as_str()) {
        return Err(invalid_request("name is required"));
    }
    if is_blank(request.sponsor.as_str()) {
        return Err(invalid_request("sponsor is required"));
    }
    if is_blank(request.required_task.as_str()) {
        return Err(invalid_request("required_task is required"));
    }
    if request.subsidy_per_call_cents == 0 {
        return Err(invalid_request("subsidy_per_call_cents must be greater than 0"));
    }
    if request.budget_cents == 0 {
        return Err(invalid_request("budget_cents must be greater than 0"));
    }
    let ghost n = texts(request.query_urls@).len() as int;
    match first_unset(absolute, request.query_urls.len()) {
        Some(i) => {
            proof {
                let c = choose|c: int| is_first_unset(absolute@, n, c);
                if c < i {
                    assert(is_set(absolute@, c));
                } else if i < c {
                    assert(is_set(absolute@, i as int));
                }
            }
            let message = joined("invalid query URL: ", request.query_urls[i].as_str());
            Err(invalid_request(message.as_str()))
        },
        None => {
            proof {
                if exists|c: int| is_first_unset(absolute@, n, c) {
                    let c = choose|c: int| is_first_unset(absolute@, n, c);
                    assert(is_set(absolute@, c));
                }
            }
            Ok(())
        },
    }
}

/// Checks a request for a campaign.
pub fn validate_campaign_request(request: &CreateCampaignRequest) -> (r: ApiResult<()>)
    ensures
        match campaign_request_error(*request) {
            Some(e) => r is Err && r->Err_0@ == e,
            None => r is Ok,
        },
{
    let absolute = url_flags(&request.query_urls);
    check_campaign_request(request, &absolute)
}

/// The campaign made of a request, under the given identifier and
/// instant. All of its budget remains, and it is active.
pub fn new_campaign(request: CreateCampaignRequest, id: u128, created_at: i64) -> (campaign:
    Campaign)
    ensures
        campaign@ == campaign_from(request, id, created_at),
        campaign@.wf(),
{
    Campaign {
        id,
        name: request.name,
        sponsor: request.sponsor,
        target_roles: request.target_roles,
        target_tools: request.target_tools,
        required_task: request.required_task,
        subsidy_per_call_cents: request.subsidy_per_call_cents,
        budget_total_cents: request.budget_cents,
        budget_remaining_cents: request.budget_cents,
        query_urls: request.query_urls,
        active: true,
        created_at,
    }
}

/// Makes a campaign of a request that meets the rules, under a fresh
/// identifier and with the time of the clock.
pub fn create_campaign(request: CreateCampaignRequest) -> (r: ApiResult<Campaign>)
    ensures
        match campaign_request_error(request) {
            Some(e) => r is Err && r->Err_0@ == e,
            None => r is Ok && r->Ok_0@.wf() && exists|id: u128, created_at: i64|
                r->Ok_0@ == #[trigger] campaign_from(request, id, created_at),
        },
{
    match validate_campaign_request(&request) {
        Err(e) => Err(e),
        Ok(_) => {
            let id: u128 = fresh_id();
            let created_at: i64 = now_micros();
            Ok(new_campaign(request, id, created_at))
        },
    }
}

/// The answer to a request for a campaign: the campaign and the addresses
/// under which it and its dashboard are found.
#[derive(Debug)]
pub struct CreateCampaignResponse {
    pub campaign: Campaign,
    pub campaign_url: String,
    pub dashboard_url: String,
}

impl CreateCampaignResponse {
    /// The answer that goes with a campaign.
    pub fn new(campaign: Campaign, public_base_url: &str) -> (response: CreateCampaignResponse)
        ensures
            response.campaign == campaign,
            response.campaign_url@ == strip_end_slashes(public_base_url@) + "/campaigns/"@
                + uuid_hyphenated(campaign.id),
            response.dashboard_url@ == strip_end_slashes(public_base_url@)
                + "/dashboard/sponsor/"@ + uuid_hyphenated(campaign.id),
    {
        let links = campaign_links(public_base_url, campaign.id);
        CreateCampaignResponse { campaign, campaign_url: links.0, dashboard_url: links.1 }
    }
}

/// The addresses under which a campaign and its dashboard are found.
pub fn campaign_links(public_base_url: &str, campaign_id: u128) -> (links: (String, String))
    ensures
        links.0@ == strip_end_slashes(public_base_url@) + "/campaigns/"@ + uuid_hyphenated(
            campaign_id,
        ),
        links.1@ == strip_end_slashes(public_base_url@) + "/dashboard/sponsor/"@
            + uuid_hyphenated(campaign_id),
{
    let base = trim_end_slashes(public_base_url);
    let id = uuid_text(campaign_id);
    (
        String::from_str(base).concat("/campaigns/").concat(id.as_str()),
        String::from_str(base).concat("/dashboard/sponsor/").concat(id.as_str()),
    )
}

/// Accepts a method that is already in upper case and trimmed.
pub fn accept_upstream_method(normalized: String) -> (r: ApiResult<String>)
    ensures
        match accepted_method(normalized@) {
            Ok(m) => r is Ok && r->Ok_0@ == m,
            Err(e) => r is Err && r->Err_0@ == e,
        },
{
    if str_eq(normalized.as_str(), "GET") || str_eq(normalized.as_str(), "POST") {
        Ok(normalized)
    } else {
        Err(invalid_request("upstream_method must be GET or POST"))
    }
}

/// The method of an upstream as it is stored: `GET` or `POST`, and `POST`
/// where the request names none.
pub fn normalize_upstream_method(method: Option<String>) -> (r: ApiResult<String>)
    ensures
        match normalized_method(opt_text(method)) {
            Ok(m) => r is Ok && r->Ok_0@ == m,
            Err(e) => r is Err && r->Err_0@ == e,
        },
{
    accept_upstream_method(upper_case_method(&method))
}

/// The method that a request names, trimmed and in upper case; `POST`
/// where it names none.
fn upper_case_method(method: &Option<String>) -> (normalized: String)
    ensures
        normalized@ == method_in_upper_case(opt_text(*method)),
{
    match method {
        Some(m) => to_uppercase(trim(m.as_str())),
        None => to_uppercase(trim("POST")),
    }
}

/// The key under which a sponsored API is priced and paid.
pub fn sponsored_api_service_key(api_id: u128) -> (key: String)
    ensures
        key@ == service_key(api_id),
{
    let id = uuid_text(api_id);
    String::from_str(SPONSORED_API_SERVICE_PREFIX).concat("-").concat(id.as_str())
}

/// The first of `headers` that cannot be sent, if there is one.
fn find_bad_header(headers: &Vec<(String, String)>) -> (at: Option<usize>)
    ensures
        match at {
            Some(i) => is_first_bad_header(text_pairs(headers@), i as int),
            None => forall|k: int|
                0 <= k < headers.len() ==> header_ok(#[trigger] text_pairs(headers@)[k]),
        },
{
    let mut i: usize = 0;
    while i < headers.len()
        invariant
            i <= headers.len(),
            forall|k: int| 0 <= k < i ==> header_ok(#[trigger] text_pairs(headers@)[k]),
        decreases headers.len() - i,
    {
        if !header_name_parses(headers[i].0.as_str()) || !header_value_parses(
            headers[i].1.as_str(),
        ) {
            return Some(i);
        }
        i += 1;
    }
    None
}

/// Checks a request for a sponsored API, given its method in upper case
/// and whether its upstream URL is absolute. Where the request meets the
/// rules, returns the method as it is stored.
pub fn check_sponsored_api_request(
    request: &CreateSponsoredApiRequest,
    normalized: String,
    url_is_absolute: bool,
) -> (r: ApiResult<String>)
    ensures
        match api_rejection(*request, normalized@, url_is_absolute) {
            Some(e) => r is Err && r->Err_0@ == e,
            None => r is Ok && r->Ok_0@ == normalized@,
        },
{
    if is_blank(request.name.as_str()) {
        return Err(invalid_request("name is required"));
    }
    if is_blank(request.sponsor.as_str()) {
        return Err(invalid_request("sponsor is required"));
    }
    if request.budget_cents == 0 {
        return Err(invalid_request("budget_cents must be greater than 0"));
    }
    let price: u64 = match request.price_cents {
        Some(p) => p,
        None => DEFAULT_PRICE_CENTS,
    };
    if price == 0 {
        return Err(invalid_request("price_cents must be greater than 0"));
    }
    let method = match accept_upstream_method(normalized) {
        Ok(m) => m,
        Err(e) => {
            return Err(e);
        },
    };
    if !url_is_absolute {
        return Err(invalid_request("upstream_url must be a valid URL"));
    }
    let ghost headers = text_pairs(request.upstream_headers@);
    match find_bad_header(&request.upstream_headers) {
        Some(i) => {
            proof {
                let c = choose|c: int| is_first_bad_header(headers, c);
                if c < i {
                    assert(header_ok(headers[c]));
                } else if i < c {
                    assert(header_ok(headers[i as int]));
                }
            }
            let name = request.upstream_headers[i].0.as_str();
            if !header_name_parses(name) {
                let message = joined("invalid upstream header: ", name);
                Err(invalid_request(message.as_str()))
            } else {
                let message = joined("invalid upstream header value for: ", name);
                Err(invalid_request(message.as_str()))
            }
        },
        None => {
            proof {
                if exists|c: int| is_first_bad_header(headers, c) {
                    let c = choose|c: int| is_first_bad_header(headers, c);
                    assert(header_ok(headers[c]));
                }
            }
            Ok(method)
        },
    }
}

/// Checks a request for a sponsored API. Where the request meets the
/// rules, returns the method as it is stored.
pub fn validate_sponsored_api_request(request: &CreateSponsoredApiRequest) -> (r: ApiResult<
    String,
>)
    ensures
        match api_request_error(*request) {
            Some(e) => r is Err && r->Err_0@ == e,
            None => r is Ok && Ok::<Seq<char>, ApiErrorView>(r->Ok_0@) == normalized_method(
                opt_text(request.upstream_method),
            ),
        },
{
    let normalized = upper_case_method(&request.upstream_method);
    let url_is_absolute = url_parses(trim(request.upstream_url.as_str()));
    check_sponsored_api_request(request, normalized, url_is_absolute)
}

/// The fee for making a sponsored API, where the configuration asks for
/// one.
pub fn creation_fee(create_price_cents: u64) -> (fee: Option<u64>)
    ensures
        fee == if create_price_cents > 0 {
            Some(create_price_cents)
        } else {
            None::<u64>
        },
{
    if create_price_cents > 0 {
        Some(create_price_cents)
    } else {
        None
    }
}

/// The sponsored API made of a request that meets the rules, under the
/// given identifier and instant. All of its budget remains, and it is
/// active.
pub fn new_sponsored_api(
    request: CreateSponsoredApiRequest,
    method: String,
    id: u128,
    created_at: i64,
) -> (api: SponsoredApi)
    requires
        Ok::<Seq<char>, ApiErrorView>(method@) == normalized_method(
            opt_text(request.upstream_method),
        ),
    ensures
        api@ == api_from(request, id, created_at),
        api@.wf(),
{
    let price: u64 = match request.price_cents {
        Some(p) => p,
        None => DEFAULT_PRICE_CENTS,
    };
    SponsoredApi {
        id,
        name: request.name,
        sponsor: request.sponsor,
        description: request.description,
        upstream_url: request.upstream_url,
        upstream_method: method,
        upstream_headers: request.upstream_headers,
        price_cents: price,
        budget_total_cents: request.budget_cents,
        budget_remaining_cents: request.budget_cents,
        active: true,
        service_key: sponsored_api_service_key(id),
        created_at,
    }
}

/// Makes a sponsored API of a request that meets the rules, under a fresh
/// identifier and with the time of the clock.
pub fn create_sponsored_api(request: CreateSponsoredApiRequest) -> (r: ApiResult<SponsoredApi>)
    ensures
        match api_request_error(request) {
            Some(e) => r is Err && r->Err_0@ == e,
            None => r is Ok && r->Ok_0@.wf() && exists|id: u128, created_at: i64|
                r->Ok_0@ == #[trigger] api_from(request, id, created_at),
        },
{
    match validate_sponsored_api_request(&request) {
        Err(e) => Err(e),
        Ok(method) => {
            let id: u128 = fresh_id();
            let created_at: i64 = now_micros();
            Ok(new_sponsored_api(request, method, id, created_at))
        },
    }
}

/// The evidence made of a report that a task is done, under the given
/// identifier and instant; or the failure where the campaign or the
/// caller is unknown.
pub fn record_completion(
    request: TaskCompletionRequest,
    campaign_exists: bool,
    user_exists: bool,
    id: u128,
    created_at: i64,
) -> (r: ApiResult<TaskCompletion>)
    ensures
        match completion_outcome(request, campaign_exists, user_exists, id, created_at) {
            Ok(c) => r is Ok && r->Ok_0@ == c,
            Err(e) => r is Err && r->Err_0@ == e,
        },
{
    if !campaign_exists {
        return Err(ApiError::not_found("campaign not found"));
    }
    if !user_exists {
        return Err(ApiError::not_found("user not found"));
    }
    Ok(
        TaskCompletion {
            id,
            campaign_id: request.campaign_id,
            user_id: request.user_id,
            task_name: request.task_name,
            details: request.details,
            created_at,
        },
    )
}

/// The evidence made of a report that a task is done, under a fresh
/// identifier and with the time of the clock; or the failure where the
/// campaign or the caller is unknown.
pub fn complete_task(
    request: TaskCompletionRequest,
    campaign_exists: bool,
    user_exists: bool,
) -> (r: ApiResult<TaskCompletion>)
    ensures
        exists|id: u128, created_at: i64|
            match #[trigger] completion_outcome(
                request,
                campaign_exists,
                user_exists,
                id,
                created_at,
            ) {
                Ok(c) => r is Ok && r->Ok_0@ == c,
                Err(e) => r is Err && r->Err_0@ == e,
            },
{
    let id: u128 = fresh_id();
    let created_at: i64 = now_micros();
    let r = record_completion(request, campaign_exists, user_exists, id, created_at);
    assert(match completion_outcome(request, campaign_exists, user_exists, id, created_at) {
        Ok(c) => r is Ok && r->Ok_0@ == c,
        Err(e) => r is Err && r->Err_0@ == e,
    });
    r
}

/// The event made of a report on a creator's skill, under the given
/// identifier and instant.
pub fn new_creator_event(request: CreatorMetricEventRequest, id: u128, created_at: i64) -> (event:
    CreatorEvent)
    ensures
        event.id == id,
        event.skill_name@ == request.skill_name@,
        event.platform@ == request.platform@,
        event.event_type@ == request.event_type@,
        event.duration_ms == request.duration_ms,
        event.success == request.success,
        event.created_at == created_at,
{
    CreatorEvent {
        id,
        skill_name: request.skill_name,
        platform: request.platform,
        event_type: request.event_type,
        duration_ms: request.duration_ms,
        success: request.success,
        created_at,
    }
}

/// The event made of a report on a creator's skill, under a fresh
/// identifier and with the time of the clock.
pub fn record_creator_metric_event(request: CreatorMetricEventRequest) -> (event: CreatorEvent)
    ensures
        event.skill_name@ == request.skill_name@,
        event.platform@ == request.platform@,
        event.event_type@ == request.event_type@,
        event.duration_ms == request.duration_ms,
        event.success == request.success,
{
    let id: u128 = fresh_id();
    let created_at: i64 = now_micros();
    new_creator_event(request, id, created_at)
}

} // verus!
