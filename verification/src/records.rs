//! Records as the store holds them and as sponsors see them: rows with
//! signed amounts, the discovery list, and the sponsor's dashboard.

use crate::error::{ApiError, ApiErrorView, ApiResult};
use crate::text::{joined, parse_u64, parsed_u64, strip_end_slashes, trim_end_slashes};
use crate::types::{
    campaign_views, opt_as_str, opt_str, opt_text, text_pairs, texts, AppConfig, AppConfigView,
    Campaign, CampaignRow, CampaignView, SponsoredApi, SponsoredApiRow, SponsoredApiView,
    DEFAULT_PUBLIC_BASE_URL, DEFAULT_SPONSORED_API_CREATE_PRICE_CENTS,
    DEFAULT_SPONSORED_API_TIMEOUT_SECS, DEFAULT_X402_FACILITATOR_URL, DEFAULT_X402_NETWORK,
    DEFAULT_X402_SETTLE_PATH, DEFAULT_X402_VERIFY_PATH,
};
use vstd::prelude::*;
use vstd::string::*;

verus! {

/// What the environment says, variable by variable, before any default
/// is applied.
#[derive(Debug)]
pub struct EnvValues {
    pub sponsored_api_create_price_cents: Option<String>,
    pub sponsored_api_timeout_secs: Option<String>,
    pub x402_facilitator_url: Option<String>,
    pub x402_verify_path: Option<String>,
    pub x402_settle_path: Option<String>,
    pub x402_facilitator_bearer_token: Option<String>,
    pub x402_network: Option<String>,
    pub x402_pay_to: Option<String>,
    pub x402_asset: Option<String>,
    pub public_base_url: Option<String>,
}

/// The number that a variable stands for, or the default where the
/// variable is not set or stands for no number.
pub open spec fn number_or(value: Option<Seq<char>>, default: u64) -> u64 {
    match value {
        Some(s) => match parsed_u64(s) {
            Some(n) => n,
            None => default,
        },
        None => default,
    }
}

/// The text of a variable, or the default where the variable is not set.
pub open spec fn text_or(value: Option<Seq<char>>, default: Seq<char>) -> Seq<char> {
    match value {
        Some(s) => s,
        None => default,
    }
}

/// The configuration that the environment stands for.
pub open spec fn config_from(values: EnvValues) -> AppConfigView {
    AppConfigView {
        sponsored_api_create_price_cents: number_or(
            opt_text(values.sponsored_api_create_price_cents),
            DEFAULT_SPONSORED_API_CREATE_PRICE_CENTS,
        ),
        sponsored_api_timeout_secs: number_or(
            opt_text(values.sponsored_api_timeout_secs),
            DEFAULT_SPONSORED_API_TIMEOUT_SECS,
        ),
        x402_facilitator_url: text_or(
            opt_text(values.x402_facilitator_url),
            DEFAULT_X402_FACILITATOR_URL@,
        ),
        x402_verify_path: text_or(opt_text(values.x402_verify_path), DEFAULT_X402_VERIFY_PATH@),
        x402_settle_path: text_or(opt_text(values.x402_settle_path), DEFAULT_X402_SETTLE_PATH@),
        x402_facilitator_bearer_token: opt_text(values.x402_facilitator_bearer_token),
        x402_network: text_or(opt_text(values.x402_network), DEFAULT_X402_NETWORK@),
        x402_pay_to: opt_text(values.x402_pay_to),
        x402_asset: opt_text(values.x402_asset),
        public_base_url: text_or(opt_text(values.public_base_url), DEFAULT_PUBLIC_BASE_URL@),
    }
}

/// The number that was read, or the default where none was.
pub fn parsed_or(parsed: Option<u64>, default: u64) -> (n: u64)
    ensures
        n == match parsed {
            Some(p) => p,
            None => default,
        },
{
    match parsed {
        Some(p) => p,
        None => default,
    }
}

/// The number that a variable stands for, or the default where the
/// variable is not set or stands for no number.
pub fn read_u64_or(value: Option<&str>, default: u64) -> (n: u64)
    ensures
        n == number_or(opt_str(value), default),
{
    match value {
        Some(s) => parsed_or(parse_u64(s), default),
        None => default,
    }
}

fn text_or_default(value: Option<String>, default: &str) -> (s: String)
    ensures
        s@ == text_or(opt_text(value), default@),
{
    match value {
        Some(s) => s,
        None => String::from_str(default),
    }
}

impl AppConfig {
    /// The configuration that the environment stands for: each variable
    /// that is not set, and each number that does not parse, has its
    /// default.
    pub fn from_values(values: EnvValues) -> (config: AppConfig)
        ensures
            config@ == config_from(values),
    {
        AppConfig {
            sponsored_api_create_price_cents: read_u64_or(
                opt_as_str(&values.sponsored_api_create_price_cents),
                DEFAULT_SPONSORED_API_CREATE_PRICE_CENTS,
            ),
            sponsored_api_timeout_secs: read_u64_or(
                opt_as_str(&values.sponsored_api_timeout_secs),
                DEFAULT_SPONSORED_API_TIMEOUT_SECS,
            ),
            x402_facilitator_url: text_or_default(
                values.x402_facilitator_url,
                DEFAULT_X402_FACILITATOR_URL,
            ),
            x402_verify_path: text_or_default(values.x402_verify_path, DEFAULT_X402_VERIFY_PATH),
            x402_settle_path: text_or_default(values.x402_settle_path, DEFAULT_X402_SETTLE_PATH),
            x402_facilitator_bearer_token: values.x402_facilitator_bearer_token,
            x402_network: text_or_default(values.x402_network, DEFAULT_X402_NETWORK),
            x402_pay_to: values.x402_pay_to,
            x402_asset: values.x402_asset,
            public_base_url: text_or_default(values.public_base_url, DEFAULT_PUBLIC_BASE_URL),
        }
    }
}

/// What is wrong with a row of a campaign, if anything: the first of its
/// amounts that is negative.
pub open spec fn campaign_row_error(row: CampaignRow) -> Option<Seq<char>> {
    if row.subsidy_per_call_cents < 0 {
        Some("subsidy_per_call_cents must be non-negative"@)
    } else if row.budget_total_cents < 0 {
        Some("budget_total_cents must be non-negative"@)
    } else if row.budget_remaining_cents < 0 {
        Some("budget_remaining_cents must be non-negative"@)
    } else {
        None
    }
}

/// The campaign that a row without negative amounts stands for.
pub open spec fn campaign_of_row(row: CampaignRow) -> CampaignView {
    CampaignView {
        id: row.id,
        name: row.name@,
        sponsor: row.sponsor@,
        target_roles: texts(row.target_roles@),
        target_tools: texts(row.target_tools@),
        required_task: row.required_task@,
        subsidy_per_call_cents: row.subsidy_per_call_cents as u64,
        budget_total_cents: row.budget_total_cents as u64,
        budget_remaining_cents: row.budget_remaining_cents as u64,
        query_urls: texts(row.query_urls@),
        active: row.active,
        created_at: row.created_at,
    }
}

/// What is wrong with a row of a sponsored API, if anything: the first of
/// its amounts that is negative.
pub open spec fn api_row_error(row: SponsoredApiRow) -> Option<Seq<char>> {
    if row.price_cents < 0 {
        Some("price_cents must be non-negative"@)
    } else if row.budget_total_cents < 0 {
        Some("budget_total_cents must be non-negative"@)
    } else if row.budget_remaining_cents < 0 {
        Some("budget_remaining_cents must be non-negative"@)
    } else {
        None
    }
}

/// The sponsored API that a row without negative amounts stands for.
pub open spec fn api_of_row(row: SponsoredApiRow) -> SponsoredApiView {
    SponsoredApiView {
        id: row.id,
        name: row.name@,
        sponsor: row.sponsor@,
        description: opt_text(row.description),
        upstream_url: row.upstream_url@,
        upstream_method: row.upstream_method@,
        upstream_headers: text_pairs(row.upstream_headers@),
        price_cents: row.price_cents as u64,
        budget_total_cents: row.budget_total_cents as u64,
        budget_remaining_cents: row.budget_remaining_cents as u64,
        active: row.active,
        service_key: row.service_key@,
        created_at: row.created_at,
    }
}

impl Campaign {
    /// The campaign that a row stands for. Fails exactly where an amount
    /// of the row is negative, and says which. The campaign keeps the
    /// budget invariant exactly if the row does.
    pub fn try_from(value: CampaignRow) -> (r: Result<Campaign, String>)
        ensures
            match campaign_row_error(value) {
                Some(message) => r is Err && r->Err_0@ == message,
                None => r is Ok && r->Ok_0@ == campaign_of_row(value) && (r->Ok_0@.wf()
                    <==> value.budget_remaining_cents <= value.budget_total_cents),
            },
    {
        if value.subsidy_per_call_cents < 0 {
            return Err(String::from_str("subsidy_per_call_cents must be non-negative"));
        }
        if value.budget_total_cents < 0 {
            return Err(String::from_str("budget_total_cents must be non-negative"));
        }
        if value.budget_remaining_cents < 0 {
            return Err(String::from_str("budget_remaining_cents must be non-negative"));
        }
        Ok(
            Campaign {
                id: value.id,
                name: value.name,
                sponsor: value.sponsor,
                target_roles: value.target_roles,
                target_tools: value.target_tools,
                required_task: value.required_task,
                subsidy_per_call_cents: value.subsidy_per_call_cents as u64,
                budget_total_cents: value.budget_total_cents as u64,
                budget_remaining_cents: value.budget_remaining_cents as u64,
                query_urls: value.query_urls,
                active: value.active,
                created_at: value.created_at,
            },
        )
    }
}

impl SponsoredApi {
    /// The sponsored API that a row stands for. Fails exactly where an
    /// amount of the row is negative, and says which. The API keeps the
    /// budget invariant exactly if the row does.
    pub fn try_from(value: SponsoredApiRow) -> (r: Result<SponsoredApi, String>)
        ensures
            match api_row_error(value) {
                Some(message) => r is Err && r->Err_0@ == message,
                None => r is Ok && r->Ok_0@ == api_of_row(value) && (r->Ok_0@.wf()
                    <==> value.budget_remaining_cents <= value.budget_total_cents),
            },
    {
        if value.price_cents < 0 {
            return Err(String::from_str("price_cents must be non-negative"));
        }
        if value.budget_total_cents < 0 {
            return Err(String::from_str("budget_total_cents must be non-negative"));
        }
        if value.budget_remaining_cents < 0 {
            return Err(String::from_str("budget_remaining_cents must be non-negative"));
        }
        Ok(
            SponsoredApi {
                id: value.id,
                name: value.name,
                sponsor: value.sponsor,
                description: value.description,
                upstream_url: value.upstream_url,
                upstream_method: value.upstream_method,
                upstream_headers: value.upstream_headers,
                price_cents: value.price_cents as u64,
                budget_total_cents: value.budget_total_cents as u64,
                budget_remaining_cents: value.budget_remaining_cents as u64,
                active: value.active,
                service_key: value.service_key,
                created_at: value.created_at,
            },
        )
    }
}

/// The campaigns that a list of rows stands for, in order; or what is
/// wrong with the first row that stands for none.
pub fn campaigns_from_rows(rows: Vec<CampaignRow>) -> (r: Result<Vec<Campaign>, String>)
    ensures
        match r {
            Ok(campaigns) => campaigns.len() == rows.len() && forall|k: int|
                0 <= k < rows.len() ==> campaign_row_error(#[trigger] rows@[k]) is None
                    && campaigns@[k]@ == campaign_of_row(rows@[k]),
            Err(message) => exists|i: int|
                0 <= i < rows.len() && campaign_row_error(#[trigger] rows@[i]) == Some(message@)
                    && forall|k: int|
                    0 <= k < i ==> campaign_row_error(#[trigger] rows@[k]) is None,
        },
{
    let ghost all = rows@;
    let mut rest = rows;
    let mut campaigns: Vec<Campaign> = Vec::new();
    let n: usize = rest.len();
    let mut i: usize = 0;
    while i < n
        invariant
            i <= n,
            n == all.len(),
            all == rows@,
            campaigns.len() == i,
            rest@ == all.subrange(i as int, n as int),
            forall|k: int|
                0 <= k < i ==> campaign_row_error(#[trigger] all[k]) is None && campaigns@[k]@
                    == campaign_of_row(all[k]),
        decreases n - i,
    {
        let row = rest.remove(0);
        assert(row == all[i as int]);
        match Campaign::try_from(row) {
            Ok(campaign) => {
                campaigns.push(campaign);
            },
            Err(message) => {
                return Err(message);
            },
        }
        i += 1;
    }
    Ok(campaigns)
}

/// The position of the campaign with this identifier, if there is one:
/// the first in the list.
pub fn find_campaign(campaigns: &Vec<Campaign>, id: u128) -> (at: Option<usize>)
    ensures
        match at {
            Some(i) => i < campaigns.len() && campaigns[i as int].id == id && forall|k: int|
                0 <= k < i ==> (#[trigger] campaigns[k]).id != id,
            None => forall|k: int| 0 <= k < campaigns.len() ==> (#[trigger] campaigns[k]).id != id,
        },
{
    let mut i: usize = 0;
    while i < campaigns.len()
        invariant
            i <= campaigns.len(),
            forall|k: int| 0 <= k < i ==> (#[trigger] campaigns[k]).id != id,
        decreases campaigns.len() - i,
    {
        if campaigns[i].id == id {
            return Some(i);
        }
        i += 1;
    }
    None
}

/// A campaign as the discovery list shows it.
#[derive(Debug)]
pub struct CampaignDiscoveryItem {
    pub campaign_id: u128,
    pub name: String,
    pub sponsor: String,
    pub active: bool,
    pub query_urls: Vec<String>,
    pub service_run_url: String,
    pub sponsored_api_discovery_url: String,
}

pub struct CampaignDiscoveryItemView {
    pub campaign_id: u128,
    pub name: Seq<char>,
    pub sponsor: Seq<char>,
    pub active: bool,
    pub query_urls: Seq<Seq<char>>,
    pub service_run_url: Seq<char>,
    pub sponsored_api_discovery_url: Seq<char>,
}

impl View for CampaignDiscoveryItem {
    type V = CampaignDiscoveryItemView;

    open spec fn view(&self) -> CampaignDiscoveryItemView {
        CampaignDiscoveryItemView {
            campaign_id: self.campaign_id,
            name: self.name@,
            sponsor: self.sponsor@,
            active: self.active,
            query_urls: texts(self.query_urls@),
            service_run_url: self.service_run_url@,
            sponsored_api_discovery_url: self.sponsored_api_discovery_url@,
        }
    }
}

/// The views of a list of discovery items, in order.
pub open spec fn item_views(v: Seq<CampaignDiscoveryItem>) -> Seq<CampaignDiscoveryItemView> {
    v.map_values(|item: CampaignDiscoveryItem| item@)
}

/// Whether the discovery list shows a campaign: it is active and names a
/// query URL.
pub open spec fn is_listed(campaign: CampaignView) -> bool {
    campaign.active && campaign.query_urls.len() > 0
}

/// A campaign as the discovery list shows it.
pub open spec fn item_of(campaign: CampaignView, base: Seq<char>) -> CampaignDiscoveryItemView {
    CampaignDiscoveryItemView {
        campaign_id: campaign.id,
        name: campaign.name,
        sponsor: campaign.sponsor,
        active: campaign.active,
        query_urls: campaign.query_urls,
        service_run_url: base + "/proxy/:service/run"@,
        sponsored_api_discovery_url: base + "/sponsored-apis"@,
    }
}

/// The discovery list of `campaigns`: those that it shows, in the order
/// in which they come.
pub open spec fn discovery_of(campaigns: Seq<CampaignView>, base: Seq<char>) -> Seq<
    CampaignDiscoveryItemView,
>
    decreases campaigns.len(),
{
    if campaigns.len() == 0 {
        Seq::empty()
    } else if is_listed(campaigns.last()) {
        discovery_of(campaigns.drop_last(), base).push(item_of(campaigns.last(), base))
    } else {
        discovery_of(campaigns.drop_last(), base)
    }
}

/// The discovery list of `campaigns`, in the order in which they come.
pub fn discovery_items(campaigns: Vec<Campaign>, public_base_url: &str) -> (items: Vec<
    CampaignDiscoveryItem,
>)
    ensures
        item_views(items@) == discovery_of(
            campaign_views(campaigns@),
            strip_end_slashes(public_base_url@),
        ),
{
    let base = trim_end_slashes(public_base_url);
    let ghost all = campaign_views(campaigns@);
    let mut rest = campaigns;
    let mut items: Vec<CampaignDiscoveryItem> = Vec::new();
    let n: usize = rest.len();
    let mut i: usize = 0;
    assert(all.take(0) =~= Seq::<CampaignView>::empty());
    while i < n
        invariant
            i <= n,
            n == all.len(),
            base@ == strip_end_slashes(public_base_url@),
            rest.len() == n - i,
            campaign_views(rest@) == all.subrange(i as int, n as int),
            item_views(items@) == discovery_of(all.take(i as int), base@),
        decreases n - i,
    {
        let ghost before = rest@;
        let campaign = rest.remove(0);
        proof {
            assert(campaign_views(before)[0] == before[0]@);
            assert forall|k: int| 0 <= k < rest@.len() implies campaign_views(rest@)[k] == all[i
                + 1 + k] by {
                assert(campaign_views(before)[k + 1] == before[k + 1]@);
            }
            assert(all.take(i + 1).drop_last() =~= all.take(i as int));
        }
        if campaign.active && campaign.query_urls.len() > 0 {
            let item = CampaignDiscoveryItem {
                campaign_id: campaign.id,
                name: campaign.name,
                sponsor: campaign.sponsor,
                active: campaign.active,
                query_urls: campaign.query_urls,
                service_run_url: joined(base, "/proxy/:service/run"),
                sponsored_api_discovery_url: joined(base, "/sponsored-apis"),
            };
            items.push(item);
        }
        i += 1;
    }
    items
}

/// What a sponsor sees of a campaign.
#[derive(Debug)]
pub struct SponsorDashboard {
    pub campaign: Campaign,
    pub tasks_completed: usize,
    pub sponsored_calls: usize,
    pub spend_cents: u64,
    pub remaining_budget_cents: u64,
}

/// The sum of a list of amounts.
pub open spec fn total(amounts: Seq<u64>) -> nat
    decreases amounts.len(),
{
    if amounts.len() == 0 {
        0
    } else {
        total(amounts.drop_last()) + amounts.last() as nat
    }
}

/// The dashboard of a campaign: the number of tasks done, the number of
/// settled sponsor payments, their sum, and what remains of the budget.
/// Fails exactly where the sum does not fit.
pub fn summarize_sponsorship(campaign: Campaign, tasks_completed: usize, payments: &Vec<u64>) -> (r:
    ApiResult<SponsorDashboard>)
    ensures
        match r {
            Ok(board) => total(payments@) <= u64::MAX && board.spend_cents == total(payments@)
                && board.sponsored_calls == payments.len() && board.tasks_completed
                == tasks_completed && board.campaign@ == campaign@ && board.remaining_budget_cents
                == campaign.budget_remaining_cents,
            Err(e) => total(payments@) > u64::MAX && e@ == (ApiErrorView::Internal {
                message: "sponsored spend exceeds the range of amounts"@,
            }),
        },
{
    let mut spend: u64 = 0;
    let mut i: usize = 0;
    assert(payments@.take(0) =~= Seq::<u64>::empty());
    while i < payments.len()
        invariant
            i <= payments.len(),
            spend == total(payments@.take(i as int)),
        decreases payments.len() - i,
    {
        proof {
            assert(payments@.take(i + 1).drop_last() =~= payments@.take(i as int));
        }
        match spend.checked_add(payments[i]) {
            Some(sum) => {
                spend = sum;
            },
            None => {
                proof {
                    lemma_total_grows(payments@, i + 1);
                }
                return Err(ApiError::internal("sponsored spend exceeds the range of amounts"));
            },
        }
        i += 1;
    }
    assert(payments@.take(payments.len() as int) =~= payments@);
    let remaining_budget_cents = campaign.budget_remaining_cents;
    Ok(
        SponsorDashboard {
            campaign,
            tasks_completed,
            sponsored_calls: payments.len(),
            spend_cents: spend,
            remaining_budget_cents,
        },
    )
}

/// The sum of a beginning of a list is at most the sum of the list.
pub proof fn lemma_total_grows(amounts: Seq<u64>, upto: int)
    requires
        0 <= upto <= amounts.len(),
    ensures
        total(amounts.take(upto)) <= total(amounts),
    decreases amounts.len(),
{
    if upto == amounts.len() {
        assert(amounts.take(upto) =~= amounts);
    } else {
        lemma_total_grows(amounts.drop_last(), upto);
        assert(amounts.drop_last().take(upto) =~= amounts.take(upto));
    }
}

} // verus!
