//! The sponsorship matcher: which campaign, if any, pays for a caller.
//!
//! Candidates are scanned in the order given, most recently created first.
//! A candidate is eligible if it is active, its remaining budget covers the
//! price, and it targets the caller. The first eligible candidate whose
//! task the caller has done is charged. Failing that, the first eligible
//! candidate names the task that the caller has still to do.

use crate::types::{
    campaign_views, completion_views, texts, Campaign, CampaignView, TaskCompletion,
    TaskCompletionView, UserProfile, UserProfileView,
};
use vstd::prelude::*;
use vstd::string::*;

verus! {

/// Whether `text` occurs in `list`.
pub open spec fn lists(list: Seq<Seq<char>>, text: Seq<char>) -> bool {
    exists|j: int| 0 <= j < list.len() && list[j] == text
}

/// Whether some entry of `have` occurs in `targets`.
pub open spec fn shares_entry(have: Seq<Seq<char>>, targets: Seq<Seq<char>>) -> bool {
    exists|i: int| 0 <= i < have.len() && lists(targets, #[trigger] have[i])
}

/// Whether a caller with the entries `have` is among `targets`: a campaign
/// without targets takes every caller.
pub open spec fn targets_match(targets: Seq<Seq<char>>, have: Seq<Seq<char>>) -> bool {
    targets.len() == 0 || shares_entry(have, targets)
}

/// The targeting rule: the campaign takes the caller by role and by tool.
pub open spec fn matches_campaign(user: UserProfileView, campaign: CampaignView) -> bool {
    targets_match(campaign.target_roles, user.roles) && targets_match(
        campaign.target_tools,
        user.tools_used,
    )
}

/// Whether the evidence shows that the caller has done the task of the
/// campaign.
pub open spec fn completed(
    completions: Seq<TaskCompletionView>,
    campaign_id: u128,
    user_id: u128,
    task: Seq<char>,
) -> bool {
    exists|i: int|
        0 <= i < completions.len() && (#[trigger] completions[i]).campaign_id == campaign_id
            && completions[i].user_id == user_id && completions[i].task_name == task
}

/// Whether the campaign can pay `price` for the caller.
pub open spec fn eligible(user: UserProfileView, price: u64, campaign: CampaignView) -> bool {
    campaign.active && campaign.budget_remaining_cents >= price && matches_campaign(user, campaign)
}

/// Whether the campaign can pay `price` for the caller now: it is eligible
/// and the caller has done its task.
pub open spec fn chargeable(
    user: UserProfileView,
    price: u64,
    campaign: CampaignView,
    completions: Seq<TaskCompletionView>,
) -> bool {
    eligible(user, price, campaign) && completed(
        completions,
        campaign.id,
        user.id,
        campaign.required_task,
    )
}

/// What the matcher found: the index of the campaign to charge, the index
/// of the campaign whose task is still to be done, or nothing.
#[derive(Clone, Copy, Debug, PartialEq, Eq, Structural)]
pub enum SponsorMatch {
    Charge(usize),
    TaskRequired(usize),
    NoSponsor,
}

/// Whether `i` is the first index at which the caller can be charged.
pub open spec fn is_first_chargeable(
    user: UserProfileView,
    price: u64,
    campaigns: Seq<CampaignView>,
    completions: Seq<TaskCompletionView>,
    i: int,
) -> bool {
    &&& 0 <= i < campaigns.len()
    &&& chargeable(user, price, campaigns[i], completions)
    &&& forall|k: int| 0 <= k < i ==> !chargeable(user, price, #[trigger] campaigns[k], completions)
}

/// Whether `i` is the first index of an eligible campaign.
pub open spec fn is_first_eligible(
    user: UserProfileView,
    price: u64,
    campaigns: Seq<CampaignView>,
    i: int,
) -> bool {
    &&& 0 <= i < campaigns.len()
    &&& eligible(user, price, campaigns[i])
    &&& forall|k: int| 0 <= k < i ==> !eligible(user, price, #[trigger] campaigns[k])
}

/// Whether no campaign can be charged for the caller.
pub open spec fn none_chargeable(
    user: UserProfileView,
    price: u64,
    campaigns: Seq<CampaignView>,
    completions: Seq<TaskCompletionView>,
) -> bool {
    forall|k: int|
        0 <= k < campaigns.len() ==> !chargeable(user, price, #[trigger] campaigns[k], completions)
}

/// Whether no campaign is eligible for the caller.
pub open spec fn none_eligible(
    user: UserProfileView,
    price: u64,
    campaigns: Seq<CampaignView>,
) -> bool {
    forall|k: int| 0 <= k < campaigns.len() ==> !eligible(user, price, #[trigger] campaigns[k])
}

/// The matcher's rule. A campaign is charged exactly if it is the first
/// that can be charged. A task is asked for exactly if no campaign can be
/// charged, and then by the first eligible campaign. Nothing is found
/// exactly if no campaign is eligible.
pub open spec fn is_sponsor_choice(
    found: SponsorMatch,
    user: UserProfileView,
    price: u64,
    campaigns: Seq<CampaignView>,
    completions: Seq<TaskCompletionView>,
) -> bool {
    match found {
        SponsorMatch::Charge(i) => is_first_chargeable(
            user,
            price,
            campaigns,
            completions,
            i as int,
        ),
        SponsorMatch::TaskRequired(i) => none_chargeable(user, price, campaigns, completions)
            && is_first_eligible(user, price, campaigns, i as int),
        SponsorMatch::NoSponsor => none_eligible(user, price, campaigns),
    }
}

/// What the matcher finds, as a function of what it is given.
pub open spec fn sponsor_choice(
    user: UserProfileView,
    price: u64,
    campaigns: Seq<CampaignView>,
    completions: Seq<TaskCompletionView>,
) -> SponsorMatch {
    if exists|i: int| is_first_chargeable(user, price, campaigns, completions, i) {
        SponsorMatch::Charge(
            (choose|i: int| is_first_chargeable(user, price, campaigns, completions, i)) as usize,
        )
    } else if exists|i: int| is_first_eligible(user, price, campaigns, i) {
        SponsorMatch::TaskRequired(
            (choose|i: int| is_first_eligible(user, price, campaigns, i)) as usize,
        )
    } else {
        SponsorMatch::NoSponsor
    }
}

/// Whether `text` occurs in `list`.
fn contains_text(list: &Vec<String>, text: &String) -> (r: bool)
    ensures
        r == lists(texts(list@), text@),
{
    let mut j: usize = 0;
    while j < list.len()
        invariant
            j <= list.len(),
            forall|k: int| 0 <= k < j ==> texts(list@)[k] != text@,
        decreases list.len() - j,
    {
        if list[j] == *text {
            assert(texts(list@)[j as int] == text@);
            return true;
        }
        j += 1;
    }
    false
}

/// Whether a caller with the entries `have` is among `targets`.
fn matches_targets(targets: &Vec<String>, have: &Vec<String>) -> (r: bool)
    ensures
        r == targets_match(texts(targets@), texts(have@)),
{
    if targets.len() == 0 {
        return true;
    }
    let mut i: usize = 0;
    while i < have.len()
        invariant
            i <= have.len(),
            forall|k: int| 0 <= k < i ==> !lists(texts(targets@), #[trigger] texts(have@)[k]),
        decreases have.len() - i,
    {
        if contains_text(targets, &have[i]) {
            assert(lists(texts(targets@), texts(have@)[i as int]));
            return true;
        }
        i += 1;
    }
    false
}

/// Whether the campaign targets the caller: it names no roles or shares a
/// role with the caller, and it names no tools or shares a tool with the
/// caller.
pub fn user_matches_campaign(user: &UserProfile, campaign: &Campaign) -> (r: bool)
    ensures
        r == matches_campaign(user@, campaign@),
{
    let role_match = matches_targets(&campaign.target_roles, &user.roles);
    let tool_match = matches_targets(&campaign.target_tools, &user.tools_used);
    role_match && tool_match
}

/// Whether the evidence holds a completion of `required_task` by the
/// caller for the campaign.
pub fn has_completed_task(
    completions: &Vec<TaskCompletion>,
    campaign_id: u128,
    user_id: u128,
    required_task: &str,
) -> (r: bool)
    ensures
        r == completed(completion_views(completions@), campaign_id, user_id, required_task@),
{
    let mut i: usize = 0;
    while i < completions.len()
        invariant
            i <= completions.len(),
            forall|k: int|
                0 <= k < i ==> !((#[trigger] completion_views(completions@)[k]).campaign_id
                    == campaign_id && completion_views(completions@)[k].user_id == user_id
                    && completion_views(completions@)[k].task_name == required_task@),
        decreases completions.len() - i,
    {
        let c = &completions[i];
        if c.campaign_id == campaign_id && c.user_id == user_id && crate::text::str_eq(
            c.task_name.as_str(),
            required_task,
        ) {
            assert(completion_views(completions@)[i as int] == c@);
            return true;
        }
        i += 1;
    }
    false
}

/// Whether the campaign can pay `price` for the caller.
pub fn is_eligible(user: &UserProfile, price: u64, campaign: &Campaign) -> (r: bool)
    ensures
        r == eligible(user@, price, campaign@),
{
    campaign.active && campaign.budget_remaining_cents >= price && user_matches_campaign(
        user,
        campaign,
    )
}

/// Scans the candidates in order and finds the campaign to charge, or the
/// campaign whose task the caller has still to do, or nothing.
pub fn select_sponsor(
    user: &UserProfile,
    price: u64,
    campaigns: &Vec<Campaign>,
    completions: &Vec<TaskCompletion>,
) -> (found: SponsorMatch)
    ensures
        is_sponsor_choice(
            found,
            user@,
            price,
            campaign_views(campaigns@),
            completion_views(completions@),
        ),
        found == sponsor_choice(
            user@,
            price,
            campaign_views(campaigns@),
            completion_views(completions@),
        ),
{
    let found = scan_candidates(user, price, campaigns, completions);
    proof {
        lemma_sponsor_choice_is_function(
            found,
            user@,
            price,
            campaign_views(campaigns@),
            completion_views(completions@),
        );
    }
    found
}

/// The scan behind `select_sponsor`.
fn scan_candidates(
    user: &UserProfile,
    price: u64,
    campaigns: &Vec<Campaign>,
    completions: &Vec<TaskCompletion>,
) -> (found: SponsorMatch)
    ensures
        is_sponsor_choice(
            found,
            user@,
            price,
            campaign_views(campaigns@),
            completion_views(completions@),
        ),
{
    let ghost cs = campaign_views(campaigns@);
    let ghost ev = completion_views(completions@);
    let mut without_task: Option<usize> = None;
    let mut i: usize = 0;
    while i < campaigns.len()
        invariant
            i <= campaigns.len(),
            cs == campaign_views(campaigns@),
            ev == completion_views(completions@),
            forall|k: int| 0 <= k < i ==> !chargeable(user@, price, #[trigger] cs[k], ev),
            match without_task {
                Some(w) => w < i && is_first_eligible(user@, price, cs, w as int),
                None => forall|k: int| 0 <= k < i ==> !eligible(user@, price, #[trigger] cs[k]),
            },
        decreases campaigns.len() - i,
    {
        let campaign = &campaigns[i];
        assert(cs[i as int] == campaign@);
        if is_eligible(user, price, campaign) {
            if has_completed_task(
                completions,
                campaign.id,
                user.id,
                campaign.required_task.as_str(),
            ) {
                return SponsorMatch::Charge(i);
            }
            if without_task.is_none() {
                without_task = Some(i);
            }
        }
        i += 1;
    }
    match without_task {
        Some(w) => SponsorMatch::TaskRequired(w),
        None => SponsorMatch::NoSponsor,
    }
}

/// The matcher's rule leaves no choice: two findings for the same caller,
/// price, candidates and evidence are the same finding.
pub proof fn lemma_sponsor_choice_is_unique(
    a: SponsorMatch,
    b: SponsorMatch,
    user: UserProfileView,
    price: u64,
    campaigns: Seq<CampaignView>,
    completions: Seq<TaskCompletionView>,
)
    requires
        is_sponsor_choice(a, user, price, campaigns, completions),
        is_sponsor_choice(b, user, price, campaigns, completions),
    ensures
        a == b,
{
    match (a, b) {
        (SponsorMatch::Charge(i), SponsorMatch::Charge(j)) => {
            if i < j {
                assert(!chargeable(user, price, campaigns[i as int], completions));
            } else if j < i {
                assert(!chargeable(user, price, campaigns[j as int], completions));
            }
        },
        (SponsorMatch::Charge(i), SponsorMatch::TaskRequired(_)) => {
            assert(!chargeable(user, price, campaigns[i as int], completions));
        },
        (SponsorMatch::Charge(i), SponsorMatch::NoSponsor) => {
            assert(!eligible(user, price, campaigns[i as int]));
        },
        (SponsorMatch::TaskRequired(_), SponsorMatch::Charge(j)) => {
            assert(!chargeable(user, price, campaigns[j as int], completions));
        },
        (SponsorMatch::TaskRequired(i), SponsorMatch::TaskRequired(j)) => {
            if i < j {
                assert(!eligible(user, price, campaigns[i as int]));
            } else if j < i {
                assert(!eligible(user, price, campaigns[j as int]));
            }
        },
        (SponsorMatch::TaskRequired(i), SponsorMatch::NoSponsor) => {
            assert(!eligible(user, price, campaigns[i as int]));
        },
        (SponsorMatch::NoSponsor, SponsorMatch::Charge(j)) => {
            assert(!eligible(user, price, campaigns[j as int]));
        },
        (SponsorMatch::NoSponsor, SponsorMatch::TaskRequired(j)) => {
            assert(!eligible(user, price, campaigns[j as int]));
        },
        (SponsorMatch::NoSponsor, SponsorMatch::NoSponsor) => {},
    }
}

/// A finding that obeys the matcher's rule is the finding that
/// `sponsor_choice` names.
pub proof fn lemma_sponsor_choice_is_function(
    found: SponsorMatch,
    user: UserProfileView,
    price: u64,
    campaigns: Seq<CampaignView>,
    completions: Seq<TaskCompletionView>,
)
    requires
        is_sponsor_choice(found, user, price, campaigns, completions),
    ensures
        found == sponsor_choice(user, price, campaigns, completions),
{
    match found {
        SponsorMatch::Charge(i) => {
            let c = choose|c: int| is_first_chargeable(user, price, campaigns, completions, c);
            if c < i {
                assert(!chargeable(user, price, campaigns[c], completions));
            } else if i < c {
                assert(!chargeable(user, price, campaigns[i as int], completions));
            }
        },
        SponsorMatch::TaskRequired(i) => {
            if exists|c: int| is_first_chargeable(user, price, campaigns, completions, c) {
                let c = choose|c: int| is_first_chargeable(user, price, campaigns, completions, c);
                assert(!chargeable(user, price, campaigns[c], completions));
            }
            let c = choose|c: int| is_first_eligible(user, price, campaigns, c);
            if c < i {
                assert(!eligible(user, price, campaigns[c]));
            } else if i < c {
                assert(!eligible(user, price, campaigns[i as int]));
            }
        },
        SponsorMatch::NoSponsor => {
            if exists|c: int| is_first_chargeable(user, price, campaigns, completions, c) {
                let c = choose|c: int| is_first_chargeable(user, price, campaigns, completions, c);
                assert(!eligible(user, price, campaigns[c]));
            }
            if exists|c: int| is_first_eligible(user, price, campaigns, c) {
                let c = choose|c: int| is_first_eligible(user, price, campaigns, c);
                assert(!eligible(user, price, campaigns[c]));
            }
        },
    }
}

/// Priority. Where one candidate can be charged and another is eligible
/// with its task still to do, the matcher charges: it finds the first
/// candidate that can be charged, and never the one whose task is open.
pub proof fn lemma_completed_task_has_priority(
    found: SponsorMatch,
    user: UserProfileView,
    price: u64,
    campaigns: Seq<CampaignView>,
    completions: Seq<TaskCompletionView>,
    done: int,
    open: int,
)
    requires
        is_sponsor_choice(found, user, price, campaigns, completions),
        0 <= done < campaigns.len(),
        0 <= open < campaigns.len(),
        chargeable(user, price, campaigns[done], completions),
        eligible(user, price, campaigns[open]),
        !chargeable(user, price, campaigns[open], completions),
    ensures
        found matches SponsorMatch::Charge(i) && i != open && chargeable(
            user,
            price,
            campaigns[i as int],
            completions,
        ) && i <= done,
{
    match found {
        SponsorMatch::Charge(i) => {
            if done < i {
                assert(!chargeable(user, price, campaigns[done], completions));
            }
        },
        SponsorMatch::TaskRequired(_) => {
            assert(!chargeable(user, price, campaigns[done], completions));
        },
        SponsorMatch::NoSponsor => {
            assert(!eligible(user, price, campaigns[done]));
        },
    }
}

} // verus!
