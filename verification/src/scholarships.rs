//! Scholarship pools: who may fund, apply and review, what an application
//! must satisfy and how awards move.

use vstd::prelude::*;

use crate::auth::UserRole;
use crate::records::ScholarshipPool;
use crate::status::{ScholarshipApplicationStatus, ScholarshipAwardStatus, ScholarshipPoolStatus};
use crate::text::{lemma_trim_idempotent, opt_str_view, owned, str_eq, trim, trim_text};

verus! {

/// A step of a scholarship award.
#[derive(Clone, Copy, Debug, PartialEq, Eq, Structural)]
pub enum AwardTransition {
    Approve,
    Reject,
    Disburse,
    Revoke,
}

impl AwardTransition {
    pub open spec fn spec_target(self) -> ScholarshipAwardStatus {
        match self {
            AwardTransition::Approve => ScholarshipAwardStatus::Approved,
            AwardTransition::Reject => ScholarshipAwardStatus::Rejected,
            AwardTransition::Disburse => ScholarshipAwardStatus::Disbursed,
            AwardTransition::Revoke => ScholarshipAwardStatus::Revoked,
        }
    }

    /// The status that this step leads to.
    pub fn target_status(self) -> (s: ScholarshipAwardStatus)
        ensures
            s == self.spec_target(),
    {
        match self {
            AwardTransition::Approve => ScholarshipAwardStatus::Approved,
            AwardTransition::Reject => ScholarshipAwardStatus::Rejected,
            AwardTransition::Disburse => ScholarshipAwardStatus::Disbursed,
            AwardTransition::Revoke => ScholarshipAwardStatus::Revoked,
        }
    }
}

/// Rules of scholarships that a request broke.
#[derive(Clone, Copy, Debug, PartialEq, Eq, Structural)]
pub enum ScholarshipRuleViolation {
    Forbidden,
    PoolClosed,
    AmountMustBePositive,
    CurrencyMismatch,
    InsufficientPoolBalance,
    ChildProfileAccessDenied,
    GeographyRestricted,
    EducationLevelRestricted,
    SchoolRestricted,
    CategoryRestricted,
    InvalidAwardTransition,
    MissingDisbursementTarget,
}

impl ScholarshipRuleViolation {
    pub open spec fn spec_message(&self) -> Seq<char> {
        match self {
            ScholarshipRuleViolation::Forbidden => "actor is not allowed to perform this action"@,
            ScholarshipRuleViolation::PoolClosed => "scholarship pool is not open"@,
            ScholarshipRuleViolation::AmountMustBePositive => "amount must be positive"@,
            ScholarshipRuleViolation::CurrencyMismatch => "currency must match scholarship pool currency"@,
            ScholarshipRuleViolation::InsufficientPoolBalance => "award amount exceeds available scholarship pool balance"@,
            ScholarshipRuleViolation::ChildProfileAccessDenied => "actor cannot apply with the specified child profile"@,
            ScholarshipRuleViolation::GeographyRestricted => "application does not satisfy geography restriction"@,
            ScholarshipRuleViolation::EducationLevelRestricted => "application does not satisfy education level restriction"@,
            ScholarshipRuleViolation::SchoolRestricted => "application does not satisfy school restriction"@,
            ScholarshipRuleViolation::CategoryRestricted => "application does not satisfy category restriction"@,
            ScholarshipRuleViolation::InvalidAwardTransition => "invalid scholarship award transition"@,
            ScholarshipRuleViolation::MissingDisbursementTarget => "disbursed award must link to a payout request or vault earmark"@,
        }
    }

    /// The text shown for this violation.
    pub fn message(&self) -> (m: String)
        ensures
            m@ == self.spec_message(),
    {
        match self {
            ScholarshipRuleViolation::Forbidden => owned("actor is not allowed to perform this action"),
            ScholarshipRuleViolation::PoolClosed => owned("scholarship pool is not open"),
            ScholarshipRuleViolation::AmountMustBePositive => owned("amount must be positive"),
            ScholarshipRuleViolation::CurrencyMismatch => owned("currency must match scholarship pool currency"),
            ScholarshipRuleViolation::InsufficientPoolBalance => owned("award amount exceeds available scholarship pool balance"),
            ScholarshipRuleViolation::ChildProfileAccessDenied => owned("actor cannot apply with the specified child profile"),
            ScholarshipRuleViolation::GeographyRestricted => owned("application does not satisfy geography restriction"),
            ScholarshipRuleViolation::EducationLevelRestricted => owned("application does not satisfy education level restriction"),
            ScholarshipRuleViolation::SchoolRestricted => owned("application does not satisfy school restriction"),
            ScholarshipRuleViolation::CategoryRestricted => owned("application does not satisfy category restriction"),
            ScholarshipRuleViolation::InvalidAwardTransition => owned("invalid scholarship award transition"),
            ScholarshipRuleViolation::MissingDisbursementTarget => owned("disbursed award must link to a payout request or vault earmark"),
        }
    }
}

/// A pool takes funds and applications only while it is open.
pub fn validate_pool_is_open(pool: &ScholarshipPool) -> (r: Result<(), ScholarshipRuleViolation>)
    ensures
        r is Ok <==> pool.status == ScholarshipPoolStatus::Open,
        r matches Err(e) ==> e == ScholarshipRuleViolation::PoolClosed,
{
    if pool.status == ScholarshipPoolStatus::Open {
        Ok(())
    } else {
        Err(ScholarshipRuleViolation::PoolClosed)
    }
}

/// Amounts of funding and awards must be positive.
pub fn validate_positive_amount(amount_minor: i64) -> (r: Result<(), ScholarshipRuleViolation>)
    ensures
        r is Ok <==> amount_minor > 0,
        r matches Err(e) ==> e == ScholarshipRuleViolation::AmountMustBePositive,
{
    if amount_minor > 0 {
        Ok(())
    } else {
        Err(ScholarshipRuleViolation::AmountMustBePositive)
    }
}

/// Funding and awards must be in the pool's currency.
pub fn validate_currency(pool_currency: &str, value_currency: &str) -> (r: Result<
    (),
    ScholarshipRuleViolation,
>)
    ensures
        r is Ok <==> pool_currency@ == value_currency@,
        r matches Err(e) ==> e == ScholarshipRuleViolation::CurrencyMismatch,
{
    if str_eq(pool_currency, value_currency) {
        Ok(())
    } else {
        Err(ScholarshipRuleViolation::CurrencyMismatch)
    }
}

/// An award may not exceed what the pool holds.
pub fn ensure_pool_balance(available_minor: i64, amount_minor: i64) -> (r: Result<
    (),
    ScholarshipRuleViolation,
>)
    ensures
        r is Ok <==> amount_minor <= available_minor,
        r matches Err(e) ==> e == ScholarshipRuleViolation::InsufficientPoolBalance,
{
    if amount_minor <= available_minor {
        Ok(())
    } else {
        Err(ScholarshipRuleViolation::InsufficientPoolBalance)
    }
}

/// Donors and platform administrators fund pools.
pub fn can_fund_pool(role: UserRole) -> (r: Result<(), ScholarshipRuleViolation>)
    ensures
        r is Ok <==> (role == UserRole::Donor || role == UserRole::PlatformAdmin),
        r matches Err(e) ==> e == ScholarshipRuleViolation::Forbidden,
{
    match role {
        UserRole::Donor | UserRole::PlatformAdmin => Ok(()),
        _ => Err(ScholarshipRuleViolation::Forbidden),
    }
}

/// Parents and students apply.
pub fn can_apply(role: UserRole) -> (r: Result<(), ScholarshipRuleViolation>)
    ensures
        r is Ok <==> (role == UserRole::Parent || role == UserRole::Student),
        r matches Err(e) ==> e == ScholarshipRuleViolation::Forbidden,
{
    match role {
        UserRole::Parent | UserRole::Student => Ok(()),
        _ => Err(ScholarshipRuleViolation::Forbidden),
    }
}

/// Platform administrators review.
pub fn can_review(role: UserRole) -> (r: Result<(), ScholarshipRuleViolation>)
    ensures
        r is Ok <==> role == UserRole::PlatformAdmin,
        r matches Err(e) ==> e == ScholarshipRuleViolation::Forbidden,
{
    if role == UserRole::PlatformAdmin {
        Ok(())
    } else {
        Err(ScholarshipRuleViolation::Forbidden)
    }
}

/// Students apply for themselves; others only with a child profile they own.
pub fn validate_child_profile_access(role: UserRole, actor_user_id: u128, child_owner_user_id: u128) -> (r:
    Result<(), ScholarshipRuleViolation>)
    ensures
        r is Ok <==> (role == UserRole::Student || actor_user_id == child_owner_user_id),
        r matches Err(e) ==> e == ScholarshipRuleViolation::ChildProfileAccessDenied,
{
    if role == UserRole::Student || actor_user_id == child_owner_user_id {
        Ok(())
    } else {
        Err(ScholarshipRuleViolation::ChildProfileAccessDenied)
    }
}

/// A text restriction of a pool is met when there is none, or when the given
/// value, trimmed, equals it.
pub open spec fn spec_text_restriction_met(expected: Option<String>, given: Option<Seq<char>>) -> bool {
    match expected {
        None => true,
        Some(e) => match given {
            None => false,
            Some(g) => trim(g) == e@,
        },
    }
}

fn text_restriction_met(expected: &Option<String>, given: Option<&str>) -> (r: bool)
    ensures
        r == spec_text_restriction_met(*expected, opt_str_view(given)),
{
    match expected {
        None => true,
        Some(e) => match given {
            None => false,
            Some(g) => {
                let t = trim_text(g);
                str_eq(t.as_str(), e.as_str())
            },
        },
    }
}

/// The first restriction of the pool that an application misses, checked in the
/// order geography, education level, school, category.
pub open spec fn spec_pool_restrictions(
    pool: ScholarshipPool,
    geography: Option<Seq<char>>,
    education_level: Option<Seq<char>>,
    school_id: Option<u128>,
    category: Option<Seq<char>>,
) -> Result<(), ScholarshipRuleViolation> {
    if !spec_text_restriction_met(pool.geography_restriction, geography) {
        Err(ScholarshipRuleViolation::GeographyRestricted)
    } else if !spec_text_restriction_met(pool.education_level_restriction, education_level) {
        Err(ScholarshipRuleViolation::EducationLevelRestricted)
    } else if pool.school_id_restriction is Some && school_id != pool.school_id_restriction {
        Err(ScholarshipRuleViolation::SchoolRestricted)
    } else if !spec_text_restriction_met(pool.category_restriction, category) {
        Err(ScholarshipRuleViolation::CategoryRestricted)
    } else {
        Ok(())
    }
}

pub fn validate_pool_restrictions(
    pool: &ScholarshipPool,
    geography: Option<&str>,
    education_level: Option<&str>,
    school_id: Option<u128>,
    category: Option<&str>,
) -> (r: Result<(), ScholarshipRuleViolation>)
    ensures
        r == spec_pool_restrictions(
            *pool,
            opt_str_view(geography),
            opt_str_view(education_level),
            school_id,
            opt_str_view(category),
        ),
{
    if !text_restriction_met(&pool.geography_restriction, geography) {
        return Err(ScholarshipRuleViolation::GeographyRestricted);
    }
    if !text_restriction_met(&pool.education_level_restriction, education_level) {
        return Err(ScholarshipRuleViolation::EducationLevelRestricted);
    }
    if let Some(expected) = pool.school_id_restriction {
        if school_id != Some(expected) {
            return Err(ScholarshipRuleViolation::SchoolRestricted);
        }
    }
    if !text_restriction_met(&pool.category_restriction, category) {
        return Err(ScholarshipRuleViolation::CategoryRestricted);
    }
    Ok(())
}

/// The outcome of an award step: an approved award is disbursed (only with a
/// linked payout request or vault) or revoked; a step to the status the award
/// already has is accepted; anything else is refused.
pub open spec fn spec_award_transition(
    current: ScholarshipAwardStatus,
    transition: AwardTransition,
    linked_payout_request_id: Option<u128>,
    linked_vault_id: Option<u128>,
) -> Result<ScholarshipAwardStatus, ScholarshipRuleViolation> {
    let target = transition.spec_target();
    if current == ScholarshipAwardStatus::Approved && target == ScholarshipAwardStatus::Disbursed {
        if linked_payout_request_id is None && linked_vault_id is None {
            Err(ScholarshipRuleViolation::MissingDisbursementTarget)
        } else {
            Ok(target)
        }
    } else if current == ScholarshipAwardStatus::Approved && target
        == ScholarshipAwardStatus::Revoked {
        Ok(target)
    } else if current == target {
        Ok(target)
    } else {
        Err(ScholarshipRuleViolation::InvalidAwardTransition)
    }
}

pub fn validate_award_transition(
    current: ScholarshipAwardStatus,
    transition: AwardTransition,
    linked_payout_request_id: Option<u128>,
    linked_vault_id: Option<u128>,
) -> (r: Result<ScholarshipAwardStatus, ScholarshipRuleViolation>)
    ensures
        r == spec_award_transition(current, transition, linked_payout_request_id, linked_vault_id),
{
    let target = transition.target_status();
    match (current, target) {
        (ScholarshipAwardStatus::Approved, ScholarshipAwardStatus::Disbursed) => {
            if linked_payout_request_id.is_none() && linked_vault_id.is_none() {
                return Err(ScholarshipRuleViolation::MissingDisbursementTarget);
            }
            Ok(target)
        },
        (ScholarshipAwardStatus::Approved, ScholarshipAwardStatus::Revoked) => Ok(target),
        (from, to) => {
            if from == to {
                Ok(to)
            } else {
                Err(ScholarshipRuleViolation::InvalidAwardTransition)
            }
        },
    }
}

/// Applications are reviewed while submitted or under review.
pub fn validate_application_reviewable(status: ScholarshipApplicationStatus) -> (r: Result<
    (),
    ScholarshipRuleViolation,
>)
    ensures
        r is Ok <==> (status == ScholarshipApplicationStatus::Submitted || status
            == ScholarshipApplicationStatus::UnderReview),
        r matches Err(e) ==> e == ScholarshipRuleViolation::InvalidAwardTransition,
{
    match status {
        ScholarshipApplicationStatus::Submitted | ScholarshipApplicationStatus::UnderReview => Ok(()),
        _ => Err(ScholarshipRuleViolation::InvalidAwardTransition),
    }
}

/// Rejected, disbursed and revoked awards are final.
pub proof fn lemma_award_final_states(
    current: ScholarshipAwardStatus,
    transition: AwardTransition,
    linked_payout_request_id: Option<u128>,
    linked_vault_id: Option<u128>,
)
    requires
        current != ScholarshipAwardStatus::Approved,
    ensures
        spec_award_transition(current, transition, linked_payout_request_id, linked_vault_id) is Ok
            <==> transition.spec_target() == current,
{
}

/// A disbursement always names where the money goes.
pub proof fn lemma_disbursement_needs_target(
    transition: AwardTransition,
    linked_payout_request_id: Option<u128>,
    linked_vault_id: Option<u128>,
)
    requires
        transition == AwardTransition::Disburse,
        linked_payout_request_id is None,
        linked_vault_id is None,
    ensures
        spec_award_transition(
            ScholarshipAwardStatus::Approved,
            transition,
            linked_payout_request_id,
            linked_vault_id,
        ) == Err::<ScholarshipAwardStatus, ScholarshipRuleViolation>(
            ScholarshipRuleViolation::MissingDisbursementTarget,
        ),
{
}


/// A pool accepts an application only when it meets every restriction the
/// pool sets (a text restriction by the trimmed value, the school by its
/// identifier), and each refusal names a restriction the application misses;
/// in particular, once geography and education level are met, a pool that
/// restricts the school refuses any other school, or none, as school-restricted.
pub proof fn lemma_restrictions_are_enforced(
    pool: ScholarshipPool,
    geography: Option<Seq<char>>,
    education_level: Option<Seq<char>>,
    school_id: Option<u128>,
    category: Option<Seq<char>>,
)
    ensures
        spec_pool_restrictions(pool, geography, education_level, school_id, category) is Ok ==> {
            &&& (pool.geography_restriction matches Some(e) ==> (geography matches Some(g) && trim(g) == e@))
            &&& (pool.education_level_restriction matches Some(e) ==> (education_level matches Some(g) && trim(g)
                == e@))
            &&& (pool.school_id_restriction matches Some(s) ==> school_id == Some(s))
            &&& (pool.category_restriction matches Some(e) ==> (category matches Some(g) && trim(g) == e@))
        },
        spec_pool_restrictions(pool, geography, education_level, school_id, category)
            == Err::<(), ScholarshipRuleViolation>(ScholarshipRuleViolation::SchoolRestricted) ==> (
        pool.school_id_restriction matches Some(s) && school_id != Some(s)),
        spec_pool_restrictions(pool, geography, education_level, school_id, category)
            == Err::<(), ScholarshipRuleViolation>(ScholarshipRuleViolation::GeographyRestricted) ==> (
        pool.geography_restriction matches Some(e) && !(geography matches Some(g) && trim(g) == e@)),
        spec_pool_restrictions(pool, geography, education_level, school_id, category)
            == Err::<(), ScholarshipRuleViolation>(ScholarshipRuleViolation::EducationLevelRestricted) ==> (
        pool.education_level_restriction matches Some(e) && !(education_level matches Some(g) && trim(g) == e@)),
        spec_pool_restrictions(pool, geography, education_level, school_id, category)
            == Err::<(), ScholarshipRuleViolation>(ScholarshipRuleViolation::CategoryRestricted) ==> (
        pool.category_restriction matches Some(e) && !(category matches Some(g) && trim(g) == e@)),
        (pool.geography_restriction matches Some(e) ==> (geography matches Some(g) && trim(g) == e@)) && (
        pool.education_level_restriction matches Some(e) ==> (education_level matches Some(g) && trim(g) == e@))
            && (pool.school_id_restriction matches Some(s) && school_id != Some(s)) ==> spec_pool_restrictions(
            pool,
            geography,
            education_level,
            school_id,
            category,
        ) == Err::<(), ScholarshipRuleViolation>(ScholarshipRuleViolation::SchoolRestricted),
{
}

/// A pool without restrictions accepts every application, and a pool's text
/// restrictions ignore whitespace around the given values.
pub proof fn lemma_restrictions_accept(
    pool: ScholarshipPool,
    geography: Option<Seq<char>>,
    education_level: Option<Seq<char>>,
    school_id: Option<u128>,
    category: Option<Seq<char>>,
)
    ensures
        pool.geography_restriction is None && pool.education_level_restriction is None
            && pool.school_id_restriction is None && pool.category_restriction is None ==> spec_pool_restrictions(
            pool,
            geography,
            education_level,
            school_id,
            category,
        ) is Ok,
        spec_pool_restrictions(
            pool,
            match geography { Some(g) => Some(trim(g)), None => None },
            match education_level { Some(g) => Some(trim(g)), None => None },
            school_id,
            match category { Some(g) => Some(trim(g)), None => None },
        ) == spec_pool_restrictions(pool, geography, education_level, school_id, category),
{
    if let Some(g) = geography {
        lemma_trim_idempotent(g);
    }
    if let Some(g) = education_level {
        lemma_trim_idempotent(g);
    }
    if let Some(g) = category {
        lemma_trim_idempotent(g);
    }
}

} // verus!
