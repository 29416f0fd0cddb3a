use vstd::prelude::*;

use crate::text::str_eq;

verus! {

/// A value stored as one of a fixed set of texts.
pub trait StatusText: Sized {
    /// The value that a text stands for, if any.
    spec fn spec_parse_text(text: Seq<char>) -> Option<Self>;

    /// The message given for a text that stands for no value.
    spec fn spec_parse_error() -> Seq<char>;

    fn parse_text(value: &str) -> (r: Result<Self, &'static str>)
        ensures
            r matches Ok(v) ==> Self::spec_parse_text(value@) == Some(v),
            r matches Err(e) ==> Self::spec_parse_text(value@) is None && e@ == Self::spec_parse_error(),
    ;
}


/// Lifecycle of a generic record.
#[derive(Clone, Copy, Debug, PartialEq, Eq, Structural)]
pub enum RecordStatus {
    Active,
    Inactive,
    Suspended,
}

impl RecordStatus {
    /// The text that stands for this value.
    pub open spec fn spec_text(self) -> Seq<char> {
        match self {
            RecordStatus::Active => "active"@,
            RecordStatus::Inactive => "inactive"@,
            RecordStatus::Suspended => "suspended"@,
        }
    }

    /// The value that a text stands for, if any.
    pub open spec fn spec_parse(text: Seq<char>) -> Option<RecordStatus> {
        if text == "active"@ {
            Some(RecordStatus::Active)
        } else if text == "inactive"@ {
            Some(RecordStatus::Inactive)
        } else if text == "suspended"@ {
            Some(RecordStatus::Suspended)
        } else {
            None
        }
    }

    pub fn as_str(&self) -> (text: &'static str)
        ensures
            text@ == self.spec_text(),
    {
        match self {
            RecordStatus::Active => "active",
            RecordStatus::Inactive => "inactive",
            RecordStatus::Suspended => "suspended",
        }
    }

    pub fn from_str(value: &str) -> (parsed: Result<RecordStatus, &'static str>)
        ensures
            parsed matches Ok(v) ==> Self::spec_parse(value@) == Some(v),
            parsed matches Err(e) ==> Self::spec_parse(value@) is None && e@ == "invalid RecordStatus"@,
    {
        if str_eq(value, "active") {
            Ok(RecordStatus::Active)
        } else if str_eq(value, "inactive") {
            Ok(RecordStatus::Inactive)
        } else if str_eq(value, "suspended") {
            Ok(RecordStatus::Suspended)
        } else {
            Err("invalid RecordStatus")
        }
    }
}

/// Reading back the text of a value gives the value.
pub proof fn lemma_record_status_text_round_trip(value: RecordStatus)
    ensures
        RecordStatus::spec_parse(value.spec_text()) == Some(value),
{
    reveal_strlit("active");
    reveal_strlit("inactive");
    reveal_strlit("suspended");
    assert("active"@[0] != "inactive"@[0]);
    assert("active"@[0] != "suspended"@[0]);
    assert("inactive"@[0] != "suspended"@[0]);
}

/// Lifecycle of a savings plan.
#[derive(Clone, Copy, Debug, PartialEq, Eq, Structural)]
pub enum PlanStatus {
    Draft,
    Active,
    Paused,
    Completed,
    Cancelled,
}

impl PlanStatus {
    /// The text that stands for this value.
    pub open spec fn spec_text(self) -> Seq<char> {
        match self {
            PlanStatus::Draft => "draft"@,
            PlanStatus::Active => "active"@,
            PlanStatus::Paused => "paused"@,
            PlanStatus::Completed => "completed"@,
            PlanStatus::Cancelled => "cancelled"@,
        }
    }

    /// The value that a text stands for, if any.
    pub open spec fn spec_parse(text: Seq<char>) -> Option<PlanStatus> {
        if text == "draft"@ {
            Some(PlanStatus::Draft)
        } else if text == "active"@ {
            Some(PlanStatus::Active)
        } else if text == "paused"@ {
            Some(PlanStatus::Paused)
        } else if text == "completed"@ {
            Some(PlanStatus::Completed)
        } else if text == "cancelled"@ {
            Some(PlanStatus::Cancelled)
        } else {
            None
        }
    }

    pub fn as_str(&self) -> (text: &'static str)
        ensures
            text@ == self.spec_text(),
    {
        match self {
            PlanStatus::Draft => "draft",
            PlanStatus::Active => "active",
            PlanStatus::Paused => "paused",
            PlanStatus::Completed => "completed",
            PlanStatus::Cancelled => "cancelled",
        }
    }

    pub fn from_str(value: &str) -> (parsed: Result<PlanStatus, &'static str>)
        ensures
            parsed matches Ok(v) ==> Self::spec_parse(value@) == Some(v),
            parsed matches Err(e) ==> Self::spec_parse(value@) is None && e@ == "invalid PlanStatus"@,
    {
        if str_eq(value, "draft") {
            Ok(PlanStatus::Draft)
        } else if str_eq(value, "active") {
            Ok(PlanStatus::Active)
        } else if str_eq(value, "paused") {
            Ok(PlanStatus::Paused)
        } else if str_eq(value, "completed") {
            Ok(PlanStatus::Completed)
        } else if str_eq(value, "cancelled") {
            Ok(PlanStatus::Cancelled)
        } else {
            Err("invalid PlanStatus")
        }
    }
}

/// Reading back the text of a value gives the value.
pub proof fn lemma_plan_status_text_round_trip(value: PlanStatus)
    ensures
        PlanStatus::spec_parse(value.spec_text()) == Some(value),
{
    reveal_strlit("draft");
    reveal_strlit("active");
    reveal_strlit("paused");
    reveal_strlit("completed");
    reveal_strlit("cancelled");
    assert("draft"@[0] != "active"@[0]);
    assert("draft"@[0] != "paused"@[0]);
    assert("draft"@[0] != "completed"@[0]);
    assert("draft"@[0] != "cancelled"@[0]);
    assert("active"@[0] != "paused"@[0]);
    assert("active"@[0] != "completed"@[0]);
    assert("active"@[0] != "cancelled"@[0]);
    assert("paused"@[0] != "completed"@[0]);
    assert("paused"@[0] != "cancelled"@[0]);
    assert("completed"@[1] != "cancelled"@[1]);
}

/// Lifecycle of a savings vault.
#[derive(Clone, Copy, Debug, PartialEq, Eq, Structural)]
pub enum VaultStatus {
    Active,
    Locked,
    Closed,
}

impl VaultStatus {
    /// The text that stands for this value.
    pub open spec fn spec_text(self) -> Seq<char> {
        match self {
            VaultStatus::Active => "active"@,
            VaultStatus::Locked => "locked"@,
            VaultStatus::Closed => "closed"@,
        }
    }

    /// The value that a text stands for, if any.
    pub open spec fn spec_parse(text: Seq<char>) -> Option<VaultStatus> {
        if text == "active"@ {
            Some(VaultStatus::Active)
        } else if text == "locked"@ {
            Some(VaultStatus::Locked)
        } else if text == "closed"@ {
            Some(VaultStatus::Closed)
        } else {
            None
        }
    }

    pub fn as_str(&self) -> (text: &'static str)
        ensures
            text@ == self.spec_text(),
    {
        match self {
            VaultStatus::Active => "active",
            VaultStatus::Locked => "locked",
            VaultStatus::Closed => "closed",
        }
    }

    pub fn from_str(value: &str) -> (parsed: Result<VaultStatus, &'static str>)
        ensures
            parsed matches Ok(v) ==> Self::spec_parse(value@) == Some(v),
            parsed matches Err(e) ==> Self::spec_parse(value@) is None && e@ == "invalid VaultStatus"@,
    {
        if str_eq(value, "active") {
            Ok(VaultStatus::Active)
        } else if str_eq(value, "locked") {
            Ok(VaultStatus::Locked)
        } else if str_eq(value, "closed") {
            Ok(VaultStatus::Closed)
        } else {
            Err("invalid VaultStatus")
        }
    }
}

/// Reading back the text of a value gives the value.
pub proof fn lemma_vault_status_text_round_trip(value: VaultStatus)
    ensures
        VaultStatus::spec_parse(value.spec_text()) == Some(value),
{
    reveal_strlit("active");
    reveal_strlit("locked");
    reveal_strlit("closed");
    assert("active"@[0] != "locked"@[0]);
    assert("active"@[0] != "closed"@[0]);
    assert("locked"@[0] != "closed"@[0]);
}

/// Funding and payment state of a milestone.
#[derive(Clone, Copy, Debug, PartialEq, Eq, Structural)]
pub enum MilestoneStatus {
    Planned,
    Funded,
    PartiallyPaid,
    Paid,
    Cancelled,
}

impl MilestoneStatus {
    /// The text that stands for this value.
    pub open spec fn spec_text(self) -> Seq<char> {
        match self {
            MilestoneStatus::Planned => "planned"@,
            MilestoneStatus::Funded => "funded"@,
            MilestoneStatus::PartiallyPaid => "partially_paid"@,
            MilestoneStatus::Paid => "paid"@,
            MilestoneStatus::Cancelled => "cancelled"@,
        }
    }

    /// The value that a text stands for, if any.
    pub open spec fn spec_parse(text: Seq<char>) -> Option<MilestoneStatus> {
        if text == "planned"@ {
            Some(MilestoneStatus::Planned)
        } else if text == "funded"@ {
            Some(MilestoneStatus::Funded)
        } else if text == "partially_paid"@ {
            Some(MilestoneStatus::PartiallyPaid)
        } else if text == "paid"@ {
            Some(MilestoneStatus::Paid)
        } else if text == "cancelled"@ {
            Some(MilestoneStatus::Cancelled)
        } else {
            None
        }
    }

    pub fn as_str(&self) -> (text: &'static str)
        ensures
            text@ == self.spec_text(),
    {
        match self {
            MilestoneStatus::Planned => "planned",
            MilestoneStatus::Funded => "funded",
            MilestoneStatus::PartiallyPaid => "partially_paid",
            MilestoneStatus::Paid => "paid",
            MilestoneStatus::Cancelled => "cancelled",
        }
    }

    pub fn from_str(value: &str) -> (parsed: Result<MilestoneStatus, &'static str>)
        ensures
            parsed matches Ok(v) ==> Self::spec_parse(value@) == Some(v),
            parsed matches Err(e) ==> Self::spec_parse(value@) is None && e@ == "invalid MilestoneStatus"@,
    {
        if str_eq(value, "planned") {
            Ok(MilestoneStatus::Planned)
        } else if str_eq(value, "funded") {
            Ok(MilestoneStatus::Funded)
        } else if str_eq(value, "partially_paid") {
            Ok(MilestoneStatus::PartiallyPaid)
        } else if str_eq(value, "paid") {
            Ok(MilestoneStatus::Paid)
        } else if str_eq(value, "cancelled") {
            Ok(MilestoneStatus::Cancelled)
        } else {
            Err("invalid MilestoneStatus")
        }
    }
}

/// Reading back the text of a value gives the value.
pub proof fn lemma_milestone_status_text_round_trip(value: MilestoneStatus)
    ensures
        MilestoneStatus::spec_parse(value.spec_text()) == Some(value),
{
    reveal_strlit("planned");
    reveal_strlit("funded");
    reveal_strlit("partially_paid");
    reveal_strlit("paid");
    reveal_strlit("cancelled");
    assert("planned"@[0] != "funded"@[0]);
    assert("planned"@[1] != "partially_paid"@[1]);
    assert("planned"@[1] != "paid"@[1]);
    assert("planned"@[0] != "cancelled"@[0]);
    assert("funded"@[0] != "partially_paid"@[0]);
    assert("funded"@[0] != "paid"@[0]);
    assert("funded"@[0] != "cancelled"@[0]);
    assert("partially_paid"@[2] != "paid"@[2]);
    assert("partially_paid"@[0] != "cancelled"@[0]);
    assert("paid"@[0] != "cancelled"@[0]);
}

/// What a payout pays for.
#[derive(Clone, Copy, Debug, PartialEq, Eq, Structural)]
pub enum PayoutType {
    Tuition,
    ExamFee,
    Deposit,
    Supplies,
}

impl PayoutType {
    /// The text that stands for this value.
    pub open spec fn spec_text(self) -> Seq<char> {
        match self {
            PayoutType::Tuition => "tuition"@,
            PayoutType::ExamFee => "exam_fee"@,
            PayoutType::Deposit => "deposit"@,
            PayoutType::Supplies => "supplies"@,
        }
    }

    /// The value that a text stands for, if any.
    pub open spec fn spec_parse(text: Seq<char>) -> Option<PayoutType> {
        if text == "tuition"@ {
            Some(PayoutType::Tuition)
        } else if text == "exam_fee"@ {
            Some(PayoutType::ExamFee)
        } else if text == "deposit"@ {
            Some(PayoutType::Deposit)
        } else if text == "supplies"@ {
            Some(PayoutType::Supplies)
        } else {
            None
        }
    }

    pub fn as_str(&self) -> (text: &'static str)
        ensures
            text@ == self.spec_text(),
    {
        match self {
            PayoutType::Tuition => "tuition",
            PayoutType::ExamFee => "exam_fee",
            PayoutType::Deposit => "deposit",
            PayoutType::Supplies => "supplies",
        }
    }

    pub fn from_str(value: &str) -> (parsed: Result<PayoutType, &'static str>)
        ensures
            parsed matches Ok(v) ==> Self::spec_parse(value@) == Some(v),
            parsed matches Err(e) ==> Self::spec_parse(value@) is None && e@ == "invalid PayoutType"@,
    {
        if str_eq(value, "tuition") {
            Ok(PayoutType::Tuition)
        } else if str_eq(value, "exam_fee") {
            Ok(PayoutType::ExamFee)
        } else if str_eq(value, "deposit") {
            Ok(PayoutType::Deposit)
        } else if str_eq(value, "supplies") {
            Ok(PayoutType::Supplies)
        } else {
            Err("invalid PayoutType")
        }
    }
}

/// Reading back the text of a value gives the value.
pub proof fn lemma_payout_type_text_round_trip(value: PayoutType)
    ensures
        PayoutType::spec_parse(value.spec_text()) == Some(value),
{
    reveal_strlit("tuition");
    reveal_strlit("exam_fee");
    reveal_strlit("deposit");
    reveal_strlit("supplies");
    assert("tuition"@[0] != "exam_fee"@[0]);
    assert("tuition"@[0] != "deposit"@[0]);
    assert("tuition"@[0] != "supplies"@[0]);
    assert("exam_fee"@[0] != "deposit"@[0]);
    assert("exam_fee"@[0] != "supplies"@[0]);
    assert("deposit"@[0] != "supplies"@[0]);
}

/// Where a school stands in verification.
#[derive(Clone, Copy, Debug, PartialEq, Eq, Structural)]
pub enum SchoolVerificationStatus {
    Pending,
    Verified,
    Rejected,
}

impl SchoolVerificationStatus {
    /// The text that stands for this value.
    pub open spec fn spec_text(self) -> Seq<char> {
        match self {
            SchoolVerificationStatus::Pending => "pending"@,
            SchoolVerificationStatus::Verified => "verified"@,
            SchoolVerificationStatus::Rejected => "rejected"@,
        }
    }

    /// The value that a text stands for, if any.
    pub open spec fn spec_parse(text: Seq<char>) -> Option<SchoolVerificationStatus> {
        if text == "pending"@ {
            Some(SchoolVerificationStatus::Pending)
        } else if text == "verified"@ {
            Some(SchoolVerificationStatus::Verified)
        } else if text == "rejected"@ {
            Some(SchoolVerificationStatus::Rejected)
        } else {
            None
        }
    }

    pub fn as_str(&self) -> (text: &'static str)
        ensures
            text@ == self.spec_text(),
    {
        match self {
            SchoolVerificationStatus::Pending => "pending",
            SchoolVerificationStatus::Verified => "verified",
            SchoolVerificationStatus::Rejected => "rejected",
        }
    }

    pub fn from_str(value: &str) -> (parsed: Result<SchoolVerificationStatus, &'static str>)
        ensures
            parsed matches Ok(v) ==> Self::spec_parse(value@) == Some(v),
            parsed matches Err(e) ==> Self::spec_parse(value@) is None && e@ == "invalid SchoolVerificationStatus"@,
    {
        if str_eq(value, "pending") {
            Ok(SchoolVerificationStatus::Pending)
        } else if str_eq(value, "verified") {
            Ok(SchoolVerificationStatus::Verified)
        } else if str_eq(value, "rejected") {
            Ok(SchoolVerificationStatus::Rejected)
        } else {
            Err("invalid SchoolVerificationStatus")
        }
    }
}

/// Reading back the text of a value gives the value.
pub proof fn lemma_school_verification_status_text_round_trip(value: SchoolVerificationStatus)
    ensures
        SchoolVerificationStatus::spec_parse(value.spec_text()) == Some(value),
{
    reveal_strlit("pending");
    reveal_strlit("verified");
    reveal_strlit("rejected");
    assert("pending"@[0] != "verified"@[0]);
    assert("pending"@[0] != "rejected"@[0]);
    assert("verified"@[0] != "rejected"@[0]);
}

/// How a school receives payouts.
#[derive(Clone, Copy, Debug, PartialEq, Eq, Structural)]
pub enum SchoolPayoutMethod {
    Stellar,
    BankTransfer,
    MobileMoney,
    FiatOfframp,
    Manual,
}

impl SchoolPayoutMethod {
    /// The text that stands for this value.
    pub open spec fn spec_text(self) -> Seq<char> {
        match self {
            SchoolPayoutMethod::Stellar => "stellar"@,
            SchoolPayoutMethod::BankTransfer => "bank_transfer"@,
            SchoolPayoutMethod::MobileMoney => "mobile_money"@,
            SchoolPayoutMethod::FiatOfframp => "fiat_offramp"@,
            SchoolPayoutMethod::Manual => "manual"@,
        }
    }

    /// The value that a text stands for, if any.
    pub open spec fn spec_parse(text: Seq<char>) -> Option<SchoolPayoutMethod> {
        if text == "stellar"@ {
            Some(SchoolPayoutMethod::Stellar)
        } else if text == "bank_transfer"@ {
            Some(SchoolPayoutMethod::BankTransfer)
        } else if text == "mobile_money"@ {
            Some(SchoolPayoutMethod::MobileMoney)
        } else if text == "fiat_offramp"@ {
            Some(SchoolPayoutMethod::FiatOfframp)
        } else if text == "manual"@ {
            Some(SchoolPayoutMethod::Manual)
        } else {
            None
        }
    }

    pub fn as_str(&self) -> (text: &'static str)
        ensures
            text@ == self.spec_text(),
    {
        match self {
            SchoolPayoutMethod::Stellar => "stellar",
            SchoolPayoutMethod::BankTransfer => "bank_transfer",
            SchoolPayoutMethod::MobileMoney => "mobile_money",
            SchoolPayoutMethod::FiatOfframp => "fiat_offramp",
            SchoolPayoutMethod::Manual => "manual",
        }
    }

    pub fn from_str(value: &str) -> (parsed: Result<SchoolPayoutMethod, &'static str>)
        ensures
            parsed matches Ok(v) ==> Self::spec_parse(value@) == Some(v),
            parsed matches Err(e) ==> Self::spec_parse(value@) is None && e@ == "invalid SchoolPayoutMethod"@,
    {
        if str_eq(value, "stellar") {
            Ok(SchoolPayoutMethod::Stellar)
        } else if str_eq(value, "bank_transfer") {
            Ok(SchoolPayoutMethod::BankTransfer)
        } else if str_eq(value, "mobile_money") {
            Ok(SchoolPayoutMethod::MobileMoney)
        } else if str_eq(value, "fiat_offramp") {
            Ok(SchoolPayoutMethod::FiatOfframp)
        } else if str_eq(value, "manual") {
            Ok(SchoolPayoutMethod::Manual)
        } else {
            Err("invalid SchoolPayoutMethod")
        }
    }
}

/// Reading back the text of a value gives the value.
pub proof fn lemma_school_payout_method_text_round_trip(value: SchoolPayoutMethod)
    ensures
        SchoolPayoutMethod::spec_parse(value.spec_text()) == Some(value),
{
    reveal_strlit("stellar");
    reveal_strlit("bank_transfer");
    reveal_strlit("mobile_money");
    reveal_strlit("fiat_offramp");
    reveal_strlit("manual");
    assert("stellar"@[0] != "bank_transfer"@[0]);
    assert("stellar"@[0] != "mobile_money"@[0]);
    assert("stellar"@[0] != "fiat_offramp"@[0]);
    assert("stellar"@[0] != "manual"@[0]);
    assert("bank_transfer"@[0] != "mobile_money"@[0]);
    assert("bank_transfer"@[0] != "fiat_offramp"@[0]);
    assert("bank_transfer"@[0] != "manual"@[0]);
    assert("mobile_money"@[0] != "fiat_offramp"@[0]);
    assert("mobile_money"@[1] != "manual"@[1]);
    assert("fiat_offramp"@[0] != "manual"@[0]);
}

/// Settlement state of a contribution.
#[derive(Clone, Copy, Debug, PartialEq, Eq, Structural)]
pub enum ContributionStatus {
    Pending,
    Confirmed,
    Failed,
    Reversed,
}

impl ContributionStatus {
    /// The text that stands for this value.
    pub open spec fn spec_text(self) -> Seq<char> {
        match self {
            ContributionStatus::Pending => "pending"@,
            ContributionStatus::Confirmed => "confirmed"@,
            ContributionStatus::Failed => "failed"@,
            ContributionStatus::Reversed => "reversed"@,
        }
    }

    /// The value that a text stands for, if any.
    pub open spec fn spec_parse(text: Seq<char>) -> Option<ContributionStatus> {
        if text == "pending"@ {
            Some(ContributionStatus::Pending)
        } else if text == "confirmed"@ {
            Some(ContributionStatus::Confirmed)
        } else if text == "failed"@ {
            Some(ContributionStatus::Failed)
        } else if text == "reversed"@ {
            Some(ContributionStatus::Reversed)
        } else {
            None
        }
    }

    pub fn as_str(&self) -> (text: &'static str)
        ensures
            text@ == self.spec_text(),
    {
        match self {
            ContributionStatus::Pending => "pending",
            ContributionStatus::Confirmed => "confirmed",
            ContributionStatus::Failed => "failed",
            ContributionStatus::Reversed => "reversed",
        }
    }

    pub fn from_str(value: &str) -> (parsed: Result<ContributionStatus, &'static str>)
        ensures
            parsed matches Ok(v) ==> Self::spec_parse(value@) == Some(v),
            parsed matches Err(e) ==> Self::spec_parse(value@) is None && e@ == "invalid ContributionStatus"@,
    {
        if str_eq(value, "pending") {
            Ok(ContributionStatus::Pending)
        } else if str_eq(value, "confirmed") {
            Ok(ContributionStatus::Confirmed)
        } else if str_eq(value, "failed") {
            Ok(ContributionStatus::Failed)
        } else if str_eq(value, "reversed") {
            Ok(ContributionStatus::Reversed)
        } else {
            Err("invalid ContributionStatus")
        }
    }
}

/// Reading back the text of a value gives the value.
pub proof fn lemma_contribution_status_text_round_trip(value: ContributionStatus)
    ensures
        ContributionStatus::spec_parse(value.spec_text()) == Some(value),
{
    reveal_strlit("pending");
    reveal_strlit("confirmed");
    reveal_strlit("failed");
    reveal_strlit("reversed");
    assert("pending"@[0] != "confirmed"@[0]);
    assert("pending"@[0] != "failed"@[0]);
    assert("pending"@[0] != "reversed"@[0]);
    assert("confirmed"@[0] != "failed"@[0]);
    assert("confirmed"@[0] != "reversed"@[0]);
    assert("failed"@[0] != "reversed"@[0]);
}

/// Where the money of a contribution comes from.
#[derive(Clone, Copy, Debug, PartialEq, Eq, Structural)]
pub enum ContributionSourceType {
    Fiat,
    Usdc,
    Manual,
}

impl ContributionSourceType {
    /// The text that stands for this value.
    pub open spec fn spec_text(self) -> Seq<char> {
        match self {
            ContributionSourceType::Fiat => "fiat"@,
            ContributionSourceType::Usdc => "usdc"@,
            ContributionSourceType::Manual => "manual"@,
        }
    }

    /// The value that a text stands for, if any.
    pub open spec fn spec_parse(text: Seq<char>) -> Option<ContributionSourceType> {
        if text == "fiat"@ {
            Some(ContributionSourceType::Fiat)
        } else if text == "usdc"@ {
            Some(ContributionSourceType::Usdc)
        } else if text == "manual"@ {
            Some(ContributionSourceType::Manual)
        } else {
            None
        }
    }

    pub fn as_str(&self) -> (text: &'static str)
        ensures
            text@ == self.spec_text(),
    {
        match self {
            ContributionSourceType::Fiat => "fiat",
            ContributionSourceType::Usdc => "usdc",
            ContributionSourceType::Manual => "manual",
        }
    }

    pub fn from_str(value: &str) -> (parsed: Result<ContributionSourceType, &'static str>)
        ensures
            parsed matches Ok(v) ==> Self::spec_parse(value@) == Some(v),
            parsed matches Err(e) ==> Self::spec_parse(value@) is None && e@ == "invalid ContributionSourceType"@,
    {
        if str_eq(value, "fiat") {
            Ok(ContributionSourceType::Fiat)
        } else if str_eq(value, "usdc") {
            Ok(ContributionSourceType::Usdc)
        } else if str_eq(value, "manual") {
            Ok(ContributionSourceType::Manual)
        } else {
            Err("invalid ContributionSourceType")
        }
    }
}

/// Reading back the text of a value gives the value.
pub proof fn lemma_contribution_source_type_text_round_trip(value: ContributionSourceType)
    ensures
        ContributionSourceType::spec_parse(value.spec_text()) == Some(value),
{
    reveal_strlit("fiat");
    reveal_strlit("usdc");
    reveal_strlit("manual");
    assert("fiat"@[0] != "usdc"@[0]);
    assert("fiat"@[0] != "manual"@[0]);
    assert("usdc"@[0] != "manual"@[0]);
}

/// Review and settlement state of a payout request.
#[derive(Clone, Copy, Debug, PartialEq, Eq, Structural)]
pub enum PayoutStatus {
    Pending,
    UnderReview,
    Approved,
    Rejected,
    Processing,
    Completed,
    Failed,
}

impl PayoutStatus {
    /// The text that stands for this value.
    pub open spec fn spec_text(self) -> Seq<char> {
        match self {
            PayoutStatus::Pending => "pending"@,
            PayoutStatus::UnderReview => "under_review"@,
            PayoutStatus::Approved => "approved"@,
            PayoutStatus::Rejected => "rejected"@,
            PayoutStatus::Processing => "processing"@,
            PayoutStatus::Completed => "completed"@,
            PayoutStatus::Failed => "failed"@,
        }
    }

    /// The value that a text stands for, if any.
    pub open spec fn spec_parse(text: Seq<char>) -> Option<PayoutStatus> {
        if text == "pending"@ {
            Some(PayoutStatus::Pending)
        } else if text == "under_review"@ {
            Some(PayoutStatus::UnderReview)
        } else if text == "approved"@ {
            Some(PayoutStatus::Approved)
        } else if text == "rejected"@ {
            Some(PayoutStatus::Rejected)
        } else if text == "processing"@ {
            Some(PayoutStatus::Processing)
        } else if text == "completed"@ {
            Some(PayoutStatus::Completed)
        } else if text == "failed"@ {
            Some(PayoutStatus::Failed)
        } else {
            None
        }
    }

    pub fn as_str(&self) -> (text: &'static str)
        ensures
            text@ == self.spec_text(),
    {
        match self {
            PayoutStatus::Pending => "pending",
            PayoutStatus::UnderReview => "under_review",
            PayoutStatus::Approved => "approved",
            PayoutStatus::Rejected => "rejected",
            PayoutStatus::Processing => "processing",
            PayoutStatus::Completed => "completed",
            PayoutStatus::Failed => "failed",
        }
    }

    pub fn from_str(value: &str) -> (parsed: Result<PayoutStatus, &'static str>)
        ensures
            parsed matches Ok(v) ==> Self::spec_parse(value@) == Some(v),
            parsed matches Err(e) ==> Self::spec_parse(value@) is None && e@ == "invalid PayoutStatus"@,
    {
        if str_eq(value, "pending") {
            Ok(PayoutStatus::Pending)
        } else if str_eq(value, "under_review") {
            Ok(PayoutStatus::UnderReview)
        } else if str_eq(value, "approved") {
            Ok(PayoutStatus::Approved)
        } else if str_eq(value, "rejected") {
            Ok(PayoutStatus::Rejected)
        } else if str_eq(value, "processing") {
            Ok(PayoutStatus::Processing)
        } else if str_eq(value, "completed") {
            Ok(PayoutStatus::Completed)
        } else if str_eq(value, "failed") {
            Ok(PayoutStatus::Failed)
        } else {
            Err("invalid PayoutStatus")
        }
    }
}

/// Reading back the text of a value gives the value.
pub proof fn lemma_payout_status_text_round_trip(value: PayoutStatus)
    ensures
        PayoutStatus::spec_parse(value.spec_text()) == Some(value),
{
    reveal_strlit("pending");
    reveal_strlit("under_review");
    reveal_strlit("approved");
    reveal_strlit("rejected");
    reveal_strlit("processing");
    reveal_strlit("completed");
    reveal_strlit("failed");
    assert("pending"@[0] != "under_review"@[0]);
    assert("pending"@[0] != "approved"@[0]);
    assert("pending"@[0] != "rejected"@[0]);
    assert("pending"@[1] != "processing"@[1]);
    assert("pending"@[0] != "completed"@[0]);
    assert("pending"@[0] != "failed"@[0]);
    assert("under_review"@[0] != "approved"@[0]);
    assert("under_review"@[0] != "rejected"@[0]);
    assert("under_review"@[0] != "processing"@[0]);
    assert("under_review"@[0] != "completed"@[0]);
    assert("under_review"@[0] != "failed"@[0]);
    assert("approved"@[0] != "rejected"@[0]);
    assert("approved"@[0] != "processing"@[0]);
    assert("approved"@[0] != "completed"@[0]);
    assert("approved"@[0] != "failed"@[0]);
    assert("rejected"@[0] != "processing"@[0]);
    assert("rejected"@[0] != "completed"@[0]);
    assert("rejected"@[0] != "failed"@[0]);
    assert("processing"@[0] != "completed"@[0]);
    assert("processing"@[0] != "failed"@[0]);
    assert("completed"@[0] != "failed"@[0]);
}

/// Identity verification state of a user.
#[derive(Clone, Copy, Debug, PartialEq, Eq, Structural)]
pub enum KycStatus {
    Pending,
    UnderReview,
    Approved,
    Rejected,
}

impl KycStatus {
    /// The text that stands for this value.
    pub open spec fn spec_text(self) -> Seq<char> {
        match self {
            KycStatus::Pending => "pending"@,
            KycStatus::UnderReview => "under_review"@,
            KycStatus::Approved => "approved"@,
            KycStatus::Rejected => "rejected"@,
        }
    }

    /// The value that a text stands for, if any.
    pub open spec fn spec_parse(text: Seq<char>) -> Option<KycStatus> {
        if text == "pending"@ {
            Some(KycStatus::Pending)
        } else if text == "under_review"@ {
            Some(KycStatus::UnderReview)
        } else if text == "approved"@ {
            Some(KycStatus::Approved)
        } else if text == "rejected"@ {
            Some(KycStatus::Rejected)
        } else {
            None
        }
    }

    pub fn as_str(&self) -> (text: &'static str)
        ensures
            text@ == self.spec_text(),
    {
        match self {
            KycStatus::Pending => "pending",
            KycStatus::UnderReview => "under_review",
            KycStatus::Approved => "approved",
            KycStatus::Rejected => "rejected",
        }
    }

    pub fn from_str(value: &str) -> (parsed: Result<KycStatus, &'static str>)
        ensures
            parsed matches Ok(v) ==> Self::spec_parse(value@) == Some(v),
            parsed matches Err(e) ==> Self::spec_parse(value@) is None && e@ == "invalid KycStatus"@,
    {
        if str_eq(value, "pending") {
            Ok(KycStatus::Pending)
        } else if str_eq(value, "under_review") {
            Ok(KycStatus::UnderReview)
        } else if str_eq(value, "approved") {
            Ok(KycStatus::Approved)
        } else if str_eq(value, "rejected") {
            Ok(KycStatus::Rejected)
        } else {
            Err("invalid KycStatus")
        }
    }
}

/// Reading back the text of a value gives the value.
pub proof fn lemma_kyc_status_text_round_trip(value: KycStatus)
    ensures
        KycStatus::spec_parse(value.spec_text()) == Some(value),
{
    reveal_strlit("pending");
    reveal_strlit("under_review");
    reveal_strlit("approved");
    reveal_strlit("rejected");
    assert("pending"@[0] != "under_review"@[0]);
    assert("pending"@[0] != "approved"@[0]);
    assert("pending"@[0] != "rejected"@[0]);
    assert("under_review"@[0] != "approved"@[0]);
    assert("under_review"@[0] != "rejected"@[0]);
    assert("approved"@[0] != "rejected"@[0]);
}

/// Whether a scholarship pool takes applications and funds.
#[derive(Clone, Copy, Debug, PartialEq, Eq, Structural)]
pub enum ScholarshipPoolStatus {
    Open,
    Closed,
}

impl ScholarshipPoolStatus {
    /// The text that stands for this value.
    pub open spec fn spec_text(self) -> Seq<char> {
        match self {
            ScholarshipPoolStatus::Open => "open"@,
            ScholarshipPoolStatus::Closed => "closed"@,
        }
    }

    /// The value that a text stands for, if any.
    pub open spec fn spec_parse(text: Seq<char>) -> Option<ScholarshipPoolStatus> {
        if text == "open"@ {
            Some(ScholarshipPoolStatus::Open)
        } else if text == "closed"@ {
            Some(ScholarshipPoolStatus::Closed)
        } else {
            None
        }
    }

    pub fn as_str(&self) -> (text: &'static str)
        ensures
            text@ == self.spec_text(),
    {
        match self {
            ScholarshipPoolStatus::Open => "open",
            ScholarshipPoolStatus::Closed => "closed",
        }
    }

    pub fn from_str(value: &str) -> (parsed: Result<ScholarshipPoolStatus, &'static str>)
        ensures
            parsed matches Ok(v) ==> Self::spec_parse(value@) == Some(v),
            parsed matches Err(e) ==> Self::spec_parse(value@) is None && e@ == "invalid ScholarshipPoolStatus"@,
    {
        if str_eq(value, "open") {
            Ok(ScholarshipPoolStatus::Open)
        } else if str_eq(value, "closed") {
            Ok(ScholarshipPoolStatus::Closed)
        } else {
            Err("invalid ScholarshipPoolStatus")
        }
    }
}

/// Reading back the text of a value gives the value.
pub proof fn lemma_scholarship_pool_status_text_round_trip(value: ScholarshipPoolStatus)
    ensures
        ScholarshipPoolStatus::spec_parse(value.spec_text()) == Some(value),
{
    reveal_strlit("open");
    reveal_strlit("closed");
    assert("open"@[0] != "closed"@[0]);
}

/// Review state of a scholarship application.
#[derive(Clone, Copy, Debug, PartialEq, Eq, Structural)]
pub enum ScholarshipApplicationStatus {
    Submitted,
    UnderReview,
    Approved,
    Rejected,
}

impl ScholarshipApplicationStatus {
    /// The text that stands for this value.
    pub open spec fn spec_text(self) -> Seq<char> {
        match self {
            ScholarshipApplicationStatus::Submitted => "submitted"@,
            ScholarshipApplicationStatus::UnderReview => "under_review"@,
            ScholarshipApplicationStatus::Approved => "approved"@,
            ScholarshipApplicationStatus::Rejected => "rejected"@,
        }
    }

    /// The value that a text stands for, if any.
    pub open spec fn spec_parse(text: Seq<char>) -> Option<ScholarshipApplicationStatus> {
        if text == "submitted"@ {
            Some(ScholarshipApplicationStatus::Submitted)
        } else if text == "under_review"@ {
            Some(ScholarshipApplicationStatus::UnderReview)
        } else if text == "approved"@ {
            Some(ScholarshipApplicationStatus::Approved)
        } else if text == "rejected"@ {
            Some(ScholarshipApplicationStatus::Rejected)
        } else {
            None
        }
    }

    pub fn as_str(&self) -> (text: &'static str)
        ensures
            text@ == self.spec_text(),
    {
        match self {
            ScholarshipApplicationStatus::Submitted => "submitted",
            ScholarshipApplicationStatus::UnderReview => "under_review",
            ScholarshipApplicationStatus::Approved => "approved",
            ScholarshipApplicationStatus::Rejected => "rejected",
        }
    }

    pub fn from_str(value: &str) -> (parsed: Result<ScholarshipApplicationStatus, &'static str>)
        ensures
            parsed matches Ok(v) ==> Self::spec_parse(value@) == Some(v),
            parsed matches Err(e) ==> Self::spec_parse(value@) is None && e@ == "invalid ScholarshipApplicationStatus"@,
    {
        if str_eq(value, "submitted") {
            Ok(ScholarshipApplicationStatus::Submitted)
        } else if str_eq(value, "under_review") {
            Ok(ScholarshipApplicationStatus::UnderReview)
        } else if str_eq(value, "approved") {
            Ok(ScholarshipApplicationStatus::Approved)
        } else if str_eq(value, "rejected") {
            Ok(ScholarshipApplicationStatus::Rejected)
        } else {
            Err("invalid ScholarshipApplicationStatus")
        }
    }
}

/// Reading back the text of a value gives the value.
pub proof fn lemma_scholarship_application_status_text_round_trip(value: ScholarshipApplicationStatus)
    ensures
        ScholarshipApplicationStatus::spec_parse(value.spec_text()) == Some(value),
{
    reveal_strlit("submitted");
    reveal_strlit("under_review");
    reveal_strlit("approved");
    reveal_strlit("rejected");
    assert("submitted"@[0] != "under_review"@[0]);
    assert("submitted"@[0] != "approved"@[0]);
    assert("submitted"@[0] != "rejected"@[0]);
    assert("under_review"@[0] != "approved"@[0]);
    assert("under_review"@[0] != "rejected"@[0]);
    assert("approved"@[0] != "rejected"@[0]);
}

/// State of a scholarship award.
#[derive(Clone, Copy, Debug, PartialEq, Eq, Structural)]
pub enum ScholarshipAwardStatus {
    Approved,
    Rejected,
    Disbursed,
    Revoked,
}

impl ScholarshipAwardStatus {
    /// The text that stands for this value.
    pub open spec fn spec_text(self) -> Seq<char> {
        match self {
            ScholarshipAwardStatus::Approved => "approved"@,
            ScholarshipAwardStatus::Rejected => "rejected"@,
            ScholarshipAwardStatus::Disbursed => "disbursed"@,
            ScholarshipAwardStatus::Revoked => "revoked"@,
        }
    }

    /// The value that a text stands for, if any.
    pub open spec fn spec_parse(text: Seq<char>) -> Option<ScholarshipAwardStatus> {
        if text == "approved"@ {
            Some(ScholarshipAwardStatus::Approved)
        } else if text == "rejected"@ {
            Some(ScholarshipAwardStatus::Rejected)
        } else if text == "disbursed"@ {
            Some(ScholarshipAwardStatus::Disbursed)
        } else if text == "revoked"@ {
            Some(ScholarshipAwardStatus::Revoked)
        } else {
            None
        }
    }

    pub fn as_str(&self) -> (text: &'static str)
        ensures
            text@ == self.spec_text(),
    {
        match self {
            ScholarshipAwardStatus::Approved => "approved",
            ScholarshipAwardStatus::Rejected => "rejected",
            ScholarshipAwardStatus::Disbursed => "disbursed",
            ScholarshipAwardStatus::Revoked => "revoked",
        }
    }

    pub fn from_str(value: &str) -> (parsed: Result<ScholarshipAwardStatus, &'static str>)
        ensures
            parsed matches Ok(v) ==> Self::spec_parse(value@) == Some(v),
            parsed matches Err(e) ==> Self::spec_parse(value@) is None && e@ == "invalid ScholarshipAwardStatus"@,
    {
        if str_eq(value, "approved") {
            Ok(ScholarshipAwardStatus::Approved)
        } else if str_eq(value, "rejected") {
            Ok(ScholarshipAwardStatus::Rejected)
        } else if str_eq(value, "disbursed") {
            Ok(ScholarshipAwardStatus::Disbursed)
        } else if str_eq(value, "revoked") {
            Ok(ScholarshipAwardStatus::Revoked)
        } else {
            Err("invalid ScholarshipAwardStatus")
        }
    }
}

/// Reading back the text of a value gives the value.
pub proof fn lemma_scholarship_award_status_text_round_trip(value: ScholarshipAwardStatus)
    ensures
        ScholarshipAwardStatus::spec_parse(value.spec_text()) == Some(value),
{
    reveal_strlit("approved");
    reveal_strlit("rejected");
    reveal_strlit("disbursed");
    reveal_strlit("revoked");
    assert("approved"@[0] != "rejected"@[0]);
    assert("approved"@[0] != "disbursed"@[0]);
    assert("approved"@[0] != "revoked"@[0]);
    assert("rejected"@[0] != "disbursed"@[0]);
    assert("rejected"@[2] != "revoked"@[2]);
    assert("disbursed"@[0] != "revoked"@[0]);
}

/// Kind of achievement a credential attests.
#[derive(Clone, Copy, Debug, PartialEq, Eq, Structural)]
pub enum AchievementCredentialType {
    ScholarshipRecipient,
    FeeFullyFunded,
    AcademicExcellence,
    AttendanceRecognition,
}

impl AchievementCredentialType {
    /// The text that stands for this value.
    pub open spec fn spec_text(self) -> Seq<char> {
        match self {
            AchievementCredentialType::ScholarshipRecipient => "scholarship_recipient"@,
            AchievementCredentialType::FeeFullyFunded => "fee_fully_funded"@,
            AchievementCredentialType::AcademicExcellence => "academic_excellence"@,
            AchievementCredentialType::AttendanceRecognition => "attendance_recognition"@,
        }
    }

    /// The value that a text stands for, if any.
    pub open spec fn spec_parse(text: Seq<char>) -> Option<AchievementCredentialType> {
        if text == "scholarship_recipient"@ {
            Some(AchievementCredentialType::ScholarshipRecipient)
        } else if text == "fee_fully_funded"@ {
            Some(AchievementCredentialType::FeeFullyFunded)
        } else if text == "academic_excellence"@ {
            Some(AchievementCredentialType::AcademicExcellence)
        } else if text == "attendance_recognition"@ {
            Some(AchievementCredentialType::AttendanceRecognition)
        } else {
            None
        }
    }

    pub fn as_str(&self) -> (text: &'static str)
        ensures
            text@ == self.spec_text(),
    {
        match self {
            AchievementCredentialType::ScholarshipRecipient => "scholarship_recipient",
            AchievementCredentialType::FeeFullyFunded => "fee_fully_funded",
            AchievementCredentialType::AcademicExcellence => "academic_excellence",
            AchievementCredentialType::AttendanceRecognition => "attendance_recognition",
        }
    }

    pub fn from_str(value: &str) -> (parsed: Result<AchievementCredentialType, &'static str>)
        ensures
            parsed matches Ok(v) ==> Self::spec_parse(value@) == Some(v),
            parsed matches Err(e) ==> Self::spec_parse(value@) is None && e@ == "invalid AchievementCredentialType"@,
    {
        if str_eq(value, "scholarship_recipient") {
            Ok(AchievementCredentialType::ScholarshipRecipient)
        } else if str_eq(value, "fee_fully_funded") {
            Ok(AchievementCredentialType::FeeFullyFunded)
        } else if str_eq(value, "academic_excellence") {
            Ok(AchievementCredentialType::AcademicExcellence)
        } else if str_eq(value, "attendance_recognition") {
            Ok(AchievementCredentialType::AttendanceRecognition)
        } else {
            Err("invalid AchievementCredentialType")
        }
    }
}

/// Reading back the text of a value gives the value.
pub proof fn lemma_achievement_credential_type_text_round_trip(value: AchievementCredentialType)
    ensures
        AchievementCredentialType::spec_parse(value.spec_text()) == Some(value),
{
    reveal_strlit("scholarship_recipient");
    reveal_strlit("fee_fully_funded");
    reveal_strlit("academic_excellence");
    reveal_strlit("attendance_recognition");
    assert("scholarship_recipient"@[0] != "fee_fully_funded"@[0]);
    assert("scholarship_recipient"@[0] != "academic_excellence"@[0]);
    assert("scholarship_recipient"@[0] != "attendance_recognition"@[0]);
    assert("fee_fully_funded"@[0] != "academic_excellence"@[0]);
    assert("fee_fully_funded"@[0] != "attendance_recognition"@[0]);
    assert("academic_excellence"@[1] != "attendance_recognition"@[1]);
}

/// Whether a credential stands.
#[derive(Clone, Copy, Debug, PartialEq, Eq, Structural)]
pub enum AchievementCredentialStatus {
    Issued,
    Revoked,
}

impl AchievementCredentialStatus {
    /// The text that stands for this value.
    pub open spec fn spec_text(self) -> Seq<char> {
        match self {
            AchievementCredentialStatus::Issued => "issued"@,
            AchievementCredentialStatus::Revoked => "revoked"@,
        }
    }

    /// The value that a text stands for, if any.
    pub open spec fn spec_parse(text: Seq<char>) -> Option<AchievementCredentialStatus> {
        if text == "issued"@ {
            Some(AchievementCredentialStatus::Issued)
        } else if text == "revoked"@ {
            Some(AchievementCredentialStatus::Revoked)
        } else {
            None
        }
    }

    pub fn as_str(&self) -> (text: &'static str)
        ensures
            text@ == self.spec_text(),
    {
        match self {
            AchievementCredentialStatus::Issued => "issued",
            AchievementCredentialStatus::Revoked => "revoked",
        }
    }

    pub fn from_str(value: &str) -> (parsed: Result<AchievementCredentialStatus, &'static str>)
        ensures
            parsed matches Ok(v) ==> Self::spec_parse(value@) == Some(v),
            parsed matches Err(e) ==> Self::spec_parse(value@) is None && e@ == "invalid AchievementCredentialStatus"@,
    {
        if str_eq(value, "issued") {
            Ok(AchievementCredentialStatus::Issued)
        } else if str_eq(value, "revoked") {
            Ok(AchievementCredentialStatus::Revoked)
        } else {
            Err("invalid AchievementCredentialStatus")
        }
    }
}

/// Reading back the text of a value gives the value.
pub proof fn lemma_achievement_credential_status_text_round_trip(value: AchievementCredentialStatus)
    ensures
        AchievementCredentialStatus::spec_parse(value.spec_text()) == Some(value),
{
    reveal_strlit("issued");
    reveal_strlit("revoked");
    assert("issued"@[0] != "revoked"@[0]);
}

/// State of a donation to a scholarship pool.
#[derive(Clone, Copy, Debug, PartialEq, Eq, Structural)]
pub enum DonorContributionStatus {
    Confirmed,
    Reversed,
}

impl DonorContributionStatus {
    /// The text that stands for this value.
    pub open spec fn spec_text(self) -> Seq<char> {
        match self {
            DonorContributionStatus::Confirmed => "confirmed"@,
            DonorContributionStatus::Reversed => "reversed"@,
        }
    }

    /// The value that a text stands for, if any.
    pub open spec fn spec_parse(text: Seq<char>) -> Option<DonorContributionStatus> {
        if text == "confirmed"@ {
            Some(DonorContributionStatus::Confirmed)
        } else if text == "reversed"@ {
            Some(DonorContributionStatus::Reversed)
        } else {
            None
        }
    }

    pub fn as_str(&self) -> (text: &'static str)
        ensures
            text@ == self.spec_text(),
    {
        match self {
            DonorContributionStatus::Confirmed => "confirmed",
            DonorContributionStatus::Reversed => "reversed",
        }
    }

    pub fn from_str(value: &str) -> (parsed: Result<DonorContributionStatus, &'static str>)
        ensures
            parsed matches Ok(v) ==> Self::spec_parse(value@) == Some(v),
            parsed matches Err(e) ==> Self::spec_parse(value@) is None && e@ == "invalid DonorContributionStatus"@,
    {
        if str_eq(value, "confirmed") {
            Ok(DonorContributionStatus::Confirmed)
        } else if str_eq(value, "reversed") {
            Ok(DonorContributionStatus::Reversed)
        } else {
            Err("invalid DonorContributionStatus")
        }
    }
}

/// Reading back the text of a value gives the value.
pub proof fn lemma_donor_contribution_status_text_round_trip(value: DonorContributionStatus)
    ensures
        DonorContributionStatus::spec_parse(value.spec_text()) == Some(value),
{
    reveal_strlit("confirmed");
    reveal_strlit("reversed");
    assert("confirmed"@[0] != "reversed"@[0]);
}

/// Delivery state of a notification.
#[derive(Clone, Copy, Debug, PartialEq, Eq, Structural)]
pub enum NotificationStatus {
    Pending,
    Sent,
    Read,
    Failed,
}

impl NotificationStatus {
    /// The text that stands for this value.
    pub open spec fn spec_text(self) -> Seq<char> {
        match self {
            NotificationStatus::Pending => "pending"@,
            NotificationStatus::Sent => "sent"@,
            NotificationStatus::Read => "read"@,
            NotificationStatus::Failed => "failed"@,
        }
    }

    /// The value that a text stands for, if any.
    pub open spec fn spec_parse(text: Seq<char>) -> Option<NotificationStatus> {
        if text == "pending"@ {
            Some(NotificationStatus::Pending)
        } else if text == "sent"@ {
            Some(NotificationStatus::Sent)
        } else if text == "read"@ {
            Some(NotificationStatus::Read)
        } else if text == "failed"@ {
            Some(NotificationStatus::Failed)
        } else {
            None
        }
    }

    pub fn as_str(&self) -> (text: &'static str)
        ensures
            text@ == self.spec_text(),
    {
        match self {
            NotificationStatus::Pending => "pending",
            NotificationStatus::Sent => "sent",
            NotificationStatus::Read => "read",
            NotificationStatus::Failed => "failed",
        }
    }

    pub fn from_str(value: &str) -> (parsed: Result<NotificationStatus, &'static str>)
        ensures
            parsed matches Ok(v) ==> Self::spec_parse(value@) == Some(v),
            parsed matches Err(e) ==> Self::spec_parse(value@) is None && e@ == "invalid NotificationStatus"@,
    {
        if str_eq(value, "pending") {
            Ok(NotificationStatus::Pending)
        } else if str_eq(value, "sent") {
            Ok(NotificationStatus::Sent)
        } else if str_eq(value, "read") {
            Ok(NotificationStatus::Read)
        } else if str_eq(value, "failed") {
            Ok(NotificationStatus::Failed)
        } else {
            Err("invalid NotificationStatus")
        }
    }
}

/// Reading back the text of a value gives the value.
pub proof fn lemma_notification_status_text_round_trip(value: NotificationStatus)
    ensures
        NotificationStatus::spec_parse(value.spec_text()) == Some(value),
{
    reveal_strlit("pending");
    reveal_strlit("sent");
    reveal_strlit("read");
    reveal_strlit("failed");
    assert("pending"@[0] != "sent"@[0]);
    assert("pending"@[0] != "read"@[0]);
    assert("pending"@[0] != "failed"@[0]);
    assert("sent"@[0] != "read"@[0]);
    assert("sent"@[0] != "failed"@[0]);
    assert("read"@[0] != "failed"@[0]);
}

/// Event that a notification reports.
#[derive(Clone, Copy, Debug, PartialEq, Eq, Structural)]
pub enum NotificationType {
    ContributionReceived,
    MilestoneDueSoon,
    MilestoneUnderfunded,
    PayoutApproved,
    PayoutCompleted,
    ScholarshipAwarded,
    KycActionRequired,
}

impl NotificationType {
    /// The text that stands for this value.
    pub open spec fn spec_text(self) -> Seq<char> {
        match self {
            NotificationType::ContributionReceived => "contribution_received"@,
            NotificationType::MilestoneDueSoon => "milestone_due_soon"@,
            NotificationType::MilestoneUnderfunded => "milestone_underfunded"@,
            NotificationType::PayoutApproved => "payout_approved"@,
            NotificationType::PayoutCompleted => "payout_completed"@,
            NotificationType::ScholarshipAwarded => "scholarship_awarded"@,
            NotificationType::KycActionRequired => "kyc_action_required"@,
        }
    }

    /// The value that a text stands for, if any.
    pub open spec fn spec_parse(text: Seq<char>) -> Option<NotificationType> {
        if text == "contribution_received"@ {
            Some(NotificationType::ContributionReceived)
        } else if text == "milestone_due_soon"@ {
            Some(NotificationType::MilestoneDueSoon)
        } else if text == "milestone_underfunded"@ {
            Some(NotificationType::MilestoneUnderfunded)
        } else if text == "payout_approved"@ {
            Some(NotificationType::PayoutApproved)
        } else if text == "payout_completed"@ {
            Some(NotificationType::PayoutCompleted)
        } else if text == "scholarship_awarded"@ {
            Some(NotificationType::ScholarshipAwarded)
        } else if text == "kyc_action_required"@ {
            Some(NotificationType::KycActionRequired)
        } else {
            None
        }
    }

    pub fn as_str(&self) -> (text: &'static str)
        ensures
            text@ == self.spec_text(),
    {
        match self {
            NotificationType::ContributionReceived => "contribution_received",
            NotificationType::MilestoneDueSoon => "milestone_due_soon",
            NotificationType::MilestoneUnderfunded => "milestone_underfunded",
            NotificationType::PayoutApproved => "payout_approved",
            NotificationType::PayoutCompleted => "payout_completed",
            NotificationType::ScholarshipAwarded => "scholarship_awarded",
            NotificationType::KycActionRequired => "kyc_action_required",
        }
    }

    pub fn from_str(value: &str) -> (parsed: Result<NotificationType, &'static str>)
        ensures
            parsed matches Ok(v) ==> Self::spec_parse(value@) == Some(v),
            parsed matches Err(e) ==> Self::spec_parse(value@) is None && e@ == "invalid NotificationType"@,
    {
        if str_eq(value, "contribution_received") {
            Ok(NotificationType::ContributionReceived)
        } else if str_eq(value, "milestone_due_soon") {
            Ok(NotificationType::MilestoneDueSoon)
        } else if str_eq(value, "milestone_underfunded") {
            Ok(NotificationType::MilestoneUnderfunded)
        } else if str_eq(value, "payout_approved") {
            Ok(NotificationType::PayoutApproved)
        } else if str_eq(value, "payout_completed") {
            Ok(NotificationType::PayoutCompleted)
        } else if str_eq(value, "scholarship_awarded") {
            Ok(NotificationType::ScholarshipAwarded)
        } else if str_eq(value, "kyc_action_required") {
            Ok(NotificationType::KycActionRequired)
        } else {
            Err("invalid NotificationType")
        }
    }
}

/// Reading back the text of a value gives the value.
pub proof fn lemma_notification_type_text_round_trip(value: NotificationType)
    ensures
        NotificationType::spec_parse(value.spec_text()) == Some(value),
{
    reveal_strlit("contribution_received");
    reveal_strlit("milestone_due_soon");
    reveal_strlit("milestone_underfunded");
    reveal_strlit("payout_approved");
    reveal_strlit("payout_completed");
    reveal_strlit("scholarship_awarded");
    reveal_strlit("kyc_action_required");
    assert("contribution_received"@[0] != "milestone_due_soon"@[0]);
    assert("contribution_received"@[0] != "milestone_underfunded"@[0]);
    assert("contribution_received"@[0] != "payout_approved"@[0]);
    assert("contribution_received"@[0] != "payout_completed"@[0]);
    assert("contribution_received"@[0] != "scholarship_awarded"@[0]);
    assert("contribution_received"@[0] != "kyc_action_required"@[0]);
    assert("milestone_due_soon"@[10] != "milestone_underfunded"@[10]);
    assert("milestone_due_soon"@[0] != "payout_approved"@[0]);
    assert("milestone_due_soon"@[0] != "payout_completed"@[0]);
    assert("milestone_due_soon"@[0] != "scholarship_awarded"@[0]);
    assert("milestone_due_soon"@[0] != "kyc_action_required"@[0]);
    assert("milestone_underfunded"@[0] != "payout_approved"@[0]);
    assert("milestone_underfunded"@[0] != "payout_completed"@[0]);
    assert("milestone_underfunded"@[0] != "scholarship_awarded"@[0]);
    assert("milestone_underfunded"@[0] != "kyc_action_required"@[0]);
    assert("payout_approved"@[7] != "payout_completed"@[7]);
    assert("payout_approved"@[0] != "scholarship_awarded"@[0]);
    assert("payout_approved"@[0] != "kyc_action_required"@[0]);
    assert("payout_completed"@[0] != "scholarship_awarded"@[0]);
    assert("payout_completed"@[0] != "kyc_action_required"@[0]);
    assert("scholarship_awarded"@[0] != "kyc_action_required"@[0]);
}

/// Record kind that an external reference is attached to.
#[derive(Clone, Copy, Debug, PartialEq, Eq, Structural)]
pub enum ExternalReferenceEntityType {
    WalletAccount,
    SavingsVault,
    Contribution,
    PayoutRequest,
}

impl ExternalReferenceEntityType {
    /// The text that stands for this value.
    pub open spec fn spec_text(self) -> Seq<char> {
        match self {
            ExternalReferenceEntityType::WalletAccount => "wallet_account"@,
            ExternalReferenceEntityType::SavingsVault => "savings_vault"@,
            ExternalReferenceEntityType::Contribution => "contribution"@,
            ExternalReferenceEntityType::PayoutRequest => "payout_request"@,
        }
    }

    /// The value that a text stands for, if any.
    pub open spec fn spec_parse(text: Seq<char>) -> Option<ExternalReferenceEntityType> {
        if text == "wallet_account"@ {
            Some(ExternalReferenceEntityType::WalletAccount)
        } else if text == "savings_vault"@ {
            Some(ExternalReferenceEntityType::SavingsVault)
        } else if text == "contribution"@ {
            Some(ExternalReferenceEntityType::Contribution)
        } else if text == "payout_request"@ {
            Some(ExternalReferenceEntityType::PayoutRequest)
        } else {
            None
        }
    }

    pub fn as_str(&self) -> (text: &'static str)
        ensures
            text@ == self.spec_text(),
    {
        match self {
            ExternalReferenceEntityType::WalletAccount => "wallet_account",
            ExternalReferenceEntityType::SavingsVault => "savings_vault",
            ExternalReferenceEntityType::Contribution => "contribution",
            ExternalReferenceEntityType::PayoutRequest => "payout_request",
        }
    }

    pub fn from_str(value: &str) -> (parsed: Result<ExternalReferenceEntityType, &'static str>)
        ensures
            parsed matches Ok(v) ==> Self::spec_parse(value@) == Some(v),
            parsed matches Err(e) ==> Self::spec_parse(value@) is None && e@ == "invalid ExternalReferenceEntityType"@,
    {
        if str_eq(value, "wallet_account") {
            Ok(ExternalReferenceEntityType::WalletAccount)
        } else if str_eq(value, "savings_vault") {
            Ok(ExternalReferenceEntityType::SavingsVault)
        } else if str_eq(value, "contribution") {
            Ok(ExternalReferenceEntityType::Contribution)
        } else if str_eq(value, "payout_request") {
            Ok(ExternalReferenceEntityType::PayoutRequest)
        } else {
            Err("invalid ExternalReferenceEntityType")
        }
    }
}

/// Reading back the text of a value gives the value.
pub proof fn lemma_external_reference_entity_type_text_round_trip(value: ExternalReferenceEntityType)
    ensures
        ExternalReferenceEntityType::spec_parse(value.spec_text()) == Some(value),
{
    reveal_strlit("wallet_account");
    reveal_strlit("savings_vault");
    reveal_strlit("contribution");
    reveal_strlit("payout_request");
    assert("wallet_account"@[0] != "savings_vault"@[0]);
    assert("wallet_account"@[0] != "contribution"@[0]);
    assert("wallet_account"@[0] != "payout_request"@[0]);
    assert("savings_vault"@[0] != "contribution"@[0]);
    assert("savings_vault"@[0] != "payout_request"@[0]);
    assert("contribution"@[0] != "payout_request"@[0]);
}

/// Kind of identifier that an external reference holds.
#[derive(Clone, Copy, Debug, PartialEq, Eq, Structural)]
pub enum ExternalReferenceKind {
    StellarAccountId,
    SorobanContractId,
    TransactionHash,
}

impl ExternalReferenceKind {
    /// The text that stands for this value.
    pub open spec fn spec_text(self) -> Seq<char> {
        match self {
            ExternalReferenceKind::StellarAccountId => "stellar_account_id"@,
            ExternalReferenceKind::SorobanContractId => "soroban_contract_id"@,
            ExternalReferenceKind::TransactionHash => "transaction_hash"@,
        }
    }

    /// The value that a text stands for, if any.
    pub open spec fn spec_parse(text: Seq<char>) -> Option<ExternalReferenceKind> {
        if text == "stellar_account_id"@ {
            Some(ExternalReferenceKind::StellarAccountId)
        } else if text == "soroban_contract_id"@ {
            Some(ExternalReferenceKind::SorobanContractId)
        } else if text == "transaction_hash"@ {
            Some(ExternalReferenceKind::TransactionHash)
        } else {
            None
        }
    }

    pub fn as_str(&self) -> (text: &'static str)
        ensures
            text@ == self.spec_text(),
    {
        match self {
            ExternalReferenceKind::StellarAccountId => "stellar_account_id",
            ExternalReferenceKind::SorobanContractId => "soroban_contract_id",
            ExternalReferenceKind::TransactionHash => "transaction_hash",
        }
    }

    pub fn from_str(value: &str) -> (parsed: Result<ExternalReferenceKind, &'static str>)
        ensures
            parsed matches Ok(v) ==> Self::spec_parse(value@) == Some(v),
            parsed matches Err(e) ==> Self::spec_parse(value@) is None && e@ == "invalid ExternalReferenceKind"@,
    {
        if str_eq(value, "stellar_account_id") {
            Ok(ExternalReferenceKind::StellarAccountId)
        } else if str_eq(value, "soroban_contract_id") {
            Ok(ExternalReferenceKind::SorobanContractId)
        } else if str_eq(value, "transaction_hash") {
            Ok(ExternalReferenceKind::TransactionHash)
        } else {
            Err("invalid ExternalReferenceKind")
        }
    }
}

/// Reading back the text of a value gives the value.
pub proof fn lemma_external_reference_kind_text_round_trip(value: ExternalReferenceKind)
    ensures
        ExternalReferenceKind::spec_parse(value.spec_text()) == Some(value),
{
    reveal_strlit("stellar_account_id");
    reveal_strlit("soroban_contract_id");
    reveal_strlit("transaction_hash");
    assert("stellar_account_id"@[1] != "soroban_contract_id"@[1]);
    assert("stellar_account_id"@[0] != "transaction_hash"@[0]);
    assert("soroban_contract_id"@[0] != "transaction_hash"@[0]);
}

/// Processing state of an on-chain transaction.
#[derive(Clone, Copy, Debug, PartialEq, Eq, Structural)]
pub enum BlockchainTransactionStatus {
    Pending,
    Submitted,
    Confirmed,
    Failed,
    RetryScheduled,
}

impl BlockchainTransactionStatus {
    /// The text that stands for this value.
    pub open spec fn spec_text(self) -> Seq<char> {
        match self {
            BlockchainTransactionStatus::Pending => "pending"@,
            BlockchainTransactionStatus::Submitted => "submitted"@,
            BlockchainTransactionStatus::Confirmed => "confirmed"@,
            BlockchainTransactionStatus::Failed => "failed"@,
            BlockchainTransactionStatus::RetryScheduled => "retry_scheduled"@,
        }
    }

    /// The value that a text stands for, if any.
    pub open spec fn spec_parse(text: Seq<char>) -> Option<BlockchainTransactionStatus> {
        if text == "pending"@ {
            Some(BlockchainTransactionStatus::Pending)
        } else if text == "submitted"@ {
            Some(BlockchainTransactionStatus::Submitted)
        } else if text == "confirmed"@ {
            Some(BlockchainTransactionStatus::Confirmed)
        } else if text == "failed"@ {
            Some(BlockchainTransactionStatus::Failed)
        } else if text == "retry_scheduled"@ {
            Some(BlockchainTransactionStatus::RetryScheduled)
        } else {
            None
        }
    }

    pub fn as_str(&self) -> (text: &'static str)
        ensures
            text@ == self.spec_text(),
    {
        match self {
            BlockchainTransactionStatus::Pending => "pending",
            BlockchainTransactionStatus::Submitted => "submitted",
            BlockchainTransactionStatus::Confirmed => "confirmed",
            BlockchainTransactionStatus::Failed => "failed",
            BlockchainTransactionStatus::RetryScheduled => "retry_scheduled",
        }
    }

    pub fn from_str(value: &str) -> (parsed: Result<BlockchainTransactionStatus, &'static str>)
        ensures
            parsed matches Ok(v) ==> Self::spec_parse(value@) == Some(v),
            parsed matches Err(e) ==> Self::spec_parse(value@) is None && e@ == "invalid BlockchainTransactionStatus"@,
    {
        if str_eq(value, "pending") {
            Ok(BlockchainTransactionStatus::Pending)
        } else if str_eq(value, "submitted") {
            Ok(BlockchainTransactionStatus::Submitted)
        } else if str_eq(value, "confirmed") {
            Ok(BlockchainTransactionStatus::Confirmed)
        } else if str_eq(value, "failed") {
            Ok(BlockchainTransactionStatus::Failed)
        } else if str_eq(value, "retry_scheduled") {
            Ok(BlockchainTransactionStatus::RetryScheduled)
        } else {
            Err("invalid BlockchainTransactionStatus")
        }
    }
}

/// Reading back the text of a value gives the value.
pub proof fn lemma_blockchain_transaction_status_text_round_trip(value: BlockchainTransactionStatus)
    ensures
        BlockchainTransactionStatus::spec_parse(value.spec_text()) == Some(value),
{
    reveal_strlit("pending");
    reveal_strlit("submitted");
    reveal_strlit("confirmed");
    reveal_strlit("failed");
    reveal_strlit("retry_scheduled");
    assert("pending"@[0] != "submitted"@[0]);
    assert("pending"@[0] != "confirmed"@[0]);
    assert("pending"@[0] != "failed"@[0]);
    assert("pending"@[0] != "retry_scheduled"@[0]);
    assert("submitted"@[0] != "confirmed"@[0]);
    assert("submitted"@[0] != "failed"@[0]);
    assert("submitted"@[0] != "retry_scheduled"@[0]);
    assert("confirmed"@[0] != "failed"@[0]);
    assert("confirmed"@[0] != "retry_scheduled"@[0]);
    assert("failed"@[0] != "retry_scheduled"@[0]);
}


impl StatusText for RecordStatus {
    open spec fn spec_parse_text(text: Seq<char>) -> Option<RecordStatus> {
        RecordStatus::spec_parse(text)
    }

    open spec fn spec_parse_error() -> Seq<char> {
        "invalid RecordStatus"@
    }

    fn parse_text(value: &str) -> (r: Result<RecordStatus, &'static str>) {
        RecordStatus::from_str(value)
    }
}

impl StatusText for PlanStatus {
    open spec fn spec_parse_text(text: Seq<char>) -> Option<PlanStatus> {
        PlanStatus::spec_parse(text)
    }

    open spec fn spec_parse_error() -> Seq<char> {
        "invalid PlanStatus"@
    }

    fn parse_text(value: &str) -> (r: Result<PlanStatus, &'static str>) {
        PlanStatus::from_str(value)
    }
}

impl StatusText for VaultStatus {
    open spec fn spec_parse_text(text: Seq<char>) -> Option<VaultStatus> {
        VaultStatus::spec_parse(text)
    }

    open spec fn spec_parse_error() -> Seq<char> {
        "invalid VaultStatus"@
    }

    fn parse_text(value: &str) -> (r: Result<VaultStatus, &'static str>) {
        VaultStatus::from_str(value)
    }
}

impl StatusText for MilestoneStatus {
    open spec fn spec_parse_text(text: Seq<char>) -> Option<MilestoneStatus> {
        MilestoneStatus::spec_parse(text)
    }

    open spec fn spec_parse_error() -> Seq<char> {
        "invalid MilestoneStatus"@
    }

    fn parse_text(value: &str) -> (r: Result<MilestoneStatus, &'static str>) {
        MilestoneStatus::from_str(value)
    }
}

impl StatusText for PayoutType {
    open spec fn spec_parse_text(text: Seq<char>) -> Option<PayoutType> {
        PayoutType::spec_parse(text)
    }

    open spec fn spec_parse_error() -> Seq<char> {
        "invalid PayoutType"@
    }

    fn parse_text(value: &str) -> (r: Result<PayoutType, &'static str>) {
        PayoutType::from_str(value)
    }
}

impl StatusText for SchoolVerificationStatus {
    open spec fn spec_parse_text(text: Seq<char>) -> Option<SchoolVerificationStatus> {
        SchoolVerificationStatus::spec_parse(text)
    }

    open spec fn spec_parse_error() -> Seq<char> {
        "invalid SchoolVerificationStatus"@
    }

    fn parse_text(value: &str) -> (r: Result<SchoolVerificationStatus, &'static str>) {
        SchoolVerificationStatus::from_str(value)
    }
}

impl StatusText for SchoolPayoutMethod {
    open spec fn spec_parse_text(text: Seq<char>) -> Option<SchoolPayoutMethod> {
        SchoolPayoutMethod::spec_parse(text)
    }

    open spec fn spec_parse_error() -> Seq<char> {
        "invalid SchoolPayoutMethod"@
    }

    fn parse_text(value: &str) -> (r: Result<SchoolPayoutMethod, &'static str>) {
        SchoolPayoutMethod::from_str(value)
    }
}

impl StatusText for ContributionStatus {
    open spec fn spec_parse_text(text: Seq<char>) -> Option<ContributionStatus> {
        ContributionStatus::spec_parse(text)
    }

    open spec fn spec_parse_error() -> Seq<char> {
        "invalid ContributionStatus"@
    }

    fn parse_text(value: &str) -> (r: Result<ContributionStatus, &'static str>) {
        ContributionStatus::from_str(value)
    }
}

impl StatusText for ContributionSourceType {
    open spec fn spec_parse_text(text: Seq<char>) -> Option<ContributionSourceType> {
        ContributionSourceType::spec_parse(text)
    }

    open spec fn spec_parse_error() -> Seq<char> {
        "invalid ContributionSourceType"@
    }

    fn parse_text(value: &str) -> (r: Result<ContributionSourceType, &'static str>) {
        ContributionSourceType::from_str(value)
    }
}

impl StatusText for PayoutStatus {
    open spec fn spec_parse_text(text: Seq<char>) -> Option<PayoutStatus> {
        PayoutStatus::spec_parse(text)
    }

    open spec fn spec_parse_error() -> Seq<char> {
        "invalid PayoutStatus"@
    }

    fn parse_text(value: &str) -> (r: Result<PayoutStatus, &'static str>) {
        PayoutStatus::from_str(value)
    }
}

impl StatusText for KycStatus {
    open spec fn spec_parse_text(text: Seq<char>) -> Option<KycStatus> {
        KycStatus::spec_parse(text)
    }

    open spec fn spec_parse_error() -> Seq<char> {
        "invalid KycStatus"@
    }

    fn parse_text(value: &str) -> (r: Result<KycStatus, &'static str>) {
        KycStatus::from_str(value)
    }
}

impl StatusText for ScholarshipPoolStatus {
    open spec fn spec_parse_text(text: Seq<char>) -> Option<ScholarshipPoolStatus> {
        ScholarshipPoolStatus::spec_parse(text)
    }

    open spec fn spec_parse_error() -> Seq<char> {
        "invalid ScholarshipPoolStatus"@
    }

    fn parse_text(value: &str) -> (r: Result<ScholarshipPoolStatus, &'static str>) {
        ScholarshipPoolStatus::from_str(value)
    }
}

impl StatusText for ScholarshipApplicationStatus {
    open spec fn spec_parse_text(text: Seq<char>) -> Option<ScholarshipApplicationStatus> {
        ScholarshipApplicationStatus::spec_parse(text)
    }

    open spec fn spec_parse_error() -> Seq<char> {
        "invalid ScholarshipApplicationStatus"@
    }

    fn parse_text(value: &str) -> (r: Result<ScholarshipApplicationStatus, &'static str>) {
        ScholarshipApplicationStatus::from_str(value)
    }
}

impl StatusText for ScholarshipAwardStatus {
    open spec fn spec_parse_text(text: Seq<char>) -> Option<ScholarshipAwardStatus> {
        ScholarshipAwardStatus::spec_parse(text)
    }

    open spec fn spec_parse_error() -> Seq<char> {
        "invalid ScholarshipAwardStatus"@
    }

    fn parse_text(value: &str) -> (r: Result<ScholarshipAwardStatus, &'static str>) {
        ScholarshipAwardStatus::from_str(value)
    }
}

impl StatusText for AchievementCredentialType {
    open spec fn spec_parse_text(text: Seq<char>) -> Option<AchievementCredentialType> {
        AchievementCredentialType::spec_parse(text)
    }

    open spec fn spec_parse_error() -> Seq<char> {
        "invalid AchievementCredentialType"@
    }

    fn parse_text(value: &str) -> (r: Result<AchievementCredentialType, &'static str>) {
        AchievementCredentialType::from_str(value)
    }
}

impl StatusText for AchievementCredentialStatus {
    open spec fn spec_parse_text(text: Seq<char>) -> Option<AchievementCredentialStatus> {
        AchievementCredentialStatus::spec_parse(text)
    }

    open spec fn spec_parse_error() -> Seq<char> {
        "invalid AchievementCredentialStatus"@
    }

    fn parse_text(value: &str) -> (r: Result<AchievementCredentialStatus, &'static str>) {
        AchievementCredentialStatus::from_str(value)
    }
}

impl StatusText for DonorContributionStatus {
    open spec fn spec_parse_text(text: Seq<char>) -> Option<DonorContributionStatus> {
        DonorContributionStatus::spec_parse(text)
    }

    open spec fn spec_parse_error() -> Seq<char> {
        "invalid DonorContributionStatus"@
    }

    fn parse_text(value: &str) -> (r: Result<DonorContributionStatus, &'static str>) {
        DonorContributionStatus::from_str(value)
    }
}

impl StatusText for NotificationStatus {
    open spec fn spec_parse_text(text: Seq<char>) -> Option<NotificationStatus> {
        NotificationStatus::spec_parse(text)
    }

    open spec fn spec_parse_error() -> Seq<char> {
        "invalid NotificationStatus"@
    }

    fn parse_text(value: &str) -> (r: Result<NotificationStatus, &'static str>) {
        NotificationStatus::from_str(value)
    }
}

impl StatusText for NotificationType {
    open spec fn spec_parse_text(text: Seq<char>) -> Option<NotificationType> {
        NotificationType::spec_parse(text)
    }

    open spec fn spec_parse_error() -> Seq<char> {
        "invalid NotificationType"@
    }

    fn parse_text(value: &str) -> (r: Result<NotificationType, &'static str>) {
        NotificationType::from_str(value)
    }
}

impl StatusText for ExternalReferenceEntityType {
    open spec fn spec_parse_text(text: Seq<char>) -> Option<ExternalReferenceEntityType> {
        ExternalReferenceEntityType::spec_parse(text)
    }

    open spec fn spec_parse_error() -> Seq<char> {
        "invalid ExternalReferenceEntityType"@
    }

    fn parse_text(value: &str) -> (r: Result<ExternalReferenceEntityType, &'static str>) {
        ExternalReferenceEntityType::from_str(value)
    }
}

impl StatusText for ExternalReferenceKind {
    open spec fn spec_parse_text(text: Seq<char>) -> Option<ExternalReferenceKind> {
        ExternalReferenceKind::spec_parse(text)
    }

    open spec fn spec_parse_error() -> Seq<char> {
        "invalid ExternalReferenceKind"@
    }

    fn parse_text(value: &str) -> (r: Result<ExternalReferenceKind, &'static str>) {
        ExternalReferenceKind::from_str(value)
    }
}

impl StatusText for BlockchainTransactionStatus {
    open spec fn spec_parse_text(text: Seq<char>) -> Option<BlockchainTransactionStatus> {
        BlockchainTransactionStatus::spec_parse(text)
    }

    open spec fn spec_parse_error() -> Seq<char> {
        "invalid BlockchainTransactionStatus"@
    }

    fn parse_text(value: &str) -> (r: Result<BlockchainTransactionStatus, &'static str>) {
        BlockchainTransactionStatus::from_str(value)
    }
}

} // verus!
