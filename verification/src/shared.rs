//! Values shared by every part of the platform: currencies, money amounts,
//! error codes, pagination and typed identifiers.

use vstd::prelude::*;
use vstd::std_specs::cmp::PartialEqSpecImpl;

use crate::text::{chars_of, lemma_utf8_len_prefix_le, owned, str_eq, utf8_len, utf8_width};

verus! {

/// A currency: the USDC stablecoin or a fiat currency by its code.
#[derive(Debug)]
pub enum Currency {
    Usdc,
    Fiat(String),
}

impl Currency {
    /// The code that stands for this currency.
    pub open spec fn spec_text(&self) -> Seq<char> {
        match self {
            Currency::Usdc => "USDC"@,
            Currency::Fiat(code) => code@,
        }
    }

    /// The currency that a code stands for, if any.
    pub open spec fn spec_parse(text: Seq<char>) -> Option<Seq<char>> {
        if text == "USDC"@ {
            Some("USDC"@)
        } else if utf8_len(text) == 3 {
            Some(text)
        } else {
            None
        }
    }

    pub fn as_str(&self) -> (code: &str)
        ensures
            code@ == self.spec_text(),
    {
        match self {
            Currency::Usdc => "USDC",
            Currency::Fiat(code) => code.as_str(),
        }
    }

    /// Reads a currency code: `USDC`, or any other code of three bytes as a fiat currency.
    pub fn from_str(value: &str) -> (parsed: Result<Currency, &'static str>)
        ensures
            parsed matches Ok(c) ==> Self::spec_parse(value@) == Some(c.spec_text()) && (c is Usdc
                <==> value@ == "USDC"@),
            parsed matches Err(e) ==> Self::spec_parse(value@) is None && e@ == "invalid currency"@,
    {
        if str_eq(value, "USDC") {
            Ok(Currency::Usdc)
        } else if utf8_len_is(value, 3) {
            Ok(Currency::Fiat(owned(value)))
        } else {
            Err("invalid currency")
        }
    }

    /// Whether two currencies are the same: both USDC, or fiat with the same code.
    pub open spec fn same_as(&self, other: &Currency) -> bool {
        match (self, other) {
            (Currency::Usdc, Currency::Usdc) => true,
            (Currency::Fiat(a), Currency::Fiat(b)) => a@ == b@,
            _ => false,
        }
    }

    /// A copy of this currency.
    pub fn duplicate(&self) -> (c: Currency)
        ensures
            c == *self,
    {
        match self {
            Currency::Usdc => Currency::Usdc,
            Currency::Fiat(code) => Currency::Fiat(code.clone()),
        }
    }
}

impl Clone for Currency {
    fn clone(&self) -> (c: Currency)
        ensures
            c == *self,
    {
        self.duplicate()
    }
}

impl PartialEq for Currency {
    fn eq(&self, other: &Currency) -> (r: bool) {
        match (self, other) {
            (Currency::Usdc, Currency::Usdc) => true,
            (Currency::Fiat(a), Currency::Fiat(b)) => a.eq(b),
            _ => false,
        }
    }
}

impl PartialEqSpecImpl for Currency {
    open spec fn obeys_eq_spec() -> bool {
        true
    }

    open spec fn eq_spec(&self, other: &Currency) -> bool {
        self.same_as(other)
    }
}

impl Eq for Currency {}

/// Whether the UTF-8 length of `s` is exactly `n` bytes.
pub fn utf8_len_is(s: &str, n: usize) -> (r: bool)
    ensures
        r == (utf8_len(s@) == n),
{
    let v = chars_of(s);
    let mut total: usize = 0;
    let mut i: usize = 0;
    while i < v.len()
        invariant
            i <= v.len(),
            v@ == s@,
            total == utf8_len(v@.take(i as int)),
            total <= n,
        decreases v.len() - i,
    {
        let c = v[i];
        let u = c as u32;
        let w: usize = if u < 0x80 {
            1
        } else if u < 0x800 {
            2
        } else if u < 0x10000 {
            3
        } else {
            4
        };
        assert(v@.take(i + 1).drop_last() =~= v@.take(i as int));
        assert(v@.take(i + 1).last() == c);
        assert(w == utf8_width(c));
        if w > n - total {
            proof {
                lemma_utf8_len_prefix_le(v@, i + 1);
            }
            assert(v@.take(v.len() as int) =~= v@);
            return false;
        }
        total = total + w;
        i = i + 1;
    }
    assert(v@.take(v.len() as int) =~= v@);
    total == n
}

/// An amount of money in minor units (cents) of a currency.
#[derive(Debug)]
pub struct Money {
    pub amount_minor: i64,
    pub currency: Currency,
}

impl Money {
    /// Money of a non-negative amount; a negative amount is refused.
    pub fn new(amount_minor: i64, currency: Currency) -> (m: Result<Money, &'static str>)
        ensures
            amount_minor >= 0 <==> m is Ok,
            m matches Ok(v) ==> v.amount_minor == amount_minor && v.currency == currency,
            m matches Err(e) ==> e@ == "amount must be non-negative"@,
    {
        if amount_minor < 0 {
            return Err("amount must be non-negative");
        }
        Ok(Money { amount_minor, currency })
    }

    /// A copy of this amount.
    pub fn duplicate(&self) -> (m: Money)
        ensures
            m == *self,
    {
        Money { amount_minor: self.amount_minor, currency: self.currency.duplicate() }
    }
}

/// A page of a listing.
#[derive(Clone, Copy, Debug, PartialEq, Eq, Structural)]
pub struct Pagination {
    pub page: u64,
    pub per_page: u64,
}

impl Default for Pagination {
    /// The first page, twenty items long.
    fn default() -> (p: Pagination)
        ensures
            p.page == 1 && p.per_page == 20,
    {
        Pagination { page: 1, per_page: 20 }
    }
}

/// Identifier of a user.
#[derive(Clone, Copy, Debug, PartialEq, Eq, Hash, Structural)]
pub struct UserId(pub u128);

/// Identifier of a savings plan.
#[derive(Clone, Copy, Debug, PartialEq, Eq, Hash, Structural)]
pub struct PlanId(pub u128);

/// Identifier of a savings vault.
#[derive(Clone, Copy, Debug, PartialEq, Eq, Hash, Structural)]
pub struct VaultId(pub u128);

/// Identifier of a milestone.
#[derive(Clone, Copy, Debug, PartialEq, Eq, Hash, Structural)]
pub struct MilestoneId(pub u128);

/// Identifier of a contribution.
#[derive(Clone, Copy, Debug, PartialEq, Eq, Hash, Structural)]
pub struct ContributionId(pub u128);

/// Identifier of a payout request.
#[derive(Clone, Copy, Debug, PartialEq, Eq, Hash, Structural)]
pub struct PayoutId(pub u128);

/// Identifier of a school.
#[derive(Clone, Copy, Debug, PartialEq, Eq, Hash, Structural)]
pub struct SchoolId(pub u128);

/// Identifier of an audit log entry.
#[derive(Clone, Copy, Debug, PartialEq, Eq, Hash, Structural)]
pub struct AuditLogId(pub u128);

/// Stable machine-readable codes of error responses.
#[derive(Clone, Copy, Debug, PartialEq, Eq, Structural)]
pub enum ErrorCode {
    Internal,
    InfrastructureUnavailable,
    Validation,
    InvalidCredentials,
    Forbidden,
    NotFound,
    Conflict,
    EmailAlreadyExists,
}

impl ErrorCode {
    /// The text that stands for this value.
    pub open spec fn spec_text(self) -> Seq<char> {
        match self {
            ErrorCode::Internal => "INTERNAL_ERROR"@,
            ErrorCode::InfrastructureUnavailable => "INFRASTRUCTURE_UNAVAILABLE"@,
            ErrorCode::Validation => "VALIDATION_ERROR"@,
            ErrorCode::InvalidCredentials => "INVALID_CREDENTIALS"@,
            ErrorCode::Forbidden => "FORBIDDEN"@,
            ErrorCode::NotFound => "NOT_FOUND"@,
            ErrorCode::Conflict => "CONFLICT"@,
            ErrorCode::EmailAlreadyExists => "EMAIL_ALREADY_EXISTS"@,
        }
    }

    pub fn as_str(&self) -> (text: &'static str)
        ensures
            text@ == self.spec_text(),
    {
        match self {
            ErrorCode::Internal => "INTERNAL_ERROR",
            ErrorCode::InfrastructureUnavailable => "INFRASTRUCTURE_UNAVAILABLE",
            ErrorCode::Validation => "VALIDATION_ERROR",
            ErrorCode::InvalidCredentials => "INVALID_CREDENTIALS",
            ErrorCode::Forbidden => "FORBIDDEN",
            ErrorCode::NotFound => "NOT_FOUND",
            ErrorCode::Conflict => "CONFLICT",
            ErrorCode::EmailAlreadyExists => "EMAIL_ALREADY_EXISTS",
        }
    }

}


/// Reading back the code of USDC, or of a fiat currency with a three-byte
/// code, gives the same code.
pub proof fn lemma_currency_code_round_trip(c: Currency)
    requires
        c is Usdc || utf8_len(c.spec_text()) == 3,
    ensures
        Currency::spec_parse(c.spec_text()) == Some(c.spec_text()),
{
}

} // verus!
