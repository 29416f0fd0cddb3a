//! The boundary to the Stellar and Soroban networks: the requests and results
//! of wallet provisioning, balance lookups, contract calls, submissions,
//! status lookups and event ingestion; the errors of the network mapped to
//! the platform's; and the stub adapter that answers every request locally.

use vstd::prelude::*;

use crate::platform::{now_micros, uuid_simple_text, uuid_to_simple_text};
use crate::shared::Money;
use crate::text::{chars_of, owned, push_char, push_text};

verus! {

/// A network of the Stellar family.
#[derive(Clone, Copy, Debug, PartialEq, Eq, Structural)]
pub enum BlockchainNetwork {
    Stellar,
    Soroban,
}

impl BlockchainNetwork {
    pub open spec fn spec_text(self) -> Seq<char> {
        match self {
            BlockchainNetwork::Stellar => "stellar"@,
            BlockchainNetwork::Soroban => "soroban"@,
        }
    }

    pub fn as_str(self) -> (s: &'static str)
        ensures
            s@ == self.spec_text(),
    {
        match self {
            BlockchainNetwork::Stellar => "stellar",
            BlockchainNetwork::Soroban => "soroban",
        }
    }
}

/// Who holds a wallet's keys.
#[derive(Clone, Copy, Debug, PartialEq, Eq, Structural)]
pub enum WalletCustodyModel {
    Custodial,
    NonCustodial,
}

/// Who signs a transaction.
#[derive(Debug)]
pub enum SigningBoundary {
    PlatformCustodied { key_reference: String },
    UserControlled { account_id: String },
    PreSignedEnvelope { envelope_xdr: String },
}

impl SigningBoundary {
    /// A copy of this boundary.
    pub fn duplicate(&self) -> (s: SigningBoundary)
        ensures
            s == *self,
    {
        match self {
            SigningBoundary::PlatformCustodied { key_reference } => SigningBoundary::PlatformCustodied {
                key_reference: key_reference.clone(),
            },
            SigningBoundary::UserControlled { account_id } => SigningBoundary::UserControlled {
                account_id: account_id.clone(),
            },
            SigningBoundary::PreSignedEnvelope { envelope_xdr } => SigningBoundary::PreSignedEnvelope {
                envelope_xdr: envelope_xdr.clone(),
            },
        }
    }
}

/// A wallet to create on a network for a user.
#[derive(Debug)]
pub struct WalletProvisioningRequest {
    pub wallet_id: u128,
    pub owner_user_id: u128,
    pub network: BlockchainNetwork,
    pub custody_model: WalletCustodyModel,
    pub label: Option<String>,
}

/// A wallet created on a network.
#[derive(Debug)]
pub struct ProvisionedWallet {
    pub wallet_id: u128,
    pub network: BlockchainNetwork,
    pub custody_model: WalletCustodyModel,
    pub stellar_account_id: String,
    pub signing_boundary: SigningBoundary,
}

/// An account whose USDC balance is asked for.
#[derive(Debug)]
pub struct UsdcBalanceLookupRequest {
    pub stellar_account_id: String,
}

/// The USDC balance of an account.
#[derive(Debug)]
pub struct UsdcBalance {
    pub stellar_account_id: String,
    pub balance_minor: i64,
    pub decimals: u32,
    pub last_ledger: Option<u64>,
}

/// An argument of a contract call.
#[derive(Debug)]
pub enum ContractArgument {
    Address(String),
    Integer(i64),
    Unsigned(u64),
    Text(String),
}

/// A call of a vault contract to prepare.
#[derive(Debug)]
pub struct VaultContractCallRequest {
    pub operation_id: String,
    pub contract_id: String,
    pub method: String,
    pub args: Vec<ContractArgument>,
    pub amount: Option<Money>,
    pub signing_boundary: SigningBoundary,
}

/// A transaction ready to be signed and submitted.
#[derive(Debug)]
pub struct PreparedTransaction {
    pub operation_id: String,
    pub network: BlockchainNetwork,
    pub source_account_id: String,
    pub contract_id: Option<String>,
    pub unsigned_envelope_xdr: String,
    pub signing_boundary: SigningBoundary,
}

impl PreparedTransaction {
    /// A copy of this transaction.
    pub fn duplicate(&self) -> (t: PreparedTransaction)
        ensures
            t == *self,
    {
        PreparedTransaction {
            operation_id: self.operation_id.clone(),
            network: self.network,
            source_account_id: self.source_account_id.clone(),
            contract_id: match &self.contract_id {
                Some(c) => Some(c.clone()),
                None => None,
            },
            unsigned_envelope_xdr: self.unsigned_envelope_xdr.clone(),
            signing_boundary: self.signing_boundary.duplicate(),
        }
    }
}

/// A prepared transaction to submit, with its authorization.
#[derive(Debug)]
pub struct TransactionSubmissionRequest {
    pub operation_id: String,
    pub prepared_transaction: PreparedTransaction,
    pub authorization: SigningBoundary,
}

/// Where a submitted transaction stands.
#[derive(Clone, Copy, Debug, PartialEq, Eq, Structural)]
pub enum TransactionState {
    Pending,
    Succeeded,
    Failed,
    Unknown,
}

/// A transaction handed to the network; the instant is in microseconds since
/// the Unix epoch.
#[derive(Debug)]
pub struct SubmittedTransaction {
    pub operation_id: String,
    pub tx_hash: String,
    pub state: TransactionState,
    pub submitted_at: i64,
}

/// A transaction whose status is asked for.
#[derive(Debug)]
pub struct TransactionStatusRequest {
    pub tx_hash: String,
}

/// The status of a transaction as observed on the network.
#[derive(Debug)]
pub struct TransactionStatus {
    pub tx_hash: String,
    pub state: TransactionState,
    pub ledger: Option<u64>,
    pub retryable: bool,
    pub error_code: Option<String>,
    pub error_message: Option<String>,
    pub observed_at: i64,
}

/// A position in a stream of network events.
#[derive(Debug)]
pub struct EventCursor {
    pub stream: String,
    pub position: String,
}

/// Events to read from a position, at most `limit` of them.
#[derive(Debug)]
pub struct EventIngestionRequest {
    pub cursor: Option<EventCursor>,
    pub limit: usize,
}

/// An event observed on the network.
#[derive(Debug)]
pub struct BlockchainEvent {
    pub event_id: String,
    pub network: BlockchainNetwork,
    pub contract_id: Option<String>,
    pub tx_hash: Option<String>,
    pub topic: String,
    pub payload: String,
    pub ledger: Option<u64>,
    pub observed_at: i64,
}

/// Events read, and where to read on from.
#[derive(Debug)]
pub struct EventBatch {
    pub events: Vec<BlockchainEvent>,
    pub next_cursor: Option<EventCursor>,
}

/// Kinds of failure at the network boundary.
#[derive(Clone, Copy, Debug, PartialEq, Eq, Structural)]
pub enum BlockchainErrorCode {
    Validation,
    Unauthorized,
    NotFound,
    Conflict,
    InsufficientFunds,
    SignatureRequired,
    SubmissionRejected,
    Timeout,
    RateLimited,
    Unavailable,
    Internal,
}

impl BlockchainErrorCode {
    /// The name of the kind, as it is shown in messages.
    pub open spec fn spec_name(self) -> Seq<char> {
        match self {
            BlockchainErrorCode::Validation => "Validation"@,
            BlockchainErrorCode::Unauthorized => "Unauthorized"@,
            BlockchainErrorCode::NotFound => "NotFound"@,
            BlockchainErrorCode::Conflict => "Conflict"@,
            BlockchainErrorCode::InsufficientFunds => "InsufficientFunds"@,
            BlockchainErrorCode::SignatureRequired => "SignatureRequired"@,
            BlockchainErrorCode::SubmissionRejected => "SubmissionRejected"@,
            BlockchainErrorCode::Timeout => "Timeout"@,
            BlockchainErrorCode::RateLimited => "RateLimited"@,
            BlockchainErrorCode::Unavailable => "Unavailable"@,
            BlockchainErrorCode::Internal => "Internal"@,
        }
    }

    pub fn name(self) -> (s: &'static str)
        ensures
            s@ == self.spec_name(),
    {
        match self {
            BlockchainErrorCode::Validation => "Validation",
            BlockchainErrorCode::Unauthorized => "Unauthorized",
            BlockchainErrorCode::NotFound => "NotFound",
            BlockchainErrorCode::Conflict => "Conflict",
            BlockchainErrorCode::InsufficientFunds => "InsufficientFunds",
            BlockchainErrorCode::SignatureRequired => "SignatureRequired",
            BlockchainErrorCode::SubmissionRejected => "SubmissionRejected",
            BlockchainErrorCode::Timeout => "Timeout",
            BlockchainErrorCode::RateLimited => "RateLimited",
            BlockchainErrorCode::Unavailable => "Unavailable",
            BlockchainErrorCode::Internal => "Internal",
        }
    }
}

/// A failure at the network boundary: its kind, message, whether trying
/// again may help, the provider that reported it and the provider's own code.
#[derive(Debug)]
pub struct BlockchainError {
    pub code: BlockchainErrorCode,
    pub message: String,
    pub retryable: bool,
    pub provider: &'static str,
    pub external_code: Option<String>,
}

impl BlockchainError {
    pub fn new(code: BlockchainErrorCode, message: String, retryable: bool, provider: &'static str) -> (e:
        BlockchainError)
        ensures
            e.code == code,
            e.message == message,
            e.retryable == retryable,
            e.provider == provider,
            e.external_code is None,
    {
        BlockchainError { code, message, retryable, provider, external_code: None }
    }

    /// The same error with the provider's own code attached.
    pub fn with_external_code(self, code: String) -> (e: BlockchainError)
        ensures
            e.code == self.code,
            e.message == self.message,
            e.retryable == self.retryable,
            e.provider == self.provider,
            e.external_code == Some(code),
    {
        let mut e = self;
        e.external_code = Some(code);
        e
    }

    /// The network cannot be reached now; trying again may help.
    pub fn unavailable(message: String) -> (e: BlockchainError)
        ensures
            e.code == BlockchainErrorCode::Unavailable,
            e.message == message,
            e.retryable,
            e.provider@ == "stellar_soroban_stub"@,
            e.external_code is None,
    {
        BlockchainError::new(BlockchainErrorCode::Unavailable, message, true, "stellar_soroban_stub")
    }

    /// The message followed by the kind in parentheses.
    pub fn to_string(&self) -> (s: String)
        ensures
            s@ == self.message@ + " ("@ + self.code.spec_name() + ")"@,
    {
        let mut s = self.message.clone();
        push_text(&mut s, " (");
        push_text(&mut s, self.code.name());
        push_text(&mut s, ")");
        s
    }
}

/// Failures as the Stellar network reports them.
#[derive(Clone, Copy, Debug, PartialEq, Eq, Structural)]
pub enum StellarProviderError {
    BadRequest,
    Unauthorized,
    AccountMissing,
    ContractMissing,
    DuplicateTransaction,
    SimulationFailed,
    InsufficientFunds,
    Timeout,
    RateLimited,
    RpcUnavailable,
    Unknown,
}

/// The platform's kind, retryability and provider for each network failure.
pub open spec fn spec_provider_mapping(e: StellarProviderError) -> (BlockchainErrorCode, bool, Seq<char>) {
    match e {
        StellarProviderError::BadRequest => (BlockchainErrorCode::Validation, false, "stellar"@),
        StellarProviderError::Unauthorized => (BlockchainErrorCode::Unauthorized, false, "stellar"@),
        StellarProviderError::AccountMissing => (BlockchainErrorCode::NotFound, false, "stellar"@),
        StellarProviderError::ContractMissing => (BlockchainErrorCode::NotFound, false, "stellar"@),
        StellarProviderError::DuplicateTransaction => (BlockchainErrorCode::Conflict, false, "stellar"@),
        StellarProviderError::SimulationFailed => (BlockchainErrorCode::SubmissionRejected, false, "soroban"@),
        StellarProviderError::InsufficientFunds => (BlockchainErrorCode::InsufficientFunds, false, "stellar"@),
        StellarProviderError::Timeout => (BlockchainErrorCode::Timeout, true, "stellar"@),
        StellarProviderError::RateLimited => (BlockchainErrorCode::RateLimited, true, "stellar"@),
        StellarProviderError::RpcUnavailable => (BlockchainErrorCode::Unavailable, true, "soroban"@),
        StellarProviderError::Unknown => (BlockchainErrorCode::Internal, true, "stellar"@),
    }
}

/// The platform's error for a network failure, with the given detail as its message.
pub fn map_stellar_provider_error(provider_error: StellarProviderError, detail: String) -> (e: BlockchainError)
    ensures
        e.code == spec_provider_mapping(provider_error).0,
        e.retryable == spec_provider_mapping(provider_error).1,
        e.provider@ == spec_provider_mapping(provider_error).2,
        e.message == detail,
        e.external_code is None,
{
    match provider_error {
        StellarProviderError::BadRequest => BlockchainError::new(
            BlockchainErrorCode::Validation,
            detail,
            false,
            "stellar",
        ),
        StellarProviderError::Unauthorized => BlockchainError::new(
            BlockchainErrorCode::Unauthorized,
            detail,
            false,
            "stellar",
        ),
        StellarProviderError::AccountMissing | StellarProviderError::ContractMissing => BlockchainError::new(
            BlockchainErrorCode::NotFound,
            detail,
            false,
            "stellar",
        ),
        StellarProviderError::DuplicateTransaction => BlockchainError::new(
            BlockchainErrorCode::Conflict,
            detail,
            false,
            "stellar",
        ),
        StellarProviderError::SimulationFailed => BlockchainError::new(
            BlockchainErrorCode::SubmissionRejected,
            detail,
            false,
            "soroban",
        ),
        StellarProviderError::InsufficientFunds => BlockchainError::new(
            BlockchainErrorCode::InsufficientFunds,
            detail,
            false,
            "stellar",
        ),
        StellarProviderError::Timeout => BlockchainError::new(
            BlockchainErrorCode::Timeout,
            detail,
            true,
            "stellar",
        ),
        StellarProviderError::RateLimited => BlockchainError::new(
            BlockchainErrorCode::RateLimited,
            detail,
            true,
            "stellar",
        ),
        StellarProviderError::RpcUnavailable => BlockchainError::new(
            BlockchainErrorCode::Unavailable,
            detail,
            true,
            "soroban",
        ),
        StellarProviderError::Unknown => BlockchainError::new(
            BlockchainErrorCode::Internal,
            detail,
            true,
            "stellar",
        ),
    }
}

/// Only timeouts, rate limits, an unreachable RPC and unknown failures are
/// worth trying again.
pub proof fn lemma_retryable_provider_errors(e: StellarProviderError)
    ensures
        spec_provider_mapping(e).1 <==> (e == StellarProviderError::Timeout || e
            == StellarProviderError::RateLimited || e == StellarProviderError::RpcUnavailable || e
            == StellarProviderError::Unknown),
{
}


/// Creates wallets on a network.
pub trait WalletProvisioner {
    fn provision_wallet(&self, request: WalletProvisioningRequest) -> Result<ProvisionedWallet, BlockchainError>;
}

/// Looks up USDC balances.
pub trait UsdcBalanceLookup {
    fn lookup_usdc_balance(&self, request: UsdcBalanceLookupRequest) -> Result<UsdcBalance, BlockchainError>;
}

/// Prepares calls of vault contracts.
pub trait VaultContractClient {
    fn prepare_vault_call(&self, request: VaultContractCallRequest) -> Result<PreparedTransaction, BlockchainError>;
}

/// Submits transactions.
pub trait TransactionSubmitter {
    fn submit_transaction(&self, request: TransactionSubmissionRequest) -> Result<SubmittedTransaction, BlockchainError>;
}

/// Looks up the status of transactions.
pub trait TransactionStatusLookup {
    fn lookup_transaction_status(&self, request: TransactionStatusRequest) -> Result<TransactionStatus, BlockchainError>;
}

/// Reads events from the network.
pub trait EventIngestor {
    fn ingest_events(&self, request: EventIngestionRequest) -> Result<EventBatch, BlockchainError>;
}

/// The Stellar and Soroban adapter. Live network calls are not implemented:
/// in stub mode every request is answered locally, otherwise it fails as
/// unavailable.
#[derive(Debug)]
pub struct StellarSorobanAdapter {
    pub network: BlockchainNetwork,
    pub horizon_url: Option<String>,
    pub rpc_url: Option<String>,
    pub usdc_issuer: Option<String>,
    pub stub_mode: bool,
}

impl Default for StellarSorobanAdapter {
    /// A Soroban adapter in stub mode, with no endpoints.
    fn default() -> (a: StellarSorobanAdapter)
        ensures
            a.network == BlockchainNetwork::Soroban,
            a.horizon_url is None && a.rpc_url is None && a.usdc_issuer is None,
            a.stub_mode,
    {
        StellarSorobanAdapter {
            network: BlockchainNetwork::Soroban,
            horizon_url: None,
            rpc_url: None,
            usdc_issuer: None,
            stub_mode: true,
        }
    }
}

/// `e` is the failure of an adapter that is not in stub mode.
pub open spec fn is_live_unavailable(e: BlockchainError) -> bool {
    &&& e.code == BlockchainErrorCode::Unavailable
    &&& e.retryable
    &&& e.message@ == "live Stellar/Soroban RPC calls are not implemented yet"@
    &&& e.provider@ == "stellar_soroban_stub"@
    &&& e.external_code is None
}

impl StellarSorobanAdapter {
    pub fn ensure_stub_mode(&self) -> (r: Result<(), BlockchainError>)
        ensures
            r is Ok <==> self.stub_mode,
            r matches Err(e) ==> is_live_unavailable(e),
    {
        if self.stub_mode {
            Ok(())
        } else {
            Err(BlockchainError::unavailable(owned("live Stellar/Soroban RPC calls are not implemented yet")))
        }
    }
}

/// `prefix` followed by the 32 hexadecimal digits of `id`.
fn prefixed_simple(prefix: &str, id: u128) -> (s: String)
    ensures
        s@ == prefix@ + uuid_simple_text(id),
{
    let mut s = owned(prefix);
    let digits = uuid_to_simple_text(id);
    push_text(&mut s, digits.as_str());
    s
}

/// The account a stub wallet gets: `G` and the wallet's 32 hexadecimal digits.
pub open spec fn spec_stub_account(wallet_id: u128) -> Seq<char> {
    "G"@ + uuid_simple_text(wallet_id)
}

impl WalletProvisioner for StellarSorobanAdapter {
    /// A wallet whose account is named after the wallet; a custodial wallet is
    /// signed with a platform key named after it, a non-custodial one by its account.
    fn provision_wallet(&self, request: WalletProvisioningRequest) -> (r: Result<ProvisionedWallet, BlockchainError>)
        ensures
            !self.stub_mode ==> (r matches Err(e) && is_live_unavailable(e)),
            self.stub_mode ==> (r matches Ok(w) && {
                &&& w.wallet_id == request.wallet_id
                &&& w.network == request.network
                &&& w.custody_model == request.custody_model
                &&& w.stellar_account_id@ == spec_stub_account(request.wallet_id)
                &&& match request.custody_model {
                    WalletCustodyModel::Custodial => w.signing_boundary matches SigningBoundary::PlatformCustodied { key_reference }
                        && key_reference@ == "stellar-key:"@ + uuid_simple_text(request.wallet_id),
                    WalletCustodyModel::NonCustodial => w.signing_boundary matches SigningBoundary::UserControlled { account_id }
                        && account_id@ == spec_stub_account(request.wallet_id),
                }
            }),
    {
        self.ensure_stub_mode()?;
        let account_id = prefixed_simple("G", request.wallet_id);
        let signing_boundary = match request.custody_model {
            WalletCustodyModel::Custodial => SigningBoundary::PlatformCustodied {
                key_reference: prefixed_simple("stellar-key:", request.wallet_id),
            },
            WalletCustodyModel::NonCustodial => SigningBoundary::UserControlled { account_id: account_id.clone() },
        };
        Ok(ProvisionedWallet {
            wallet_id: request.wallet_id,
            network: request.network,
            custody_model: request.custody_model,
            stellar_account_id: account_id,
            signing_boundary,
        })
    }
}

impl UsdcBalanceLookup for StellarSorobanAdapter {
    /// A zero balance with seven decimals and no ledger.
    fn lookup_usdc_balance(&self, request: UsdcBalanceLookupRequest) -> (r: Result<UsdcBalance, BlockchainError>)
        ensures
            !self.stub_mode ==> (r matches Err(e) && is_live_unavailable(e)),
            self.stub_mode ==> (r matches Ok(b) && b.stellar_account_id == request.stellar_account_id
                && b.balance_minor == 0 && b.decimals == 7 && b.last_ledger is None),
    {
        self.ensure_stub_mode()?;
        Ok(UsdcBalance {
            stellar_account_id: request.stellar_account_id,
            balance_minor: 0,
            decimals: 7,
            last_ledger: None,
        })
    }
}

/// The account a call is made from: the key reference or account of the
/// signer, or a placeholder for a pre-signed envelope.
pub open spec fn spec_source_account(b: SigningBoundary) -> Seq<char> {
    match b {
        SigningBoundary::PlatformCustodied { key_reference } => key_reference@,
        SigningBoundary::UserControlled { account_id } => account_id@,
        SigningBoundary::PreSignedEnvelope { .. } => "presigned-envelope"@,
    }
}

impl VaultContractClient for StellarSorobanAdapter {
    /// A placeholder envelope on the adapter's network, from the signer's account.
    fn prepare_vault_call(&self, request: VaultContractCallRequest) -> (r: Result<PreparedTransaction, BlockchainError>)
        ensures
            !self.stub_mode ==> (r matches Err(e) && is_live_unavailable(e)),
            self.stub_mode ==> (r matches Ok(t) && {
                &&& t.operation_id == request.operation_id
                &&& t.network == self.network
                &&& t.source_account_id@ == spec_source_account(request.signing_boundary)
                &&& t.contract_id == Some(request.contract_id)
                &&& t.unsigned_envelope_xdr@ == "AAAA-stubbed-xdr"@
                &&& t.signing_boundary == request.signing_boundary
            }),
    {
        self.ensure_stub_mode()?;
        let source_account_id = match &request.signing_boundary {
            SigningBoundary::PlatformCustodied { key_reference } => key_reference.clone(),
            SigningBoundary::UserControlled { account_id } => account_id.clone(),
            SigningBoundary::PreSignedEnvelope { .. } => owned("presigned-envelope"),
        };
        Ok(PreparedTransaction {
            operation_id: request.operation_id,
            network: self.network,
            source_account_id,
            contract_id: Some(request.contract_id),
            unsigned_envelope_xdr: owned("AAAA-stubbed-xdr"),
            signing_boundary: request.signing_boundary,
        })
    }
}

/// Whether a character is an ASCII letter or digit.
pub open spec fn is_ascii_alnum(c: char) -> bool {
    ('a' <= c && c <= 'z') || ('A' <= c && c <= 'Z') || ('0' <= c && c <= '9')
}

/// `value` with every character that is not an ASCII letter or digit replaced by `-`.
pub open spec fn spec_sanitize_identifier(value: Seq<char>) -> Seq<char> {
    value.map_values(|c: char| if is_ascii_alnum(c) { c } else { '-' })
}

pub fn sanitize_identifier(value: &str) -> (r: String)
    ensures
        r@ == spec_sanitize_identifier(value@),
{
    let chars = chars_of(value);
    let mut r = String::new();
    let mut i: usize = 0;
    while i < chars.len()
        invariant
            i <= chars.len(),
            chars@ == value@,
            r@ == spec_sanitize_identifier(value@.take(i as int)),
        decreases chars.len() - i,
    {
        let c = chars[i];
        let d = if ('a' <= c && c <= 'z') || ('A' <= c && c <= 'Z') || ('0' <= c && c <= '9') {
            c
        } else {
            '-'
        };
        push_char(&mut r, d);
        assert(spec_sanitize_identifier(value@.take(i + 1)) =~= spec_sanitize_identifier(value@.take(i as int)).push(d));
        i = i + 1;
    }
    assert(value@.take(chars.len() as int) =~= value@);
    r
}

impl TransactionSubmitter for StellarSorobanAdapter {
    /// A pending submission whose hash is `stub-tx-` and the sanitized operation.
    fn submit_transaction(&self, request: TransactionSubmissionRequest) -> (r: Result<SubmittedTransaction, BlockchainError>)
        ensures
            !self.stub_mode ==> (r matches Err(e) && is_live_unavailable(e)),
            self.stub_mode ==> (r matches Ok(t) && t.operation_id == request.operation_id && t.tx_hash@
                == "stub-tx-"@ + spec_sanitize_identifier(request.operation_id@) && t.state
                == TransactionState::Pending),
    {
        self.ensure_stub_mode()?;
        let mut tx_hash = owned("stub-tx-");
        let clean = sanitize_identifier(request.operation_id.as_str());
        push_text(&mut tx_hash, clean.as_str());
        Ok(SubmittedTransaction {
            operation_id: request.operation_id.clone(),
            tx_hash,
            state: TransactionState::Pending,
            submitted_at: now_micros(),
        })
    }
}

impl TransactionStatusLookup for StellarSorobanAdapter {
    /// Every transaction is still pending, and asking again may help.
    fn lookup_transaction_status(&self, request: TransactionStatusRequest) -> (r: Result<TransactionStatus, BlockchainError>)
        ensures
            !self.stub_mode ==> (r matches Err(e) && is_live_unavailable(e)),
            self.stub_mode ==> (r matches Ok(s) && s.tx_hash == request.tx_hash && s.state
                == TransactionState::Pending && s.ledger is None && s.retryable && s.error_code is None
                && s.error_message is None),
    {
        self.ensure_stub_mode()?;
        Ok(TransactionStatus {
            tx_hash: request.tx_hash,
            state: TransactionState::Pending,
            ledger: None,
            retryable: true,
            error_code: None,
            error_message: None,
            observed_at: now_micros(),
        })
    }
}

impl EventIngestor for StellarSorobanAdapter {
    /// No events; the cursor, if any, moves to its position followed by `:noop`.
    fn ingest_events(&self, request: EventIngestionRequest) -> (r: Result<EventBatch, BlockchainError>)
        ensures
            !self.stub_mode ==> (r matches Err(e) && is_live_unavailable(e)),
            self.stub_mode ==> (r matches Ok(b) && b.events@.len() == 0 && match request.cursor {
                None => b.next_cursor is None,
                Some(c) => b.next_cursor matches Some(n) && n.stream == c.stream && n.position@
                    == c.position@ + ":noop"@,
            }),
    {
        self.ensure_stub_mode()?;
        let next_cursor = match request.cursor {
            None => None,
            Some(cursor) => {
                let mut position = cursor.position;
                push_text(&mut position, ":noop");
                Some(EventCursor { stream: cursor.stream, position })
            },
        };
        Ok(EventBatch { events: Vec::new(), next_cursor })
    }
}


/// A sanitized identifier is as long as the text it came from and holds only
/// ASCII letters, digits and `-`; sanitizing it again changes nothing.
pub proof fn lemma_sanitized_identifier_shape(value: Seq<char>)
    ensures
        spec_sanitize_identifier(value).len() == value.len(),
        forall|k: int|
            0 <= k < value.len() ==> is_ascii_alnum(#[trigger] spec_sanitize_identifier(value)[k])
                || spec_sanitize_identifier(value)[k] == '-',
        spec_sanitize_identifier(spec_sanitize_identifier(value)) == spec_sanitize_identifier(value),
{
    assert(spec_sanitize_identifier(spec_sanitize_identifier(value)) =~= spec_sanitize_identifier(value));
}

} // verus!
