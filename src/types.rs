use vstd::prelude::*;

verus! {

/// A token identifier: assigned from zero upwards, never reused.
pub type TokenId = u128;

/// A 256-bit account identity, held as its high and low 128-bit halves.
#[derive(Clone, Copy, Debug, PartialEq, Eq, Structural, Hash)]
pub struct ActorId {
    pub high: u128,
    pub low: u128,
}

/// The reserved identity that can never own or be approved for a token.
pub open spec fn zero_id() -> ActorId {
    ActorId { high: 0, low: 0 }
}

impl ActorId {
    pub fn new(high: u128, low: u128) -> (r: ActorId)
        ensures
            r.high == high,
            r.low == low,
    {
        ActorId { high, low }
    }

    /// The identity whose low half is `v` and whose high half is zero.
    pub fn from_u64(v: u64) -> (r: ActorId)
        ensures
            r.high == 0,
            r.low == v as u128,
    {
        ActorId { high: 0, low: v as u128 }
    }

    pub fn zero() -> (r: ActorId)
        ensures
            r == zero_id(),
    {
        ActorId { high: 0, low: 0 }
    }

    pub fn is_zero(&self) -> (r: bool)
        ensures
            r == (*self == zero_id()),
    {
        self.high == 0 && self.low == 0
    }
}

/// Sale configuration. All amounts are in the runtime's value unit; the sale
/// time is in seconds.
#[derive(Debug, PartialEq, Eq)]
pub struct Config {
    pub supply_limit: u128,
    pub mint_price: u128,
    pub mint_fee: u128,
    pub mint_limit: u128,
    pub sale_time: u64,
    pub dev_wallet: ActorId,
    pub withdraw_wallet: ActorId,
}

impl Config {
    pub fn copy(&self) -> (r: Config)
        ensures
            r == *self,
    {
        Config { ..*self }
    }
}

/// Descriptive fields of the collection.
#[derive(Debug, PartialEq, Eq)]
pub struct Collection {
    pub name: String,
    pub description: String,
    pub symbol: String,
    pub base_uri: String,
}

impl Collection {
    pub fn copy(&self) -> (r: Collection)
        ensures
            r == *self,
    {
        Collection {
            name: self.name.clone(),
            description: self.description.clone(),
            symbol: self.symbol.clone(),
            base_uri: self.base_uri.clone(),
        }
    }
}

/// What a ledger is created with.
#[derive(Debug, PartialEq, Eq)]
pub struct InitNft {
    pub collection: Collection,
    pub config: Config,
}

/// Metadata of one token.
#[derive(Debug, PartialEq, Eq)]
pub struct TokenMetadata {
    /// Display name, e.g. "CryptoKitty #100".
    pub name: String,
    pub description: String,
    /// Link to the media of the token.
    pub media: String,
    /// Link to an off-chain record with more about the token.
    pub reference: String,
}

impl TokenMetadata {
    pub fn copy(&self) -> (r: TokenMetadata)
        ensures
            r == *self,
    {
        TokenMetadata {
            name: self.name.clone(),
            description: self.description.clone(),
            media: self.media.clone(),
            reference: self.reference.clone(),
        }
    }
}

/// The requests a ledger serves.
#[derive(Debug, PartialEq, Eq)]
pub enum NftAction {
    Buy { amount: u128 },
    Reserve { amount: u128 },
    Burn { token_id: TokenId },
    Transfer { to: ActorId, token_id: TokenId },
    Approve { to: ActorId, token_id: TokenId },
    GetOwner { token_id: TokenId },
    CheckIfApproved { to: ActorId, token_id: TokenId },
    SetName { name: String },
    SetDescription { description: String },
    SetSymbol { symbol: String },
    SetBaseUri { base_uri: String },
    SetWithdrawWallet { withdraw_wallet: ActorId },
    SetSupplyLimit { supply_limit: u128 },
    SetMintLimit { mint_limit: u128 },
    SetMintPrice { mint_price: u128 },
    SetSaleTime { sale_time: u64 },
    ToggleSaleActive,
}

/// The event a successful request produces.
#[derive(Debug, PartialEq, Eq)]
pub enum NftEvent {
    Bought { to: ActorId, amount: u128 },
    Minted { to: ActorId, token_metadata: TokenMetadata },
    Reserved { to: ActorId, amount: u128 },
    Burnt { token_id: TokenId },
    Transferred { from: ActorId, to: ActorId, token_id: TokenId },
    Approved { owner: ActorId, approved_account: ActorId, token_id: TokenId },
    Owner { owner: ActorId, token_id: TokenId },
    CheckIfApproved { to: ActorId, token_id: TokenId, approved: bool },
    NameChanged { name: String },
    DescriptionChanged { description: String },
    SymbolChanged { symbol: String },
    BaseUriChanged { base_uri: String },
    SupplyLimitChanged { supply_limit: u128 },
    MintLimitChanged { mint_limit: u128 },
    MintPriceChanged { mint_price: u128 },
    SaleTimeChanged { sale_time: u64, sale_active: bool },
    SaleActiveChanged { sale_active: bool },
    WithdrawWalletChanged { withdraw_wallet: ActorId },
    TransferValue,
}

/// Why a request was rejected. A rejected request changes nothing.
#[derive(Clone, Copy, Debug, PartialEq, Eq, Structural)]
pub enum DropspaceNftErr {
    /// The caller lacks the role the request needs.
    Unauthorized,
    /// The token does not exist.
    NotFound,
    /// The zero identity was named as a recipient.
    InvalidRecipient,
    /// The zero identity made a purchase.
    InvalidCaller,
    /// A batch size of zero.
    InvalidAmount,
    /// A batch larger than the per-request mint limit.
    MintLimitExceeded,
    /// A batch that would take the supply over its limit.
    SupplyLimitExceeded,
    /// The supply limit has already been reached.
    MintClosed,
    /// The sale has not started.
    SaleInactive,
    /// The attached value does not cover price and fee.
    InsufficientFunds,
    /// The token already has an approved spender.
    ApprovalExists,
    /// A payment the request called for could not be delivered.
    ValueTransferFailed,
}

/// A value transfer that a successful request calls for.
#[derive(Clone, Copy, Debug, PartialEq, Eq, Structural)]
pub struct Payout {
    pub to: ActorId,
    pub value: u128,
}

/// The outcome of a successful request: its event, and the value transfers
/// to be made, in order, before the request counts as done.
#[derive(Debug, PartialEq, Eq)]
pub struct Reply {
    pub event: NftEvent,
    pub payouts: Vec<Payout>,
}

/// A full snapshot of the ledger.
#[derive(Debug, PartialEq, Eq)]
pub struct State {
    pub owner_by_id: Vec<(TokenId, ActorId)>,
    pub token_approvals: Vec<(TokenId, ActorId)>,
    pub token_metadata_by_id: Vec<(TokenId, TokenMetadata)>,
    pub tokens_for_owner: Vec<(ActorId, Vec<TokenId>)>,
    pub token_id: TokenId,
    pub owner: ActorId,
    pub collection: Collection,
    pub config: Config,
}

/// An aggregate summary of the ledger.
#[derive(Debug, PartialEq, Eq)]
pub struct ProgramInfo {
    pub collection: Collection,
    pub config: Config,
    pub token_id: TokenId,
    pub sale_active: bool,
    pub total_supply: u128,
}

/// Read-only queries.
#[derive(Debug, PartialEq, Eq)]
pub enum StateQuery {
    All,
    Config,
    Collection,
    Owner,
    CurrentTokenId,
    OwnerById { token_id: TokenId },
    TokenApprovals { token_id: TokenId },
    TokenMetadata { token_id: TokenId },
    OwnerTokens { owner: ActorId },
    SaleActive,
    ProgramInfo,
}

/// Answers to read-only queries.
#[derive(Debug, PartialEq, Eq)]
pub enum StateReply {
    All(State),
    Config(Config),
    Collection(Collection),
    Owner(ActorId),
    CurrentTokenId(TokenId),
    OwnerById(Option<ActorId>),
    TokenApprovals(Option<ActorId>),
    TokenMetadata(Option<TokenMetadata>),
    OwnerTokens(Option<Vec<TokenId>>),
    SaleActive(bool),
    ProgramInfo(ProgramInfo),
}

} // verus!
