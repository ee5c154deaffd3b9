//! The operations the registry accepts, the structured answers it returns,
//! and its error taxonomy.

use vstd::prelude::*;

use crate::state::HumanAddr;
use crate::state::SecretContract;

verus! {

/// The fields of one alias as callers see them: the (normalized) alias, the
/// optional avatar URL, and the owner's address.
#[derive(Debug)]
pub struct AliasAttributes {
    pub alias: String,
    pub avatar_url: Option<String>,
    pub address: HumanAddr,
}

/// The view of `AliasAttributes`.
pub struct AliasAttributesV {
    pub alias: Seq<char>,
    pub avatar_url: Option<Seq<char>>,
    pub address: Seq<char>,
}

impl View for AliasAttributes {
    type V = AliasAttributesV;

    open spec fn view(&self) -> AliasAttributesV {
        AliasAttributesV {
            alias: self.alias@,
            avatar_url: self.avatar_url.deep_view(),
            address: self.address@,
        }
    }
}

/// Initialization input. The byte-length cap is optional; the token contract
/// and the payment destination are both present in the payment-gated variant
/// and both absent otherwise. `aliases` seeds the registry through the same
/// validation that later creations go through.
#[derive(Debug)]
pub struct InitMsg {
    pub max_alias_size: Option<u32>,
    pub buttcoin: Option<SecretContract>,
    pub buttcoin_distributor: Option<SecretContract>,
    pub aliases: Vec<AliasAttributes>,
}

/// The answer to a successful search.
#[derive(Debug)]
pub struct SearchResponse {
    pub response_type: String,
    pub attributes: AliasAttributes,
}

/// Whether an operation succeeded; errors travel separately.
#[derive(Debug, Clone, Copy, PartialEq, Eq, Structural)]
pub enum ResponseStatus {
    Success,
}

/// The structured data of a successful `Destroy`.
#[derive(Debug, Clone, Copy, PartialEq, Eq, Structural)]
pub enum HandleAnswer {
    Destroy { status: ResponseStatus },
}

/// The structured data of a successful payment-gated `Create`.
#[derive(Debug, Clone, Copy, PartialEq, Eq, Structural)]
pub enum ReceiveAnswer {
    Create { status: ResponseStatus },
}

/// The request carried inside a verified payment: create an alias for the
/// payer.
#[derive(Debug)]
pub enum ReceiveMsg {
    Create { alias: String, avatar_url: Option<String> },
}

/// A mutating operation: destroy an alias, or a "funds received"
/// notification that unlocks a creation.
#[derive(Debug)]
pub enum HandleMsg {
    Destroy { alias: String },
    Receive { sender: HumanAddr, from: HumanAddr, amount: u128, msg: ReceiveMsg },
}

/// A read-only operation: the configuration, a search by alias or by owner
/// address, or a direct show of one alias.
#[derive(Debug)]
pub enum QueryMsg {
    Config {},
    Search { search_type: String, search_value: String },
    Show { alias: String },
}

/// The answer to a configuration query.
#[derive(Debug)]
pub enum QueryAnswer {
    Config {
        buttcoin: Option<SecretContract>,
        buttcoin_distributor: Option<SecretContract>,
    },
}

/// The answer to a read-only operation.
#[derive(Debug)]
pub enum QueryResponse {
    Search(SearchResponse),
    Config(QueryAnswer),
}

/// Every way an operation can be rejected. All errors are terminal for the
/// operation: no partial state survives one.
#[derive(Debug, Clone, Copy, PartialEq, Eq, Structural)]
pub enum RegistryError {
    /// The configured maximum alias size is zero or does not fit in 16 bits.
    InvalidMaxSize,
    /// Exactly one of the token contract and the payment destination was
    /// given at initialization.
    InvalidPaymentConfig,
    /// The normalized alias exceeds the configured byte-length cap.
    TooLong,
    /// The search discriminator is neither "alias" nor "address".
    BadSearchType,
    /// The normalized alias already has a record.
    AliasTaken,
    /// The prospective owner already holds an alias.
    OwnerAlreadyHasAlias,
    /// No record exists for the alias, or for the owner searched by address.
    AliasNotFound,
    /// The caller is not the record's owner.
    Unauthorized,
    /// A payment notification came from an address other than the configured
    /// token contract.
    WrongToken,
    /// The paid amount differs from the fixed price.
    WrongAmount,
}

/// An outbound instruction to the token contract, emitted as part of a
/// response; the host executes it after the registry's writes are committed.
#[derive(Debug)]
pub enum TokenInstruction {
    /// Register this contract, identified by its code hash, as the token
    /// contract's receiver, so that payments are relayed to it.
    RegisterReceive { code_hash: String, token: SecretContract },
    /// Forward the exact received payment to the configured destination.
    Transfer { recipient: HumanAddr, amount: u128, token: SecretContract },
}

/// What initialization hands back to the host.
#[derive(Debug)]
pub struct InitResponse {
    pub messages: Vec<TokenInstruction>,
}

/// The structured data of a successful mutating operation.
#[derive(Debug, Clone, Copy, PartialEq, Eq, Structural)]
pub enum ResponseData {
    FromHandle(HandleAnswer),
    FromReceive(ReceiveAnswer),
}

/// What a mutating operation hands back to the host.
#[derive(Debug)]
pub struct HandleResponse {
    pub messages: Vec<TokenInstruction>,
    pub data: Option<ResponseData>,
}

} // verus!
