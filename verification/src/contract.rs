//! The registry engine: validation, index mutation and response
//! construction for the Create, Destroy, Search and Config operations, and
//! the payment gate in front of Create. Every operation validates fully
//! before its first write, so a rejected operation leaves the state as it
//! was.

use vstd::prelude::*;

use crate::authorize::authorize;
use crate::msg::AliasAttributes;
use crate::msg::AliasAttributesV;
use crate::msg::HandleAnswer;
use crate::msg::HandleMsg;
use crate::msg::HandleResponse;
use crate::msg::InitMsg;
use crate::msg::InitResponse;
use crate::msg::QueryAnswer;
use crate::msg::QueryMsg;
use crate::msg::QueryResponse;
use crate::msg::ReceiveAnswer;
use crate::msg::ReceiveMsg;
use crate::msg::RegistryError;
use crate::msg::ResponseData;
use crate::msg::ResponseStatus;
use crate::msg::SearchResponse;
use crate::msg::TokenInstruction;
use crate::normalize::byte_len;
use crate::normalize::normalize;
use crate::normalize::normalized;
use crate::state::Alias;
use crate::state::AliasV;
use crate::state::AliasesReadonlyStorage;
use crate::state::AliasesStorage;
use crate::state::AddressesAliasesReadonlyStorage;
use crate::state::AddressesAliasesStorage;
use crate::state::Config;
use crate::state::ConfigV;
use crate::state::HumanAddr;
use crate::state::Registry;
use crate::state::RegistryV;
use crate::state::lemma_create_preserves_inverse;
use crate::state::lemma_destroy_preserves_inverse;

verus! {

/// The fixed price of one alias creation, in the token's smallest unit.
pub const AMOUNT_FOR_TRANSACTION: u128 = 1_000_000;

/// The byte-length cap on normalized aliases when none is configured.
pub const DEFAULT_MAX_ALIAS_BYTE_LENGTH: u16 = 255;

/// The state a creation leads to, or the error that rejects it. Validation
/// order: length cap, then alias uniqueness, then the one-alias-per-owner
/// rule.
pub open spec fn spec_create(
    s: RegistryV,
    from: Seq<char>,
    alias: Seq<char>,
    avatar_url: Option<Seq<char>>,
) -> Result<RegistryV, RegistryError> {
    let key = normalized(alias);
    if byte_len(key) > s.config.max_alias_byte_length {
        Err(RegistryError::TooLong)
    } else if s.aliases.contains_key(key) {
        Err(RegistryError::AliasTaken)
    } else if s.addresses_aliases.contains_key(from) {
        Err(RegistryError::OwnerAlreadyHasAlias)
    } else {
        Ok(
            RegistryV {
                aliases: s.aliases.insert(
                    key,
                    AliasV { human_address: from, avatar_url },
                ),
                addresses_aliases: s.addresses_aliases.insert(from, key),
                ..s
            },
        )
    }
}

/// The state a destruction leads to, or the error that rejects it: the
/// record must exist and the caller must be its owner.
pub open spec fn spec_destroy(
    s: RegistryV,
    caller: Seq<char>,
    alias: Seq<char>,
) -> Result<RegistryV, RegistryError> {
    let key = normalized(alias);
    if !s.aliases.contains_key(key) {
        Err(RegistryError::AliasNotFound)
    } else if s.aliases[key].human_address != caller {
        Err(RegistryError::Unauthorized)
    } else {
        Ok(
            RegistryV {
                aliases: s.aliases.remove(key),
                addresses_aliases: s.addresses_aliases.remove(caller),
                ..s
            },
        )
    }
}

/// Whether `sender` is the configured token contract's address.
pub open spec fn payment_gate_matches(c: ConfigV, sender: Seq<char>) -> bool {
    match c.buttcoin {
        Some(token) => token.address == sender,
        None => false,
    }
}

/// The outcome of a "funds received" notification: the sender must be the
/// token contract, the amount must be the exact fixed price, and only then
/// is the creation attempted on the payer's behalf.
pub open spec fn spec_receive(
    s: RegistryV,
    sender: Seq<char>,
    from: Seq<char>,
    amount: u128,
    alias: Seq<char>,
    avatar_url: Option<Seq<char>>,
) -> Result<RegistryV, RegistryError> {
    if !payment_gate_matches(s.config, sender) {
        Err(RegistryError::WrongToken)
    } else if amount != AMOUNT_FOR_TRANSACTION {
        Err(RegistryError::WrongAmount)
    } else {
        spec_create(s, from, alias, avatar_url)
    }
}

/// The messages of a successful creation: when the payment gate is
/// configured, exactly the forwarding of the fixed price to the payment
/// destination; otherwise none.
pub open spec fn create_transfer_messages(c: ConfigV, msgs: Seq<TokenInstruction>) -> bool {
    match (c.buttcoin, c.buttcoin_distributor) {
        (Some(token), Some(dist)) => {
            &&& msgs.len() == 1
            &&& msgs[0] matches TokenInstruction::Transfer { recipient, amount, token: t }
                && recipient@ == dist.address && amount == AMOUNT_FOR_TRANSACTION && t@ == token
        },
        _ => msgs.len() == 0,
    }
}

/// Validates and applies a creation; responses are the caller's concern.
fn create_core(
    registry: &mut Registry,
    from: HumanAddr,
    alias_string: &String,
    avatar_url: Option<String>,
) -> (r: Result<(), RegistryError>)
    requires
        old(registry).wf(),
    ensures
        final(registry).wf(),
        final(registry).config == old(registry).config,
        match spec_create(old(registry)@, from@, alias_string@, avatar_url.deep_view()) {
            Ok(v) => r is Ok && final(registry)@ == v,
            Err(e) => r == Err::<(), RegistryError>(e) && final(registry)@ == old(registry)@,
        },
{
    let key = normalize(alias_string.as_str());
    if key.as_str().as_bytes().len() > registry.config.max_alias_byte_length as usize {
        return Err(RegistryError::TooLong);
    }
    if registry.aliases.get_alias(&key).is_some() {
        return Err(RegistryError::AliasTaken);
    }
    if registry.addresses_aliases.get_alias(&from.0).is_some() {
        return Err(RegistryError::OwnerAlreadyHasAlias);
    }
    let record = Alias { human_address: from.clone(), avatar_url };
    proof {
        lemma_create_preserves_inverse(
            registry@.aliases,
            registry@.addresses_aliases,
            key@,
            record@,
        );
    }
    registry.aliases.set_alias(&key, record);
    registry.addresses_aliases.set_alias(&from.0, &key);
    Ok(())
}

/// Creates an alias for `from` after full validation, and on success emits
/// the instruction that forwards the price to the payment destination.
pub fn try_create(
    registry: &mut Registry,
    from: HumanAddr,
    alias_string: String,
    avatar_url: Option<String>,
) -> (r: Result<HandleResponse, RegistryError>)
    requires
        old(registry).wf(),
    ensures
        final(registry).wf(),
        final(registry).config == old(registry).config,
        match spec_create(old(registry)@, from@, alias_string@, avatar_url.deep_view()) {
            Ok(v) => {
                &&& r is Ok
                &&& final(registry)@ == v
                &&& create_transfer_messages(old(registry)@.config, r->Ok_0.messages@)
                &&& r->Ok_0.data == Some(
                    ResponseData::FromReceive(
                        ReceiveAnswer::Create { status: ResponseStatus::Success },
                    ),
                )
            },
            Err(e) => r matches Err(e2) && e2 == e && final(registry)@ == old(registry)@,
        },
{
    match create_core(registry, from, &alias_string, avatar_url) {
        Err(e) => Err(e),
        Ok(()) => {
            let mut messages: Vec<TokenInstruction> = Vec::new();
            match (&registry.config.buttcoin, &registry.config.buttcoin_distributor) {
                (Some(token), Some(dist)) => {
                    messages.push(
                        TokenInstruction::Transfer {
                            recipient: dist.address.clone(),
                            amount: AMOUNT_FOR_TRANSACTION,
                            token: token.clone(),
                        },
                    );
                },
                _ => {},
            }
            Ok(
                HandleResponse {
                    messages,
                    data: Some(
                        ResponseData::FromReceive(
                            ReceiveAnswer::Create { status: ResponseStatus::Success },
                        ),
                    ),
                },
            )
        },
    }
}

/// Destroys the caller's alias after full validation.
pub fn try_destroy(registry: &mut Registry, sender: HumanAddr, alias_string: String) -> (r:
    Result<HandleResponse, RegistryError>)
    requires
        old(registry).wf(),
    ensures
        final(registry).wf(),
        final(registry).config == old(registry).config,
        match spec_destroy(old(registry)@, sender@, alias_string@) {
            Ok(v) => {
                &&& r is Ok
                &&& final(registry)@ == v
                &&& r->Ok_0.messages@.len() == 0
                &&& r->Ok_0.data == Some(
                    ResponseData::FromHandle(
                        HandleAnswer::Destroy { status: ResponseStatus::Success },
                    ),
                )
            },
            Err(e) => r matches Err(e2) && e2 == e && final(registry)@ == old(registry)@,
        },
{
    let key = normalize(alias_string.as_str());
    let record = match registry.aliases.get_alias(&key) {
        None => {
            return Err(RegistryError::AliasNotFound);
        },
        Some(record) => record,
    };
    if let Err(e) = authorize(&sender, &record.human_address) {
        return Err(e);
    }
    proof {
        lemma_destroy_preserves_inverse(registry@.aliases, registry@.addresses_aliases, key@);
    }
    registry.aliases.remove_alias(&key);
    registry.addresses_aliases.remove_alias(&sender.0);
    Ok(
        HandleResponse {
            messages: Vec::new(),
            data: Some(
                ResponseData::FromHandle(HandleAnswer::Destroy { status: ResponseStatus::Success }),
            ),
        },
    )
}

/// A "funds received" notification: the tokens must come from the
/// configured token contract and match the fixed price exactly; only then is
/// the nested creation request carried out for the payer.
pub fn receive(
    registry: &mut Registry,
    sender: HumanAddr,
    from: HumanAddr,
    amount: u128,
    msg: ReceiveMsg,
) -> (r: Result<HandleResponse, RegistryError>)
    requires
        old(registry).wf(),
    ensures
        final(registry).wf(),
        final(registry).config == old(registry).config,
        match msg {
            ReceiveMsg::Create { alias, avatar_url } => match spec_receive(
                old(registry)@,
                sender@,
                from@,
                amount,
                alias@,
                avatar_url.deep_view(),
            ) {
                Ok(v) => {
                    &&& r is Ok
                    &&& final(registry)@ == v
                    &&& create_transfer_messages(old(registry)@.config, r->Ok_0.messages@)
                    &&& r->Ok_0.data == Some(
                        ResponseData::FromReceive(
                            ReceiveAnswer::Create { status: ResponseStatus::Success },
                        ),
                    )
                },
                Err(e) => r matches Err(e2) && e2 == e && final(registry)@ == old(registry)@,
            },
        },
{
    let gate = match &registry.config.buttcoin {
        Some(token) => token.address.0 == sender.0,
        None => false,
    };
    if !gate {
        return Err(RegistryError::WrongToken);
    }
    if amount != AMOUNT_FOR_TRANSACTION {
        return Err(RegistryError::WrongAmount);
    }
    match msg {
        ReceiveMsg::Create { alias, avatar_url } => try_create(registry, from, alias, avatar_url),
    }
}

/// The state a mutating operation leads to, or the error that rejects it.
pub open spec fn spec_handle(s: RegistryV, sender: Seq<char>, msg: HandleMsg) -> Result<
    RegistryV,
    RegistryError,
> {
    match msg {
        HandleMsg::Destroy { alias } => spec_destroy(s, sender, alias@),
        HandleMsg::Receive { sender: _, from, amount, msg: rm } => match rm {
            ReceiveMsg::Create { alias, avatar_url } => spec_receive(
                s,
                sender,
                from@,
                amount,
                alias@,
                avatar_url.deep_view(),
            ),
        },
    }
}

/// Dispatches a mutating operation. `sender` is the verified transaction
/// sender, as the host identifies it.
pub fn handle(registry: &mut Registry, sender: HumanAddr, msg: HandleMsg) -> (r: Result<
    HandleResponse,
    RegistryError,
>)
    requires
        old(registry).wf(),
    ensures
        final(registry).wf(),
        final(registry).config == old(registry).config,
        match spec_handle(old(registry)@, sender@, msg) {
            Ok(v) => r is Ok && final(registry)@ == v,
            Err(e) => r matches Err(e2) && e2 == e && final(registry)@ == old(registry)@,
        },
        r is Ok ==> match msg {
            HandleMsg::Destroy { alias } => r->Ok_0.messages@.len() == 0 && r->Ok_0.data == Some(
                ResponseData::FromHandle(
                    HandleAnswer::Destroy { status: ResponseStatus::Success },
                ),
            ),
            HandleMsg::Receive { .. } => create_transfer_messages(
                old(registry)@.config,
                r->Ok_0.messages@,
            ) && r->Ok_0.data == Some(
                ResponseData::FromReceive(
                    ReceiveAnswer::Create { status: ResponseStatus::Success },
                ),
            ),
        },
{
    match msg {
        HandleMsg::Destroy { alias } => try_destroy(registry, sender, alias),
        HandleMsg::Receive { sender: _, from, amount, msg: rm } => receive(
            registry,
            sender,
            from,
            amount,
            rm,
        ),
    }
}

/// The configuration an initialization message denotes, or the error that
/// rejects it: a size cap must be positive and fit in 16 bits, and the token
/// contract and the payment destination come together or not at all.
pub open spec fn spec_config(msg: InitMsg) -> Result<ConfigV, RegistryError> {
    if msg.max_alias_size matches Some(v) && (v == 0 || v > u16::MAX as u32) {
        Err(RegistryError::InvalidMaxSize)
    } else if (msg.buttcoin is Some) != (msg.buttcoin_distributor is Some) {
        Err(RegistryError::InvalidPaymentConfig)
    } else {
        Ok(
            ConfigV {
                max_alias_byte_length: match msg.max_alias_size {
                    Some(v) => v as u16,
                    None => DEFAULT_MAX_ALIAS_BYTE_LENGTH,
                },
                buttcoin: msg.buttcoin.deep_view(),
                buttcoin_distributor: msg.buttcoin_distributor.deep_view(),
            },
        )
    }
}

/// The state after the seed aliases are created in order, each through the
/// same validation as a later creation; the first rejection rejects the
/// whole initialization.
pub open spec fn spec_seed(s: RegistryV, seeds: Seq<AliasAttributes>) -> Result<
    RegistryV,
    RegistryError,
>
    decreases seeds.len(),
{
    if seeds.len() == 0 {
        Ok(s)
    } else {
        match spec_create(s, seeds[0].address@, seeds[0].alias@, seeds[0].avatar_url.deep_view()) {
            Ok(s2) => spec_seed(s2, seeds.drop_first()),
            Err(e) => Err(e),
        }
    }
}

/// The registry an initialization leads to, or the error that rejects it.
pub open spec fn spec_init(msg: InitMsg) -> Result<RegistryV, RegistryError> {
    match spec_config(msg) {
        Ok(c) => spec_seed(
            RegistryV {
                config: c,
                aliases: Map::empty(),
                addresses_aliases: Map::empty(),
            },
            msg.aliases@,
        ),
        Err(e) => Err(e),
    }
}

/// The messages of a successful initialization: when the payment gate is
/// configured, exactly the registration of this contract as the token
/// contract's receiver; otherwise none.
pub open spec fn init_register_messages(
    c: ConfigV,
    code_hash: Seq<char>,
    msgs: Seq<TokenInstruction>,
) -> bool {
    match c.buttcoin {
        Some(token) => {
            &&& msgs.len() == 1
            &&& msgs[0] matches TokenInstruction::RegisterReceive { code_hash: h, token: t }
                && h@ == code_hash && t@ == token
        },
        None => msgs.len() == 0,
    }
}

/// Builds the registry: validates the configuration, creates the seed
/// aliases, and, when the payment gate is configured, emits the one-time
/// "register as receiver" notification for the token contract.
/// `contract_code_hash` identifies this contract in that registration.
pub fn init(contract_code_hash: String, msg: InitMsg) -> (r: Result<
    (Registry, InitResponse),
    RegistryError,
>)
    ensures
        match spec_init(msg) {
            Ok(v) => {
                &&& r is Ok
                &&& r->Ok_0.0.wf()
                &&& r->Ok_0.0@ == v
                &&& init_register_messages(v.config, contract_code_hash@, r->Ok_0.1.messages@)
            },
            Err(e) => r matches Err(e2) && e2 == e,
        },
{
    let InitMsg { max_alias_size, buttcoin, buttcoin_distributor, aliases } = msg;
    let max: u16 = match max_alias_size {
        Some(v) => {
            if v == 0 || v > u16::MAX as u32 {
                return Err(RegistryError::InvalidMaxSize);
            }
            v as u16
        },
        None => DEFAULT_MAX_ALIAS_BYTE_LENGTH,
    };
    if buttcoin.is_some() != buttcoin_distributor.is_some() {
        return Err(RegistryError::InvalidPaymentConfig);
    }
    let config = Config { max_alias_byte_length: max, buttcoin, buttcoin_distributor };
    let mut registry = Registry {
        config,
        aliases: AliasesStorage::new(),
        addresses_aliases: AddressesAliasesStorage::new(),
    };
    let ghost s0 = registry@;
    let ghost cfg0 = registry.config;
    proof {
        assert(spec_config(msg) == Ok::<ConfigV, RegistryError>(s0.config));
        assert(registry.wf());
        assert(aliases@.skip(0) =~= aliases@);
        assert((RegistryV {
            config: s0.config,
            aliases: Map::<Seq<char>, AliasV>::empty(),
            addresses_aliases: Map::<Seq<char>, Seq<char>>::empty(),
        }) == s0);
        assert(spec_init(msg) == spec_seed(s0, aliases@));
    }
    let n = aliases.len();
    let mut i: usize = 0;
    while i < n
        invariant
            n == aliases.len(),
            i <= n,
            registry.wf(),
            registry.config == cfg0,
            spec_init(msg) == spec_seed(s0, aliases@),
            spec_seed(s0, aliases@) == spec_seed(registry@, aliases@.skip(i as int)),
        decreases n - i,
    {
        let seed = &aliases[i];
        let avatar = match &seed.avatar_url {
            Some(u) => Some(u.clone()),
            None => None,
        };
        let ghost pre = registry@;
        proof {
            assert(aliases@.skip(i as int)[0] == aliases@[i as int]);
            assert(avatar.deep_view() == seed.avatar_url.deep_view());
        }
        match create_core(&mut registry, seed.address.clone(), &seed.alias, avatar) {
            Ok(()) => {},
            Err(e) => {
                proof {
                    assert(spec_seed(pre, aliases@.skip(i as int)) == Err::<
                        RegistryV,
                        RegistryError,
                    >(e));
                }
                return Err(e);
            },
        }
        proof {
            assert(aliases@.skip(i as int).drop_first() =~= aliases@.skip(i as int + 1));
        }
        i += 1;
    }
    proof {
        assert(aliases@.skip(n as int) =~= Seq::<AliasAttributes>::empty());
        assert(spec_seed(s0, aliases@) == Ok::<RegistryV, RegistryError>(registry@));
    }
    let mut messages: Vec<TokenInstruction> = Vec::new();
    match &registry.config.buttcoin {
        Some(token) => {
            messages.push(
                TokenInstruction::RegisterReceive {
                    code_hash: contract_code_hash,
                    token: token.clone(),
                },
            );
        },
        None => {},
    }
    Ok((registry, InitResponse { messages }))
}

/// What resolving a normalized key returns: the key itself together with the
/// record's fields.
pub open spec fn spec_resolve(s: RegistryV, key: Seq<char>) -> Result<
    AliasAttributesV,
    RegistryError,
> {
    if s.aliases.contains_key(key) {
        Ok(
            AliasAttributesV {
                alias: key,
                avatar_url: s.aliases[key].avatar_url,
                address: s.aliases[key].human_address,
            },
        )
    } else {
        Err(RegistryError::AliasNotFound)
    }
}

/// What a search returns: by owner address through the reverse index, or by
/// alias after normalization; any other discriminator is rejected.
pub open spec fn spec_search(s: RegistryV, search_type: Seq<char>, search_value: Seq<char>) -> Result<
    AliasAttributesV,
    RegistryError,
> {
    if search_type == "address"@ {
        if s.addresses_aliases.contains_key(search_value) {
            spec_resolve(s, s.addresses_aliases[search_value])
        } else {
            Err(RegistryError::AliasNotFound)
        }
    } else if search_type == "alias"@ {
        spec_resolve(s, normalized(search_value))
    } else {
        Err(RegistryError::BadSearchType)
    }
}

/// The configuration as callers may see it. Read-only; all of it is public.
pub fn query_config(registry: &Registry) -> (r: QueryAnswer)
    ensures
        r matches QueryAnswer::Config { buttcoin, buttcoin_distributor }
            && buttcoin.deep_view() == registry@.config.buttcoin
            && buttcoin_distributor.deep_view() == registry@.config.buttcoin_distributor,
{
    QueryAnswer::Config {
        buttcoin: match &registry.config.buttcoin {
            Some(c) => Some(c.clone()),
            None => None,
        },
        buttcoin_distributor: match &registry.config.buttcoin_distributor {
            Some(c) => Some(c.clone()),
            None => None,
        },
    }
}

/// Resolves a normalized key in the primary index and shapes the record as
/// a search answer.
fn resolve_search(registry: &Registry, key: String) -> (r: Result<QueryResponse, RegistryError>)
    requires
        registry.wf(),
    ensures
        match spec_resolve(registry@, key@) {
            Ok(att) => r matches Ok(QueryResponse::Search(sr)) && sr.response_type@ == "aliases"@
                && sr.attributes@ == att,
            Err(e) => r matches Err(e2) && e2 == e,
        },
{
    let alias_storage = AliasesReadonlyStorage::from_storage(&registry.aliases);
    match alias_storage.get_alias(&key) {
        None => Err(RegistryError::AliasNotFound),
        Some(record) => Ok(
            QueryResponse::Search(
                SearchResponse {
                    response_type: "aliases".to_owned(),
                    attributes: AliasAttributes {
                        alias: key,
                        avatar_url: record.avatar_url,
                        address: record.human_address,
                    },
                },
            ),
        ),
    }
}

/// Dispatches a read-only operation. Never mutates and requires no
/// authorization.
pub fn query(registry: &Registry, msg: QueryMsg) -> (r: Result<QueryResponse, RegistryError>)
    requires
        registry.wf(),
    ensures
        match msg {
            QueryMsg::Config {  } => r matches Ok(QueryResponse::Config(qa))
                && (qa matches QueryAnswer::Config { buttcoin, buttcoin_distributor }
                && buttcoin.deep_view() == registry@.config.buttcoin
                && buttcoin_distributor.deep_view() == registry@.config.buttcoin_distributor),
            QueryMsg::Search { search_type, search_value } => match spec_search(
                registry@,
                search_type@,
                search_value@,
            ) {
                Ok(att) => r matches Ok(QueryResponse::Search(sr)) && sr.response_type@
                    == "aliases"@ && sr.attributes@ == att,
                Err(e) => r matches Err(e2) && e2 == e,
            },
            QueryMsg::Show { alias } => match spec_resolve(registry@, normalized(alias@)) {
                Ok(att) => r matches Ok(QueryResponse::Search(sr)) && sr.response_type@
                    == "aliases"@ && sr.attributes@ == att,
                Err(e) => r matches Err(e2) && e2 == e,
            },
        },
{
    match msg {
        QueryMsg::Config {  } => Ok(QueryResponse::Config(query_config(registry))),
        QueryMsg::Search { search_type, search_value } => {
            let key: String;
            if search_type == "address".to_owned() {
                let addresses_aliases_storage = AddressesAliasesReadonlyStorage::from_storage(
                    &registry.addresses_aliases,
                );
                match addresses_aliases_storage.get_alias(&search_value) {
                    None => {
                        return Err(RegistryError::AliasNotFound);
                    },
                    Some(k) => {
                        key = k;
                    },
                }
            } else if search_type == "alias".to_owned() {
                key = normalize(search_value.as_str());
            } else {
                return Err(RegistryError::BadSearchType);
            }
            resolve_search(registry, key)
        },
        QueryMsg::Show { alias } => resolve_search(registry, normalize(alias.as_str())),
    }
}

} // verus!
