use alias_registry::contract::{
    handle, init, query, receive, try_create, try_destroy, AMOUNT_FOR_TRANSACTION,
};
use alias_registry::msg::{
    AliasAttributes, HandleMsg, InitMsg, QueryAnswer, QueryMsg, QueryResponse, ReceiveMsg,
    RegistryError, TokenInstruction,
};
use alias_registry::state::{HumanAddr, Registry, SecretContract};

fn mock_buttcoin() -> SecretContract {
    SecretContract {
        address: HumanAddr("buttcoin-address".to_string()),
        contract_hash: "buttcoin-contract-hash".to_string(),
    }
}

fn mock_butt_lode() -> SecretContract {
    SecretContract {
        address: HumanAddr("profit-sharing-contract-address".to_string()),
        contract_hash: "profit-sharing-contract-hash".to_string(),
    }
}

fn mock_user_address() -> HumanAddr {
    HumanAddr("some-geezer".to_string())
}

fn mock_code_hash() -> String {
    "registry-contract-code-hash".to_string()
}

fn init_helper() -> Registry {
    let init_msg = InitMsg {
        max_alias_size: None,
        buttcoin: Some(mock_buttcoin()),
        buttcoin_distributor: Some(mock_butt_lode()),
        aliases: vec![AliasAttributes {
            alias: "epstein didn't kill himself".to_string(),
            address: HumanAddr("frump".to_string()),
            avatar_url: None,
        }],
    };
    let (registry, _response) = init(mock_code_hash(), init_msg).unwrap();
    registry
}

fn create_receive_msg(sender: HumanAddr, alias: &str, avatar_url: Option<String>) -> HandleMsg {
    HandleMsg::Receive {
        sender: sender.clone(),
        from: sender,
        amount: AMOUNT_FOR_TRANSACTION,
        msg: ReceiveMsg::Create {
            alias: alias.to_string(),
            avatar_url,
        },
    }
}

#[test]
fn test_try_destroy() {
    let alias: &str = "nailbiter";

    // Initialize
    let mut registry = init_helper();

    // when alias exists
    let receive_msg = create_receive_msg(mock_user_address(), alias, None);
    handle(&mut registry, mock_buttcoin().address, receive_msg).unwrap();

    // = when user tries to delete an alias that does not exist
    // = * it raises an error
    let destroy_alias_message = HandleMsg::Destroy {
        alias: "idonotexist".to_string(),
    };
    let res = handle(&mut registry, mock_user_address(), destroy_alias_message);
    assert_eq!(res.unwrap_err(), RegistryError::AliasNotFound);

    // = when user tries to delete an alias that belongs to someone else
    // = * it raises an error
    let destroy_alias_message = HandleMsg::Destroy {
        alias: alias.to_string(),
    };
    let res = handle(&mut registry, mock_buttcoin().address, destroy_alias_message);
    assert_eq!(res.unwrap_err(), RegistryError::Unauthorized);

    // = when user destroys their own alias
    // = * alias is removed
    let destroy_alias_message = HandleMsg::Destroy {
        alias: alias.to_string(),
    };
    handle(&mut registry, mock_user_address(), destroy_alias_message).unwrap();
    // Query destroyed alias via alias
    let query_response = query(
        &registry,
        QueryMsg::Search {
            search_type: "alias".to_string(),
            search_value: alias.to_string(),
        },
    );
    assert_eq!(query_response.unwrap_err(), RegistryError::AliasNotFound);
    // Query destroyed alias via address
    let query_response = query(
        &registry,
        QueryMsg::Search {
            search_type: "address".to_string(),
            search_value: mock_user_address().0,
        },
    );
    assert_eq!(query_response.unwrap_err(), RegistryError::AliasNotFound);
}

#[test]
fn test_try_create() {
    let alias = "   nail biter    ";
    let avatar_url = "https://www.btn.group";

    // Initialize
    let mut registry = init_helper();

    // when creating an alias
    let receive_msg = create_receive_msg(mock_user_address(), alias, Some(avatar_url.to_string()));

    // = when user sends in a token that is not buttcoin
    // = * it raises an error
    let handle_result = handle(&mut registry, mock_user_address(), receive_msg);
    assert_eq!(handle_result.unwrap_err(), RegistryError::WrongToken);

    // = when user sends in buttcoin
    let receive_msg = create_receive_msg(mock_user_address(), alias, Some(avatar_url.to_string()));
    let handle_result = handle(&mut registry, mock_buttcoin().address, receive_msg);
    let handle_result_unwrapped = handle_result.unwrap();

    // = * it sends the BUTT to the BUTT lode
    assert_eq!(handle_result_unwrapped.messages.len(), 1);
    match &handle_result_unwrapped.messages[0] {
        TokenInstruction::Transfer {
            recipient,
            amount,
            token,
        } => {
            assert_eq!(*recipient, mock_butt_lode().address);
            assert_eq!(*amount, AMOUNT_FOR_TRANSACTION);
            assert_eq!(*token, mock_buttcoin());
        }
        other => panic!("unexpected instruction: {:?}", other),
    }

    // = * It creates alias without trailing and leading whitespaces
    let search_response = query(
        &registry,
        QueryMsg::Search {
            search_type: "alias".to_string(),
            search_value: "nail biter".to_string(),
        },
    )
    .unwrap();
    match &search_response {
        QueryResponse::Search(val) => {
            assert_eq!(mock_user_address(), val.attributes.address);
            assert_eq!(avatar_url, val.attributes.avatar_url.clone().unwrap());
        }
        other => panic!("unexpected response: {:?}", other),
    }
    let search_response = query(
        &registry,
        QueryMsg::Search {
            search_type: "address".to_string(),
            search_value: mock_user_address().0,
        },
    )
    .unwrap();
    match &search_response {
        QueryResponse::Search(val) => {
            assert_eq!("nail biter", val.attributes.alias);
            assert_eq!(mock_user_address(), val.attributes.address);
            assert_eq!(avatar_url, val.attributes.avatar_url.clone().unwrap());
        }
        other => panic!("unexpected response: {:?}", other),
    }

    // = when alias already exists
    let receive_msg_two = create_receive_msg(
        HumanAddr("crump".to_string()),
        "Epstein didn't kill himself",
        Some(avatar_url.to_string()),
    );
    let handle_result = handle(&mut registry, mock_buttcoin().address, receive_msg_two);

    // = * it raises an error
    assert_eq!(handle_result.unwrap_err(), RegistryError::AliasTaken);

    // = when alias exists but is a different case
    // = * it raises an error
    let receive_msg = create_receive_msg(mock_user_address(), &alias.to_uppercase(), None);
    let response = handle(&mut registry, mock_buttcoin().address, receive_msg);
    assert_eq!(response.unwrap_err(), RegistryError::AliasTaken);

    // = when alias is too long
    // = * it raises an error
    let alias = "Epstein didn't kill himself".repeat(20);
    let receive_msg = create_receive_msg(mock_user_address(), &alias.to_uppercase(), None);
    let response = handle(&mut registry, mock_buttcoin().address, receive_msg);
    assert_eq!(response.unwrap_err(), RegistryError::TooLong);

    // = when user already has an alias
    // = * it raises an error
    let alias = "Epstein didn't kill himself".repeat(5);
    let receive_msg = create_receive_msg(HumanAddr("frump".to_string()), &alias, None);
    let response = handle(&mut registry, mock_buttcoin().address, receive_msg);
    assert_eq!(response.unwrap_err(), RegistryError::OwnerAlreadyHasAlias);
}

// === QUERY TESTS ===

#[test]
fn test_query_config() {
    let registry = init_helper();
    let query_result = query(&registry, QueryMsg::Config {}).unwrap();
    match query_result {
        QueryResponse::Config(QueryAnswer::Config {
            buttcoin,
            buttcoin_distributor,
        }) => {
            assert_eq!(buttcoin, Some(mock_buttcoin()));
            assert_eq!(buttcoin_distributor, Some(mock_butt_lode()));
        }
        other => panic!("unexpected response: {:?}", other),
    }
}

// === SCENARIO TESTS ===

#[test]
fn test_create_search_destroy_round_trip() {
    let mut registry = init_helper();
    let receive_msg = create_receive_msg(mock_user_address(), "nailbiter", None);
    handle(&mut registry, mock_buttcoin().address, receive_msg).unwrap();

    let found = query(
        &registry,
        QueryMsg::Search {
            search_type: "alias".to_string(),
            search_value: "nailbiter".to_string(),
        },
    )
    .unwrap();
    match &found {
        QueryResponse::Search(val) => {
            assert_eq!(val.attributes.address, mock_user_address());
            assert_eq!(val.attributes.alias, "nailbiter");
        }
        other => panic!("unexpected response: {:?}", other),
    }

    let destroy = HandleMsg::Destroy {
        alias: "nailbiter".to_string(),
    };
    handle(&mut registry, mock_user_address(), destroy).unwrap();
    let gone = query(
        &registry,
        QueryMsg::Search {
            search_type: "alias".to_string(),
            search_value: "nailbiter".to_string(),
        },
    );
    assert_eq!(gone.unwrap_err(), RegistryError::AliasNotFound);
}

#[test]
fn test_search_is_normalization_insensitive() {
    let mut registry = init_helper();
    let receive_msg = create_receive_msg(mock_user_address(), " Nail Biter ", None);
    handle(&mut registry, mock_buttcoin().address, receive_msg).unwrap();

    for searched in [" Nail Biter ", "nail biter", "  NAIL BITER"] {
        let found = query(
            &registry,
            QueryMsg::Search {
                search_type: "alias".to_string(),
                search_value: searched.to_string(),
            },
        )
        .unwrap();
        match &found {
            QueryResponse::Search(val) => {
                assert_eq!(val.attributes.alias, "nail biter");
                assert_eq!(val.attributes.address, mock_user_address());
            }
            other => panic!("unexpected response: {:?}", other),
        }
    }
}

#[test]
fn test_size_boundary() {
    let init_msg = InitMsg {
        max_alias_size: Some(10),
        buttcoin: None,
        buttcoin_distributor: None,
        aliases: vec![],
    };
    let (mut registry, _response) = init(mock_code_hash(), init_msg).unwrap();

    // Exactly at the cap: accepted.
    let response = try_create(
        &mut registry,
        HumanAddr("owner-one".to_string()),
        "aaaaaaaaaa".to_string(),
        None,
    )
    .unwrap();
    // Without a payment gate no transfer instruction is emitted.
    assert_eq!(response.messages.len(), 0);

    // One byte over the cap: rejected.
    let response = try_create(
        &mut registry,
        HumanAddr("owner-two".to_string()),
        "bbbbbbbbbbb".to_string(),
        None,
    );
    assert_eq!(response.unwrap_err(), RegistryError::TooLong);
}

#[test]
fn test_receive_wrong_token() {
    let mut registry = init_helper();
    // Amount and payload are valid; only the notifying address is not the
    // configured token contract.
    let result = receive(
        &mut registry,
        HumanAddr("impostor-token".to_string()),
        mock_user_address(),
        AMOUNT_FOR_TRANSACTION,
        ReceiveMsg::Create {
            alias: "nailbiter".to_string(),
            avatar_url: None,
        },
    );
    assert_eq!(result.unwrap_err(), RegistryError::WrongToken);
    // Nothing was created.
    let gone = query(
        &registry,
        QueryMsg::Search {
            search_type: "alias".to_string(),
            search_value: "nailbiter".to_string(),
        },
    );
    assert_eq!(gone.unwrap_err(), RegistryError::AliasNotFound);
}

#[test]
fn test_receive_wrong_amount() {
    let mut registry = init_helper();
    for amount in [
        AMOUNT_FOR_TRANSACTION - 1,
        AMOUNT_FOR_TRANSACTION + 1,
        0,
    ] {
        let result = receive(
            &mut registry,
            mock_buttcoin().address,
            mock_user_address(),
            amount,
            ReceiveMsg::Create {
                alias: "nailbiter".to_string(),
                avatar_url: None,
            },
        );
        assert_eq!(result.unwrap_err(), RegistryError::WrongAmount);
    }
}

#[test]
fn test_destroy_removes_owner_backref() {
    let mut registry = init_helper();
    let result = try_destroy(
        &mut registry,
        HumanAddr("frump".to_string()),
        "Epstein didn't kill himself".to_string(),
    );
    assert!(result.is_ok());
    // The other seeded record is untouched: frump can be created again.
    let result = try_create(
        &mut registry,
        HumanAddr("frump".to_string()),
        "a new name".to_string(),
        None,
    );
    assert!(result.is_ok());
}

#[test]
fn test_init_emits_register_receive() {
    let init_msg = InitMsg {
        max_alias_size: None,
        buttcoin: Some(mock_buttcoin()),
        buttcoin_distributor: Some(mock_butt_lode()),
        aliases: vec![],
    };
    let (_registry, response) = init(mock_code_hash(), init_msg).unwrap();
    assert_eq!(response.messages.len(), 1);
    match &response.messages[0] {
        TokenInstruction::RegisterReceive { code_hash, token } => {
            assert_eq!(*code_hash, mock_code_hash());
            assert_eq!(*token, mock_buttcoin());
        }
        other => panic!("unexpected instruction: {:?}", other),
    }
}

#[test]
fn test_init_without_gate_emits_nothing() {
    let init_msg = InitMsg {
        max_alias_size: Some(255),
        buttcoin: None,
        buttcoin_distributor: None,
        aliases: vec![],
    };
    let (_registry, response) = init(mock_code_hash(), init_msg).unwrap();
    assert_eq!(response.messages.len(), 0);
}

#[test]
fn test_init_seeds_are_searchable() {
    let registry = init_helper();
    let found = query(
        &registry,
        QueryMsg::Search {
            search_type: "address".to_string(),
            search_value: "frump".to_string(),
        },
    )
    .unwrap();
    match &found {
        QueryResponse::Search(val) => {
            assert_eq!(val.attributes.alias, "epstein didn't kill himself");
            assert_eq!(val.attributes.address, HumanAddr("frump".to_string()));
        }
        other => panic!("unexpected response: {:?}", other),
    }
}

#[test]
fn test_init_rejects_duplicate_seed_owner() {
    let init_msg = InitMsg {
        max_alias_size: None,
        buttcoin: None,
        buttcoin_distributor: None,
        aliases: vec![
            AliasAttributes {
                alias: "first".to_string(),
                address: HumanAddr("frump".to_string()),
                avatar_url: None,
            },
            AliasAttributes {
                alias: "second".to_string(),
                address: HumanAddr("frump".to_string()),
                avatar_url: None,
            },
        ],
    };
    let result = init(mock_code_hash(), init_msg);
    assert_eq!(result.unwrap_err(), RegistryError::OwnerAlreadyHasAlias);
}

#[test]
fn test_init_invalid_max_size() {
    for bad in [0u32, 65536, 1_000_000] {
        let init_msg = InitMsg {
            max_alias_size: Some(bad),
            buttcoin: None,
            buttcoin_distributor: None,
            aliases: vec![],
        };
        let result = init(mock_code_hash(), init_msg);
        assert_eq!(result.unwrap_err(), RegistryError::InvalidMaxSize);
    }
}

#[test]
fn test_init_invalid_payment_config() {
    let init_msg = InitMsg {
        max_alias_size: None,
        buttcoin: Some(mock_buttcoin()),
        buttcoin_distributor: None,
        aliases: vec![],
    };
    let result = init(mock_code_hash(), init_msg);
    assert_eq!(result.unwrap_err(), RegistryError::InvalidPaymentConfig);
}

#[test]
fn test_show_resolves_like_an_alias_search() {
    let registry = init_helper();
    let found = query(
        &registry,
        QueryMsg::Show {
            alias: "  Epstein Didn't Kill Himself ".to_string(),
        },
    )
    .unwrap();
    match &found {
        QueryResponse::Search(val) => {
            assert_eq!(val.attributes.alias, "epstein didn't kill himself");
            assert_eq!(val.attributes.address, HumanAddr("frump".to_string()));
        }
        other => panic!("unexpected response: {:?}", other),
    }
    let missing = query(
        &registry,
        QueryMsg::Show {
            alias: "idonotexist".to_string(),
        },
    );
    assert_eq!(missing.unwrap_err(), RegistryError::AliasNotFound);
}

#[test]
fn test_size_boundary_counts_bytes_not_chars() {
    let init_msg = InitMsg {
        max_alias_size: Some(10),
        buttcoin: None,
        buttcoin_distributor: None,
        aliases: vec![],
    };
    let (mut registry, _response) = init(mock_code_hash(), init_msg).unwrap();

    // Five two-byte characters: ten bytes, accepted.
    let response = try_create(
        &mut registry,
        HumanAddr("owner-one".to_string()),
        "ééééé".to_string(),
        None,
    );
    assert!(response.is_ok());

    // Six two-byte characters: six chars but twelve bytes, rejected.
    let response = try_create(
        &mut registry,
        HumanAddr("owner-two".to_string()),
        "éééééé".to_string(),
        None,
    );
    assert_eq!(response.unwrap_err(), RegistryError::TooLong);
}

#[test]
fn test_bad_search_type() {
    let registry = init_helper();
    let result = query(
        &registry,
        QueryMsg::Search {
            search_type: "owner".to_string(),
            search_value: "frump".to_string(),
        },
    );
    assert_eq!(result.unwrap_err(), RegistryError::BadSearchType);
}
