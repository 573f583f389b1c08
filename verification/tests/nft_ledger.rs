use cosmwasm_std::{to_vec, MemoryStorage, StdError, Uint128};
use cosmwasm_storage::bucket_read;
use nft_auction::host::{Attribute, BlockInfo, ContractInfo, Env, MessageInfo, Response};
use nft_auction::nft::contract::{
    execute, instantiate, is_valid_name, is_valid_symbol, query, QueryResponse,
};
use nft_auction::nft::errors::ContractError;
use nft_auction::nft::msg::{ExecuteMsg, InstantiateMsg, QueryMsg};
use nft_auction::nft::store::{
    read_minted_token_id_store, read_operators_store, read_owner_tokens_store,
    read_token_approvals_store, read_token_owner_store, read_token_store,
    write_minted_token_id_store, write_operators_store, write_owner_tokens_store,
    write_state_store, write_token_approvals_store, write_token_owner_store, write_token_store,
};
use nft_auction::nft::types::{State, Token, TokenId};
use nft_auction::storage::empty_storage;

fn env() -> Env {
    Env { block: BlockInfo { height: 1 }, contract: ContractInfo { address: "ledger".to_string() } }
}

fn call_from(sender: &str) -> MessageInfo {
    MessageInfo { sender: sender.to_string(), funds: vec![] }
}

fn tag(key: &str, value: &str) -> Attribute {
    Attribute { key: key.to_string(), value: value.to_string() }
}

fn run(storage: &mut MemoryStorage, sender: &str, msg: ExecuteMsg) -> Result<Response, ContractError> {
    execute(storage, env(), call_from(sender), msg)
}

fn mint(storage: &mut MemoryStorage, owner: &str, name: &str) -> Response {
    run(storage, owner, ExecuteMsg::Mint { name: name.to_string(), uri: "uri".to_string() }).unwrap()
}

fn ids(numbers: &[u128]) -> Vec<TokenId> {
    numbers.iter().map(|n| TokenId::new(*n)).collect()
}

fn owner(storage: &MemoryStorage, id: u128) -> Option<String> {
    match query(storage, env(), QueryMsg::Owner { token_id: id }).unwrap() {
        QueryResponse::Owner(owner) => owner,
        other => panic!("unexpected answer {:?}", other),
    }
}

fn balance(storage: &MemoryStorage, address: &str) -> usize {
    match query(storage, env(), QueryMsg::Balance { address: address.to_string() }).unwrap() {
        QueryResponse::Balance(count) => count,
        other => panic!("unexpected answer {:?}", other),
    }
}

#[test]
fn name_and_symbol_take_three_to_thirty_characters() {
    assert!(!is_valid_name(""));
    assert!(!is_valid_name("ab"));
    assert!(is_valid_name("abc"));
    assert!(is_valid_name(&"x".repeat(30)));
    assert!(!is_valid_name(&"x".repeat(31)));
    assert!(!is_valid_symbol("ab"));
    assert!(is_valid_symbol("abc"));
    assert!(is_valid_symbol(&"x".repeat(30)));
    assert!(!is_valid_symbol(&"x".repeat(31)));
}

#[test]
fn name_is_counted_in_characters_not_bytes() {
    assert!(!is_valid_name("\u{e9}\u{e9}"));
    assert!(is_valid_name("\u{e9}\u{e9}\u{e9}"));
    assert!(is_valid_name(&"\u{1F600}".repeat(30)));
    assert!(!is_valid_symbol(&"\u{1F600}".repeat(31)));
}

#[test]
fn token_id_reads_back() {
    let id = TokenId::new(42);
    assert_eq!(id.as_u128(), 42);
    assert_eq!(id.as_string(), "42");
    assert!(id.equal(&TokenId::new(42)));
    assert!(!id.equal(&TokenId::new(43)));
}

#[test]
fn token_id_key_is_quoted_decimal() {
    assert_eq!(TokenId::new(0).as_bytes(), b"\"0\"".to_vec());
    assert_eq!(TokenId::new(1205).as_bytes(), b"\"1205\"".to_vec());
    assert_eq!(TokenId::new(u128::MAX).as_bytes(), to_vec(&Uint128(u128::MAX)).unwrap());
}

#[test]
fn token_new_keeps_its_fields() {
    let token = Token::new(TokenId::new(3), "name".to_string(), "uri".to_string());
    assert_eq!(token.token_id, TokenId::new(3));
    assert_eq!(token.name, "name");
    assert_eq!(token.uri, "uri");
}

#[test]
fn instantiate_checks_name_then_symbol() {
    let mut storage = empty_storage();
    let msg = InstantiateMsg { name: "ab".to_string(), symbol: "x".to_string() };
    assert_eq!(
        instantiate(&mut storage, env(), call_from("owner"), msg).unwrap_err(),
        ContractError::InvalidNameFormat {}
    );
    let msg = InstantiateMsg { name: "abc".to_string(), symbol: "x".to_string() };
    assert_eq!(
        instantiate(&mut storage, env(), call_from("owner"), msg).unwrap_err(),
        ContractError::InvalidSymbolFormat {}
    );
    let msg = InstantiateMsg { name: "abc".to_string(), symbol: "xyz".to_string() };
    let res = instantiate(&mut storage, env(), call_from("owner"), msg).unwrap();
    assert!(res.attributes.is_empty());
    assert!(res.messages.is_empty());
    let stored: (String, String) = bucket_read(&storage, b"config").load(b"state").unwrap();
    assert_eq!(stored, ("abc".to_string(), "xyz".to_string()));
}

#[test]
fn state_store_replaces_name_and_symbol() {
    let mut storage = empty_storage();
    write_state_store(&mut storage, State { name: "one".to_string(), symbol: "ONE".to_string() })
        .unwrap();
    write_state_store(&mut storage, State { name: "two".to_string(), symbol: "TWO".to_string() })
        .unwrap();
    let stored: (String, String) = bucket_read(&storage, b"config").load(b"state").unwrap();
    assert_eq!(stored, ("two".to_string(), "TWO".to_string()));
}

#[test]
fn operators_store_reads_back_under_owner_and_operator() {
    let mut storage = empty_storage();
    assert_eq!(
        read_operators_store(&storage, "alice".to_string(), "bob".to_string()).unwrap(),
        None
    );
    write_operators_store(&mut storage, "alice".to_string(), "bob".to_string(), true).unwrap();
    write_operators_store(&mut storage, "alice".to_string(), "carol".to_string(), false).unwrap();
    assert_eq!(
        read_operators_store(&storage, "alice".to_string(), "bob".to_string()).unwrap(),
        Some(true)
    );
    assert_eq!(
        read_operators_store(&storage, "alice".to_string(), "carol".to_string()).unwrap(),
        Some(false)
    );
    assert_eq!(
        read_operators_store(&storage, "bob".to_string(), "alice".to_string()).unwrap(),
        None
    );
    assert_eq!(
        read_operators_store(&storage, "alic".to_string(), "ebob".to_string()).unwrap(),
        None
    );
}

#[test]
fn operators_key_is_two_lengths_and_two_texts() {
    let mut storage = empty_storage();
    write_operators_store(&mut storage, "alice".to_string(), "b\u{e9}".to_string(), true).unwrap();
    let mut key: Vec<u8> = vec![5, 0, 0, 0, 0, 0, 0, 0];
    key.extend_from_slice(b"alice");
    key.extend_from_slice(&[3, 0, 0, 0, 0, 0, 0, 0]);
    key.extend_from_slice("b\u{e9}".as_bytes());
    assert_eq!(key, bincode::serialize(&("alice", "b\u{e9}")).unwrap());
    let stored: bool = bucket_read(&storage, b"operators").load(&key).unwrap();
    assert!(stored);
}

#[test]
fn token_store_reads_back_under_its_number() {
    let mut storage = empty_storage();
    assert_eq!(read_token_store(&storage, TokenId::new(4)).unwrap(), None);
    let token = Token::new(TokenId::new(4), "na\"me".to_string(), "u\\ri".to_string());
    write_token_store(&mut storage, TokenId::new(4), token.clone()).unwrap();
    assert_eq!(read_token_store(&storage, TokenId::new(4)).unwrap(), Some(token));
    assert_eq!(read_token_store(&storage, TokenId::new(40)).unwrap(), None);
    let stored: (Uint128, String, String) =
        bucket_read(&storage, b"token").load(b"\"4\"").unwrap();
    assert_eq!(stored.0, Uint128(4));
}

#[test]
fn owner_tokens_store_reads_back_in_order() {
    let mut storage = empty_storage();
    assert_eq!(read_owner_tokens_store(&storage, "alice".to_string()).unwrap(), ids(&[]));
    write_owner_tokens_store(&mut storage, "alice".to_string(), ids(&[3, 1, 2])).unwrap();
    assert_eq!(read_owner_tokens_store(&storage, "alice".to_string()).unwrap(), ids(&[3, 1, 2]));
    assert_eq!(read_owner_tokens_store(&storage, "bob".to_string()).unwrap(), ids(&[]));
    let stored: Vec<Uint128> = bucket_read(&storage, b"owner_tokens").load(b"alice").unwrap();
    assert_eq!(stored, vec![Uint128(3), Uint128(1), Uint128(2)]);
}

#[test]
fn token_owner_store_reads_back_under_its_number() {
    let mut storage = empty_storage();
    assert_eq!(read_token_owner_store(&storage, TokenId::new(5)).unwrap(), None);
    write_token_owner_store(&mut storage, TokenId::new(5), "bob".to_string()).unwrap();
    assert_eq!(
        read_token_owner_store(&storage, TokenId::new(5)).unwrap(),
        Some("bob".to_string())
    );
    assert_eq!(read_token_owner_store(&storage, TokenId::new(6)).unwrap(), None);
    let stored: String = bucket_read(&storage, b"token_owner").load(b"\"5\"").unwrap();
    assert_eq!(stored, "bob");
}

#[test]
fn minted_store_reads_back() {
    let mut storage = empty_storage();
    assert_eq!(read_minted_token_id_store(&storage).unwrap(), None);
    write_minted_token_id_store(&mut storage, ids(&[0, 1])).unwrap();
    assert_eq!(read_minted_token_id_store(&storage).unwrap(), Some(ids(&[0, 1])));
    let stored: Vec<Uint128> = bucket_read(&storage, b"minted_token_id").load(b"minter").unwrap();
    assert_eq!(stored, vec![Uint128(0), Uint128(1)]);
}

#[test]
fn token_approvals_store_reads_back_under_its_number() {
    let mut storage = empty_storage();
    assert_eq!(read_token_approvals_store(&storage, TokenId::new(5)).unwrap(), None);
    write_token_approvals_store(&mut storage, TokenId::new(5), "carol".to_string()).unwrap();
    assert_eq!(
        read_token_approvals_store(&storage, TokenId::new(5)).unwrap(),
        Some("carol".to_string())
    );
    assert_eq!(read_token_owner_store(&storage, TokenId::new(5)).unwrap(), None);
    let stored: String = bucket_read(&storage, b"token_approvals").load(b"\"5\"").unwrap();
    assert_eq!(stored, "carol");
}

#[test]
fn stores_keep_apart() {
    let mut storage = empty_storage();
    write_token_owner_store(&mut storage, TokenId::new(1), "bob".to_string()).unwrap();
    write_token_approvals_store(&mut storage, TokenId::new(1), "carol".to_string()).unwrap();
    write_owner_tokens_store(&mut storage, "minter".to_string(), ids(&[9])).unwrap();
    write_minted_token_id_store(&mut storage, ids(&[1])).unwrap();
    assert_eq!(
        read_token_owner_store(&storage, TokenId::new(1)).unwrap(),
        Some("bob".to_string())
    );
    assert_eq!(
        read_token_approvals_store(&storage, TokenId::new(1)).unwrap(),
        Some("carol".to_string())
    );
    assert_eq!(read_owner_tokens_store(&storage, "minter".to_string()).unwrap(), ids(&[9]));
    assert_eq!(read_minted_token_id_store(&storage).unwrap(), Some(ids(&[1])));
    assert_eq!(read_token_store(&storage, TokenId::new(1)).unwrap(), None);
}

#[test]
fn mint_numbers_assets_from_zero() {
    let mut storage = empty_storage();
    let res = mint(&mut storage, "alice", "first");
    assert_eq!(res.attributes, vec![tag("action", "mint"), tag("token_id", "0")]);
    assert!(res.messages.is_empty());
    let res = mint(&mut storage, "alice", "second");
    assert_eq!(res.attributes, vec![tag("action", "mint"), tag("token_id", "1")]);
    assert_eq!(owner(&storage, 0), Some("alice".to_string()));
    assert_eq!(owner(&storage, 1), Some("alice".to_string()));
    assert_eq!(owner(&storage, 2), None);
    assert_eq!(balance(&storage, "alice"), 2);
    assert_eq!(
        query(&storage, env(), QueryMsg::Token { token_id: 1 }).unwrap(),
        QueryResponse::Token(Some(Token::new(
            TokenId::new(1),
            "second".to_string(),
            "uri".to_string()
        )))
    );
    assert_eq!(
        query(&storage, env(), QueryMsg::Token { token_id: 2 }).unwrap(),
        QueryResponse::Token(None)
    );
    assert_eq!(read_minted_token_id_store(&storage).unwrap(), Some(ids(&[0, 1])));
}

#[test]
fn mint_lists_the_owners_assets_as_minted() {
    let mut storage = empty_storage();
    mint(&mut storage, "alice", "first");
    let res = mint(&mut storage, "bob", "second");
    assert_eq!(res.attributes[1], tag("token_id", "1"));
    assert_eq!(read_minted_token_id_store(&storage).unwrap(), Some(ids(&[1])));
    assert_eq!(read_owner_tokens_store(&storage, "bob".to_string()).unwrap(), ids(&[1]));
    let res = mint(&mut storage, "alice", "third");
    assert_eq!(res.attributes[1], tag("token_id", "2"));
    assert_eq!(read_owner_tokens_store(&storage, "alice".to_string()).unwrap(), ids(&[0, 2]));
}

#[test]
fn mint_after_the_largest_number_is_refused() {
    let mut storage = empty_storage();
    write_minted_token_id_store(&mut storage, ids(&[u128::MAX])).unwrap();
    let err = run(
        &mut storage,
        "alice",
        ExecuteMsg::Mint { name: "n".to_string(), uri: "u".to_string() },
    )
    .unwrap_err();
    assert_eq!(err, ContractError::Std(StdError::generic_err("token id out of range")));
    assert_eq!(balance(&storage, "alice"), 0);
}

#[test]
fn mint_over_an_empty_list_starts_at_zero() {
    let mut storage = empty_storage();
    write_minted_token_id_store(&mut storage, ids(&[])).unwrap();
    let res = mint(&mut storage, "alice", "first");
    assert_eq!(res.attributes[1], tag("token_id", "0"));
}

#[test]
fn transfer_moves_asset_between_lists() {
    let mut storage = empty_storage();
    mint(&mut storage, "alice", "a");
    mint(&mut storage, "alice", "b");
    mint(&mut storage, "alice", "c");
    let res = run(
        &mut storage,
        "alice",
        ExecuteMsg::Transfer { recipient: "bob".to_string(), token_id: 1 },
    )
    .unwrap();
    assert_eq!(
        res.attributes,
        vec![
            tag("action", "transfer_from"),
            tag("sender", "alice"),
            tag("recipient", "bob"),
            tag("token_id", "1"),
        ]
    );
    assert_eq!(owner(&storage, 1), Some("bob".to_string()));
    assert_eq!(owner(&storage, 0), Some("alice".to_string()));
    assert_eq!(read_owner_tokens_store(&storage, "alice".to_string()).unwrap(), ids(&[0, 2]));
    assert_eq!(read_owner_tokens_store(&storage, "bob".to_string()).unwrap(), ids(&[1]));
    assert_eq!(balance(&storage, "alice"), 2);
    assert_eq!(balance(&storage, "bob"), 1);
}

#[test]
fn transfer_to_oneself_moves_asset_to_the_end() {
    let mut storage = empty_storage();
    mint(&mut storage, "alice", "a");
    mint(&mut storage, "alice", "b");
    run(&mut storage, "alice", ExecuteMsg::Transfer { recipient: "alice".to_string(), token_id: 0 })
        .unwrap();
    assert_eq!(read_owner_tokens_store(&storage, "alice".to_string()).unwrap(), ids(&[1, 0]));
    assert_eq!(owner(&storage, 0), Some("alice".to_string()));
}

#[test]
fn transfer_of_unminted_asset_is_refused() {
    let mut storage = empty_storage();
    let msg = ExecuteMsg::Transfer { recipient: "bob".to_string(), token_id: 0 };
    assert_eq!(run(&mut storage, "alice", msg).unwrap_err(), ContractError::NotExistToken {});
    mint(&mut storage, "alice", "a");
    let msg = ExecuteMsg::Transfer { recipient: "bob".to_string(), token_id: 1 };
    assert_eq!(run(&mut storage, "alice", msg).unwrap_err(), ContractError::NotExistToken {});
}

#[test]
fn transfer_by_another_than_the_owner_is_refused() {
    let mut storage = empty_storage();
    mint(&mut storage, "alice", "a");
    let msg = ExecuteMsg::Transfer { recipient: "bob".to_string(), token_id: 0 };
    assert_eq!(run(&mut storage, "bob", msg).unwrap_err(), ContractError::InvalidTokenOwner {});
    assert_eq!(owner(&storage, 0), Some("alice".to_string()));
    assert_eq!(balance(&storage, "bob"), 0);
}

#[test]
fn transfer_from_needs_approval_of_the_recipient() {
    let mut storage = empty_storage();
    mint(&mut storage, "alice", "a");
    let msg = ExecuteMsg::TransferFrom {
        sender: "alice".to_string(),
        recipient: "bob".to_string(),
        token_id: 0,
    };
    assert_eq!(
        run(&mut storage, "bob", msg.clone()).unwrap_err(),
        ContractError::NotExistTokenAllowance {}
    );
    run(&mut storage, "alice", ExecuteMsg::Approve { recipient: "carol".to_string(), token_id: 0 })
        .unwrap();
    assert_eq!(
        run(&mut storage, "bob", msg.clone()).unwrap_err(),
        ContractError::NotExistTokenAllowance {}
    );
    run(&mut storage, "alice", ExecuteMsg::Approve { recipient: "bob".to_string(), token_id: 0 })
        .unwrap();
    let res = run(&mut storage, "bob", msg).unwrap();
    assert_eq!(res.attributes[0], tag("action", "transfer_from"));
    assert_eq!(owner(&storage, 0), Some("bob".to_string()));
}

#[test]
fn transfer_from_checks_the_owner_after_the_approval() {
    let mut storage = empty_storage();
    mint(&mut storage, "alice", "a");
    run(&mut storage, "alice", ExecuteMsg::Approve { recipient: "bob".to_string(), token_id: 0 })
        .unwrap();
    let msg = ExecuteMsg::TransferFrom {
        sender: "carol".to_string(),
        recipient: "bob".to_string(),
        token_id: 0,
    };
    assert_eq!(run(&mut storage, "bob", msg).unwrap_err(), ContractError::InvalidTokenOwner {});
}

#[test]
fn approve_by_owner_sets_the_allowance() {
    let mut storage = empty_storage();
    mint(&mut storage, "alice", "a");
    let res = run(
        &mut storage,
        "alice",
        ExecuteMsg::Approve { recipient: "bob".to_string(), token_id: 0 },
    )
    .unwrap();
    assert_eq!(
        res.attributes,
        vec![
            tag("action", "approve"),
            tag("sender", "alice"),
            tag("recipient", "bob"),
            tag("token_id", "0"),
        ]
    );
    assert_eq!(
        query(&storage, env(), QueryMsg::Allowance { token_id: 0 }).unwrap(),
        QueryResponse::Allowance(Some("bob".to_string()))
    );
    assert_eq!(
        query(&storage, env(), QueryMsg::Allowance { token_id: 1 }).unwrap(),
        QueryResponse::Allowance(None)
    );
}

#[test]
fn approve_by_stranger_is_refused() {
    let mut storage = empty_storage();
    mint(&mut storage, "alice", "a");
    let msg = ExecuteMsg::Approve { recipient: "bob".to_string(), token_id: 0 };
    assert_eq!(run(&mut storage, "bob", msg).unwrap_err(), ContractError::CanNotApprove {});
    let msg = ExecuteMsg::Approve { recipient: "bob".to_string(), token_id: 5 };
    assert_eq!(run(&mut storage, "alice", msg).unwrap_err(), ContractError::CanNotApprove {});
}

#[test]
fn approve_by_operator_goes_through_while_named() {
    let mut storage = empty_storage();
    mint(&mut storage, "alice", "a");
    let res = run(
        &mut storage,
        "alice",
        ExecuteMsg::ApproveForAll { opeartor: "oscar".to_string(), approved: true },
    )
    .unwrap();
    assert_eq!(
        res.attributes,
        vec![tag("action", "approve_for_all"), tag("sender", "alice"), tag("operator", "oscar")]
    );
    run(&mut storage, "oscar", ExecuteMsg::Approve { recipient: "bob".to_string(), token_id: 0 })
        .unwrap();
    run(
        &mut storage,
        "alice",
        ExecuteMsg::ApproveForAll { opeartor: "oscar".to_string(), approved: false },
    )
    .unwrap();
    let msg = ExecuteMsg::Approve { recipient: "carol".to_string(), token_id: 0 };
    assert_eq!(run(&mut storage, "oscar", msg).unwrap_err(), ContractError::CanNotApprove {});
    assert_eq!(
        query(&storage, env(), QueryMsg::Allowance { token_id: 0 }).unwrap(),
        QueryResponse::Allowance(Some("bob".to_string()))
    );
}

#[test]
fn approve_for_all_of_oneself_is_refused() {
    let mut storage = empty_storage();
    let msg = ExecuteMsg::ApproveForAll { opeartor: "alice".to_string(), approved: true };
    assert_eq!(run(&mut storage, "alice", msg).unwrap_err(), ContractError::InvalidAddress {});
    assert_eq!(
        read_operators_store(&storage, "alice".to_string(), "alice".to_string()).unwrap(),
        None
    );
}

#[test]
fn queries_on_an_empty_ledger() {
    let storage = empty_storage();
    assert_eq!(balance(&storage, "alice"), 0);
    assert_eq!(owner(&storage, 0), None);
    assert_eq!(
        query(&storage, env(), QueryMsg::Allowance { token_id: 0 }).unwrap(),
        QueryResponse::Allowance(None)
    );
    assert_eq!(
        query(&storage, env(), QueryMsg::Token { token_id: 0 }).unwrap(),
        QueryResponse::Token(None)
    );
}
