use cosmwasm_std::MemoryStorage;
use nft_auction::auction::contract::{
    execute_bid, execute_listing, execute_withdraw, instantiate, query_listing_token,
};
use nft_auction::auction::error::ContractError;
use nft_auction::auction::msg::InstantiateMsg;
use nft_auction::host::{
    Attribute, BankMsg, BlockInfo, Coin, ContractInfo, CosmosMsg, Env, MessageInfo, WasmMsg,
};
use nft_auction::nft::msg::ExecuteMsg as LedgerMsg;

fn env_at(height: u64) -> Env {
    Env {
        block: BlockInfo { height },
        contract: ContractInfo { address: "engine".to_string() },
    }
}

fn call_from(sender: &str, funds: Vec<Coin>) -> MessageInfo {
    MessageInfo { sender: sender.to_string(), funds }
}

fn coin(amount: u128, denom: &str) -> Coin {
    Coin { denom: denom.to_string(), amount }
}

fn tag(key: &str, value: &str) -> Attribute {
    Attribute { key: key.to_string(), value: value.to_string() }
}

#[test]
fn full_auction_with_two_bidders() {
    let mut storage = MemoryStorage::new();
    let setup = InstantiateMsg { auction_nft: None, auction_limit_block_height: 50 };
    let res = instantiate(&mut storage, env_at(1000), call_from("owner", vec![]), setup).unwrap();
    assert!(res.submessages.is_empty());
    assert!(res.messages.is_empty());

    let res = execute_listing(
        &mut storage,
        env_at(1000),
        call_from("seller", vec![]),
        Some(Ok("ledger".to_string())),
        7,
        coin(100, "u"),
    )
    .unwrap();
    assert_eq!(res.attributes, vec![tag("action", "listing"), tag("listing_id", "ledger/7")]);
    assert_eq!(
        res.messages,
        vec![
            CosmosMsg::Wasm(WasmMsg::Execute {
                contract_addr: "ledger".to_string(),
                msg: LedgerMsg::Approve { recipient: "engine".to_string(), token_id: 7 },
                send: vec![],
            }),
            CosmosMsg::Wasm(WasmMsg::Execute {
                contract_addr: "ledger".to_string(),
                msg: LedgerMsg::TransferFrom {
                    sender: "seller".to_string(),
                    recipient: "engine".to_string(),
                    token_id: 7,
                },
                send: vec![],
            }),
        ]
    );
    let listing = query_listing_token(&storage, "ledger/7".to_string()).unwrap();
    assert_eq!(listing.block_limit, 1050);
    assert_eq!(listing.max_bid, coin(100, "u"));
    assert_eq!(listing.max_bidder, "engine");

    let res = execute_bid(
        &mut storage,
        env_at(1010),
        call_from("alice", vec![coin(150, "u")]),
        "ledger/7".to_string(),
    )
    .unwrap();
    assert!(res.messages.is_empty());
    assert_eq!(res.attributes, vec![tag("action", "bid"), tag("listing_id", "ledger/7")]);

    let err = execute_bid(
        &mut storage,
        env_at(1020),
        call_from("bob", vec![coin(140, "u")]),
        "ledger/7".to_string(),
    )
    .unwrap_err();
    assert_eq!(err, ContractError::InvalidBid {});

    let res = execute_bid(
        &mut storage,
        env_at(1030),
        call_from("bob", vec![coin(200, "u")]),
        "ledger/7".to_string(),
    )
    .unwrap();
    assert_eq!(
        res.messages,
        vec![CosmosMsg::Bank(BankMsg::Send {
            to_address: "alice".to_string(),
            amount: vec![coin(150, "u")],
        })]
    );

    let err = execute_withdraw(
        &mut storage,
        env_at(1040),
        call_from("anyone", vec![]),
        "ledger/7".to_string(),
    )
    .unwrap_err();
    assert_eq!(err, ContractError::AuctionNotEnded {});

    let res = execute_withdraw(
        &mut storage,
        env_at(1060),
        call_from("anyone", vec![]),
        "ledger/7".to_string(),
    )
    .unwrap();
    assert_eq!(
        res.attributes,
        vec![tag("action", "withdraw"), tag("status", "sold"), tag("listing_id", "ledger/7")]
    );
    assert_eq!(
        res.messages,
        vec![
            CosmosMsg::Wasm(WasmMsg::Execute {
                contract_addr: "ledger".to_string(),
                msg: LedgerMsg::Transfer { recipient: "bob".to_string(), token_id: 7 },
                send: vec![],
            }),
            CosmosMsg::Bank(BankMsg::Send {
                to_address: "seller".to_string(),
                amount: vec![coin(200, "u")],
            }),
        ]
    );
    assert!(query_listing_token(&storage, "ledger/7".to_string()).is_err());
}
