use cosmwasm_std::testing::MockApi;
use wyndex_test_helpers::mock_querier::{
    balances_to_map, encode_reply, EncodedReply, MockReply, MockRequest, SmartQuery, TokenQuerier,
    WasmMockQuerier,
    DECIMAL_ONE_ATOMICS,
};

fn made(label: &str) -> String {
    MockApi::default().addr_make(label).to_string()
}

fn smart(contract: &str, query: SmartQuery) -> MockRequest {
    MockRequest::Smart {
        contract_addr: contract.to_string(),
        query,
    }
}

fn answer(querier: &WasmMockQuerier, request: MockRequest) -> MockReply {
    assert!(querier.can_answer(&request));
    querier.handle_query(&request)
}

#[test]
fn factory_fee_info_and_config() {
    let querier = WasmMockQuerier::new();
    let factory = made("beneficiary");
    assert_eq!(
        answer(&querier, smart(&factory, SmartQuery::FeeInfo)),
        MockReply::FeeInfo {
            fee_address: made("fee_receiver"),
            total_fee_bps: 30,
            protocol_fee_bps: 1660
        }
    );
    assert_eq!(
        answer(&querier, smart(&factory, SmartQuery::Config)),
        MockReply::Config {
            owner: made("owner"),
            fee_address: made("fee_receiver"),
            token_code_id: 0,
            max_referral_commission_atomics: DECIMAL_ONE_ATOMICS,
            only_owner_can_create_pairs: true,
            trading_starts: None
        }
    );
    assert_eq!(DECIMAL_ONE_ATOMICS, 1_000_000_000_000_000_000);
    assert_eq!(
        answer(
            &querier,
            MockRequest::Raw {
                contract_addr: factory.clone()
            }
        ),
        MockReply::NoPairs
    );
    assert!(!querier.can_answer(&smart(&factory, SmartQuery::TokenInfo)));
    assert!(!querier.can_answer(&smart(
        &factory,
        SmartQuery::Balance {
            address: "x".to_string()
        }
    )));
}

#[test]
fn token_balance_and_supply() {
    let mut querier = WasmMockQuerier::new();
    let token = made("trader");
    querier.with_token_balances(&[(
        token.clone(),
        vec![
            ("cosmos2contract".to_string(), 123),
            (made("addr00000"), 123),
            (made("addr00001"), 123),
            (made("addr00002"), 123),
        ],
    )]);
    assert_eq!(
        answer(
            &querier,
            smart(
                &token,
                SmartQuery::Balance {
                    address: "cosmos2contract".to_string()
                }
            )
        ),
        MockReply::Balance { balance: 123 }
    );
    assert_eq!(
        answer(&querier, smart(&token, SmartQuery::TokenInfo)),
        MockReply::TokenInfo {
            name: "mAPPL".to_string(),
            symbol: "mAPPL".to_string(),
            decimals: 6,
            total_supply: 492
        }
    );
    assert_eq!(
        answer(
            &querier,
            smart(
                &token,
                SmartQuery::Balance {
                    address: "nobody".to_string()
                }
            )
        ),
        MockReply::Unknown
    );
    assert_eq!(
        answer(&querier, smart("other-token", SmartQuery::TokenInfo)),
        MockReply::Unknown
    );
    assert!(!querier.can_answer(&smart(&token, SmartQuery::Config)));
    assert!(!querier.can_answer(&smart(&token, SmartQuery::Unsupported)));
    assert!(!querier.can_answer(&MockRequest::Raw {
        contract_addr: token.clone()
    }));
    assert_eq!(answer(&querier, MockRequest::Other), MockReply::Fallback);
}

#[test]
fn later_entries_override_earlier_ones() {
    let mut querier = WasmMockQuerier::new();
    querier.with_token_balances(&[
        ("t".to_string(), vec![("a".to_string(), 1), ("b".to_string(), 2)]),
        ("u".to_string(), vec![("a".to_string(), 10)]),
        ("t".to_string(), vec![("a".to_string(), 5), ("a".to_string(), 7)]),
    ]);
    assert_eq!(
        answer(
            &querier,
            smart(
                "t",
                SmartQuery::Balance {
                    address: "a".to_string()
                }
            )
        ),
        MockReply::Balance { balance: 7 }
    );
    assert_eq!(
        answer(
            &querier,
            smart(
                "t",
                SmartQuery::Balance {
                    address: "b".to_string()
                }
            )
        ),
        MockReply::Unknown
    );
    assert_eq!(
        answer(&querier, smart("t", SmartQuery::TokenInfo)),
        MockReply::TokenInfo {
            name: "mAPPL".to_string(),
            symbol: "mAPPL".to_string(),
            decimals: 6,
            total_supply: 7
        }
    );
    assert_eq!(
        answer(&querier, smart("u", SmartQuery::TokenInfo)),
        MockReply::TokenInfo {
            name: "mAPPL".to_string(),
            symbol: "mAPPL".to_string(),
            decimals: 6,
            total_supply: 10
        }
    );
}

#[test]
fn overflowing_supply_is_not_answered() {
    let mut querier = WasmMockQuerier::new();
    querier.with_token_balances(&[(
        "t".to_string(),
        vec![("a".to_string(), u128::MAX), ("b".to_string(), 1)],
    )]);
    assert!(!querier.can_answer(&smart("t", SmartQuery::TokenInfo)));
    assert!(querier.can_answer(&smart(
        "t",
        SmartQuery::Balance {
            address: "a".to_string()
        }
    )));
}

#[test]
fn balances_map_keeps_one_entry_per_key() {
    let map = balances_to_map(&[
        ("t".to_string(), vec![("a".to_string(), 1)]),
        ("t".to_string(), vec![("b".to_string(), 2), ("b".to_string(), 3)]),
    ]);
    assert_eq!(map, vec![("t".to_string(), vec![("b".to_string(), 3)])]);
}

#[test]
fn token_querier_default_and_new() {
    let _empty = TokenQuerier::default();
    let _some = TokenQuerier::new(&[("t".to_string(), vec![])]);
}

fn json(encoded: Option<EncodedReply>) -> Vec<u8> {
    match encoded {
        Some(EncodedReply::Json(Ok(bytes))) => bytes,
        other => panic!("not a JSON answer: {:?}", other),
    }
}

#[test]
fn token_queries_are_answered_from_json_bytes() {
    let mut querier = WasmMockQuerier::new();
    let token = made("trader");
    querier.with_token_balances(&[(token.clone(), vec![("a".to_string(), 5), ("b".to_string(), 7)])]);
    let factory_query = SmartQuery::Unsupported;
    assert_eq!(
        json(querier.answer_smart(&token, br#"{"balance":{"address":"a"}}"#, factory_query.clone())),
        br#"{"balance":"5"}"#.to_vec()
    );
    assert_eq!(
        json(querier.answer_smart(&token, br#"{"token_info":{}}"#, factory_query.clone())),
        br#"{"name":"mAPPL","symbol":"mAPPL","decimals":6,"total_supply":"12"}"#.to_vec()
    );
    assert_eq!(
        querier.answer_smart(&token, br#"{"balance":{"address":"nobody"}}"#, factory_query.clone()),
        Some(EncodedReply::Unknown)
    );
    assert_eq!(querier.answer_smart(&token, br#"{"minter":{}}"#, factory_query.clone()), None);
    assert_eq!(querier.answer_smart(&token, b"not json", factory_query.clone()), None);
}

#[test]
fn factory_queries_use_the_decoded_factory_query() {
    let querier = WasmMockQuerier::new();
    let factory = made("beneficiary");
    assert_eq!(
        querier.answer_smart(&factory, br#"{"token_info":{}}"#, SmartQuery::FeeInfo),
        Some(EncodedReply::Factory(MockReply::FeeInfo {
            fee_address: made("fee_receiver"),
            total_fee_bps: 30,
            protocol_fee_bps: 1660
        }))
    );
    assert_eq!(querier.answer_smart(&factory, br#"{"token_info":{}}"#, SmartQuery::TokenInfo), None);
    assert_eq!(
        json(Some(querier.respond(&MockRequest::Raw { contract_addr: factory.clone() }))),
        b"[]".to_vec()
    );
    assert_eq!(querier.respond(&MockRequest::Other), EncodedReply::Fallback);
}

#[test]
fn replies_encode_as_cw20_json() {
    assert_eq!(
        encode_reply(MockReply::Balance { balance: 0 }),
        EncodedReply::Json(Ok(br#"{"balance":"0"}"#.to_vec()))
    );
    assert_eq!(
        encode_reply(MockReply::TokenInfo {
            name: "n".to_string(),
            symbol: "s".to_string(),
            decimals: 18,
            total_supply: 340282366920938463463374607431768211455
        }),
        EncodedReply::Json(Ok(
            br#"{"name":"n","symbol":"s","decimals":18,"total_supply":"340282366920938463463374607431768211455"}"#.to_vec()
        ))
    );
    assert_eq!(encode_reply(MockReply::NoPairs), EncodedReply::Json(Ok(b"[]".to_vec())));
    assert_eq!(encode_reply(MockReply::Unknown), EncodedReply::Unknown);
}

#[test]
fn literal_token_contracts_are_answered() {
    let mut querier = WasmMockQuerier::new();
    querier.with_token_balances(&[(
        "lp".to_string(),
        vec![("a".to_string(), 100), ("b".to_string(), 20), ("c".to_string(), 3)],
    )]);
    assert_eq!(
        answer(&querier, smart("lp", SmartQuery::TokenInfo)),
        MockReply::TokenInfo {
            name: "mAPPL".to_string(),
            symbol: "mAPPL".to_string(),
            decimals: 6,
            total_supply: 123
        }
    );
}
