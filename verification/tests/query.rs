use module_cache::query::{
    AllBalanceResponse, AllDenomMetadataResponse, BalanceResponse, BankQuery, Binary, Coin,
    DenomMetadata, DenomMetadataResponse, Empty, QueryRequest, SupplyResponse,
};

fn uatom_metadata() -> DenomMetadata {
    DenomMetadata {
        description: String::from("The native staking token"),
        base: String::from("uatom"),
        display: String::from("atom"),
        name: String::from("Atom"),
        symbol: String::from("ATOM"),
    }
}

#[test]
fn private_constructor_works() {
    let response = AllBalanceResponse::new(vec![Coin::new(1234u128, "uatom")]);
    assert_eq!(
        response,
        AllBalanceResponse {
            amount: vec![Coin::new(1234u128, "uatom")]
        }
    );
}

#[test]
fn coin_constructor_sets_fields() {
    let coin = Coin::new(42u128, "uatom");
    assert_eq!(coin.amount, 42u128);
    assert_eq!(coin.denom, "uatom");
}

#[test]
fn response_constructors_set_fields() {
    let supply = SupplyResponse::new(Coin::new(7u128, "ustake"));
    assert_eq!(supply.amount, Coin::new(7u128, "ustake"));

    let balance = BalanceResponse::new(Coin::new(0u128, "uatom"));
    assert_eq!(balance.amount, Coin::new(0u128, "uatom"));
}

#[test]
fn metadata_response_constructors_set_fields() {
    let single = DenomMetadataResponse::new(uatom_metadata());
    assert_eq!(single.metadata, uatom_metadata());

    let all = AllDenomMetadataResponse::new(vec![uatom_metadata()], Some(Binary(vec![1, 2, 3])));
    assert_eq!(all.metadata, vec![uatom_metadata()]);
    assert_eq!(all.next_key, Some(Binary(vec![1, 2, 3])));

    let last_page = AllDenomMetadataResponse::new(vec![], None);
    assert!(last_page.metadata.is_empty());
    assert_eq!(last_page.next_key, None);
}

#[test]
fn query_request_from_bank_query() {
    let query = BankQuery::AllBalances {
        address: String::from("account"),
    };
    let request: QueryRequest<Empty> = QueryRequest::from(query.clone());
    assert_eq!(request, QueryRequest::Bank(query));
}

#[test]
fn query_request_from_custom_query() {
    let request: QueryRequest<Empty> = QueryRequest::from(Empty {});
    assert_eq!(request, QueryRequest::Custom(Empty {}));
}
