use generic_token::{Cw20Token, NativeToken, Token, TokenInfo, TokenWire, WireError};
use serde_json::Value;

fn object_text(entries: &Vec<(String, String)>) -> String {
    let mut object = serde_json::Map::new();
    for (key, value) in entries {
        object.insert(key.clone(), Value::String(value.clone()));
    }
    serde_json::to_string(&Value::Object(object)).unwrap()
}

fn object_entries(text: &str) -> Vec<(String, String)> {
    let object: serde_json::Map<String, Value> = serde_json::from_str(text).unwrap();
    object
        .into_iter()
        .map(|(key, value)| (key, value.as_str().unwrap().to_string()))
        .collect()
}

fn entry(key: &str, value: &str) -> (String, String) {
    (key.to_string(), value.to_string())
}

#[test]
fn cw20_serde() {
    let cw20 = Cw20Token::new("some_token".to_string());
    let got_serialized = serde_json::to_string(&cw20.to_wire()).unwrap();
    let expected_serialized = "\"some_token\"".to_string();

    assert_eq!(got_serialized, expected_serialized);
    assert_eq!(
        Cw20Token::from_wire(serde_json::from_str::<String>(&expected_serialized).unwrap()),
        cw20
    );
}

#[test]
fn native_serde() {
    let native = NativeToken::new("some_token".to_string());
    let got_serialized = serde_json::to_string(&native.to_wire()).unwrap();
    let expected_serialized = "\"some_token\"".to_string();

    assert_eq!(got_serialized, expected_serialized);
    assert_eq!(
        NativeToken::from_wire(serde_json::from_str::<String>(&expected_serialized).unwrap()),
        native
    );
}

#[test]
fn serde_cw20() {
    let cw20 = TokenInfo::cw20("some_token".to_string());
    let got_serialized = object_text(&cw20.to_wire());
    let expected_serialized = "{\"cw20\":\"some_token\"}".to_string();

    assert_eq!(got_serialized, expected_serialized);
    assert_eq!(TokenInfo::from_wire(&object_entries(&expected_serialized)).unwrap(), cw20);
}

#[test]
fn serde_native() {
    let native = TokenInfo::native("some_token".to_string());
    let got_serialized = object_text(&native.to_wire());
    let expected_serialized = "{\"native\":\"some_token\"}".to_string();

    assert_eq!(got_serialized, expected_serialized);
    assert_eq!(TokenInfo::from_wire(&object_entries(&expected_serialized)).unwrap(), native);
}

#[test]
fn leaf_round_trip_keeps_any_text() {
    for text in ["", "uusd", "ibc/27394FB092D2ECCD56123C74F36E4C1F", "with \"quotes\" and \u{e9}"] {
        let native = NativeToken::new(text.to_string());
        assert_eq!(native.to_wire(), text);
        assert_eq!(NativeToken::from_wire(native.to_wire()), native);
        let cw20 = Cw20Token::new(text.to_string());
        assert_eq!(cw20.to_wire(), text);
        assert_eq!(Cw20Token::from_wire(cw20.to_wire()), cw20);
    }
}

#[test]
fn identity_wire_is_one_tagged_entry() {
    assert_eq!(TokenInfo::cw20("addr1".to_string()).to_wire(), vec![entry("cw20", "addr1")]);
    assert_eq!(TokenInfo::native("uusd".to_string()).to_wire(), vec![entry("native", "uusd")]);
}

#[test]
fn identity_round_trip_for_both_kinds() {
    for info in [TokenInfo::cw20("addr1".to_string()), TokenInfo::native("uluna".to_string())] {
        assert_eq!(TokenInfo::from_wire(&info.to_wire()), Ok(info));
    }
}

#[test]
fn object_without_key_is_refused() {
    assert_eq!(TokenInfo::from_wire(&vec![]), Err(WireError::KeyCount));
    assert_eq!(TokenInfo::from_wire(&object_entries("{}")), Err(WireError::KeyCount));
}

#[test]
fn object_with_two_keys_is_refused() {
    let both = vec![entry("cw20", "addr1"), entry("native", "uusd")];
    assert_eq!(TokenInfo::from_wire(&both), Err(WireError::KeyCount));
    let twice = vec![entry("cw20", "addr1"), entry("cw20", "addr1")];
    assert_eq!(TokenInfo::from_wire(&twice), Err(WireError::KeyCount));
    let read = object_entries("{\"native\":\"uusd\",\"cw20\":\"addr1\"}");
    assert_eq!(TokenInfo::from_wire(&read), Err(WireError::KeyCount));
}

#[test]
fn object_with_unknown_tag_is_refused() {
    for tag in ["cw721", "Cw20", "CW20", "Native", "", "cw20 ", "nativ"] {
        assert_eq!(TokenInfo::from_wire(&vec![entry(tag, "x")]), Err(WireError::UnknownTag));
    }
    let read = object_entries("{\"token\":\"some_token\"}");
    assert_eq!(TokenInfo::from_wire(&read), Err(WireError::UnknownTag));
}

#[test]
fn token_wire_holds_identity_and_decimal_amount() {
    let token = Token::cw20("addr1".to_string(), 1500);
    let wire = token.to_wire();
    assert_eq!(wire, TokenWire { info: vec![entry("cw20", "addr1")], amount: "1500".to_string() });
    assert_eq!(Token::from_wire(&wire), Ok(token));
}

#[test]
fn token_wire_round_trip_at_the_ends() {
    for amount in [0u128, 1, 9, 10, 99, 100, u128::MAX - 1, u128::MAX] {
        let token = Token::native("uluna".to_string(), amount);
        let wire = token.to_wire();
        assert_eq!(wire.amount, amount.to_string());
        assert_eq!(Token::from_wire(&wire), Ok(token));
    }
}

#[test]
fn token_wire_refuses_bad_amounts() {
    for amount in ["", "+", "-1", "1.5", "12a", " 12", "12 ", "0x10", "١٢", "1e3",
        "340282366920938463463374607431768211456", "3402823669209384634633746074317682114550"]
    {
        let wire = TokenWire { info: vec![entry("native", "uusd")], amount: amount.to_string() };
        assert_eq!(Token::from_wire(&wire), Err(WireError::Amount));
    }
}

#[test]
fn token_wire_reads_the_object_first() {
    let wire = TokenWire { info: vec![], amount: "x".to_string() };
    assert_eq!(Token::from_wire(&wire), Err(WireError::KeyCount));
    let wire = TokenWire { info: vec![entry("other", "a")], amount: "x".to_string() };
    assert_eq!(Token::from_wire(&wire), Err(WireError::UnknownTag));
}

#[test]
fn token_wire_reads_sign_and_leading_zeros() {
    let info = vec![entry("native", "uusd")];
    let wire = TokenWire { info: info.clone(), amount: "+500".to_string() };
    assert_eq!(Token::from_wire(&wire), Ok(Token::native("uusd".to_string(), 500)));
    let wire = TokenWire { info: info.clone(), amount: "000500".to_string() };
    assert_eq!(Token::from_wire(&wire), Ok(Token::native("uusd".to_string(), 500)));
    let wire = TokenWire {
        info,
        amount: "+00340282366920938463463374607431768211455".to_string(),
    };
    assert_eq!(Token::from_wire(&wire), Ok(Token::native("uusd".to_string(), u128::MAX)));
}

#[test]
fn each_error_says_what_is_wrong() {
    assert_eq!(WireError::KeyCount.describe(), "a token identity is an object with exactly one key");
    assert_eq!(
        WireError::UnknownTag.describe(),
        "unknown kind of token, expected `cw20` or `native`"
    );
    assert_eq!(
        WireError::Amount.describe(),
        "the amount is not a string-encoded unsigned 128-bit integer"
    );
}
