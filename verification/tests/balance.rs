use btcturk_websockets::balance::decode_balance;
use btcturk_websockets::balance::parse_balance_response;
use btcturk_websockets::json::parse_json;

const ANSWER: &str = r#"{"data":[{"asset":"TRY","assetname":"Türk Lirası","balance":"1500.25","locked":"100","free":"1400.25","orderFund":"100","requestFund":"0","precision":2,"timestamp":1700000000000},{"asset":"BTC","assetname":"Bitcoin","balance":"0.5","locked":"0","free":"0.5","orderFund":"0","requestFund":"0","precision":8,"timestamp":1700000000001}],"success":true,"message":null,"code":0}"#;

#[test]
fn balances_answer_is_decoded() {
    let response = parse_balance_response(ANSWER).unwrap();
    assert!(response.success);
    assert_eq!(response.message, None);
    assert_eq!(response.code, 0);
    assert_eq!(response.data.len(), 2);
    assert_eq!(response.data[0].asset, "TRY");
    assert_eq!(response.data[0].assetname, "Türk Lirası");
    assert_eq!(response.data[0].balance, "1500.25");
    assert_eq!(response.data[0].locked, "100");
    assert_eq!(response.data[0].free, "1400.25");
    assert_eq!(response.data[0].order_fund, "100");
    assert_eq!(response.data[0].request_fund, "0");
    assert_eq!(response.data[0].precision, 2);
    assert_eq!(response.data[0].timestamp, 1700000000000);
    assert_eq!(response.data[1].asset, "BTC");
    assert_eq!(response.data[1].precision, 8);
}

#[test]
fn balances_answer_may_carry_a_message() {
    let body = r#"{"data":[],"success":false,"message":"Unauthorized","code":401}"#;
    let response = parse_balance_response(body).unwrap();
    assert!(!response.success);
    assert_eq!(response.message, Some(String::from("Unauthorized")));
    assert_eq!(response.code, 401);
    assert!(response.data.is_empty());

    let without = r#"{"data":[],"success":true,"code":0}"#;
    assert_eq!(parse_balance_response(without).unwrap().message, None);
}

#[test]
fn balances_answer_of_the_wrong_shape_is_refused() {
    assert!(parse_balance_response("").is_none());
    assert!(parse_balance_response("[]").is_none());
    assert!(parse_balance_response(r#"{"success":true,"code":0}"#).is_none());
    assert!(parse_balance_response(r#"{"data":[],"success":"yes","code":0}"#).is_none());
    assert!(parse_balance_response(r#"{"data":[],"success":true,"message":5,"code":0}"#).is_none());
    assert!(parse_balance_response(r#"{"data":[],"success":true,"code":"0"}"#).is_none());
    assert!(parse_balance_response(r#"{"data":[{"asset":"TRY"}],"success":true,"code":0}"#).is_none());
}

#[test]
fn balance_record_needs_every_field() {
    let full = r#"{"asset":"TRY","assetname":"Lira","balance":"1","locked":"0","free":"1","orderFund":"0","requestFund":"0","precision":2,"timestamp":5}"#;
    let balance = decode_balance(&parse_json(full).unwrap()).unwrap();
    assert_eq!(balance.timestamp, 5);
    let no_stamp = r#"{"asset":"TRY","assetname":"Lira","balance":"1","locked":"0","free":"1","orderFund":"0","requestFund":"0","precision":2}"#;
    assert!(decode_balance(&parse_json(no_stamp).unwrap()).is_none());
    let wide = r#"{"asset":"TRY","assetname":"Lira","balance":"1","locked":"0","free":"1","orderFund":"0","requestFund":"0","precision":2,"timestamp":9223372036854775808}"#;
    assert!(decode_balance(&parse_json(wide).unwrap()).is_none());
}
