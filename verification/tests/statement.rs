use ib_flex::error::ParseError;
use ib_flex::parsers::activity::parse_activity_flex;
use ib_flex::parsers::trade_confirmation::parse_trade_confirmation;
use ib_flex::types::common::{AssetCategory, BuySell, OpenClose, OrderType, PutCall};
use ib_flex::types::{CashTransactionsWrapper, PositionsWrapper, TradesWrapper};
use ib_flex::version::{detect_statement_type, detect_version, FlexSchemaVersion};

#[test]
fn test_parse_activity_flex_not_implemented() {
    let xml = r#"<FlexQueryResponse></FlexQueryResponse>"#;
    let result = parse_activity_flex(xml);
    assert!(result.is_err());
}

#[test]
fn test_parse_trade_confirmation_not_implemented() {
    let xml = r#"<FlexQueryResponse></FlexQueryResponse>"#;
    let result = parse_trade_confirmation(xml);
    assert!(result.is_err());
}

#[test]
fn test_asset_category_deserialize() {
    let json = r#""STK""#;
    let code: String = serde_json::from_str(json).unwrap();
    let asset = AssetCategory::from_code(&code);
    assert_eq!(asset, AssetCategory::Stock);
}

#[test]
fn test_buy_sell_deserialize() {
    let json = r#""BUY""#;
    let code: String = serde_json::from_str(json).unwrap();
    let side = BuySell::from_code(&code);
    assert_eq!(side, BuySell::Buy);
}

#[test]
fn test_detect_version() {
    let xml = r#"<FlexQueryResponse></FlexQueryResponse>"#;
    let version = detect_version(xml);
    assert!(version.is_ok());
}

#[test]
fn detect_version_is_always_three() {
    assert!(matches!(detect_version(""), Ok(FlexSchemaVersion::V3)));
    assert!(matches!(detect_version("<FlexQueryResponse version=\"2\"/>"), Ok(FlexSchemaVersion::V3)));
}

#[test]
fn detect_statement_type_reports_an_xml_error() {
    match detect_statement_type("<FlexQueryResponse></FlexQueryResponse>") {
        Err(ParseError::XmlError { message, location }) => {
            assert_eq!(message, "Statement type detection not yet implemented");
            assert_eq!(location, None);
        }
        other => panic!("unexpected result: {:?}", other),
    }
}

#[test]
fn parsers_report_an_xml_error_without_location() {
    match parse_activity_flex("<FlexQueryResponse></FlexQueryResponse>") {
        Err(ParseError::XmlError { message, location }) => {
            assert_eq!(message, "Activity FLEX parser not yet implemented");
            assert_eq!(location, None);
        }
        other => panic!("unexpected result: {:?}", other),
    }
    match parse_trade_confirmation("") {
        Err(ParseError::XmlError { message, location }) => {
            assert_eq!(message, "Trade Confirmation parser not yet implemented");
            assert_eq!(location, None);
        }
        other => panic!("unexpected result: {:?}", other),
    }
}

#[test]
fn errors_describe_themselves() {
    let xml = ParseError::XmlError { message: "unexpected end".to_string(), location: Some("line 3".to_string()) };
    assert_eq!(xml.description(), "XML deserialization error: unexpected end");
    assert_eq!(ParseError::InvalidDate("2025-13-01".to_string()).description(), "Invalid date format: 2025-13-01");
    assert_eq!(ParseError::InvalidDecimal("1,5".to_string()).description(), "Invalid decimal format: 1,5");
    let missing = ParseError::MissingField { field: "symbol".to_string(), context: "Trade".to_string() };
    assert_eq!(missing.description(), "Missing required field: symbol in Trade");
    let unknown = ParseError::UnknownEnumVariant { variant: "XYZ".to_string(), enum_type: "AssetCategory".to_string() };
    assert_eq!(unknown.description(), "Unknown enum variant: XYZ for type AssetCategory");
    assert_eq!(ParseError::UnsupportedSchemaVersion("2".to_string()).description(), "Unsupported FLEX schema version: 2");
    assert_eq!(ParseError::Io("file not found".to_string()).description(), "IO error: file not found");
}

#[test]
fn asset_category_codes() {
    assert_eq!(AssetCategory::from_code("STK"), AssetCategory::Stock);
    assert_eq!(AssetCategory::from_code("OPT"), AssetCategory::Option);
    assert_eq!(AssetCategory::from_code("FUT"), AssetCategory::Future);
    assert_eq!(AssetCategory::from_code("FOP"), AssetCategory::FutureOption);
    assert_eq!(AssetCategory::from_code("CASH"), AssetCategory::Cash);
    assert_eq!(AssetCategory::from_code("BOND"), AssetCategory::Bond);
    assert_eq!(AssetCategory::from_code("CFD"), AssetCategory::Cfd);
    assert_eq!(AssetCategory::from_code("WAR"), AssetCategory::Unknown);
    assert_eq!(AssetCategory::from_code("stk"), AssetCategory::Unknown);
    assert_eq!(AssetCategory::from_code(""), AssetCategory::Unknown);
}

#[test]
fn buy_sell_codes() {
    assert_eq!(BuySell::from_code("BUY"), BuySell::Buy);
    assert_eq!(BuySell::from_code("SELL"), BuySell::Sell);
    assert_eq!(BuySell::from_code("BUY "), BuySell::Unknown);
    assert_eq!(BuySell::from_code("Sell"), BuySell::Unknown);
}

#[test]
fn open_close_codes() {
    assert_eq!(OpenClose::from_code("O"), OpenClose::Open);
    assert_eq!(OpenClose::from_code("C"), OpenClose::Close);
    assert_eq!(OpenClose::from_code("C;O"), OpenClose::CloseOpen);
    assert_eq!(OpenClose::from_code("O;C"), OpenClose::Unknown);
}

#[test]
fn order_type_codes() {
    assert_eq!(OrderType::from_code("MKT"), OrderType::Market);
    assert_eq!(OrderType::from_code("LMT"), OrderType::Limit);
    assert_eq!(OrderType::from_code("STP"), OrderType::Stop);
    assert_eq!(OrderType::from_code("STP LMT"), OrderType::StopLimit);
    assert_eq!(OrderType::from_code("MOC"), OrderType::MarketOnClose);
    assert_eq!(OrderType::from_code("LOC"), OrderType::LimitOnClose);
    assert_eq!(OrderType::from_code("MIT"), OrderType::MarketIfTouched);
    assert_eq!(OrderType::from_code("LIT"), OrderType::LimitIfTouched);
    assert_eq!(OrderType::from_code("TRAIL"), OrderType::TrailingStop);
    assert_eq!(OrderType::from_code("STPLMT"), OrderType::Unknown);
}

#[test]
fn put_call_codes() {
    assert_eq!(PutCall::from_code("P"), PutCall::Put);
    assert_eq!(PutCall::from_code("C"), PutCall::Call);
    assert_eq!(PutCall::from_code("c"), PutCall::Unknown);
}

#[test]
fn statement_sections_start_empty() {
    assert!(TradesWrapper::default().items.is_empty());
    assert!(PositionsWrapper::default().items.is_empty());
    assert!(CashTransactionsWrapper::default().items.is_empty());
}
