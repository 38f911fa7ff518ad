use stealth_stock_monitor::models::PriceUpdate;
use stealth_stock_monitor::sources::sina::parse_sina_line;
use stealth_stock_monitor::sources::tencent::parse_tencent_line;
use stealth_stock_monitor::sources::{
    detect_market, make_stock_id, make_update, parse_body, parse_line, LineFormat,
};

fn tencent_line(id: &str, fields: &[&str]) -> String {
    format!("v_{}=\"{}\";", id, fields.join("~"))
}

fn tencent_fields(count: usize) -> Vec<&'static str> {
    let mut fields = vec!["0"; count];
    fields[0] = "1";
    fields[1] = "贵州茅台";
    fields[2] = "600519";
    fields[3] = "1755.00";
    fields[4] = "1740.00";
    fields
}

fn assert_maotai(update: &PriceUpdate) {
    assert_eq!(update.id, "sh600519");
    assert_eq!(update.code, "600519");
    assert_eq!(update.market, "sh");
    assert_eq!(update.name, "贵州茅台");
    assert_eq!(update.price, 17_550_000);
    assert_eq!(update.prev_close, 17_400_000);
    assert_eq!(update.change, 150_000);
    assert_eq!(update.percent, 8_620);
}

#[test]
fn sina_line_yields_normalized_quote() {
    let line = "var hq_str_sh600519=\"贵州茅台,1740.00,1740.00,1755.00,1760.00,1745.00\";";
    let update = parse_sina_line(line, 1_700_000_000_000).unwrap();
    assert_maotai(&update);
    assert_eq!(update.high, 17_600_000);
    assert_eq!(update.low, 17_450_000);
    assert_eq!(update.timestamp, 1_700_000_000_000);
    assert_eq!(update.source, "providerA");
    let price = update.price as f64 / 10_000.0;
    let prev_close = update.prev_close as f64 / 10_000.0;
    let change = update.change as f64 / 10_000.0;
    let percent = update.percent as f64 / 1_000_000.0;
    assert_eq!(price, 1755.00);
    assert_eq!(prev_close, 1740.00);
    assert_eq!(change, 15.00);
    assert!((percent - 0.00862).abs() < 0.00001);
    assert_eq!(update.high as f64 / 10_000.0, 1760.00);
    assert_eq!(update.low as f64 / 10_000.0, 1745.00);
}

#[test]
fn sina_line_with_further_fields() {
    let line = "var hq_str_sz000001=\"平安银行,10.500,10.400,10.450,10.600,10.300,10.44,10.45,5000\";\r";
    let update = parse_sina_line(line, 7).unwrap();
    assert_eq!(update.id, "sz000001");
    assert_eq!(update.code, "000001");
    assert_eq!(update.market, "sz");
    assert_eq!(update.name, "平安银行");
    assert_eq!(update.price, 104_500);
    assert_eq!(update.prev_close, 104_000);
    assert_eq!(update.change, 500);
    assert_eq!(update.percent, 4_807);
    assert_eq!(update.high, 106_000);
    assert_eq!(update.low, 103_000);
}

#[test]
fn sina_line_with_falling_price() {
    let line = "var hq_str_sh600000=\"浦发银行,10.00,10.00,9.50,10.10,9.40\";";
    let update = parse_sina_line(line, 7).unwrap();
    assert_eq!(update.change, -5_000);
    assert_eq!(update.percent, -50_000);
}

#[test]
fn sina_line_without_its_marks_is_skipped() {
    assert!(parse_sina_line("", 0).is_none());
    assert!(parse_sina_line("var hq_sh600519=\"a,1,1,1,1,1\";", 0).is_none());
    assert!(parse_sina_line("var hq_str_sh600519\"a,1,1,1,1,1\";", 0).is_none());
    assert!(parse_sina_line("var hq_str_sh600519=a,1,1,1,1,1;", 0).is_none());
    assert!(parse_sina_line("var hq_str_sh600519=\"a,1,1,1,1,1;", 0).is_none());
    assert!(parse_sina_line("var hq_str_sh600519=\"\";", 0).is_none());
}

#[test]
fn sina_line_with_too_few_fields_is_skipped() {
    assert!(parse_sina_line("var hq_str_sh600519=\"a,1,1,1,1\";", 0).is_none());
    assert!(parse_sina_line("var hq_str_sh600519=\"a,1,1,1,1,1\";", 0).is_some());
}

#[test]
fn sina_line_with_a_field_that_is_no_number_is_skipped() {
    assert!(parse_sina_line("var hq_str_sh600519=\"a,x,1,1,1,1\";", 0).is_none());
    assert!(parse_sina_line("var hq_str_sh600519=\"a,1,x,1,1,1\";", 0).is_none());
    assert!(parse_sina_line("var hq_str_sh600519=\"a,1,1,x,1,1\";", 0).is_none());
    assert!(parse_sina_line("var hq_str_sh600519=\"a,1,1,1,x,1\";", 0).is_none());
    assert!(parse_sina_line("var hq_str_sh600519=\"a,1,1,1,1,x\";", 0).is_none());
    assert!(parse_sina_line("var hq_str_sh600519=\"a,1,1,1,1,\";", 0).is_none());
}

#[test]
fn sina_line_with_zero_price_or_previous_close_is_dropped() {
    assert!(parse_sina_line("var hq_str_sh600519=\"a,0.00,1740.00,0.00,0.00,0.00\";", 0).is_none());
    assert!(parse_sina_line("var hq_str_sh600519=\"a,1740.00,1740.00,0.00,0.00,0.00\";", 0).is_none());
    assert!(parse_sina_line("var hq_str_sh600519=\"a,1740.00,0.00,1755.00,0.00,0.00\";", 0).is_none());
    assert!(parse_sina_line("var hq_str_sh600519=\"a,0,0,0,0,0\";", 0).is_none());
    assert!(parse_sina_line("var hq_str_sh600519=\"a,1,-1,1,1,1\";", 0).is_none());
    assert!(parse_sina_line("var hq_str_sh600519=\"a,1,1,-1,1,1\";", 0).is_none());
}

#[test]
fn sina_line_with_short_key_is_skipped() {
    assert!(parse_sina_line("var hq_str_=\"a,1,1,1,1,1\";", 0).is_none());
    assert!(parse_sina_line("var hq_str_s=\"a,1,1,1,1,1\";", 0).is_none());
    let update = parse_sina_line("var hq_str_sh=\"a,1,1,1,1,1\";", 0).unwrap();
    assert_eq!(update.id, "sh");
    assert_eq!(update.code, "");
}

#[test]
fn market_is_sh_unless_the_key_begins_with_sz() {
    let update = parse_sina_line("var hq_str_bj430047=\"N,10.00,10.00,10.50,11.00,9.50\";", 1000).unwrap();
    assert_eq!(update.market, "sh");
    assert_eq!(update.code, "430047");
    assert_eq!(update.id, "bj430047");
    let update = parse_sina_line("var hq_str_sz1=\"a,1,1,1,1,1\";", 0).unwrap();
    assert_eq!(update.market, "sz");
    let update = parse_sina_line("var hq_str_sh1=\"a,1,1,1,1,1\";", 0).unwrap();
    assert_eq!(update.market, "sh");
    let update = parse_sina_line("var hq_str_zs1=\"a,1,1,1,1,1\";", 0).unwrap();
    assert_eq!(update.market, "sh");
    let update = parse_sina_line("var hq_str_SZ1=\"a,1,1,1,1,1\";", 0).unwrap();
    assert_eq!(update.market, "sh");
}

#[test]
fn tencent_line_with_34_fields_yields_normalized_quote() {
    let mut fields = tencent_fields(34);
    fields[33] = "1760.00";
    let line = tencent_line("sh600519", &fields);
    let update = parse_tencent_line(&line, 1000).unwrap();
    assert_maotai(&update);
    assert_eq!(update.high, 17_600_000);
    assert_eq!(update.low, 17_550_000);
    assert_eq!(update.timestamp, 1000);
    assert_eq!(update.source, "providerB");
}

#[test]
fn tencent_line_reads_high_and_low() {
    let mut fields = tencent_fields(40);
    fields[33] = "1760.00";
    fields[34] = "1745.00";
    let update = parse_tencent_line(&tencent_line("sh600519", &fields), 42).unwrap();
    assert_maotai(&update);
    assert_eq!(update.high, 17_600_000);
    assert_eq!(update.low, 17_450_000);
}

#[test]
fn tencent_high_and_low_default_to_the_price() {
    let fields = tencent_fields(33);
    let update = parse_tencent_line(&tencent_line("sh600519", &fields), 42).unwrap();
    assert_eq!(update.high, 17_550_000);
    assert_eq!(update.low, 17_550_000);
    let mut fields = tencent_fields(35);
    fields[33] = "";
    fields[34] = "n/a";
    let update = parse_tencent_line(&tencent_line("sh600519", &fields), 42).unwrap();
    assert_eq!(update.high, 17_550_000);
    assert_eq!(update.low, 17_550_000);
}

#[test]
fn tencent_line_with_fewer_than_33_fields_is_skipped() {
    let fields = tencent_fields(32);
    assert!(parse_tencent_line(&tencent_line("sh600519", &fields), 42).is_none());
}

#[test]
fn tencent_line_with_bad_price_is_skipped() {
    let mut fields = tencent_fields(35);
    fields[3] = "abc";
    assert!(parse_tencent_line(&tencent_line("sh600519", &fields), 42).is_none());
    let mut fields = tencent_fields(35);
    fields[4] = "";
    assert!(parse_tencent_line(&tencent_line("sh600519", &fields), 42).is_none());
    let mut fields = tencent_fields(35);
    fields[3] = "0.00";
    assert!(parse_tencent_line(&tencent_line("sh600519", &fields), 42).is_none());
    let mut fields = tencent_fields(35);
    fields[4] = "0.00";
    assert!(parse_tencent_line(&tencent_line("sh600519", &fields), 42).is_none());
}

#[test]
fn tencent_code_comes_from_the_payload_and_market_from_the_key() {
    let mut fields = tencent_fields(35);
    fields[2] = "000001";
    let update = parse_tencent_line(&tencent_line("sz000001", &fields), 42).unwrap();
    assert_eq!(update.id, "sz000001");
    assert_eq!(update.code, "000001");
    assert_eq!(update.market, "sz");
    let update = parse_tencent_line(&tencent_line("", &fields), 42).unwrap();
    assert_eq!(update.id, "");
    assert_eq!(update.market, "sh");
    let update = parse_tencent_line(&tencent_line("hk00700", &fields), 42).unwrap();
    assert_eq!(update.market, "sh");
}

#[test]
fn tencent_line_without_its_marks_is_skipped() {
    let fields = tencent_fields(35);
    let payload = fields.join("~");
    assert!(parse_tencent_line(&format!("sh600519=\"{}\";", payload), 0).is_none());
    assert!(parse_tencent_line(&format!("v_sh600519\"{}\";", payload), 0).is_none());
    assert!(parse_tencent_line(&format!("v_sh600519={};", payload), 0).is_none());
    assert!(parse_tencent_line("v_sh600519=\"\";", 0).is_none());
    assert!(parse_tencent_line("v_pv_none_match=\"1\";", 0).is_none());
}

#[test]
fn line_is_parsed_in_the_given_format() {
    let sina = "var hq_str_sh600519=\"贵州茅台,1740.00,1740.00,1755.00,1760.00,1745.00\";";
    assert_eq!(parse_line(LineFormat::Sina, sina, 1).unwrap().source, "providerA");
    assert!(parse_line(LineFormat::Tencent, sina, 1).is_none());
    let tencent = tencent_line("sh600519", &tencent_fields(35));
    assert_eq!(parse_line(LineFormat::Tencent, &tencent, 1).unwrap().source, "providerB");
    assert!(parse_line(LineFormat::Sina, &tencent, 1).is_none());
}

#[test]
fn body_yields_the_quotes_of_its_good_lines_in_order() {
    let body = "var hq_str_sh600519=\"贵州茅台,1740.00,1740.00,1755.00,1760.00,1745.00\";\n\
                var hq_str_sz000002=\"\";\n\
                garbage\n\
                \n\
                var hq_str_sz000001=\"平安银行,10.500,10.400,10.450,10.600,10.300\";\r\n";
    let updates = parse_body(LineFormat::Sina, body, 9);
    assert_eq!(updates.len(), 2);
    assert_eq!(updates[0].id, "sh600519");
    assert_eq!(updates[1].id, "sz000001");
    assert_eq!(updates[1].timestamp, 9);
    assert!(parse_body(LineFormat::Sina, "", 9).is_empty());
    assert!(parse_body(LineFormat::Tencent, body, 9).is_empty());
}

#[test]
fn quote_is_built_only_from_tradable_amounts() {
    let build = |price: i64, prev_close: i64| {
        make_update(
            "sh1".to_string(),
            "1".to_string(),
            "sh".to_string(),
            "n".to_string(),
            price,
            prev_close,
            3,
            4,
            5,
            "providerA",
        )
    };
    let update = build(20_000, 10_000).unwrap();
    assert_eq!(update.change, 10_000);
    assert_eq!(update.percent, 1_000_000);
    assert_eq!(update.high, 3);
    assert_eq!(update.low, 4);
    assert_eq!(update.timestamp, 5);
    assert_eq!(update.source, "providerA");
    assert!(build(0, 10_000).is_none());
    assert!(build(10_000, 0).is_none());
    assert!(build(-1, 10_000).is_none());
    assert!(build(10_000, -1).is_none());
    assert!(build(1_000_000_000_000, 1).is_none());
    assert!(build(1, 1_000_000_000_000).is_none());
    let update = build(999_999_999_999, 1).unwrap();
    assert_eq!(update.percent, 999_999_999_998_000_000);
    assert!(build(i64::MAX, i64::MIN).is_none());
}

#[test]
fn market_is_detected_from_the_code() {
    assert_eq!(detect_market("600519"), "sh");
    assert_eq!(detect_market("000001"), "sz");
    assert_eq!(detect_market("300750"), "sz");
    assert_eq!(detect_market("900901"), "sh");
    assert_eq!(detect_market(""), "sh");
    assert_eq!(detect_market("x"), "sh");
}

#[test]
fn stock_id_is_market_then_code() {
    assert_eq!(make_stock_id("sh", "600519"), "sh600519");
    assert_eq!(make_stock_id("", ""), "");
}
