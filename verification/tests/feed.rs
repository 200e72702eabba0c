use campaign_feed::brands::{brands, Brand};
use campaign_feed::fetch::{process_body, FetchError, FetchErrorKind};
use campaign_feed::filter::filter_response;
use campaign_feed::report::{i64_to_dec, render_item, render_run, render_section, u64_to_dec};

fn parse_array(text: &str) -> Vec<serde_json::Value> {
    let v: serde_json::Value = serde_json::from_str(text).unwrap();
    v.as_array().unwrap().clone()
}

#[test]
fn mcom_scenario_retains_first_item() {
    let body = "[{\"affectedPageType\":{\"type\":\"list\",\"value\":[\"PDP\",\"Other\"]},\
                 \"name\":\"Sale\",\"startDate\":\"2024-01-01\",\"endDate\":\"2024-01-31\",\
                 \"recipes\":[{\"id\":\"r1\",\"weight\":5}]},\
                 {\"affectedPageType\":{\"type\":\"grid\",\"value\":[\"PDP\"]}}]";
    let items = match process_body("mcom", body) {
        Ok(items) => items,
        Err(_) => panic!("expected a successful parse"),
    };
    assert_eq!(items.len(), 1);
    let lines = render_item("mcom", &items[0]);
    assert_eq!(lines[0], "mcom -> 2024-01-01 - 2024-01-31");
    assert_eq!(lines[1], "Sale - -");
    assert_eq!(lines[2], "Description: -");
    assert_eq!(lines[3], "Recipes:");
    assert_eq!(lines[4], "  r1 - 5");
    assert_eq!(lines[5], "");
    assert_eq!(lines.len(), 6);
}

#[test]
fn filter_is_order_preserving_subsequence() {
    let arr = parse_array(
        "[{\"affectedPageType\":{\"type\":\"list\",\"value\":[\"PDP\"]},\"name\":\"a\"},\
          {\"affectedPageType\":{\"type\":\"grid\",\"value\":[\"PDP\"]},\"name\":\"b\"},\
          {\"name\":\"c\"},\
          {\"affectedPageType\":{\"type\":\"list\",\"value\":[\"Other\",\"PDP\"]},\"name\":\"d\"}]",
    );
    let out = filter_response(&arr);
    assert_eq!(out.len(), 2);
    assert_eq!(out[0], arr[0]);
    assert_eq!(out[1], arr[3]);
}

#[test]
fn filter_includes_iff_predicate_holds() {
    // each entry: (item, should it be retained?)
    let cases = [
        ("{\"affectedPageType\":{\"type\":\"list\",\"value\":[\"PDP\"]}}", true),
        // value contains PDP beside non-strings
        ("{\"affectedPageType\":{\"type\":\"list\",\"value\":[1,null,\"PDP\"]}}", true),
        // type is case-sensitive
        ("{\"affectedPageType\":{\"type\":\"List\",\"value\":[\"PDP\"]}}", false),
        // PDP is case-sensitive
        ("{\"affectedPageType\":{\"type\":\"list\",\"value\":[\"pdp\"]}}", false),
        // value missing
        ("{\"affectedPageType\":{\"type\":\"list\"}}", false),
        // value not an array
        ("{\"affectedPageType\":{\"type\":\"list\",\"value\":\"PDP\"}}", false),
        // affectedPageType not an object
        ("{\"affectedPageType\":\"list\"}", false),
        // item not an object
        ("42", false),
        ("\"PDP\"", false),
    ];
    for (text, keep) in cases {
        let arr = parse_array(&format!("[{}]", text));
        let out = filter_response(&arr);
        assert_eq!(out.len(), if keep { 1 } else { 0 }, "case: {}", text);
    }
}

#[test]
fn filter_of_empty_is_empty() {
    let arr = parse_array("[]");
    assert_eq!(filter_response(&arr).len(), 0);
}

#[test]
fn filter_excludes_items_missing_affected_page_type() {
    let arr = parse_array("[{\"name\":\"a\"},{\"desc\":\"b\"},[1,2],null,true]");
    assert_eq!(filter_response(&arr).len(), 0);
}

#[test]
fn filter_is_idempotent() {
    let arr = parse_array(
        "[{\"affectedPageType\":{\"type\":\"list\",\"value\":[\"PDP\"]}},\
          {\"affectedPageType\":{\"type\":\"grid\",\"value\":[\"PDP\"]}},\
          {\"affectedPageType\":{\"type\":\"list\",\"value\":[\"PDP\",\"X\"]}}]",
    );
    let once = filter_response(&arr);
    let twice = filter_response(&once);
    assert_eq!(once, twice);
}

#[test]
fn non_array_top_level_yields_shape_error() {
    match process_body("mcom", "{\"a\":1}") {
        Err(e) => {
            assert_eq!(e.brand, "mcom");
            assert!(matches!(e.kind, FetchErrorKind::Shape));
            assert_eq!(e.kind.message(), "top-level JSON is not an array");
        },
        Ok(_) => panic!("expected a shape error"),
    }
}

#[test]
fn malformed_body_yields_parse_error() {
    match process_body("bcom", "not json at all") {
        Err(e) => {
            assert_eq!(e.brand, "bcom");
            assert!(matches!(e.kind, FetchErrorKind::Parse));
            assert_eq!(e.kind.message(), "JSON parse failed");
        },
        Ok(_) => panic!("expected a parse error"),
    }
}

#[test]
fn error_lines_name_brand_and_cause() {
    let transport = FetchError {
        brand: String::from("bcom"),
        kind: FetchErrorKind::Transport { url: String::from("http://localhost:9") },
    };
    assert_eq!(transport.line(), "[bcom] ERROR: GET http://localhost:9 failed");
    let body_read = FetchError { brand: String::from("mcom"), kind: FetchErrorKind::BodyRead };
    assert_eq!(body_read.line(), "[mcom] ERROR: reading response text failed");
}

#[test]
fn failing_brand_keeps_empty_section_others_unaffected() {
    let body = "[{\"affectedPageType\":{\"type\":\"list\",\"value\":[\"PDP\"]},\
                 \"name\":\"Sale\",\"createdBy\":\"me\"}]";
    let items = process_body("mcom", body).unwrap();
    let results = vec![
        (
            Brand { id: String::from("mcom"), env_key: String::from("MCOM") },
            Ok(items),
        ),
        (
            Brand { id: String::from("bcom"), env_key: String::from("BCOM") },
            Err(FetchError {
                brand: String::from("bcom"),
                kind: FetchErrorKind::Transport { url: String::from("http://localhost:9") },
            }),
        ),
    ];
    let (out, errs) = render_run(&results);
    // the healthy brand's section is printed in full, first
    assert_eq!(out[0], "=== mcom === (1 items)");
    assert_eq!(out[1], "");
    assert_eq!(out[2], "mcom -> - - -");
    assert_eq!(out[3], "Sale - me");
    assert_eq!(out[4], "Description: -");
    assert_eq!(out[5], "Recipes:");
    assert_eq!(out[6], " None");
    assert_eq!(out[7], "");
    // the failing brand's section holds its header and no item bodies
    assert_eq!(out[8], "=== bcom === (0 items)");
    assert_eq!(out[9], "");
    assert_eq!(out.len(), 10);
    // one error line, naming the brand and the cause
    assert_eq!(errs, vec![String::from("[bcom] ERROR: GET http://localhost:9 failed")]);
}

#[test]
fn shape_error_contributes_zero_items_others_unaffected() {
    let good = process_body("mcom", "[{\"affectedPageType\":{\"type\":\"list\",\"value\":[\"PDP\"]}}]")
        .unwrap();
    let bad = process_body("bcom", "{\"not\":\"an array\"}");
    let results = vec![
        (Brand { id: String::from("mcom"), env_key: String::from("MCOM") }, Ok(good)),
        (Brand { id: String::from("bcom"), env_key: String::from("BCOM") }, bad),
    ];
    let (out, errs) = render_run(&results);
    assert_eq!(out[0], "=== mcom === (1 items)");
    assert!(out.contains(&String::from("=== bcom === (0 items)")));
    assert_eq!(errs, vec![String::from("[bcom] ERROR: top-level JSON is not an array")]);
}

#[test]
fn registry_and_missing_url_message() {
    let bs = brands();
    assert_eq!(bs.len(), 2);
    assert_eq!(bs[0].id, "mcom");
    assert_eq!(bs[0].env_key, "MCOM");
    assert_eq!(bs[1].id, "bcom");
    assert_eq!(bs[1].env_key, "BCOM");
    let msg = bs[1].missing_url_message();
    assert!(msg.contains("BCOM"));
    assert_eq!(msg, "BCOM URL is not set (check .env)");
}

#[test]
fn recipe_weights_render_exactly() {
    let body = "[{\"affectedPageType\":{\"type\":\"list\",\"value\":[\"PDP\"]},\
                 \"recipes\":[{\"id\":\"a\",\"weight\":-3},{\"id\":\"b\"},\
                              {\"weight\":12},{\"id\":\"c\",\"weight\":2.5}]}]";
    let items = process_body("mcom", body).unwrap();
    let lines = render_item("mcom", &items[0]);
    assert_eq!(lines[4], "  a - -3");
    assert_eq!(lines[5], "  b - 0");
    assert_eq!(lines[6], "  - - 12");
    // a non-integer weight degrades to 0
    assert_eq!(lines[7], "  c - 0");
}

#[test]
fn empty_or_non_array_recipes_render_none_marker() {
    let body = "[{\"affectedPageType\":{\"type\":\"list\",\"value\":[\"PDP\"]},\"recipes\":[]},\
                 {\"affectedPageType\":{\"type\":\"list\",\"value\":[\"PDP\"]},\"recipes\":\"x\"}]";
    let items = process_body("mcom", body).unwrap();
    let first = render_item("mcom", &items[0]);
    assert_eq!(first[4], " None");
    let second = render_item("mcom", &items[1]);
    assert_eq!(second[4], " None");
}

#[test]
fn decimal_rendering_is_exact() {
    assert_eq!(u64_to_dec(0), "0");
    assert_eq!(u64_to_dec(10), "10");
    assert_eq!(u64_to_dec(90210), "90210");
    assert_eq!(u64_to_dec(u64::MAX), "18446744073709551615");
    assert_eq!(i64_to_dec(0), "0");
    assert_eq!(i64_to_dec(-7), "-7");
    assert_eq!(i64_to_dec(i64::MAX), "9223372036854775807");
    assert_eq!(i64_to_dec(i64::MIN), "-9223372036854775808");
}

#[test]
fn section_header_counts_items() {
    let arr = parse_array("[{\"affectedPageType\":{\"type\":\"list\",\"value\":[\"PDP\"]}}]");
    let lines = render_section("mcom", &arr);
    assert_eq!(lines[0], "=== mcom === (1 items)");
    assert_eq!(lines[1], "");
    let empty: Vec<serde_json::Value> = Vec::new();
    let lines = render_section("bcom", &empty);
    assert_eq!(lines, vec![String::from("=== bcom === (0 items)"), String::new()]);
}
