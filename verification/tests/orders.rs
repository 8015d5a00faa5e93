use httpserver::orders::{write_json_array, write_order_object, write_orders, OrderStatus};

fn order(id: i32, date: &str, status: &str) -> OrderStatus {
    OrderStatus { order_id: id, order_date: date.to_string(), order_status: status.to_string() }
}

#[test]
fn an_order_as_json() {
    let o = order(1, "2023-01-01", "Pending");
    assert_eq!(
        o.to_json(),
        Some("{\"order_id\":1,\"order_date\":\"2023-01-01\",\"order_status\":\"Pending\"}".to_string())
    );
}

#[test]
fn strings_are_escaped() {
    let o = order(-7, "a\"b\\c", "line\nbreak\ttab\u{1}é");
    assert_eq!(
        o.to_json(),
        Some(
            "{\"order_id\":-7,\"order_date\":\"a\\\"b\\\\c\",\"order_status\":\"line\\nbreak\\ttab\\u0001é\"}"
                .to_string()
        )
    );
}

#[test]
fn orders_as_json() {
    assert_eq!(write_orders(&vec![]), Some("[]".to_string()));
    assert_eq!(
        write_orders(&vec![order(1, "d", "s")]),
        Some("[{\"order_id\":1,\"order_date\":\"d\",\"order_status\":\"s\"}]".to_string())
    );
    assert_eq!(
        write_orders(&vec![order(1, "d", "s"), order(i32::MIN, "", "")]),
        Some(
            "[{\"order_id\":1,\"order_date\":\"d\",\"order_status\":\"s\"},{\"order_id\":-2147483648,\"order_date\":\"\",\"order_status\":\"\"}]"
                .to_string()
        )
    );
}

#[test]
fn orders_read_back_by_serde_json() {
    let orders = vec![order(3, "2024-02-29", "Shipped \"fast\""), order(i32::MAX, "x/y", "é\u{7f}")];
    let text = write_orders(&orders).unwrap();
    let value: serde_json::Value = serde_json::from_str(&text).unwrap();
    let list = value.as_array().unwrap();
    assert_eq!(list.len(), 2);
    for (item, o) in list.iter().zip(orders.iter()) {
        let object = item.as_object().unwrap();
        assert_eq!(object.len(), 3);
        assert_eq!(object.get("order_id").and_then(|v| v.as_i64()), Some(o.order_id as i64));
        assert_eq!(object.get("order_date").and_then(|v| v.as_str()), Some(o.order_date.as_str()));
        assert_eq!(
            object.get("order_status").and_then(|v| v.as_str()),
            Some(o.order_status.as_str())
        );
    }
}

#[test]
fn object_and_array_by_hand() {
    assert_eq!(
        write_order_object(12, "\"d\"", "\"s\""),
        "{\"order_id\":12,\"order_date\":\"d\",\"order_status\":\"s\"}"
    );
    assert_eq!(write_json_array(&vec![]), "[]");
    assert_eq!(write_json_array(&vec!["1".to_string()]), "[1]");
    assert_eq!(
        write_json_array(&vec!["1".to_string(), "{}".to_string(), "\"a\"".to_string()]),
        "[1,{},\"a\"]"
    );
}
