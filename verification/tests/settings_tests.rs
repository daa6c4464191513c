use faxtop::records::{FieldValue, Record};
use faxtop::vars::{host, port, secret_key, smtp_port};

#[test]
fn listening_defaults() {
    assert_eq!(host(None), "localhost");
    assert_eq!(host(Some("0.0.0.0".to_string())), "0.0.0.0");
    assert_eq!(port(None), "3000");
    assert_eq!(port(Some("8080".to_string())), "8080");
    assert_eq!(secret_key(None), "0123".repeat(8));
    assert_eq!(secret_key(Some("k".to_string())), "k");
}

#[test]
fn smtp_port_reads_like_std() {
    for text in ["25", "+25", "0", "00587", "65535", "65536", "", "+", "-1", "-0", "2a", " 25", "25 ", "99999999999", "+-1", "٣"] {
        assert_eq!(smtp_port(text), text.parse::<u16>().ok(), "{:?}", text);
    }
    assert_eq!(smtp_port("587"), Some(587));
}

#[test]
fn record_fields_read_by_kind() {
    let r = Record {
        entries: vec![
            ("a".to_string(), FieldValue::Str("x".to_string())),
            ("b".to_string(), FieldValue::Int64(-4)),
            ("c".to_string(), FieldValue::Other),
            ("a".to_string(), FieldValue::Str("later".to_string())),
        ],
    };
    assert_eq!(r.get_str("a"), Some("x".to_string()));
    assert_eq!(r.get_str("b"), None);
    assert_eq!(r.get_i64("b"), Some(-4));
    assert_eq!(r.get_i64("a"), None);
    assert_eq!(r.get_str("c"), None);
    assert_eq!(r.get_str("z"), None);
}
