use rsfake::args::{get_args_u8, ArgError, ArgKey};
use rsfake::catalogue::{type_kind, TextKind, TypeKind};
use rsfake::generate::{
    create_series_from_type, generate_from_json, ColumnData, GenerateError, Table,
};
use rsfake::num::parse_decimal;
use rsfake::value::ArgValue;

fn s(x: &str) -> ArgValue {
    ArgValue::Str(x.to_string())
}

fn num(x: &str) -> ArgValue {
    ArgValue::Number(x.to_string())
}

fn obj(entries: Vec<(&str, ArgValue)>) -> ArgValue {
    ArgValue::Object(entries.into_iter().map(|(k, v)| (k.to_string(), v)).collect())
}

fn column(name: &str, ty: &str, args: Option<ArgValue>) -> ArgValue {
    let mut e = vec![("name", s(name)), ("type", s(ty))];
    if let Some(a) = args {
        e.push(("args", a));
    }
    obj(e)
}

fn range(start: ArgValue, end: ArgValue) -> ArgValue {
    obj(vec![("range", obj(vec![("start", start), ("end", end)]))])
}

fn schema(cols: Vec<ArgValue>) -> ArgValue {
    obj(vec![("columns", ArgValue::Array(cols))])
}

fn one(col: ArgValue, rows: usize) -> Result<Table, GenerateError> {
    generate_from_json(&schema(vec![col]), rows)
}

fn texts(t: &Table, i: usize) -> &Vec<String> {
    match &t.columns[i].data {
        ColumnData::Text(v) => v,
        other => panic!("not text: {:?}", other),
    }
}

#[test]
fn age_and_active_scenario() {
    let doc = schema(vec![
        column("age", "u32", Some(range(num("18"), num("65")))),
        column("active", "Boolean", Some(obj(vec![("ratio", num("128"))]))),
    ]);
    let t = generate_from_json(&doc, 5).unwrap();
    assert_eq!(t.columns.len(), 2);
    assert_eq!(t.columns[0].name, "age");
    assert_eq!(t.columns[1].name, "active");
    match &t.columns[0].data {
        ColumnData::U32(v) => {
            assert_eq!(v.len(), 5);
            assert!(v.iter().all(|x| (18..=65).contains(x)));
        }
        other => panic!("unexpected {:?}", other),
    }
    match &t.columns[1].data {
        ColumnData::Bool(v) => assert_eq!(v.len(), 5),
        other => panic!("unexpected {:?}", other),
    }
}

#[test]
fn inverted_range_is_refused() {
    let r = one(column("x", "u32", Some(range(num("10"), num("5")))), 5);
    assert_eq!(r.unwrap_err(), GenerateError::InvalidArgument(ArgError::InvalidRange));
}

#[test]
fn zero_rows_give_empty_named_columns() {
    let doc = schema(vec![
        column("a", "u64", None),
        column("b", "FirstName", None),
        column("c", "f64", None),
    ]);
    let t = generate_from_json(&doc, 0).unwrap();
    assert_eq!(t.columns.len(), 3);
    assert_eq!(t.columns[0].name, "a");
    assert_eq!(t.columns[1].name, "b");
    assert_eq!(t.columns[2].name, "c");
    match &t.columns[0].data {
        ColumnData::U64(v) => assert!(v.is_empty()),
        other => panic!("unexpected {:?}", other),
    }
    assert!(texts(&t, 1).is_empty());
    match &t.columns[2].data {
        ColumnData::Float { double, rows } => {
            assert!(*double);
            assert_eq!(*rows, 0);
        }
        other => panic!("unexpected {:?}", other),
    }
}

#[test]
fn unknown_type_is_named() {
    let doc = schema(vec![
        column("bad", "u32", Some(range(num("10"), num("5")))),
        column("x", "NotARealType", None),
    ]);
    let r = generate_from_json(&doc, 3);
    assert_eq!(r.unwrap_err(), GenerateError::UnsupportedType("NotARealType".to_string()));
    let r = create_series_from_type("NotARealType", "x", 3, &column("x", "NotARealType", None));
    assert_eq!(r.unwrap_err(), GenerateError::UnsupportedType("NotARealType".to_string()));
}

#[test]
fn missing_columns_array() {
    let r = generate_from_json(&obj(vec![("cols", ArgValue::Array(vec![]))]), 3);
    assert_eq!(r.unwrap_err(), GenerateError::MissingColumns);
    let r = generate_from_json(&obj(vec![("columns", s("x"))]), 3);
    assert_eq!(r.unwrap_err(), GenerateError::MissingColumns);
}

#[test]
fn every_column_has_row_count_values() {
    let doc = schema(vec![
        column("a", "i32", Some(range(num("-3"), s("4")))),
        column("b", "Word", None),
        column("c", "Sentence", None),
        column("d", "UUIDv4", None),
        column("e", "BigDecimal", None),
    ]);
    let t = generate_from_json(&doc, 17).unwrap();
    assert_eq!(t.columns.len(), 5);
    match &t.columns[0].data {
        ColumnData::I32(v) => {
            assert_eq!(v.len(), 17);
            assert!(v.iter().all(|x| (-3..=4).contains(x)));
        }
        other => panic!("unexpected {:?}", other),
    }
    for i in 1..5 {
        assert_eq!(texts(&t, i).len(), 17);
    }
    assert!(texts(&t, 3).iter().all(|u| u.len() == 36));
}

#[test]
fn ratio_is_required() {
    let r = one(column("b", "Boolean", None), 4);
    assert_eq!(r.unwrap_err(), GenerateError::InvalidArgument(ArgError::Missing(ArgKey::Ratio)));
    let r = one(column("b", "Boolean", Some(obj(vec![("ratio", s("50"))]))), 4);
    assert_eq!(r.unwrap_err(), GenerateError::InvalidArgument(ArgError::Missing(ArgKey::Ratio)));
}

#[test]
fn ratio_extremes() {
    let t = one(column("b", "Boolean", Some(obj(vec![("ratio", num("0"))]))), 200).unwrap();
    match &t.columns[0].data {
        ColumnData::Bool(v) => assert!(v.iter().all(|x| !*x)),
        other => panic!("unexpected {:?}", other),
    }
    let t = one(column("b", "Boolean", Some(obj(vec![("ratio", num("255"))]))), 200).unwrap();
    match &t.columns[0].data {
        ColumnData::Bool(v) => assert!(v.iter().all(|x| *x)),
        other => panic!("unexpected {:?}", other),
    }
}

#[test]
fn small_uint_out_of_range_is_refused() {
    let c = column("b", "Boolean", Some(obj(vec![("ratio", num("300"))])));
    assert_eq!(get_args_u8(&c, ArgKey::Ratio), Err(ArgError::Missing(ArgKey::Ratio)));
    let r = one(c, 3);
    assert_eq!(r.unwrap_err(), GenerateError::InvalidArgument(ArgError::Missing(ArgKey::Ratio)));
    let c = column("b", "Boolean", Some(obj(vec![("ratio", num("255"))])));
    assert_eq!(get_args_u8(&c, ArgKey::Ratio), Ok(255));
    let c = column("b", "Boolean", Some(obj(vec![("ratio", num("-1"))])));
    assert_eq!(get_args_u8(&c, ArgKey::Ratio), Err(ArgError::Missing(ArgKey::Ratio)));
}

#[test]
fn bad_range_values() {
    let r = one(column("x", "u32", Some(range(s("abc"), num("5")))), 2);
    assert_eq!(r.unwrap_err(), GenerateError::InvalidArgument(ArgError::BadRangeValue));
    let r = one(column("x", "u32", Some(range(ArgValue::Bool(true), num("5")))), 2);
    assert_eq!(r.unwrap_err(), GenerateError::InvalidArgument(ArgError::BadRangeValue));
    let r = one(column("x", "u32", Some(range(num("-1"), num("5")))), 2);
    assert_eq!(r.unwrap_err(), GenerateError::InvalidArgument(ArgError::BadRangeValue));
    let r = one(column("x", "u32", Some(range(num("0"), num("4294967296")))), 2);
    assert_eq!(r.unwrap_err(), GenerateError::InvalidArgument(ArgError::BadRangeValue));
    let r = one(column("x", "i64", Some(range(num("1.5"), num("5")))), 2);
    assert_eq!(r.unwrap_err(), GenerateError::InvalidArgument(ArgError::BadRangeValue));
}

#[test]
fn single_value_range() {
    let t = one(column("x", "i64", Some(range(num("-9223372036854775808"), num("-9223372036854775808")))), 3)
        .unwrap();
    match &t.columns[0].data {
        ColumnData::I64(v) => assert!(v.iter().all(|x| *x == i64::MIN)),
        other => panic!("unexpected {:?}", other),
    }
    let t = one(column("x", "u64", Some(obj(vec![("range", obj(vec![("start", s("+18446744073709551615"))]))]))), 3)
        .unwrap();
    match &t.columns[0].data {
        ColumnData::U64(v) => assert!(v.iter().all(|x| *x == u64::MAX)),
        other => panic!("unexpected {:?}", other),
    }
}

#[test]
fn equal_word_count_bounds() {
    let t = one(column("x", "Sentence", Some(range(num("4"), num("4")))), 5).unwrap();
    for v in texts(&t, 0) {
        assert!(v.ends_with('.'));
        assert_eq!(v.split(' ').count(), 4);
    }
    let r = one(column("x", "Sentence", Some(range(num("5"), num("4")))), 2);
    assert_eq!(r.unwrap_err(), GenerateError::InvalidArgument(ArgError::InvalidRange));
    let t = one(column("x", "Password", Some(range(num("6"), num("7")))), 4).unwrap();
    assert!(texts(&t, 0).iter().all(|p| p.chars().count() == 6));
}

#[test]
fn number_with_format() {
    let r = one(column("x", "NumberWithFormat", None), 2);
    assert_eq!(r.unwrap_err(), GenerateError::InvalidArgument(ArgError::Missing(ArgKey::Fmt)));
    let t = one(column("x", "NumberWithFormat", Some(obj(vec![("fmt", s("^##"))]))), 6).unwrap();
    for v in texts(&t, 0) {
        assert_eq!(v.len(), 3);
        assert!(v.chars().all(|c| c.is_ascii_digit()));
        assert_ne!(v, "^##");
    }
}

#[test]
fn geohash_precision() {
    let t = one(column("g", "Geohash", Some(obj(vec![("precision", num("5"))]))), 8).unwrap();
    assert!(texts(&t, 0).iter().all(|g| g.len() == 5));
    let t = one(column("g", "Geohash", Some(obj(vec![("precision", num("40"))]))), 3).unwrap();
    assert!(texts(&t, 0).iter().all(|g| g.len() == 32));
    let r = one(column("g", "Geohash", None), 8);
    assert_eq!(r.unwrap_err(), GenerateError::InvalidArgument(ArgError::Missing(ArgKey::Precision)));
}

#[test]
fn timestamp_columns() {
    let between = obj(vec![("start", s("2020-01-01T00:00:00Z")), ("end", s("2020-06-01T00:00:00+02:00"))]);
    let t = one(column("t", "DateTimeBetween", Some(between)), 10).unwrap();
    for v in texts(&t, 0) {
        assert!(v.starts_with("2020-"));
    }
    let inverted = obj(vec![("start", s("2021-01-01T00:00:00Z")), ("end", s("2020-01-01T00:00:00Z"))]);
    let r = one(column("t", "DateTimeBetween", Some(inverted)), 1);
    assert_eq!(r.unwrap_err(), GenerateError::InvalidArgument(ArgError::InvalidRange));
    let bad = obj(vec![("start", s("yesterday")), ("end", s("2020-01-01T00:00:00Z"))]);
    let r = one(column("t", "DateTimeBetween", Some(bad)), 1);
    assert_eq!(r.unwrap_err(), GenerateError::InvalidArgument(ArgError::InvalidTimestamp(ArgKey::Start)));
    let r = one(column("t", "DateTimeBefore", None), 1);
    assert_eq!(r.unwrap_err(), GenerateError::InvalidArgument(ArgError::InvalidTimestamp(ArgKey::Dt)));
    let t = one(column("t", "DateTimeAfter", Some(obj(vec![("dt", s("2000-01-01T00:00:00Z"))]))), 5).unwrap();
    for v in texts(&t, 0) {
        assert!(v.as_str() > "2000-01-01T00:00:00");
        assert!(v.as_str() < "2002-");
    }
}

#[test]
fn between_values_lie_in_range() {
    let start = chrono::DateTime::parse_from_rfc3339("2021-03-01T10:00:00Z").unwrap();
    let end = chrono::DateTime::parse_from_rfc3339("2021-03-01T12:30:00Z").unwrap();
    let between = obj(vec![("start", s("2021-03-01T10:00:00Z")), ("end", s("2021-03-01T12:30:00Z"))]);
    let t = one(column("t", "DateTimeBetween", Some(between)), 50).unwrap();
    for v in texts(&t, 0) {
        let d = chrono::DateTime::parse_from_rfc3339(v).unwrap();
        assert!(start <= d && d < end);
    }
    let t = one(column("t", "DateTimeBefore", Some(obj(vec![("dt", s("2021-03-01T10:00:00Z"))]))), 20).unwrap();
    for v in texts(&t, 0) {
        assert!(chrono::DateTime::parse_from_rfc3339(v).unwrap() < start);
    }
}

#[test]
fn ratio_gives_true_fraction_out_of_255() {
    let n = 40_000;
    let t = one(column("b", "Boolean", Some(obj(vec![("ratio", num("51"))]))), n).unwrap();
    match &t.columns[0].data {
        ColumnData::Bool(v) => {
            let f = v.iter().filter(|x| **x).count() as f64 / n as f64;
            assert!((f - 0.2).abs() < 0.02, "fraction {}", f);
        }
        other => panic!("unexpected {:?}", other),
    }
}

#[test]
fn short_between_span_gives_the_start() {
    let same = obj(vec![("start", s("2021-03-01T10:00:00Z")), ("end", s("2021-03-01T10:00:00Z"))]);
    let t = one(column("t", "DateTimeBetween", Some(same)), 4).unwrap();
    for v in texts(&t, 0) {
        assert_eq!(v, "2021-03-01T10:00:00+00:00");
    }
    let short = obj(vec![("start", s("2021-03-01T10:00:00Z")), ("end", s("2021-03-01T10:00:30Z"))]);
    assert_eq!(texts(&one(column("t", "DateTimeBetween", Some(short)), 2).unwrap(), 0).len(), 2);
}

#[test]
fn text_shapes() {
    let doc = schema(vec![
        column("d", "Digit", None),
        column("u", "UUIDv1", None),
        column("ip", "IPv4", None),
        column("n", "CompanyName", None),
    ]);
    let t = generate_from_json(&doc, 30).unwrap();
    assert!(texts(&t, 0).iter().all(|d| d.len() == 1 && d.chars().all(|c| c.is_ascii_digit())));
    for u in texts(&t, 1) {
        let c: Vec<char> = u.chars().collect();
        assert_eq!(c.len(), 36);
        assert!(c[8] == '-' && c[13] == '-' && c[18] == '-' && c[23] == '-');
    }
    for ip in texts(&t, 2) {
        let parts: Vec<&str> = ip.split('.').collect();
        assert_eq!(parts.len(), 4);
        assert!(parts.iter().all(|p| p.parse::<u8>().is_ok()));
    }
    assert!(texts(&t, 3).iter().all(|x| !x.is_empty()));
}

#[test]
fn first_failing_column_gives_the_error() {
    let doc = schema(vec![
        column("a", "u32", Some(range(num("1"), num("2")))),
        column("b", "Geohash", None),
        column("c", "u32", Some(range(num("10"), num("5")))),
    ]);
    let r = generate_from_json(&doc, 3);
    assert_eq!(r.unwrap_err(), GenerateError::InvalidArgument(ArgError::Missing(ArgKey::Precision)));
}

#[test]
fn catalogue_lookup() {
    assert_eq!(type_kind("Title"), Some(TypeKind::Text(TextKind::NameTitle)));
    assert_eq!(type_kind("JobTitle"), Some(TypeKind::Text(TextKind::JobTitle)));
    assert_eq!(type_kind("u32"), Some(TypeKind::U32));
    assert_eq!(type_kind("U32"), None);
    assert_eq!(type_kind("Decimal"), None);
    assert_eq!(type_kind(""), None);
}

#[test]
fn decimal_reading() {
    assert_eq!(parse_decimal("+7", false, 0, 10), Some(7));
    assert_eq!(parse_decimal("-7", false, 0, 10), None);
    assert_eq!(parse_decimal("-7", true, -10, 10), Some(-7));
    assert_eq!(parse_decimal("", true, -10, 10), None);
    assert_eq!(parse_decimal("-", true, -10, 10), None);
    assert_eq!(parse_decimal("11", true, -10, 10), None);
    assert_eq!(parse_decimal("007", false, 0, 10), Some(7));
    assert_eq!(parse_decimal("99999999999999999999999", false, 0, 10), None);
}

#[test]
fn first_member_wins() {
    let o = obj(vec![("k", num("1")), ("k", num("2"))]);
    match o.get("k") {
        Some(ArgValue::Number(t)) => assert_eq!(t, "1"),
        other => panic!("unexpected {:?}", other),
    }
    assert!(o.get("z").is_none());
}
