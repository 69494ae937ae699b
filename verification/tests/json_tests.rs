use matrix_bridge_zulip::json::Json;

fn same(a: &Json, b: &Json) -> bool {
    match (a, b) {
        (Json::Null, Json::Null) => true,
        (Json::Bool(x), Json::Bool(y)) => x == y,
        (Json::Int(x), Json::Int(y)) => x == y,
        (Json::Number(x), Json::Number(y)) => x == y,
        (Json::Str(x), Json::Str(y)) => x == y,
        (Json::Array(x), Json::Array(y)) => {
            x.len() == y.len() && x.iter().zip(y.iter()).all(|(p, q)| same(p, q))
        }
        (Json::Object(x), Json::Object(y)) => {
            x.len() == y.len()
                && x.iter().zip(y.iter()).all(|(p, q)| p.0 == q.0 && same(&p.1, &q.1))
        }
        _ => false,
    }
}

fn sample() -> Json {
    Json::object(vec![
        Json::member("name", Json::text("general")),
        Json::member("id", Json::Int(9)),
        Json::member("tags", Json::array(vec![Json::text("a"), Json::Null, Json::Bool(true)])),
        Json::member("name", Json::text("shadowed")),
        Json::member("ratio", Json::Number("0.5".to_string())),
    ])
}

#[test]
fn get_finds_the_first_member_of_a_name() {
    let doc = sample();
    assert_eq!(doc.get("name").and_then(|v| v.as_str()), Some("general"));
    assert_eq!(doc.get("id").and_then(|v| v.as_i64()), Some(9));
    assert!(doc.get("missing").is_none());
    assert!(Json::Int(3).get("id").is_none());
    assert!(Json::array(vec![]).get("id").is_none());
}

#[test]
fn accessors_answer_only_for_their_kind() {
    assert_eq!(Json::text("x").as_str(), Some("x"));
    assert_eq!(Json::Int(7).as_str(), None);
    assert_eq!(Json::Int(-7).as_i64(), Some(-7));
    assert_eq!(Json::text("7").as_i64(), None);
    assert_eq!(Json::Number("7.5".to_string()).as_i64(), None);
    assert_eq!(Json::array(vec![Json::Null]).as_array().map(|a| a.len()), Some(1));
    assert!(Json::Null.as_array().is_none());
}

#[test]
fn duplicate_and_clone_copy_the_whole_document() {
    let doc = sample();
    assert!(same(&doc.duplicate(), &doc));
    assert!(same(&doc.clone(), &doc));
    assert!(!same(&doc, &Json::Null));
}
