use limitless_fetch::fanout::{classify, collect_standings, standings_urls, FailureKind};
use limitless_fetch::headers::{json_content_type, load_credential, StartupError};
use limitless_fetch::json::{get_member, Json};
use limitless_fetch::listing::{
    decode_entity_list, decode_entity_list_lenient, entities_from_reply, formats_from_reply, select_by_id, EntityRef,
    ListError,
};
use limitless_fetch::reply::{is_success, Reply};
use limitless_fetch::standings::{decode_record, decode_standings};
use limitless_fetch::urls::{decimal_text, standings_url, tournaments_url, GAMES_URL};

fn text(x: &str) -> Json {
    Json::Str(x.to_string())
}

fn obj(members: Vec<(&str, Json)>) -> Json {
    Json::Object(members.into_iter().map(|(k, v)| (k.to_string(), v)).collect())
}

fn mon(id: &str, tera: Option<&str>) -> Json {
    let mut members = vec![
        ("id", text(id)),
        ("name", text("Name")),
        ("item", text("Leftovers")),
        ("ability", text("Intimidate")),
        ("attacks", Json::Array(vec![text("Protect"), text("Fake Out")])),
    ];
    if let Some(t) = tera {
        members.push(("tera", text(t)));
    }
    obj(members)
}

fn record(wins: u64, losses: u64, ties: u64) -> Json {
    obj(vec![
        ("wins", Json::Unsigned(wins)),
        ("losses", Json::Unsigned(losses)),
        ("ties", Json::Unsigned(ties)),
    ])
}

fn standings_body() -> Json {
    Json::Array(vec![
        obj(vec![
            ("decklist", Json::Array(vec![mon("incineroar", Some("Grass")), mon("rillaboom", None)])),
            ("record", record(5, 2, 1)),
        ]),
        obj(vec![("decklist", Json::Array(vec![])), ("record", record(0, 3, 0))]),
    ])
}

fn ok_reply(body: Json) -> Reply {
    Reply::Response { status: 200, body: Some(body) }
}

fn refs(ids: &[&str]) -> Vec<EntityRef> {
    ids.iter().map(|i| EntityRef { id: i.to_string() }).collect()
}

#[test]
fn missing_credential_is_fatal() {
    assert_eq!(load_credential(None).err(), Some(StartupError::MissingCredential));
}

#[test]
fn empty_credential_is_fatal() {
    assert_eq!(load_credential(Some(String::new())).err(), Some(StartupError::EmptyCredential));
}

#[test]
fn credential_with_control_character_is_refused() {
    let r = load_credential(Some("abc\ndef".to_string()));
    assert_eq!(r.err(), Some(StartupError::InvalidCredential));
    let r = load_credential(Some("abc\u{7f}".to_string()));
    assert_eq!(r.err(), Some(StartupError::InvalidCredential));
}

#[test]
fn valid_credential_keeps_key() {
    let c = load_credential(Some("SECRET-REDACTED".to_string())).ok().unwrap();
    assert_eq!(c.key(), "SECRET-REDACTED");
    assert_eq!(c.header_value().as_bytes(), b"SECRET-REDACTED");
    let c = load_credential(Some("tab\there-\u{e9}".to_string())).ok().unwrap();
    assert_eq!(c.key(), "tab\there-\u{e9}");
}

#[test]
fn content_type_is_json() {
    assert_eq!(json_content_type().to_str().unwrap(), "application/json");
}

#[test]
fn urls_are_built_from_ids() {
    assert_eq!(
        standings_url("t1"),
        "https://play.limitlesstcg.com/api/tournaments/t1/standings"
    );
    assert_eq!(
        tournaments_url("STANDARD"),
        format!(
            "https://play.limitlesstcg.com/api/tournaments?format=STANDARD&limit={}",
            u128::MAX
        )
    );
    assert_eq!(GAMES_URL, "https://play.limitlesstcg.com/api/games");
}

#[test]
fn decimal_text_renders_numbers() {
    assert_eq!(decimal_text(0), "0");
    assert_eq!(decimal_text(9), "9");
    assert_eq!(decimal_text(10), "10");
    assert_eq!(decimal_text(1234567890), "1234567890");
    assert_eq!(decimal_text(u128::MAX), u128::MAX.to_string());
}

#[test]
fn standings_urls_follow_refs() {
    let urls = standings_urls(&refs(&["a", "b"]));
    assert_eq!(
        urls,
        vec![
            "https://play.limitlesstcg.com/api/tournaments/a/standings".to_string(),
            "https://play.limitlesstcg.com/api/tournaments/b/standings".to_string(),
        ]
    );
}

#[test]
fn member_lookup_takes_first_match() {
    let j = obj(vec![("id", text("x")), ("id", text("y"))]);
    match get_member(&j, "id") {
        Some(Json::Str(s)) => assert_eq!(s, "x"),
        _ => panic!("member not found"),
    }
    assert!(get_member(&j, "name").is_none());
    assert!(get_member(&text("id"), "id").is_none());
}

#[test]
fn entity_list_decodes_ids() {
    let body = Json::Array(vec![obj(vec![("id", text("t1"))]), obj(vec![("id", text("t2")), ("name", text("x"))])]);
    let v = decode_entity_list(&body).ok().unwrap();
    let ids: Vec<&str> = v.iter().map(|r| r.id.as_str()).collect();
    assert_eq!(ids, vec!["t1", "t2"]);
}

#[test]
fn entity_list_refuses_missing_id() {
    let body = Json::Array(vec![
        obj(vec![("id", text("t1"))]),
        obj(vec![("id", Json::Unsigned(3))]),
        obj(vec![]),
    ]);
    assert_eq!(decode_entity_list(&body).err(), Some(ListError::MissingId(1)));
}

#[test]
fn entity_list_refuses_object_body() {
    let body = obj(vec![("id", text("t1"))]);
    assert_eq!(decode_entity_list(&body).err(), Some(ListError::NotArray));
    let r = entities_from_reply(&ok_reply(body));
    assert_eq!(r.err(), Some(ListError::NotArray));
}

#[test]
fn entity_list_reply_errors() {
    assert_eq!(entities_from_reply(&Reply::TransportError).err(), Some(ListError::Transport));
    assert_eq!(entities_from_reply(&Reply::Abandoned).err(), Some(ListError::Transport));
    let r = entities_from_reply(&Reply::Response { status: 500, body: Some(Json::Array(vec![])) });
    assert_eq!(r.err(), Some(ListError::Status(500)));
    let r = entities_from_reply(&Reply::Response { status: 200, body: None });
    assert_eq!(r.err(), Some(ListError::Malformed));
    let r = entities_from_reply(&ok_reply(Json::Array(vec![])));
    assert_eq!(r.ok().map(|v| v.len()), Some(0));
}

#[test]
fn success_range() {
    assert!(is_success(200));
    assert!(is_success(299));
    assert!(!is_success(199));
    assert!(!is_success(300));
    assert!(!is_success(404));
}

#[test]
fn standings_decode_fields() {
    let v = decode_standings(&standings_body()).unwrap();
    assert_eq!(v.len(), 2);
    assert_eq!(v[0].decklist.len(), 2);
    assert_eq!(v[0].decklist[0].id, "incineroar");
    assert_eq!(v[0].decklist[0].tera, Some("Grass".to_string()));
    assert_eq!(v[0].decklist[1].tera, None);
    assert_eq!(v[0].decklist[1].attacks, vec!["Protect".to_string(), "Fake Out".to_string()]);
    assert_eq!(v[0].record.wins, 5);
    assert_eq!(v[0].record.losses, 2);
    assert_eq!(v[0].record.ties, 1);
    assert_eq!(v[1].decklist.len(), 0);
    assert_eq!(v[1].record.losses, 3);
}

#[test]
fn standings_null_tera_is_none() {
    let m = obj(vec![
        ("id", text("a")),
        ("name", text("A")),
        ("item", text("B")),
        ("tera", Json::Null),
        ("ability", text("C")),
        ("attacks", Json::Array(vec![])),
    ]);
    let body = Json::Array(vec![obj(vec![("decklist", Json::Array(vec![m])), ("record", record(1, 1, 1))])]);
    let v = decode_standings(&body).unwrap();
    assert_eq!(v[0].decklist[0].tera, None);
}

#[test]
fn standings_refuse_bad_shapes() {
    assert!(decode_standings(&obj(vec![])).is_none());
    let bad_attack = obj(vec![
        ("id", text("a")),
        ("name", text("A")),
        ("item", text("B")),
        ("ability", text("C")),
        ("attacks", Json::Array(vec![Json::Unsigned(1)])),
    ]);
    let body = Json::Array(vec![obj(vec![("decklist", Json::Array(vec![bad_attack])), ("record", record(1, 1, 1))])]);
    assert!(decode_standings(&body).is_none());
    let body = Json::Array(vec![obj(vec![("decklist", Json::Array(vec![]))])]);
    assert!(decode_standings(&body).is_none());
}

#[test]
fn record_counts_must_fit() {
    let r = decode_record(&record(4294967295, 0, 0)).unwrap();
    assert_eq!(r.wins, 4294967295);
    assert!(decode_record(&record(4294967296, 0, 0)).is_none());
    let neg = obj(vec![
        ("wins", Json::Negative(-1)),
        ("losses", Json::Unsigned(0)),
        ("ties", Json::Unsigned(0)),
    ]);
    assert!(decode_record(&neg).is_none());
    let frac = obj(vec![
        ("wins", Json::Fraction("1.5".to_string())),
        ("losses", Json::Unsigned(0)),
        ("ties", Json::Unsigned(0)),
    ]);
    assert!(decode_record(&frac).is_none());
}

#[test]
fn classify_each_failure_kind() {
    assert_eq!(classify(&Reply::TransportError).err(), Some(FailureKind::Transport));
    assert_eq!(classify(&Reply::Abandoned).err(), Some(FailureKind::Join));
    let r = classify(&Reply::Response { status: 404, body: Some(standings_body()) });
    assert_eq!(r.err(), Some(FailureKind::Status(404)));
    let r = classify(&Reply::Response { status: 200, body: None });
    assert_eq!(r.err(), Some(FailureKind::Decode));
    assert_eq!(classify(&ok_reply(obj(vec![]))).err(), Some(FailureKind::Decode));
    assert_eq!(classify(&ok_reply(standings_body())).ok().map(|v| v.len()), Some(2));
}

#[test]
fn one_malformed_body_fails_alone() {
    let r = refs(&["t1", "t2", "t3", "t4", "t5"]);
    let replies = vec![
        ok_reply(standings_body()),
        ok_reply(standings_body()),
        ok_reply(obj(vec![("error", text("bad"))])),
        ok_reply(standings_body()),
        ok_reply(standings_body()),
    ];
    let c = collect_standings(&r, &replies);
    assert_eq!(c.records.len(), 4);
    assert_eq!(c.failures.len(), 1);
    assert_eq!(c.failures[0].tournament.id, "t3");
    assert_eq!(c.failures[0].kind, FailureKind::Decode);
    let ids: Vec<&str> = c.records.iter().map(|d| d.tournament.id.as_str()).collect();
    assert_eq!(ids, vec!["t1", "t2", "t4", "t5"]);
}

#[test]
fn every_reply_is_counted_once() {
    let r = refs(&["a", "b", "c", "d"]);
    let replies = vec![
        Reply::TransportError,
        ok_reply(standings_body()),
        Reply::Abandoned,
        Reply::Response { status: 503, body: None },
    ];
    let c = collect_standings(&r, &replies);
    assert_eq!(c.records.len() + c.failures.len(), 4);
    assert_eq!(c.records.len(), 1);
    let kinds: Vec<FailureKind> = c.failures.iter().map(|f| f.kind).collect();
    assert_eq!(kinds, vec![FailureKind::Transport, FailureKind::Join, FailureKind::Status(503)]);
    let empty = collect_standings(&Vec::new(), &Vec::new());
    assert_eq!(empty.records.len(), 0);
    assert_eq!(empty.failures.len(), 0);
}

#[test]
fn tours_scenario_collects_two_records() {
    let list = Json::Array(vec![obj(vec![("id", text("t1"))]), obj(vec![("id", text("t2"))])]);
    let entries = entities_from_reply(&ok_reply(list)).ok().unwrap();
    assert_eq!(entries.len(), 2);
    let urls = standings_urls(&entries);
    assert_eq!(urls[1], "https://play.limitlesstcg.com/api/tournaments/t2/standings");
    let replies = vec![ok_reply(standings_body()), ok_reply(standings_body())];
    let c = collect_standings(&entries, &replies);
    assert_eq!(c.records.len(), 2);
    assert_eq!(c.failures.len(), 0);
}

#[test]
fn formats_scenario_selects_vgc() {
    let body = Json::Array(vec![
        obj(vec![("id", text("VGC")), ("name", text("Video Game"))]),
        obj(vec![("id", text("STANDARD")), ("name", text("Standard"))]),
    ]);
    assert_eq!(select_by_id(&body, "VGC").ok(), Some(vec![0]));
    assert_eq!(formats_from_reply(&ok_reply(body), "VGC").ok(), Some(vec![0]));
}

#[test]
fn formats_selection_edges() {
    let body = Json::Array(vec![
        obj(vec![("id", text("VGC"))]),
        text("VGC"),
        obj(vec![("id", Json::Null)]),
        obj(vec![("name", text("VGC"))]),
        obj(vec![("id", text("VGC"))]),
    ]);
    assert_eq!(select_by_id(&body, "VGC").ok(), Some(vec![0, 4]));
    assert_eq!(select_by_id(&Json::Array(vec![]), "VGC").ok(), Some(vec![]));
    assert_eq!(select_by_id(&obj(vec![]), "VGC").err(), Some(ListError::NotArray));
    let r = formats_from_reply(&Reply::Response { status: 401, body: None }, "VGC");
    assert_eq!(r.err(), Some(ListError::Status(401)));
}

#[test]
fn lenient_list_skips_entries_without_id() {
    let body = Json::Array(vec![
        obj(vec![("id", text("t1"))]),
        obj(vec![("id", Json::Unsigned(7))]),
        text("t9"),
        obj(vec![("id", text("t2"))]),
    ]);
    let l = decode_entity_list_lenient(&body).ok().unwrap();
    let ids: Vec<&str> = l.entities.iter().map(|r| r.id.as_str()).collect();
    assert_eq!(ids, vec!["t1", "t2"]);
    assert_eq!(l.skipped, vec![1, 2]);
    assert_eq!(decode_entity_list_lenient(&obj(vec![])).err(), Some(ListError::NotArray));
}
