use ed25519_dalek::Signer;
use ed25519_dalek::SigningKey;
use playbot::auth::AuthorityKey;
use playbot::builder::build_index;
use playbot::builder::decode_groups;
use playbot::builder::Group;
use playbot::builder::VideoItem;
use playbot::handler::handle;
use playbot::handler::respond;
use playbot::index::execute_query;
use playbot::index::Entry;
use playbot::index::Index;
use playbot::payload::command_from_values;
use playbot::payload::decode_payload;
use playbot::payload::Command;
use playbot::payload::Payload;
use playbot::reply::format_results;
use playbot::reply::message_reply;
use playbot::reply::ping_reply;
use playbot::reply::u64_to_string;
use playbot::RequestError;

fn hex_of(bytes: &[u8]) -> String {
    let mut s = String::new();
    for b in bytes {
        s.push(char::from_digit((b >> 4) as u32, 16).unwrap());
        s.push(char::from_digit((b & 15) as u32, 16).unwrap());
    }
    s
}

fn entry(collection: &str, locator: &str, title: &str) -> Entry {
    Entry {
        collection: collection.to_string(),
        locator: locator.to_string(),
        title: title.to_string(),
    }
}

fn video(locator: &str, title: &str) -> VideoItem {
    VideoItem { locator: locator.to_string(), title: title.to_string() }
}

fn sample_index() -> Index {
    build_index(&vec![
        Group {
            name: "rust".to_string(),
            videos: vec![video("http://a", "intro"), video("http://b", "advanced topics")],
        },
        Group { name: "golang".to_string(), videos: vec![video("http://c", "intro")] },
    ])
    .unwrap()
}

#[test]
fn ping_classifies_as_probe() {
    let body = br#"{"type":1}"#.to_vec();
    assert_eq!(decode_payload(&body), Ok(Payload::Probe));
}

#[test]
fn ping_with_extra_fields_classifies_as_probe() {
    let body = br#"{"type":1,"data":{"name":"x","options":[]}}"#.to_vec();
    assert_eq!(decode_payload(&body), Ok(Payload::Probe));
}

#[test]
fn probe_gets_acknowledgment_without_query() {
    let idx = sample_index();
    let r = respond(&idx, &Payload::Probe);
    assert_eq!(r.status, 200);
    assert_eq!(r.content_type, "application/json");
    assert_eq!(r.body, r#"{"type":1}"#);
}

#[test]
fn command_decodes_name_and_first_option() {
    let body = br#"{"type":2,"data":{"name":"rust","options":[{"value":"intro"},{"value":"ignored"}]}}"#
        .to_vec();
    let p = decode_payload(&body).unwrap();
    assert_eq!(
        p,
        Payload::Invoke(Command {
            collection: "rust".to_string(),
            query_text: "intro".to_string(),
        })
    );
}

#[test]
fn command_with_zero_options_is_malformed() {
    let body = br#"{"type":2,"data":{"name":"rust","options":[]}}"#.to_vec();
    assert_eq!(decode_payload(&body), Err(RequestError::MalformedPayload));
}

#[test]
fn command_from_values_requires_an_option() {
    let r = command_from_values("rust".to_string(), &vec![]);
    assert_eq!(r, Err(RequestError::MalformedPayload));
    let r = command_from_values("rust".to_string(), &vec!["q".to_string()]);
    assert_eq!(
        r,
        Ok(Command { collection: "rust".to_string(), query_text: "q".to_string() })
    );
}

#[test]
fn invalid_bodies_are_invalid_encoding() {
    let cases: Vec<&[u8]> = vec![
        b"not json at all",
        br#"{"no_type":1}"#,
        br#"{"type":"one"}"#,
        br#"{"type":4294967296}"#,
        br#"{"type":2}"#,
        br#"{"type":2,"data":{"options":[]}}"#,
        br#"{"type":2,"data":{"name":"x"}}"#,
        br#"{"type":2,"data":{"name":"x","options":7}}"#,
        br#"{"type":2,"data":{"name":"x","options":[{"novalue":1}]}}"#,
        br#"{"type":2,"data":{"name":"x","options":[{"value":3}]}}"#,
    ];
    for body in cases {
        assert_eq!(
            decode_payload(&body.to_vec()),
            Err(RequestError::InvalidEncoding),
            "body: {}",
            String::from_utf8_lossy(body)
        );
    }
}

#[test]
fn format_empty() {
    assert_eq!(format_results(&vec![]), "no videos found");
}

#[test]
fn format_one() {
    let rs = vec![entry("c", "u1", "A")];
    assert_eq!(format_results(&rs), "A - u1");
}

#[test]
fn format_two() {
    let rs = vec![entry("c", "u1", "A"), entry("c", "u2", "B")];
    assert_eq!(format_results(&rs), "A - u1 & B - u2");
}

#[test]
fn format_three_counts_total_not_remainder() {
    let rs = vec![
        entry("c", "u1", "A"),
        entry("c", "u2", "B"),
        entry("c", "u3", "C"),
    ];
    assert_eq!(format_results(&rs), "A - u1 & 3 other videos found");
}

#[test]
fn format_many_counts_total() {
    let mut rs = Vec::new();
    for i in 0..12 {
        rs.push(entry("c", &format!("u{i}"), &format!("t{i}")));
    }
    assert_eq!(format_results(&rs), "t0 - u0 & 12 other videos found");
}

#[test]
fn decimal_rendering_is_exact() {
    assert_eq!(u64_to_string(0), "0");
    assert_eq!(u64_to_string(7), "7");
    assert_eq!(u64_to_string(10), "10");
    assert_eq!(u64_to_string(90210), "90210");
}

#[test]
fn query_is_idempotent() {
    let idx = sample_index();
    let a = execute_query(&idx, "rust", "intro").unwrap();
    let b = execute_query(&idx, "rust", "intro").unwrap();
    assert_eq!(a, b);
    assert_eq!(a, vec![entry("rust", "http://a", "intro")]);
}

#[test]
fn collections_are_isolated() {
    let idx = sample_index();
    let hits = execute_query(&idx, "golang", "advanced").unwrap();
    assert!(hits.is_empty());
    let hits = execute_query(&idx, "golang", "intro").unwrap();
    assert_eq!(hits, vec![entry("golang", "http://c", "intro")]);
}

#[test]
fn matching_is_token_based() {
    let idx = sample_index();
    let hits = execute_query(&idx, "rust", "topics").unwrap();
    assert_eq!(hits, vec![entry("rust", "http://b", "advanced topics")]);
    let hits = execute_query(&idx, "rust", "topi").unwrap();
    assert!(hits.is_empty());
}

#[test]
fn query_syntax_error_reads_as_no_results() {
    let idx = sample_index();
    assert_eq!(
        execute_query(&idx, "rust", "(").unwrap_err(),
        RequestError::QuerySyntaxError
    );
    let cmd = Command { collection: "rust".to_string(), query_text: "(".to_string() };
    let r = respond(&idx, &Payload::Invoke(cmd));
    assert!(r.body.contains("no videos found"));
}

#[test]
fn empty_query_yields_no_results() {
    let idx = sample_index();
    assert_eq!(execute_query(&idx, "rust", ""), Ok(vec![]));
    let cmd = Command { collection: "rust".to_string(), query_text: String::new() };
    let r = respond(&idx, &Payload::Invoke(cmd));
    assert!(r.body.contains("no videos found"));
}

#[test]
fn message_envelope_is_exact() {
    let r = message_reply("intro - http://a");
    assert_eq!(
        r.body,
        r#"{"type":4,"data":{"tts":false,"content":"intro - http://a","embeds":[],"allow_mentions":{"parse":[]}}}"#
    );
    assert_eq!(r.status, 200);
    assert_eq!(r.content_type, "application/json");
}

#[test]
fn message_envelope_escapes_content() {
    let r = message_reply("a\"b\\c");
    assert_eq!(
        r.body,
        "{\"type\":4,\"data\":{\"tts\":false,\"content\":\"a\\\"b\\\\c\",\"embeds\":[],\"allow_mentions\":{\"parse\":[]}}}"
    );
    let r = message_reply("a\nb");
    assert!(r.body.contains("a\\u000ab"));
}

#[test]
fn ping_envelope_is_exact() {
    let r = ping_reply();
    assert_eq!(r.body, r#"{"type":1}"#);
    assert_eq!(r.status, 200);
}

#[test]
fn dataset_decodes_and_builds() {
    let doc = br#"{"playlists":[{"playlist_name":"rust","videos":[{"url":"http://a","title":"intro"},{"url":"http://b","title":"advanced topics"}]},{"playlist_name":"golang","videos":[{"url":"http://c","title":"intro"}]}]}"#.to_vec();
    let groups = decode_groups(&doc).unwrap();
    assert_eq!(groups.len(), 2);
    assert_eq!(
        groups[0],
        Group {
            name: "rust".to_string(),
            videos: vec![
                VideoItem { locator: "http://a".to_string(), title: "intro".to_string() },
                VideoItem {
                    locator: "http://b".to_string(),
                    title: "advanced topics".to_string(),
                },
            ],
        }
    );
    let idx = build_index(&groups).unwrap();
    let hits = execute_query(&idx, "rust", "intro").unwrap();
    assert_eq!(hits, vec![entry("rust", "http://a", "intro")]);
}

#[test]
fn malformed_dataset_fails_the_build() {
    assert!(decode_groups(&b"nonsense".to_vec()).is_err());
    assert!(decode_groups(&br#"{"playlists":[{"videos":[]}]}"#.to_vec()).is_err());
    assert!(decode_groups(&br#"{"playlists":[{"playlist_name":"x"}]}"#.to_vec()).is_err());
}

#[test]
fn end_to_end_scenario() {
    let sk = SigningKey::from_bytes(&[3u8; 32]);
    let key = AuthorityKey::from_hex(hex_of(&sk.verifying_key().to_bytes()).as_bytes()).unwrap();
    let idx = build_index(&vec![Group {
        name: "rust".to_string(),
        videos: vec![VideoItem { locator: "http://a".to_string(), title: "intro".to_string() }],
    }])
    .unwrap();
    let ts = b"1700000000".to_vec();

    let sign = |body: &[u8]| -> Vec<u8> {
        let mut msg = ts.clone();
        msg.extend_from_slice(body);
        hex_of(&sk.sign(&msg).to_bytes()).into_bytes()
    };

    let ping = br#"{"type":1}"#.to_vec();
    let sig = sign(&ping);
    let r = handle(&key, &idx, Some(&sig), Some(&ts), ping).unwrap();
    assert_eq!(r.body, r#"{"type":1}"#);

    let cmd = br#"{"type":2,"data":{"name":"rust","options":[{"value":"intro"}]}}"#.to_vec();
    let sig = sign(&cmd);
    let r = handle(&key, &idx, Some(&sig), Some(&ts), cmd).unwrap();
    assert_eq!(
        r.body,
        r#"{"type":4,"data":{"tts":false,"content":"intro - http://a","embeds":[],"allow_mentions":{"parse":[]}}}"#
    );

    let cmd = br#"{"type":2,"data":{"name":"golang","options":[{"value":"intro"}]}}"#.to_vec();
    let sig = sign(&cmd);
    let r = handle(&key, &idx, Some(&sig), Some(&ts), cmd).unwrap();
    assert_eq!(
        r.body,
        r#"{"type":4,"data":{"tts":false,"content":"no videos found","embeds":[],"allow_mentions":{"parse":[]}}}"#
    );

    let unsigned = br#"{"type":1}"#.to_vec();
    let bad_sig = sign(br#"{"type":2}"#);
    assert_eq!(
        handle(&key, &idx, Some(&bad_sig), Some(&ts), unsigned).unwrap_err(),
        RequestError::VerificationFailed
    );
}
