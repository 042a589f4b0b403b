use maimai_search::printer::Printer;
use maimai_search::ranking::select_top;
use maimai_search::song::ChartFamily;
use maimai_search::user_data::classify_status;
use maimai_search::user_data::parse_b50_payload;
use maimai_search::user_data::ChartRate;
use maimai_search::user_data::FullComboTier;
use maimai_search::user_data::LevelLabel;
use maimai_search::user_data::QueryFailure;

fn chart_entry(title: &str, ra: i32, label: &str) -> String {
    format!(
        "{{\"achievements\":100.5,\"ds\":13.7,\"dxScore\":2000,\"fc\":\"fc\",\"fs\":\"\",\
         \"level\":\"13+\",\"level_index\":3,\"level_label\":\"{}\",\"ra\":{},\
         \"rate\":\"sss\",\"song_id\":11571,\"title\":\"{}\",\"type\":\"DX\"}}",
        label, ra, title
    )
}

fn payload(dx_entries: &[String]) -> String {
    format!(
        "{{\"username\":\"player\",\"nickname\":\"nick\",\"plate\":\"plate\",\
         \"rating\":15000,\"additional_rating\":5,\"user_general_data\":null,\
         \"charts\":{{\"dx\":[{}],\"sd\":[]}}}}",
        dx_entries.join(",")
    )
}

#[test]
fn status_mapping_matches_failure_kinds() {
    assert_eq!(classify_status(200), Ok(()));
    assert_eq!(classify_status(400), Err(QueryFailure::UnknownUser));
    assert_eq!(classify_status(403), Err(QueryFailure::AccessDenied));
    assert_eq!(classify_status(500), Err(QueryFailure::ServiceUnavailable));
    assert_eq!(classify_status(404), Err(QueryFailure::ServiceUnavailable));
}

#[test]
fn valid_payload_parses_into_typed_records() {
    let text = payload(&[chart_entry("some song", 310, "Re:MASTER")]);
    let parsed = parse_b50_payload(text.as_str()).expect("payload should parse");
    assert_eq!(parsed.username, "player");
    assert_eq!(parsed.nickname, "nick");
    assert_eq!(parsed.rating, 15000);
    assert_eq!(parsed.additional_rating, 5);
    assert!(parsed.user_general_data.is_none());
    assert_eq!(parsed.charts.dx.len(), 1);
    assert_eq!(parsed.charts.sd.len(), 0);
    let c = &parsed.charts.dx[0];
    assert_eq!(c.title, "some song");
    assert_eq!(c.ra, 310);
    assert_eq!(c.level_label, LevelLabel::ReMaster);
    assert_eq!(c.rate, ChartRate::SSS);
    assert_eq!(c.fc, FullComboTier::Fc);
    assert_eq!(c.song_type, ChartFamily::DeluxeTouch);
    assert_eq!(c.achievements, "100.5");
    assert_eq!(c.ds, "13.7");
    assert_eq!(c.dx_score, 2000);
    assert_eq!(c.level, "13+");
    assert_eq!(c.level_index, 3);
    assert_eq!(c.song_id, 11571);
}

#[test]
fn missing_required_field_is_malformed() {
    let text = payload(&[chart_entry("some song", 310, "Master")]);
    let broken = text.replace("\"nickname\":\"nick\",", "");
    assert!(matches!(
        parse_b50_payload(broken.as_str()),
        Err(QueryFailure::MalformedPayload)
    ));
}

#[test]
fn missing_chart_field_is_malformed() {
    let text = payload(&[chart_entry("some song", 310, "Master")]);
    let broken = text.replace("\"ra\":310,", "");
    assert!(matches!(
        parse_b50_payload(broken.as_str()),
        Err(QueryFailure::MalformedPayload)
    ));
}

#[test]
fn unrecognized_tier_tag_is_malformed() {
    let text = payload(&[chart_entry("some song", 310, "SuperMaster")]);
    assert!(matches!(
        parse_b50_payload(text.as_str()),
        Err(QueryFailure::MalformedPayload)
    ));
}

#[test]
fn wrongly_typed_field_is_malformed() {
    let text = payload(&[chart_entry("some song", 310, "Master")]);
    let broken = text.replace("\"rating\":15000", "\"rating\":\"high\"");
    assert!(matches!(
        parse_b50_payload(broken.as_str()),
        Err(QueryFailure::MalformedPayload)
    ));
}

#[test]
fn non_json_body_is_malformed() {
    assert!(matches!(
        parse_b50_payload("not json at all"),
        Err(QueryFailure::MalformedPayload)
    ));
}

#[test]
fn payload_to_ranked_rows_end_to_end() {
    let text = payload(&[
        chart_entry("entry one", 310, "Master"),
        chart_entry("entry two", 305, "Master"),
        chart_entry("entry three", 310, "Master"),
    ]);
    let parsed = parse_b50_payload(text.as_str()).expect("payload should parse");
    let top = select_top(parsed.charts.dx, 2);
    assert_eq!(top.len(), 2);
    assert_eq!(top[0].title, "entry one");
    assert_eq!(top[1].title, "entry three");
    let rows = Printer::b50_rows(&top);
    assert_eq!(rows.len(), 2);
    assert_eq!(rows[0][0], "1");
    assert_eq!(rows[0][1], "entry one");
    assert_eq!(rows[0][2], "Master");
    assert_eq!(rows[0][3], "13.7");
    assert_eq!(rows[0][4], "100.5");
    assert_eq!(rows[0][5], "310");
    assert_eq!(rows[0][6], "SSS");
    assert_eq!(rows[1][0], "2");
    assert_eq!(rows[1][1], "entry three");
}
