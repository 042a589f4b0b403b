use maimai_search::ranking::select_top;
use maimai_search::song::ChartFamily;
use maimai_search::user_data::ChartInfoResponse;
use maimai_search::user_data::ChartRate;
use maimai_search::user_data::FullComboTier;
use maimai_search::user_data::FullSyncTier;
use maimai_search::user_data::LevelLabel;

fn rec(title: &str, ra: i32) -> ChartInfoResponse {
    ChartInfoResponse {
        achievements: String::from("100.5"),
        ds: String::from("13.7"),
        dx_score: 2000,
        fc: FullComboTier::Fc,
        fs: FullSyncTier::NoFs,
        level: String::from("13+"),
        level_index: 3,
        level_label: LevelLabel::Master,
        ra,
        rate: ChartRate::SSS,
        song_id: 11571,
        title: String::from(title),
        song_type: ChartFamily::DeluxeTouch,
    }
}

#[test]
fn select_top_breaks_ties_by_input_order() {
    let records = vec![rec("first", 310), rec("second", 305), rec("third", 310)];
    let top = select_top(records, 2);
    assert_eq!(top.len(), 2);
    assert_eq!(top[0].title, "first");
    assert_eq!(top[0].ra, 310);
    assert_eq!(top[1].title, "third");
    assert_eq!(top[1].ra, 310);
}

#[test]
fn select_top_large_n_returns_all_ranked() {
    let records = vec![rec("first", 310), rec("second", 305), rec("third", 310)];
    let top = select_top(records, 10);
    assert_eq!(top.len(), 3);
    assert_eq!(top[0].title, "first");
    assert_eq!(top[1].title, "third");
    assert_eq!(top[2].title, "second");
}

#[test]
fn select_top_zero_returns_empty() {
    let records = vec![rec("first", 310), rec("second", 305)];
    let top = select_top(records, 0);
    assert!(top.is_empty());
}

#[test]
fn select_top_orders_by_rating_descending() {
    let records = vec![rec("low", 100), rec("high", 320), rec("mid", 250)];
    let top = select_top(records, 3);
    assert_eq!(top[0].title, "high");
    assert_eq!(top[1].title, "mid");
    assert_eq!(top[2].title, "low");
}

#[test]
fn select_top_on_empty_input() {
    let top = select_top(Vec::new(), 5);
    assert!(top.is_empty());
}
