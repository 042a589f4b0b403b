use maimai_search::console::render_console_table;
use maimai_search::printer::Printer;
use maimai_search::song::ChartDetail;
use maimai_search::song::ChartFamily;
use maimai_search::song::Song;

fn song(id: u32, title: &str, family: ChartFamily, ds: Vec<&str>, level: Vec<&str>) -> Song {
    Song {
        id,
        title: String::from(title),
        song_type: family,
        genre: String::from("niconico"),
        bpm: 190,
        artist: String::from("somebody"),
        ds: ds.into_iter().map(String::from).collect(),
        level: level.into_iter().map(String::from).collect(),
        charts: Vec::new(),
    }
}

#[test]
fn empty_batch_has_no_difficulty_columns_and_no_rows() {
    let songs: Vec<Song> = Vec::new();
    let layout = Printer::layout(&songs);
    assert_eq!(layout.difficulty_columns, 0);
    assert!(!layout.needs_touch);
    let header = Printer::songs_info_header(&songs);
    assert_eq!(header.len(), 4);
    let rows = Printer::songs_info_rows(&songs);
    assert!(rows.is_empty());
}

#[test]
fn mixed_tier_batch_uses_widest_layout_with_empty_cells() {
    let four = song(
        1,
        "four tiers",
        ChartFamily::Standard,
        vec!["7", "9.2", "11.4", "12.9"],
        vec!["7", "9", "11", "12+"],
    );
    let five = song(
        2,
        "five tiers",
        ChartFamily::DeluxeTouch,
        vec!["7", "9.2", "11.4", "12.9", "14.1"],
        vec!["7", "9", "11", "12+", "14"],
    );
    let songs = vec![four, five];
    let layout = Printer::layout(&songs);
    assert_eq!(layout.difficulty_columns, 5);
    assert!(layout.needs_touch);
    let header = Printer::songs_info_header(&songs);
    assert_eq!(header.len(), 9);
    assert_eq!(header[4], "BASIC");
    assert_eq!(header[8], "Re:MASTER");
    let rows = Printer::songs_info_rows(&songs);
    assert_eq!(rows.len(), 2);
    assert_eq!(rows[0].len(), 9);
    assert_eq!(rows[1].len(), 9);
    assert_eq!(rows[0][8], "");
    assert_eq!(rows[1][8], "14(.1)");
    assert_eq!(rows[0][1], "[SD]four tiers");
    assert_eq!(rows[1][1], "[DX]five tiers");
}

#[test]
fn level_label_decimal_rule() {
    assert_eq!(Printer::get_level_str("13.0", "13"), "13(.0)");
    assert_eq!(Printer::get_level_str("13", "13"), "13(.0)");
    assert_eq!(Printer::get_level_str("13.7", "13+"), "13+(.7)");
}

#[test]
fn chart_detail_total_is_exact_note_sum() {
    let mut s = song(
        3,
        "detailed",
        ChartFamily::DeluxeTouch,
        vec!["13.7"],
        vec!["13+"],
    );
    s.charts = vec![ChartDetail {
        notes: vec![100, 200, 50, 30, 25],
        charter: String::from("charter one"),
    }];
    let rows = Printer::chart_info_rows(&s);
    assert_eq!(rows.len(), 1);
    assert_eq!(rows[0][0], "BASIC");
    assert_eq!(rows[0][1], "13+");
    assert_eq!(rows[0][2], "405");
    assert_eq!(rows[0][3], "100");
    assert_eq!(rows[0][7], "25");
    assert_eq!(rows[0][8], "charter one");
}

#[test]
fn chart_header_touch_column() {
    let dx = Printer::chart_info_header(ChartFamily::DeluxeTouch);
    assert_eq!(dx.len(), 9);
    assert_eq!(dx[6], "TOUCH");
    assert_eq!(dx[7], "BREAK");
    let sd = Printer::chart_info_header(ChartFamily::Standard);
    assert_eq!(sd.len(), 8);
    assert_eq!(sd[6], "BREAK");
}

#[test]
fn detail_row_pads_id_to_five() {
    let s = song(42, "padded", ChartFamily::Standard, vec!["7"], vec!["7"]);
    let row = Printer::song_detail_row(&s);
    assert_eq!(row.len(), 6);
    assert_eq!(row[0], "   42");
    assert_eq!(row[1], "padded");
    assert_eq!(row[2], "SD");
    assert_eq!(row[4], "190");
}

#[test]
fn groups_keep_first_appearance_and_input_order() {
    let a1 = song(1, "same title", ChartFamily::Standard, vec!["7"], vec!["7"]);
    let b = song(2, "other", ChartFamily::Standard, vec!["8"], vec!["8"]);
    let a2 = song(3, "same title", ChartFamily::DeluxeTouch, vec!["9"], vec!["9"]);
    let groups = Printer::group_by_title(vec![a1, b, a2]);
    assert_eq!(groups.len(), 2);
    assert_eq!(groups[0].len(), 2);
    assert_eq!(groups[0][0].id, 1);
    assert_eq!(groups[0][1].id, 3);
    assert_eq!(groups[1].len(), 1);
    assert_eq!(groups[1][0].id, 2);
}

#[test]
fn console_render_carries_shaped_cells() {
    let s = song(
        7,
        "console song",
        ChartFamily::DeluxeTouch,
        vec!["13.0"],
        vec!["13"],
    );
    let songs = vec![s];
    let header = Printer::songs_info_header(&songs);
    let rows = Printer::songs_info_rows(&songs);
    let text = render_console_table(&header, &rows);
    assert!(text.contains("[DX]console song"));
    assert!(text.contains("13(.0)"));
    assert!(text.contains("BASIC"));
    assert!(text.contains("niconico"));
}
