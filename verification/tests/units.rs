use maimai_search::command::ChartLevel;
use maimai_search::textfmt::i64_string;
use maimai_search::textfmt::str_eq;
use maimai_search::textfmt::u64_string;
use maimai_search::user_data::ChartRate;
use maimai_search::user_data::LevelLabel;

#[test]
fn chart_level_indexes_the_five_tiers() {
    assert_eq!(ChartLevel::BSC.get_index(), 0);
    assert_eq!(ChartLevel::ADV.get_index(), 1);
    assert_eq!(ChartLevel::EXP.get_index(), 2);
    assert_eq!(ChartLevel::MST.get_index(), 3);
    assert_eq!(ChartLevel::REM.get_index(), 4);
}

#[test]
fn decimal_rendering() {
    assert_eq!(u64_string(0), "0");
    assert_eq!(u64_string(10), "10");
    assert_eq!(u64_string(11571), "11571");
    assert_eq!(i64_string(-42), "-42");
    assert_eq!(i64_string(310), "310");
}

#[test]
fn string_equality_by_characters() {
    assert!(str_eq("Re:MASTER", "Re:MASTER"));
    assert!(!str_eq("Master", "MASTER"));
    assert!(str_eq("", ""));
    assert!(str_eq("乐曲", "乐曲"));
    assert!(!str_eq("乐曲", "乐"));
}

#[test]
fn wire_vocabularies_are_closed() {
    assert_eq!(LevelLabel::from_wire("Re:MASTER"), Some(LevelLabel::ReMaster));
    assert_eq!(LevelLabel::from_wire("ReMaster"), None);
    assert_eq!(ChartRate::from_wire("sssp"), Some(ChartRate::SSSP));
    assert_eq!(ChartRate::from_wire("SSS"), None);
    assert_eq!(ChartRate::SSSP.display_str(), "SSS+");
    assert_eq!(LevelLabel::Master.tier_index(), 3);
    assert!(ChartRate::D.grade_index() < ChartRate::SSSP.grade_index());
    assert_eq!(ChartRate::S.grade_index(), 8);
}
