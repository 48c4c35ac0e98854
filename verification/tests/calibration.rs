use sven_esp32::calibration::{
    EXTRA_MM_PER_SECOND, MAX_HEIGHT_MM, MIN_HEIGHT_MM, MS_TO_MM, POSITIONS_MM, POS_THRESH,
};
use sven_esp32::sven_state::{SvenPosition, SvenState};

fn at(height_mm: u32) -> SvenState {
    SvenState { height_mm, position: SvenPosition::Custom }
}

#[test]
fn travel_limits_are_bottom_and_top() {
    assert_eq!(MIN_HEIGHT_MM, 622);
    assert_eq!(MAX_HEIGHT_MM, 1274);
    assert_eq!(SvenState::get_position_mm(SvenPosition::Bottom), MIN_HEIGHT_MM);
    assert_eq!(SvenState::get_position_mm(SvenPosition::Top), MAX_HEIGHT_MM);
}

#[test]
fn named_heights() {
    assert_eq!(SvenState::get_position_mm(SvenPosition::Bottom), 622);
    assert_eq!(SvenState::get_position_mm(SvenPosition::Armrest), 750);
    assert_eq!(SvenState::get_position_mm(SvenPosition::AboveArmrest), 795);
    assert_eq!(SvenState::get_position_mm(SvenPosition::Standing), 1140);
    assert_eq!(SvenState::get_position_mm(SvenPosition::Top), 1274);
}

#[test]
fn custom_has_the_lowest_height() {
    assert_eq!(SvenState::get_position_mm(SvenPosition::Custom), 622);
}

#[test]
fn named_heights_rise() {
    assert_eq!(POSITIONS_MM.len(), 5);
    for row in 1..POSITIONS_MM.len() {
        assert!(POSITIONS_MM[row - 1].1 < POSITIONS_MM[row].1);
    }
    assert_eq!(POSITIONS_MM[0].0, SvenPosition::Bottom);
    assert_eq!(POSITIONS_MM[4].0, SvenPosition::Top);
}

#[test]
fn measured_rows_rise_in_both_columns() {
    assert_eq!(MS_TO_MM.len(), 10);
    for row in 0..MS_TO_MM.len() {
        assert_eq!(MS_TO_MM[row].0, 1000 * (row as u32 + 1));
    }
    for row in 1..MS_TO_MM.len() {
        assert!(MS_TO_MM[row - 1].0 < MS_TO_MM[row].0);
        assert!(MS_TO_MM[row - 1].1 < MS_TO_MM[row].1);
    }
}

#[test]
fn displacement_of_each_measured_second() {
    let expected = [9, 48, 82, 119, 160, 194, 234, 272, 310, 347];
    for second in 1..=10u32 {
        assert_eq!(SvenState::get_duration_mm(second * 1000), expected[second as usize - 1]);
    }
}

#[test]
fn displacement_counts_whole_seconds_only() {
    assert_eq!(SvenState::get_duration_mm(1999), 9);
    assert_eq!(SvenState::get_duration_mm(2000), 48);
    assert_eq!(SvenState::get_duration_mm(4300), 119);
    assert_eq!(SvenState::get_duration_mm(10999), 347);
}

#[test]
fn displacement_below_one_second_is_zero() {
    assert_eq!(SvenState::get_duration_mm(0), 0);
    assert_eq!(SvenState::get_duration_mm(1), 0);
    assert_eq!(SvenState::get_duration_mm(999), 0);
}

#[test]
fn displacement_beyond_the_table_is_extrapolated() {
    assert_eq!(EXTRA_MM_PER_SECOND, 38);
    assert_eq!(SvenState::get_duration_mm(11000), 347 + 38);
    assert_eq!(SvenState::get_duration_mm(11999), 385);
    assert_eq!(SvenState::get_duration_mm(16000), 347 + 38 * 6);
    assert_eq!(SvenState::get_duration_mm(20000), 727);
    assert_eq!(SvenState::get_duration_mm(u32::MAX), 347 + 38 * (4294967 - 10));
}

#[test]
fn displacement_never_falls_as_the_pulse_grows() {
    let mut previous = SvenState::get_duration_mm(0);
    let mut ms = 0u32;
    while ms <= 30000 {
        let current = SvenState::get_duration_mm(ms);
        assert!(previous <= current, "falls at {} ms", ms);
        previous = current;
        ms += 250;
    }
    assert!(SvenState::get_duration_mm(30000) <= SvenState::get_duration_mm(u32::MAX));
}

#[test]
fn position_at_each_named_height() {
    assert_eq!(at(622).get_position_from_height(), SvenPosition::Bottom);
    assert_eq!(at(750).get_position_from_height(), SvenPosition::Armrest);
    assert_eq!(at(795).get_position_from_height(), SvenPosition::AboveArmrest);
    assert_eq!(at(1140).get_position_from_height(), SvenPosition::Standing);
    assert_eq!(at(1274).get_position_from_height(), SvenPosition::Top);
}

#[test]
fn position_within_tolerance() {
    assert_eq!(POS_THRESH, 5);
    assert_eq!(at(746).get_position_from_height(), SvenPosition::Armrest);
    assert_eq!(at(754).get_position_from_height(), SvenPosition::Armrest);
    assert_eq!(at(618).get_position_from_height(), SvenPosition::Bottom);
    assert_eq!(at(1278).get_position_from_height(), SvenPosition::Top);
}

#[test]
fn position_at_the_edge_of_tolerance() {
    assert_eq!(at(745).get_position_from_height(), SvenPosition::Armrest);
    assert_eq!(at(755).get_position_from_height(), SvenPosition::Armrest);
    assert_eq!(at(617).get_position_from_height(), SvenPosition::Bottom);
    assert_eq!(at(627).get_position_from_height(), SvenPosition::Bottom);
    assert_eq!(at(790).get_position_from_height(), SvenPosition::AboveArmrest);
    assert_eq!(at(800).get_position_from_height(), SvenPosition::AboveArmrest);
    assert_eq!(at(1135).get_position_from_height(), SvenPosition::Standing);
    assert_eq!(at(1145).get_position_from_height(), SvenPosition::Standing);
    assert_eq!(at(1269).get_position_from_height(), SvenPosition::Top);
    assert_eq!(at(1279).get_position_from_height(), SvenPosition::Top);
}

#[test]
fn position_just_beyond_the_tolerance_is_custom() {
    assert_eq!(at(744).get_position_from_height(), SvenPosition::Custom);
    assert_eq!(at(756).get_position_from_height(), SvenPosition::Custom);
    assert_eq!(at(616).get_position_from_height(), SvenPosition::Custom);
    assert_eq!(at(628).get_position_from_height(), SvenPosition::Custom);
    assert_eq!(at(789).get_position_from_height(), SvenPosition::Custom);
    assert_eq!(at(801).get_position_from_height(), SvenPosition::Custom);
    assert_eq!(at(1134).get_position_from_height(), SvenPosition::Custom);
    assert_eq!(at(1146).get_position_from_height(), SvenPosition::Custom);
    assert_eq!(at(1268).get_position_from_height(), SvenPosition::Custom);
    assert_eq!(at(1280).get_position_from_height(), SvenPosition::Custom);
}

#[test]
fn position_away_from_every_named_height_is_custom() {
    assert_eq!(at(0).get_position_from_height(), SvenPosition::Custom);
    assert_eq!(at(700).get_position_from_height(), SvenPosition::Custom);
    assert_eq!(at(841).get_position_from_height(), SvenPosition::Custom);
    assert_eq!(at(u32::MAX).get_position_from_height(), SvenPosition::Custom);
}

#[test]
fn longest_fitting_pulse() {
    assert_eq!(SvenState::longest_fitting(0), None);
    assert_eq!(SvenState::longest_fitting(8), None);
    assert_eq!(SvenState::longest_fitting(9), Some((1000, 9)));
    assert_eq!(SvenState::longest_fitting(47), Some((1000, 9)));
    assert_eq!(SvenState::longest_fitting(48), Some((2000, 48)));
    assert_eq!(SvenState::longest_fitting(100), Some((3000, 82)));
    assert_eq!(SvenState::longest_fitting(346), Some((9000, 310)));
    assert_eq!(SvenState::longest_fitting(347), Some((10000, 347)));
    assert_eq!(SvenState::longest_fitting(u32::MAX), Some((10000, 347)));
}
