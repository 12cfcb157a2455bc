use engine::data::{InputsGen, InputsRecord, PositionRecord};
use engine::probabilities::Probabilities;

struct LengthInputs;

impl InputsGen<f32> for LengthInputs {
    fn inputs_for_single(&self, position_id: &String) -> Vec<f32> {
        vec![position_id.len() as f32, 1.0]
    }
}

fn probs(wn: u32, wg: u32, ln: u32, lg: u32, denominator: u32) -> Probabilities {
    Probabilities {
        win_normal: wn,
        win_gammon: wg,
        lose_normal: ln,
        lose_gammon: lg,
        denominator,
    }
}

fn record(win: u64, win_g: u32, lose_g: u32, denominator: u32) -> PositionRecord {
    PositionRecord {
        position_id: "4HPwATDgc/ABMA".to_string(),
        win,
        win_g,
        lose_g,
        denominator,
    }
}

#[test]
fn position_record_new_is_compact() {
    let p = probs(40, 10, 30, 20, 100);
    let r = PositionRecord::new("4HPwATDgc/ABMA".to_string(), &p);
    assert_eq!(r.position_id, "4HPwATDgc/ABMA");
    assert_eq!(r.win, 50);
    assert_eq!(r.win_g, 10);
    assert_eq!(r.lose_g, 20);
    assert_eq!(r.denominator, 100);
}

#[test]
fn position_record_round_trip() {
    let p = probs(19, 1, 4, 8, 32);
    let r = PositionRecord::new("jGfkASjg8wcBMA".to_string(), &p);
    assert_eq!(r.expand(), Some(p));
}

#[test]
fn position_record_round_trip_all_lost() {
    let p = probs(0, 0, 3, 0, 3);
    let r = PositionRecord::new(String::new(), &p);
    assert_eq!(r.expand(), Some(p));
}

#[test]
fn expand_rebuilds_plain_results() {
    assert_eq!(record(60, 15, 5, 100).expand(), Some(probs(45, 15, 35, 5, 100)));
}

#[test]
fn expand_rejects_gammons_above_wins() {
    assert_eq!(record(10, 11, 0, 100).expand(), None);
}

#[test]
fn expand_rejects_more_than_one() {
    assert_eq!(record(90, 0, 11, 100).expand(), None);
    assert_eq!(record(101, 0, 0, 100).expand(), None);
}

#[test]
fn expand_rejects_zero_denominator() {
    assert_eq!(record(0, 0, 0, 0).expand(), None);
}

#[test]
fn position_record_csv_header() {
    assert_eq!(PositionRecord::csv_header(), vec!["position_id", "win", "win_g", "lose_g"]);
}

#[test]
fn inputs_record_from_valid_record() {
    let r = record(60, 15, 5, 100);
    let inputs = InputsRecord::new(&r, &LengthInputs).unwrap();
    assert_eq!(inputs.win_normal, 45);
    assert_eq!(inputs.win_gammon, 15);
    assert_eq!(inputs.lose_normal, 35);
    assert_eq!(inputs.lose_gammon, 5);
    assert_eq!(inputs.denominator, 100);
    assert_eq!(inputs.inputs, vec![14.0, 1.0]);
}

#[test]
fn inputs_record_from_invalid_record() {
    let r = record(60, 15, 50, 100);
    assert!(InputsRecord::new(&r, &LengthInputs).is_none());
}
