use quadrant_gen::draws::{DiceSource, ScriptedDice, ThreadDice};
use quadrant_gen::util::{clamp, code, dice};

fn scripted(faces: &[isize]) -> ScriptedDice {
    ScriptedDice::new(faces.to_vec()).unwrap()
}

#[test]
fn clamp_leaves_a_value_inside_the_bounds() {
    assert_eq!(clamp(5, 0, 10), 5);
    assert_eq!(clamp(0, 0, 10), 0);
    assert_eq!(clamp(10, 0, 10), 10);
}

#[test]
fn clamp_raises_a_value_below_the_bounds() {
    assert_eq!(clamp(-5, 0, 10), 0);
    assert_eq!(clamp(1, 2, 11), 2);
}

#[test]
fn clamp_lowers_a_value_above_the_bounds() {
    assert_eq!(clamp(18, 0, 15), 15);
    assert_eq!(clamp(12, 2, 11), 11);
}

#[test]
fn clamp_with_equal_bounds_gives_the_bound() {
    assert_eq!(clamp(-3, 7, 7), 7);
    assert_eq!(clamp(7, 7, 7), 7);
    assert_eq!(clamp(30, 7, 7), 7);
}

#[test]
fn code_gives_upper_case_hexadecimal_digits() {
    let expected = [
        '0', '1', '2', '3', '4', '5', '6', '7', '8', '9', 'A', 'B', 'C', 'D', 'E', 'F',
    ];
    for digit in 0..16 {
        assert_eq!(code(digit as isize), expected[digit]);
    }
}

#[test]
fn scripted_dice_refuse_an_empty_script() {
    assert!(ScriptedDice::new(Vec::new()).is_none());
}

#[test]
fn scripted_dice_refuse_a_value_that_no_die_shows() {
    assert!(ScriptedDice::new(vec![1, 2, 7]).is_none());
    assert!(ScriptedDice::new(vec![0]).is_none());
    assert!(ScriptedDice::new(vec![3, -1]).is_none());
}

#[test]
fn scripted_dice_accept_every_face() {
    assert!(ScriptedDice::new(vec![1, 2, 3, 4, 5, 6]).is_some());
}

#[test]
fn scripted_dice_replay_the_script_in_order_and_start_over() {
    let mut source = scripted(&[2, 5, 3]);
    let drawn: Vec<isize> = (0..7).map(|_| source.draw()).collect();
    assert_eq!(drawn, vec![2, 5, 3, 2, 5, 3, 2]);
}

#[test]
fn scripted_dice_count_their_draws() {
    let mut source = scripted(&[4]);
    assert_eq!(source.draws_taken(), 0);
    source.draw();
    source.draw();
    source.draw();
    assert_eq!(source.draws_taken(), 3);
}

#[test]
fn dice_sums_the_faces_and_adds_the_modifier() {
    let mut source = scripted(&[3, 4, 6]);
    assert_eq!(dice(2, -2, &mut source), 5);
    assert_eq!(source.draws_taken(), 2);
    assert_eq!(dice(1, 0, &mut source), 6);
    assert_eq!(source.draws_taken(), 3);
}

#[test]
fn dice_may_fall_below_zero_or_rise_above_the_faces() {
    let mut source = scripted(&[1]);
    assert_eq!(dice(2, -7, &mut source), -5);
    let mut source = scripted(&[6]);
    assert_eq!(dice(2, 10, &mut source), 22);
}

#[test]
fn dice_without_dice_gives_the_modifier_and_draws_nothing() {
    let mut source = scripted(&[6]);
    assert_eq!(dice(0, 9, &mut source), 9);
    assert_eq!(source.draws_taken(), 0);
}

#[test]
fn thread_dice_show_faces_between_one_and_six() {
    let mut source = ThreadDice::new(rand::thread_rng());
    let mut seen = [false; 7];
    for _ in 0..2000 {
        let face = source.draw();
        assert!((1..=6).contains(&face));
        seen[face as usize] = true;
    }
    assert!(seen[1..].iter().all(|&shown| shown));
}

#[test]
fn thread_dice_roll_two_dice_between_two_and_twelve() {
    let mut source = ThreadDice::new(rand::thread_rng());
    for _ in 0..500 {
        let throw = dice(2, 0, &mut source);
        assert!((2..=12).contains(&throw));
    }
}
