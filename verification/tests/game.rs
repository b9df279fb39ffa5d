use backgammon::Game;
use backgammon::Player;
use backgammon::roll;
use backgammon::CHECKERS;

#[test]
fn roll_test() {
    let d = roll();
    assert!(d.0 > 0);
    assert!(d.0 < 7);
    assert!(d.1 > 0);
    assert!(d.1 < 7);
}

#[test]
fn roll_test_fair() {
    let mut sum: u32 = 0;

    for _x in 0..1_000_000 {
        let d = roll();
        sum += (d.0 + d.1) as u32;
    }

    let average = (sum as f64) / 2_000_000.;
    assert!(average < 3.51);
    assert!(average > 3.49);
}

#[test]
fn default_game_fields() {
    let g = Game::default();
    assert_eq!(g.points, 3);
    assert_eq!(g.cube, 0);
    assert_eq!(g.cube_owner, Player::Nobody);
    assert_eq!(g.one_plays, true);
    assert_eq!(g.crawford, false);
    assert_eq!(g.since_crawford, 0);
}

#[test]
fn default_board_is_balanced() {
    let g = Game::default();
    let mut net: i32 = 0;
    let mut ones: i32 = 0;
    let mut twos: i32 = 0;
    for slot in g.board.iter() {
        let c = *slot as i32;
        net += c;
        if c > 0 {
            ones += c;
        } else {
            twos -= c;
        }
    }
    assert_eq!(net, 0);
    assert_eq!(ones, 15);
    assert_eq!(twos, 15);
}

#[test]
fn default_board_layout() {
    let g = Game::default();
    let expected: [i8; 26] = [
        2, 0, 0, 0, 0, -5, 0, -3, 0, 0, 0, 5, -5, 0, 0, 0, 3, 0, 5, 0, 0, 0, 0, -2, 0, 0,
    ];
    assert_eq!(g.board, expected);
}

#[test]
fn checkers_constant() {
    assert_eq!(CHECKERS, 25);
}
