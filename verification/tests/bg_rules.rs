use backgammon::Player;
use backgammon::Rules;
use backgammon::SetRules;

#[test]
fn test_default_rules() {
    let rules = Rules::default();
    assert_eq!(rules.points, 7);
    assert_eq!(rules.beaver, false);
    assert_eq!(rules.raccoon, false);
    assert_eq!(rules.murphy, false);
    assert_eq!(rules.murphy_limit, 0);
    assert_eq!(rules.jacoby, false);
    assert_eq!(rules.crawford, true);
    assert_eq!(rules.holland, false);
}

#[test]
fn test_set_rules() {
    let rules = Rules::default()
        .with_points(5)
        .with_beaver()
        .with_raccoon()
        .with_murphy(3)
        .with_jacoby()
        .with_crawford()
        .with_holland();
    assert_eq!(rules.points, 5);
    assert_eq!(rules.beaver, true);
    assert_eq!(rules.raccoon, true);
    assert_eq!(rules.murphy, true);
    assert_eq!(rules.murphy_limit, 3);
    assert_eq!(rules.jacoby, true);
    assert_eq!(rules.crawford, true);
    assert_eq!(rules.holland, true);
}

#[test]
fn test_with_holland() {
    let rules = Rules::default().with_holland();
    assert_eq!(rules.crawford, true);
}

#[test]
fn test_with_raccoon() {
    let rules = Rules::default().with_raccoon();
    assert_eq!(rules.raccoon, true);
}

#[test]
fn with_raccoon_leaves_rest_at_default() {
    let rules = Rules::default().with_raccoon();
    assert_eq!(rules.points, 7);
    assert_eq!(rules.beaver, false);
    assert_eq!(rules.raccoon, true);
    assert_eq!(rules.murphy, false);
    assert_eq!(rules.murphy_limit, 0);
    assert_eq!(rules.jacoby, false);
    assert_eq!(rules.crawford, true);
    assert_eq!(rules.holland, false);
}

#[test]
fn with_operations_are_idempotent() {
    let once = Rules::default().with_beaver().with_murphy(4);
    let twice = Rules::default().with_beaver().with_beaver().with_murphy(4).with_murphy(4);
    assert_eq!(once, twice);
}

#[test]
fn player_text_is_fixed_per_variant() {
    assert_eq!(Player::Nobody.to_text(), "Nobody");
    assert_eq!(Player::Player1.to_text(), "Player 1");
    assert_eq!(Player::Player2.to_text(), "Player 2");
}

#[test]
fn default_player_is_nobody() {
    assert_eq!(Player::default(), Player::Nobody);
}

#[test]
fn default_rules_text() {
    let rules = Rules::default();
    assert_eq!(
        rules.to_text(),
        "Points: 7, Beaver: false, Raccoon: false, Murphy: false, Murphy Limit: 0, \
         Jacoby: false, Crawford: true, Holland: false"
    );
}

#[test]
fn configured_rules_text() {
    let rules = Rules::default().with_points(123).with_murphy(250).with_holland();
    assert_eq!(
        rules.to_text(),
        "Points: 123, Beaver: false, Raccoon: false, Murphy: true, Murphy Limit: 250, \
         Jacoby: false, Crawford: true, Holland: true"
    );
}
