use brewing::{leaf_blow_updater, wind_blow, PlayerLeaf, STARTING_GUSTS};

#[test]
fn new_leaf_has_a_thousand_gusts() {
    assert_eq!(STARTING_GUSTS, 1000);
    assert_eq!(PlayerLeaf::new(), PlayerLeaf { gusts_left: 1000 });
}

#[test]
fn click_inside_the_window_spends_one_gust() {
    let mut leaf = PlayerLeaf::new();
    assert!(wind_blow(&mut leaf, true, true));
    assert_eq!(leaf.gusts_left, 999);
}

#[test]
fn click_outside_the_window_spends_nothing() {
    let mut leaf = PlayerLeaf { gusts_left: 12 };
    assert!(!wind_blow(&mut leaf, true, false));
    assert_eq!(leaf.gusts_left, 12);
}

#[test]
fn no_click_spends_nothing() {
    let mut leaf = PlayerLeaf { gusts_left: 12 };
    assert!(!wind_blow(&mut leaf, false, true));
    assert_eq!(leaf.gusts_left, 12);
    assert!(!wind_blow(&mut leaf, false, false));
    assert_eq!(leaf.gusts_left, 12);
}

#[test]
fn last_gust_can_be_spent() {
    let mut leaf = PlayerLeaf { gusts_left: 1 };
    assert!(wind_blow(&mut leaf, true, true));
    assert_eq!(leaf.gusts_left, 0);
}

#[test]
fn spent_leaf_blows_no_more() {
    let mut leaf = PlayerLeaf { gusts_left: 0 };
    assert!(!wind_blow(&mut leaf, true, true));
    assert_eq!(leaf.gusts_left, 0);
}

#[test]
fn a_leaf_fires_exactly_its_supply_of_gusts() {
    let mut leaf = PlayerLeaf::new();
    let mut fired: u32 = 0;
    for _ in 0..1500 {
        if wind_blow(&mut leaf, true, true) {
            fired += 1;
        }
        assert_eq!(leaf.gusts_left, 1000 - fired);
    }
    assert_eq!(fired, 1000);
    assert_eq!(leaf.gusts_left, 0);
}

#[test]
fn full_maximum_count_loses_one() {
    let mut leaf = PlayerLeaf { gusts_left: u32::MAX };
    assert!(wind_blow(&mut leaf, true, true));
    assert_eq!(leaf.gusts_left, u32::MAX - 1);
}

#[test]
fn label_of_a_new_leaf() {
    assert_eq!(leaf_blow_updater(&PlayerLeaf::new()), "1000 Blows Left");
}

#[test]
fn label_of_a_spent_leaf() {
    assert_eq!(
        leaf_blow_updater(&PlayerLeaf { gusts_left: 0 }),
        "0 Blows Left"
    );
}

#[test]
fn label_has_no_leading_zero() {
    assert_eq!(
        leaf_blow_updater(&PlayerLeaf { gusts_left: 9 }),
        "9 Blows Left"
    );
    assert_eq!(
        leaf_blow_updater(&PlayerLeaf { gusts_left: 10 }),
        "10 Blows Left"
    );
    assert_eq!(
        leaf_blow_updater(&PlayerLeaf { gusts_left: 999 }),
        "999 Blows Left"
    );
    assert_eq!(
        leaf_blow_updater(&PlayerLeaf { gusts_left: 1001 }),
        "1001 Blows Left"
    );
}

#[test]
fn label_writes_every_digit() {
    assert_eq!(
        leaf_blow_updater(&PlayerLeaf {
            gusts_left: 1234567890
        }),
        "1234567890 Blows Left"
    );
}

#[test]
fn label_of_the_largest_count() {
    assert_eq!(
        leaf_blow_updater(&PlayerLeaf {
            gusts_left: u32::MAX
        }),
        "4294967295 Blows Left"
    );
}

#[test]
fn label_agrees_with_std_formatting() {
    let mut n: u32 = 0;
    for _ in 0..2000 {
        assert_eq!(
            leaf_blow_updater(&PlayerLeaf { gusts_left: n }),
            format!("{} Blows Left", n)
        );
        n = n.wrapping_mul(31).wrapping_add(7);
    }
}

#[test]
fn label_follows_the_count_down() {
    let mut leaf = PlayerLeaf::new();
    assert!(wind_blow(&mut leaf, true, true));
    assert_eq!(leaf_blow_updater(&leaf), "999 Blows Left");
}
