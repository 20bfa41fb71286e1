//! Fixture tests for the strength rule tables.

use character_sheet::character_model::StrengthPercentile;
use character_sheet::common::CharError;

fn sp(strength: i32, per: Option<i32>) -> StrengthPercentile {
    StrengthPercentile {
        strength,
        per,
        err: None,
    }
}

#[test]
fn strength_18_sub_band_fixtures() {
    // (percentile, hit adj, damage adj, weight allowance, max press)
    let rows: [(i32, i32, i32, i32, i32); 9] = [
        (1, 1, 3, 135, 280),
        (50, 1, 3, 135, 280),
        (51, 2, 3, 160, 305),
        (75, 2, 3, 160, 305),
        (76, 2, 4, 185, 330),
        (90, 2, 4, 185, 330),
        (91, 2, 5, 235, 380),
        (99, 2, 5, 235, 380),
        (100, 3, 6, 335, 480),
    ];
    for (p, hit, dmg, wt, press) in rows {
        let s = sp(18, Some(p));
        assert_eq!(s.hit_adj(), Ok(hit));
        assert_eq!(s.damage_adj(), Ok(dmg));
        assert_eq!(s.weight_allow(), Ok(wt));
        assert_eq!(s.max_press(), Ok(press));
        assert_eq!(s.open_doors(), Ok(press));
    }
}

#[test]
fn strength_18_absent_percentile_defaults() {
    let s = sp(18, None);
    assert_eq!(s.hit_adj(), Ok(1));
    assert_eq!(s.damage_adj(), Ok(2));
    assert_eq!(s.weight_allow(), Ok(110));
    assert_eq!(s.max_press(), Ok(255));
    assert_eq!(s.open_doors(), Ok(255));
}

#[test]
fn strength_band_fixtures() {
    // (strength, hit adj, damage adj, weight allowance, max press)
    let rows: [(i32, i32, i32, i32, i32); 24] = [
        (1, -5, -4, 1, 3),
        (2, -3, -2, 1, 5),
        (3, -3, -1, 5, 10),
        (4, -2, -1, 10, 25),
        (5, -2, -1, 10, 25),
        (6, -1, 0, 20, 55),
        (7, -1, 0, 20, 55),
        (8, 0, 0, 35, 90),
        (9, 0, 0, 35, 90),
        (10, 0, 0, 40, 115),
        (11, 0, 0, 40, 115),
        (12, 0, 0, 45, 140),
        (13, 0, 0, 45, 140),
        (14, 0, 0, 55, 170),
        (15, 0, 0, 55, 170),
        (16, 0, 1, 70, 195),
        (17, 1, 1, 85, 220),
        (19, 3, 7, 485, 640),
        (20, 3, 8, 535, 700),
        (21, 4, 9, 635, 810),
        (22, 4, 10, 785, 970),
        (23, 5, 11, 935, 1130),
        (24, 6, 12, 1235, 1440),
        (25, 7, 14, 1535, 1750),
    ];
    // away from 18 the percentile is ignored, present, absent or out of range
    let percentiles: [Option<i32>; 4] = [None, Some(1), Some(100), Some(0)];
    for (st, hit, dmg, wt, press) in rows {
        for per in percentiles {
            let s = sp(st, per);
            assert_eq!(s.hit_adj(), Ok(hit));
            assert_eq!(s.damage_adj(), Ok(dmg));
            assert_eq!(s.weight_allow(), Ok(wt));
            assert_eq!(s.max_press(), Ok(press));
            assert_eq!(s.open_doors(), Ok(press));
        }
    }
}

#[test]
fn out_of_range_strength_fails_every_lookup() {
    for st in [-3, 0, 26, 100, i32::MIN, i32::MAX] {
        for per in [None, Some(50)] {
            let s = sp(st, per);
            assert_eq!(s.hit_adj(), Err(CharError::InvalidStrength(st)));
            assert_eq!(s.damage_adj(), Err(CharError::InvalidStrength(st)));
            assert_eq!(s.weight_allow(), Err(CharError::InvalidStrength(st)));
            assert_eq!(s.max_press(), Err(CharError::InvalidStrength(st)));
            assert_eq!(s.open_doors(), Err(CharError::InvalidStrength(st)));
        }
    }
}

#[test]
fn out_of_range_percentile_fails_every_lookup_at_18() {
    for p in [0, 101, -1, 1000] {
        let s = sp(18, Some(p));
        assert_eq!(s.hit_adj(), Err(CharError::InvalidPercentile(Some(p))));
        assert_eq!(s.damage_adj(), Err(CharError::InvalidPercentile(Some(p))));
        assert_eq!(s.weight_allow(), Err(CharError::InvalidPercentile(Some(p))));
        assert_eq!(s.max_press(), Err(CharError::InvalidPercentile(Some(p))));
        assert_eq!(s.open_doors(), Err(CharError::InvalidPercentile(Some(p))));
    }
}
