use feverdream::background::{bg_object_kinds, next_bg_object, BgObject};
use rand::rngs::StdRng;
use rand::SeedableRng;

#[test]
fn next_object_after_rings() {
    assert_eq!(next_bg_object(0, false), BgObject::Ring);
    assert_eq!(next_bg_object(0, true), BgObject::Ring);
    assert_eq!(next_bg_object(1, true), BgObject::Ring);
    assert_eq!(next_bg_object(1, false), BgObject::Planet);
    assert_eq!(next_bg_object(2, true), BgObject::Ring);
    assert_eq!(next_bg_object(3, true), BgObject::Planet);
    assert_eq!(next_bg_object(3, false), BgObject::Planet);
}

#[test]
fn backdrops_keep_their_rules() {
    for seed in 0..50 {
        let mut rng = StdRng::seed_from_u64(seed);
        let kinds = bg_object_kinds(12, &mut rng);
        assert_eq!(kinds.len(), 12);
        assert_eq!(kinds[0], BgObject::Ring);
        for i in 0..11 {
            if kinds[i] == BgObject::Planet {
                assert_eq!(kinds[i + 1], BgObject::Ring);
            }
        }
        for i in 0..9 {
            assert!(!kinds[i..i + 4].iter().all(|k| *k == BgObject::Ring));
        }
    }
    let mut rng = StdRng::seed_from_u64(0);
    assert!(bg_object_kinds(0, &mut rng).is_empty());
}
