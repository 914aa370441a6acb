use flap_2_earn::entity::{collect_pool, drift_pool, refill_pool, Entity, EntityKind};
use flap_2_earn::game::draw_wave;
use flap_2_earn::player::Player;

#[test]
fn drift_takes_each_expired_entity_off_the_count_once() {
    let mut pool = vec![
        Entity::new(EntityKind::Obstacle, 1, 10),
        Entity::new(EntityKind::Obstacle, 5, 10),
        Entity { kind: EntityKind::Obstacle, x: 0, y: 3, active: false },
        Entity::new(EntityKind::Obstacle, 1, 20),
    ];
    let mut active: usize = 3;
    drift_pool(&mut pool, &mut active);
    assert_eq!(active, 1);
    assert!(!pool[0].active);
    assert!(pool[1].active);
    assert_eq!(pool[1].x, 4);
    assert_eq!(pool[2].x, 0);
    assert!(!pool[3].active);
    assert_eq!(pool.len(), 4);
}

#[test]
fn refill_waits_while_an_entity_is_active() {
    let mut pool = vec![Entity::new(EntityKind::Collectible, 30, 10)];
    let mut active: usize = 1;
    refill_pool(&mut pool, &mut active, EntityKind::Collectible, &vec![(85, 4), (90, 7)]);
    assert_eq!(active, 1);
    assert_eq!(pool, vec![Entity::new(EntityKind::Collectible, 30, 10)]);
}

#[test]
fn refill_replaces_an_exhausted_pool_with_the_wave() {
    let mut pool = vec![Entity { kind: EntityKind::Collectible, x: 0, y: 3, active: false }];
    let mut active: usize = 0;
    refill_pool(&mut pool, &mut active, EntityKind::Collectible, &vec![(85, 4), (90, 7)]);
    assert_eq!(active, 2);
    assert_eq!(
        pool,
        vec![
            Entity::new(EntityKind::Collectible, 85, 4),
            Entity::new(EntityKind::Collectible, 90, 7)
        ]
    );
}

#[test]
fn collected_items_go_inactive() {
    let p = Player::new(5, 25);
    let mut pool = vec![
        Entity::new(EntityKind::Collectible, 5, 25),
        Entity::new(EntityKind::Collectible, 40, 25),
        Entity { kind: EntityKind::Collectible, x: 5, y: 26, active: false },
    ];
    let mut active: usize = 2;
    let n = collect_pool(&mut pool, &mut active, &p);
    assert_eq!(n, 1);
    assert_eq!(active, 1);
    assert!(!pool[0].active);
    assert!(pool[1].active);
    assert!(!pool[2].active);
}

#[test]
fn waves_fall_within_their_bands() {
    for _ in 0..50 {
        let w = draw_wave(5);
        assert!(w.len() >= 2 && w.len() < 5);
        for &(x, y) in w.iter() {
            assert!(x >= 80 && x < 100);
            assert!(y >= 1 && y < 49);
        }
        assert!(draw_wave(1).is_empty());
    }
}
