use gunday::death_blink::{BlinkAlpha, DeathBlink};
use gunday::effects::{frame_count, Explosion, ExplosionFrame, ExplosionKind};

#[test]
fn frame_counts_per_kind() {
    assert_eq!(frame_count(ExplosionKind::A), 7);
    assert_eq!(frame_count(ExplosionKind::B), 7);
    assert_eq!(frame_count(ExplosionKind::C), 10);
    assert_eq!(frame_count(ExplosionKind::D), 16);
}

#[test]
fn explosion_plays_every_frame_then_despawns() {
    for kind in [ExplosionKind::A, ExplosionKind::B, ExplosionKind::C, ExplosionKind::D] {
        let mut e = Explosion::new(kind);
        assert_eq!(e.frame, 0);
        let count = frame_count(kind);
        for i in 0..count {
            assert_eq!(e.advance(), ExplosionFrame::Show(i));
        }
        assert_eq!(e.advance(), ExplosionFrame::Despawn);
        assert_eq!(e.frame, count + 1);
    }
}

#[test]
fn blink_toggles_then_stays_opaque() {
    let mut blink = DeathBlink::new(6);
    assert!(blink.is_blinking());
    let mut opaque = true;
    for _ in 0..6 {
        assert_eq!(blink.step(false, opaque), None);
        let set = blink.step(true, opaque).unwrap();
        opaque = set == BlinkAlpha::Opaque;
    }
    assert!(opaque);
    assert_eq!(blink.toggles_left, 0);
    assert_eq!(blink.toggles_total, 6);
    assert!(!blink.is_blinking());
    assert_eq!(blink.step(false, false), Some(BlinkAlpha::Opaque));
    assert_eq!(blink.step(true, true), Some(BlinkAlpha::Opaque));
}

#[test]
fn blink_dims_an_opaque_sprite_first() {
    let mut blink = DeathBlink::new(2);
    assert_eq!(blink.step(true, true), Some(BlinkAlpha::Dim));
    assert_eq!(blink.step(true, false), Some(BlinkAlpha::Opaque));
    assert_eq!(blink.toggles_left, 0);
}
