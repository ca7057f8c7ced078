use platformer::particles::Particle;
use platformer::particles::ParticleKind;
use platformer::particles::Particles;
use platformer::particles::GRAVITY;
use platformer::particles::MAX_FALL_SPEED;
use platformer::units::Rect;
use platformer::units::Vec2;
use platformer::units::WORLD_LIMIT;

const PX: i64 = 1_000_000;

fn at(x: i64, y: i64) -> Vec2 {
    Vec2 { x, y }
}

fn corner_of(p: &Particle) -> usize {
    match p.kind {
        ParticleKind::BrokenTile { corner } => corner,
    }
}

#[test]
fn default_is_empty() {
    let particles = Particles::default();
    assert!(particles.particles().is_empty());
}

#[test]
fn gravity_constants() {
    assert_eq!(GRAVITY, 1100 * PX);
    assert_eq!(MAX_FALL_SPEED, 500 * PX);
}

#[test]
fn fragment_of_each_corner() {
    let origin = at(32 * PX, 128 * PX);
    let top_left = Particle::fragment(0, origin, 100 * PX, 160 * PX);
    assert_eq!(top_left.pos, at(31 * PX, 127 * PX));
    assert_eq!(top_left.vel, at(-100 * PX, -160 * PX));
    assert_eq!(top_left.kind, ParticleKind::BrokenTile { corner: 0 });
    let top_right = Particle::fragment(1, origin, 100 * PX, 160 * PX);
    assert_eq!(top_right.pos, at(38 * PX, 127 * PX));
    assert_eq!(top_right.vel, at(100 * PX, -160 * PX));
    assert_eq!(top_right.kind, ParticleKind::BrokenTile { corner: 1 });
    let bottom_left = Particle::fragment(2, origin, 70 * PX, 120 * PX);
    assert_eq!(bottom_left.pos, at(31 * PX, 134 * PX));
    assert_eq!(bottom_left.vel, at(-70 * PX, -120 * PX));
    assert_eq!(bottom_left.kind, ParticleKind::BrokenTile { corner: 2 });
    let bottom_right = Particle::fragment(3, origin, 70 * PX, 120 * PX);
    assert_eq!(bottom_right.pos, at(38 * PX, 134 * PX));
    assert_eq!(bottom_right.vel, at(70 * PX, -120 * PX));
    assert_eq!(bottom_right.kind, ParticleKind::BrokenTile { corner: 3 });
}

#[test]
fn fragment_at_the_edge_of_the_world_stays_inside() {
    let p = Particle::fragment(3, at(WORLD_LIMIT, i64::MAX), 1, 1);
    assert_eq!(p.pos, at(WORLD_LIMIT, WORLD_LIMIT));
    let q = Particle::fragment(0, at(-WORLD_LIMIT, i64::MIN), 1, 1);
    assert_eq!(q.pos, at(-WORLD_LIMIT, -WORLD_LIMIT));
}

#[test]
fn break_tile_adds_four_fragments_in_corner_order() {
    let mut particles = Particles::default();
    let origin = at(32 * PX, 128 * PX);
    particles.break_tile(origin);
    let all = particles.particles();
    assert_eq!(all.len(), 4);
    let offsets = [(-PX, -PX), (6 * PX, -PX), (-PX, 6 * PX), (6 * PX, 6 * PX)];
    for corner in 0..4 {
        assert_eq!(corner_of(&all[corner]), corner);
        assert_eq!(all[corner].pos, at(origin.x + offsets[corner].0, origin.y + offsets[corner].1));
    }
}

#[test]
fn break_tile_launches_within_the_ranges() {
    let mut particles = Particles::default();
    for _ in 0..50 {
        particles.break_tile(at(0, 0));
    }
    let all = particles.particles();
    assert_eq!(all.len(), 200);
    for (i, p) in all.iter().enumerate() {
        let corner = i % 4;
        assert_eq!(corner_of(p), corner);
        let (sx, sy) = (p.vel.x.abs(), -p.vel.y);
        if corner < 2 {
            assert!(90 * PX <= sx && sx <= 130 * PX);
            assert!(150 * PX <= sy && sy <= 180 * PX);
        } else {
            assert!(60 * PX <= sx && sx <= 80 * PX);
            assert!(100 * PX <= sy && sy <= 150 * PX);
        }
        if corner % 2 == 0 {
            assert!(p.vel.x < 0);
        } else {
            assert!(p.vel.x > 0);
        }
    }
}

#[test]
fn break_tile_draws_fresh_speeds() {
    let mut particles = Particles::default();
    for _ in 0..16 {
        particles.break_tile(at(0, 0));
    }
    let all = particles.particles();
    let first = all[0].vel;
    // the sixteen top-left fragments do not all leave alike, and not all at
    // either end of their range
    assert!(all.iter().step_by(4).any(|p| p.vel != first));
    assert!(all.iter().step_by(4).any(|p| p.vel.x != -90 * PX));
    assert!(all.iter().step_by(4).any(|p| p.vel.x != -130 * PX));
    assert!(all.iter().step_by(4).any(|p| p.vel.y != -150 * PX));
}

#[test]
fn break_tile_keeps_older_particles() {
    let mut particles = Particles::default();
    particles.break_tile(at(0, 0));
    let before: Vec<Particle> = particles.particles().clone();
    particles.break_tile(at(16 * PX, 0));
    let after = particles.particles();
    assert_eq!(after.len(), 8);
    assert_eq!(&after[..4], &before[..]);
    assert_eq!(after[4].pos, at(15 * PX, -PX));
}

#[test]
fn particle_moves_then_accelerates() {
    let mut p = Particle::fragment(1, at(0, 0), 100 * PX, 160 * PX);
    p.update(10_000);
    // moved by the old velocity over a hundredth of a second
    assert_eq!(p.pos, at(6 * PX + PX, -PX - 1_600_000));
    assert_eq!(p.vel, at(100 * PX, -160 * PX + 11 * PX));
    assert_eq!(p.kind, ParticleKind::BrokenTile { corner: 1 });
}

#[test]
fn particle_fall_speed_is_capped() {
    let mut p = Particle {
        pos: at(0, 0),
        vel: at(-5 * PX, 495 * PX),
        kind: ParticleKind::BrokenTile { corner: 2 },
    };
    p.update(10_000);
    assert_eq!(p.vel, at(-5 * PX, 500 * PX));
    assert_eq!(p.pos, at(-50_000, 4_950_000));
    p.update(1_000_000);
    assert_eq!(p.vel, at(-5 * PX, 500 * PX));
    assert_eq!(p.pos, at(-5_050_000, 504_950_000));
}

#[test]
fn particle_with_zero_delta_stays() {
    let mut p = Particle::fragment(0, at(0, 0), 100 * PX, 160 * PX);
    let before = p;
    p.update(0);
    assert_eq!(p, before);
}

#[test]
fn particle_stops_at_the_edge_of_the_world() {
    let mut p = Particle {
        pos: at(WORLD_LIMIT - 1, WORLD_LIMIT - 1),
        vel: at(100 * PX, 500 * PX),
        kind: ParticleKind::BrokenTile { corner: 3 },
    };
    p.update(1_000_000);
    assert_eq!(p.pos, at(WORLD_LIMIT, WORLD_LIMIT));
}

#[test]
fn particles_update_advances_every_particle() {
    let mut particles = Particles::default();
    particles.break_tile(at(0, 0));
    particles.break_tile(at(160 * PX, 0));
    let before: Vec<Particle> = particles.particles().clone();
    particles.update(16_667);
    let after = particles.particles();
    assert_eq!(after.len(), 8);
    for i in 0..8 {
        let mut expected = before[i];
        expected.update(16_667);
        assert_eq!(after[i], expected);
        assert_eq!(after[i].vel.x, before[i].vel.x);
        assert_eq!(after[i].vel.y, before[i].vel.y + 18_333_700);
    }
}

#[test]
fn fragment_pictures_lie_in_two_rows_of_two() {
    let size = 11 * PX;
    for corner in 0..4usize {
        let p = Particle::fragment(corner, at(0, 0), 100 * PX, 160 * PX);
        let expected = Rect {
            x: (corner as i64 % 2) * size,
            y: (corner as i64 / 2) * size,
            w: size,
            h: size,
        };
        assert_eq!(p.source_rect(), expected);
    }
    let last = Particle::fragment(3, at(0, 0), 1, 1).source_rect();
    assert_eq!(last, Rect { x: 11 * PX, y: 11 * PX, w: 11 * PX, h: 11 * PX });
}
