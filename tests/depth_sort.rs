use splatter::sort::{cpu_depth_sort, cull_entries, retained, sort_entries, ClipPosition};

const TOLERANCE: f32 = 1.2;

fn clip(x: f32, y: f32, z: f32) -> ClipPosition {
    ClipPosition { x: x.to_bits(), y: y.to_bits(), z: z.to_bits() }
}

/// Camera at the origin looking down -z, vertical field of view of 90 degrees,
/// square viewport, near 1 and far 1000, depth mapped to [0, 1].
fn project(p: [f32; 3]) -> ClipPosition {
    let (near, far) = (1.0f32, 1000.0f32);
    let w = -p[2];
    let z = (far / (far - near)) * (w - near) / w;
    clip(p[0] / w, p[1] / w, z)
}

fn kept(p: ClipPosition) -> bool {
    retained(&p, TOLERANCE.to_bits())
}

fn float_rule(x: f32, y: f32, z: f32) -> bool {
    x.abs() < TOLERANCE && y.abs() < TOLERANCE && (z - 0.5).abs() < 0.5
}

#[test]
fn three_splats_forward_camera() {
    let clips: Vec<ClipPosition> =
        [[0.0, 0.0, -5.0], [0.0, 0.0, -10.0], [1000.0, 1000.0, -5.0]].iter().map(|p| project(*p)).collect();
    let r = cpu_depth_sort(&clips, TOLERANCE.to_bits());
    let order: Vec<u32> = r.iter().map(|e| e.1).collect();
    // ascending depth key: the nearer splat comes first
    assert_eq!(order, vec![0, 1]);
    assert_eq!(r[0].0, clips[0].z);
    assert_eq!(r[1].0, clips[1].z);
}

#[test]
fn culling_at_tolerance_boundary() {
    let t = TOLERANCE;
    let below = f32::from_bits(t.to_bits() - 1);
    let above = f32::from_bits(t.to_bits() + 1);
    assert!(!kept(clip(t, 0.0, 0.5)));
    assert!(!kept(clip(-t, 0.0, 0.5)));
    assert!(!kept(clip(0.0, t, 0.5)));
    assert!(!kept(clip(0.0, -t, 0.5)));
    assert!(!kept(clip(above, 0.0, 0.5)));
    assert!(kept(clip(below, 0.0, 0.5)));
    assert!(kept(clip(-below, -below, 0.5)));
    assert!(!kept(clip(f32::NAN, 0.0, 0.5)));
    assert!(!kept(clip(0.0, f32::INFINITY, 0.5)));
}

#[test]
fn culling_at_depth_boundary() {
    let just_below_one = f32::from_bits(1.0f32.to_bits() - 1);
    let tiny = 2.0f32.powi(-26);
    let above_tiny = f32::from_bits(tiny.to_bits() + 1);
    assert!(!kept(clip(0.0, 0.0, 1.0)));
    assert!(kept(clip(0.0, 0.0, just_below_one)));
    assert!(!kept(clip(0.0, 0.0, 0.0)));
    assert!(!kept(clip(0.0, 0.0, -0.0)));
    assert!(!kept(clip(0.0, 0.0, -0.25)));
    assert!(!kept(clip(0.0, 0.0, tiny)));
    assert!(kept(clip(0.0, 0.0, above_tiny)));
    assert!(!kept(clip(0.0, 0.0, f32::NAN)));
}

#[test]
fn culling_agrees_with_float_rule() {
    let mut samples: Vec<f32> = vec![0.0, -0.0, 0.25, 0.5, 0.75, 1.0, 1.2, -1.2, 1.5, f32::NAN, f32::INFINITY];
    let mut bits: u32 = 0x1234_5678;
    for _ in 0..2000 {
        bits = bits.wrapping_mul(1_664_525).wrapping_add(1_013_904_223);
        samples.push(f32::from_bits(bits));
        samples.push(f32::from_bits(0x3280_0000 + (bits % 64)) );
        samples.push((bits % 4000) as f32 / 1000.0 - 2.0);
    }
    for (i, &x) in samples.iter().enumerate() {
        let y = samples[(i * 7 + 3) % samples.len()];
        let z = samples[(i * 13 + 5) % samples.len()];
        assert_eq!(kept(clip(x, y, z)), float_rule(x, y, z), "{} {} {}", x, y, z);
        assert_eq!(kept(clip(0.0, 0.0, x)), float_rule(0.0, 0.0, x), "{}", x);
    }
}

#[test]
fn equal_depths_keep_splat_order() {
    let clips = vec![clip(0.0, 0.0, 0.5), clip(0.1, 0.0, 0.25), clip(0.2, 0.0, 0.5), clip(0.0, 0.3, 0.5)];
    let r = cpu_depth_sort(&clips, TOLERANCE.to_bits());
    let order: Vec<u32> = r.iter().map(|e| e.1).collect();
    assert_eq!(order, vec![1, 0, 2, 3]);
}

#[test]
fn sort_matches_stable_reference() {
    let mut clips = Vec::new();
    let mut s: u32 = 99;
    for _ in 0..3000 {
        s = s.wrapping_mul(1_103_515_245).wrapping_add(12345);
        let x = ((s >> 8) % 400) as f32 / 100.0 - 2.0;
        let z = ((s >> 4) % 16) as f32 / 16.0;
        clips.push(clip(x, 0.0, z));
    }
    let r = cpu_depth_sort(&clips, TOLERANCE.to_bits());
    let mut expected: Vec<(u32, u32)> = clips
        .iter()
        .enumerate()
        .filter(|(_, c)| float_rule(f32::from_bits(c.x), f32::from_bits(c.y), f32::from_bits(c.z)))
        .map(|(i, c)| (c.z, i as u32))
        .collect();
    expected.sort_by(|a, b| a.0.cmp(&b.0));
    assert_eq!(r, expected);
    for w in r.windows(2) {
        assert!(w[0].0 < w[1].0 || (w[0].0 == w[1].0 && w[0].1 < w[1].1));
    }
}

#[test]
fn no_splats_gives_no_entries() {
    let r = cpu_depth_sort(&Vec::new(), TOLERANCE.to_bits());
    assert!(r.is_empty());
}

#[test]
fn cull_entries_keeps_splat_order() {
    let clips = vec![clip(0.0, 0.0, 0.9), clip(5.0, 0.0, 0.5), clip(0.0, 0.0, 0.1)];
    let r = cull_entries(&clips, TOLERANCE.to_bits());
    assert_eq!(r, vec![(0.9f32.to_bits(), 0), (0.1f32.to_bits(), 2)]);
}

#[test]
fn sort_entries_orders_by_key_then_index() {
    let r = sort_entries(vec![(5, 1), (3, 9), (5, 0), (1, 4), (3, 2)]);
    assert_eq!(r, vec![(1, 4), (3, 2), (3, 9), (5, 0), (5, 1)]);
}
