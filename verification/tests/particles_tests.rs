use glyphlayout::particles::ParticleSet;

fn sample() -> ParticleSet<f64> {
    // two particles: (1.0, 3.0) and (2.0, 4.0), flattened x-first
    ParticleSet::new(
        vec![0, 5],
        vec![120.0, 240.0],
        vec![1.0, 2.0, 3.0, 4.0],
    )
}

#[test]
fn particle_set_reports_its_count() {
    let p = sample();
    assert_eq!(p.len(), 2);
    assert_eq!(p.types().len(), 2);
    assert_eq!(p.hues().len(), 2);
    assert_eq!(p.coords().len(), 4);
}

#[test]
fn particle_set_indexes_the_flattened_buffer() {
    let p = sample();
    assert_eq!(p.type_of(0), 0);
    assert_eq!(p.type_of(1), 5);
    assert_eq!(*p.hue_of(1), 240.0);
    assert_eq!(*p.x_of(0), 1.0);
    assert_eq!(*p.x_of(1), 2.0);
    assert_eq!(*p.y_of(0), 3.0);
    assert_eq!(*p.y_of(1), 4.0);
}

#[test]
fn particle_set_coords_can_be_replaced() {
    let mut p = sample();
    p.set_coords(vec![9.0, 8.0, 7.0, 6.0]);
    assert_eq!(*p.x_of(0), 9.0);
    assert_eq!(*p.y_of(1), 6.0);
    assert_eq!(p.type_of(1), 5);
    assert_eq!(*p.hue_of(0), 120.0);
}
