use glyphlayout::energy::{fill_gradient, select_penalties};

#[test]
fn select_penalties_keeps_flagged_terms_in_order() {
    let outside = vec![true, false, true, true, false];
    let dists = vec![1.5, -0.5, 2.25, 0.125, -3.0];
    assert_eq!(select_penalties(&outside, &dists), vec![1.5, 2.25, 0.125]);
}

#[test]
fn select_penalties_of_contained_particles_is_empty() {
    // every particle inside its region: nothing enters the energy sum,
    // so the assembled total is exactly zero
    let outside = vec![false, false, false, false];
    let dists = vec![-1.0, -0.25, 0.0, -7.5];
    let terms = select_penalties(&outside, &dists);
    assert!(terms.is_empty());
    let mut total = 0.0f64;
    for z in terms {
        total += z;
    }
    assert_eq!(total.to_bits(), (0.0f64).to_bits());
}

#[test]
fn fill_gradient_scatters_into_paired_slots() {
    let contribs = vec![None, Some((1.5, -2.5)), None];
    let mut grad = vec![9.0; 6];
    fill_gradient(&mut grad, &contribs, 0.0);
    assert_eq!(grad, vec![0.0, 1.5, 0.0, 0.0, -2.5, 0.0]);
}

#[test]
fn fill_gradient_of_contained_particles_is_all_zero() {
    let contribs: Vec<Option<(f64, f64)>> = vec![None; 4];
    let mut grad = vec![3.25; 8];
    fill_gradient(&mut grad, &contribs, 0.0);
    assert!(grad.iter().all(|&g| g == 0.0));
}

#[test]
fn single_escaped_particle_owns_its_two_slots() {
    // one particle outside at known distance with a known kernel gradient:
    // the term list is exactly that distance and the gradient lands in
    // slots i and n + i
    let outside = vec![false, true];
    let dists = vec![-1.0, 4.0];
    assert_eq!(select_penalties(&outside, &dists), vec![4.0]);
    let contribs = vec![None, Some((0.6, 0.8))];
    let mut grad = vec![1.0; 4];
    fill_gradient(&mut grad, &contribs, 0.0);
    assert_eq!(grad, vec![0.0, 0.6, 0.0, 0.8]);
}
