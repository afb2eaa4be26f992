use simulation_engine::instance::{NUM_INSTANCES_PER_ROW, SPACE_BETWEEN_MODELS};
use simulation_engine::{grid, Instance, Rotation};

#[test]
fn ten_by_ten_grid_layout() {
    let instances = grid(NUM_INSTANCES_PER_ROW, NUM_INSTANCES_PER_ROW, SPACE_BETWEEN_MODELS);
    assert_eq!(instances.len(), 100);
    // Doubled coordinates: 2 * 3 * (index - 4.5) = 6 * index - 27.
    let table = [
        (0usize, -27i64, -27i64),
        (9, 27, -27),
        (45, 3, -3),
        (54, -3, 3),
        (99, 27, 27),
    ];
    for (k, x2, z2) in table {
        assert_eq!(instances[k].x2, x2);
        assert_eq!(instances[k].y2, 0);
        assert_eq!(instances[k].z2, z2);
    }
    for (k, inst) in instances.iter().enumerate() {
        assert_eq!(inst.x2, 6 * (k % 10) as i64 - 27);
        assert_eq!(inst.z2, 6 * (k / 10) as i64 - 27);
        assert_eq!(inst.rotation, Rotation::AboutPosition);
    }
    for i in 0..instances.len() {
        for j in (i + 1)..instances.len() {
            assert_ne!(instances[i], instances[j]);
        }
    }
}

#[test]
fn centre_of_odd_grid_is_unturned() {
    let instances = grid(3, 3, 2);
    assert_eq!(instances.len(), 9);
    assert_eq!(instances[4], Instance::new(0, 0, 0, Rotation::Identity));
    assert!(instances[4].is_at_origin());
    for (k, inst) in instances.iter().enumerate() {
        if k != 4 {
            assert_eq!(inst.rotation, Rotation::AboutPosition);
            assert!(!inst.is_at_origin());
        }
    }
    assert_eq!(instances[0], Instance::new(-4, 0, -4, Rotation::AboutPosition));
    assert_eq!(instances[5], Instance::new(4, 0, 0, Rotation::AboutPosition));
}

#[test]
fn empty_and_single_grids() {
    assert!(grid(0, 5, 3).is_empty());
    assert!(grid(5, 0, 3).is_empty());
    let one = grid(1, 1, 3);
    assert_eq!(one, vec![Instance::default()]);
    // With no spacing every cell sits at the origin.
    let packed = grid(2, 2, 0);
    assert!(packed.iter().all(|i| i.rotation == Rotation::Identity));
}

#[test]
fn default_instance() {
    assert_eq!(Instance::default(), Instance::new(0, 0, 0, Rotation::Identity));
}
