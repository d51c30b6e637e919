use hexx::Hex;
use hexx::Direction;
use hexx::DiagonalDirection;

#[test]
fn new_and_accessors() {
    let coord = Hex::new(3, 5);
    assert_eq!(coord.x(), 3);
    assert_eq!(coord.y(), 5);
    assert_eq!(coord.z(), -8);
}

#[test]
fn splat_sets_both_axes() {
    let coord = Hex::splat(3);
    assert_eq!(coord.x(), 3);
    assert_eq!(coord.y(), 3);
    assert_eq!(coord.z(), -6);
}

#[test]
fn new_cubic_keeps_the_triple() {
    let coord = Hex::new_cubic(3, 5, -8);
    assert_eq!(coord.x(), 3);
    assert_eq!(coord.y(), 5);
    assert_eq!(coord.z(), -8);
    let triples = [(0, 0, 0), (1, -1, 0), (-4, 7, -3), (10, -3, -7)];
    for &(x, y, z) in triples.iter() {
        let h = Hex::new_cubic(x, y, z);
        assert_eq!(h.x(), x);
        assert_eq!(h.y(), y);
        assert_eq!(h.z(), z);
    }
}

#[test]
fn arrays_round_the_coordinates() {
    let coord = Hex::new(3, 5);
    assert_eq!(coord.to_array(), [3, 5]);
    assert_eq!(coord.to_array3(), [3, 5, -8]);
}

#[test]
fn arithmetic_is_componentwise() {
    let a = Hex::new(3, 5);
    let b = Hex::new(-1, 2);
    assert_eq!(a.const_add(b), Hex::new(2, 7));
    assert_eq!(a.const_sub(b), Hex::new(4, 3));
    assert_eq!(a.const_neg(), Hex::new(-3, -5));
}

#[test]
fn abs_is_componentwise() {
    let coord = Hex::new(-1, -32).abs();
    assert_eq!(coord.x(), 1);
    assert_eq!(coord.y(), 32);
}

#[test]
fn default_is_origin() {
    assert_eq!(Hex::default(), Hex::new(0, 0));
}

#[test]
fn length_is_max_cubic_magnitude() {
    assert_eq!(Hex::new(10, 0).length(), 10);
    assert_eq!(Hex::new(10, 0).ulength(), 10);
    assert_eq!(Hex::new(0, 0).length(), 0);
    assert_eq!(Hex::new(-2, -3).length(), 5);
    assert_eq!(Hex::new(-2, 3).length(), 3);
    assert_eq!(Hex::new(-2, 3).ulength(), 3);
}

#[test]
fn distance_examples() {
    let a = Hex::new(1, 2);
    let b = Hex::new(-3, 4);
    assert_eq!(a.distance_to(b), 4);
    assert_eq!(a.unsigned_distance_to(b), 4);
    assert_eq!(Hex::new(0, 0).distance_to(Hex::new(5, 0)), 5);
}

#[test]
fn distance_is_symmetric_and_zero_on_diagonal() {
    let pairs = [
        (Hex::new(0, 0), Hex::new(5, -2)),
        (Hex::new(3, 5), Hex::new(-1, -1)),
        (Hex::new(-7, 2), Hex::new(4, 4)),
    ];
    for &(a, b) in pairs.iter() {
        assert_eq!(a.distance_to(b), b.distance_to(a));
        assert_eq!(a.unsigned_distance_to(b), b.unsigned_distance_to(a));
        assert_eq!(a.distance_to(a), 0);
        assert_eq!(b.distance_to(b), 0);
    }
}

#[test]
fn neighbor_follows_the_offset_table() {
    let coord = Hex::new(10, 5);
    let bottom = coord.neighbor(Direction::Bottom);
    assert_eq!(bottom, Hex::new(10, 6));
    assert_eq!(Hex::neighbor_coord(Direction::TopRight), Hex::new(1, -1));
    assert_eq!(Hex::neighbor_coord(Direction::Top), Hex::new(0, -1));
    assert_eq!(Hex::neighbor_coord(Direction::TopLeft), Hex::new(-1, 0));
    assert_eq!(Hex::neighbor_coord(Direction::BottomLeft), Hex::new(-1, 1));
    assert_eq!(Hex::neighbor_coord(Direction::Bottom), Hex::new(0, 1));
    assert_eq!(Hex::neighbor_coord(Direction::BottomRight), Hex::new(1, 0));
}

#[test]
fn neighbor_direction_round_trips() {
    let coord = Hex::new(10, 5);
    for dir in Direction::all_directions() {
        let n = coord.neighbor(dir);
        assert_eq!(coord.neighbor_direction(n), Some(dir));
    }
}

#[test]
fn neighbor_direction_of_non_adjacent_is_none() {
    let coord = Hex::new(10, 5);
    assert_eq!(coord.neighbor_direction(Hex::new(12, 5)), None);
    assert_eq!(coord.neighbor_direction(Hex::new(11, 6)), None);
    assert_eq!(coord.neighbor_direction(coord), None);
    assert_eq!(coord.neighbor_direction(Hex::new(12, 3)), None);
}

#[test]
fn all_neighbors_in_table_order() {
    let coord = Hex::new(2, -3);
    let expected = [
        Hex::new(3, -4),
        Hex::new(2, -4),
        Hex::new(1, -3),
        Hex::new(1, -2),
        Hex::new(2, -2),
        Hex::new(3, -3),
    ];
    assert_eq!(coord.all_neighbors(), expected);
}

#[test]
fn all_diagonals_in_table_order() {
    let coord = Hex::new(2, -3);
    let expected = [
        Hex::new(4, -4),
        Hex::new(3, -5),
        Hex::new(1, -4),
        Hex::new(0, -2),
        Hex::new(1, -1),
        Hex::new(3, -2),
    ];
    assert_eq!(coord.all_diagonals(), expected);
}

#[test]
fn direction_to_matches_neighbors() {
    let origin = Hex::new(0, 0);
    for dir in Direction::all_directions() {
        let n = origin.neighbor(dir);
        assert_eq!(origin.direction_to(n), dir);
    }
    // farther away, still inside the same wedge
    assert_eq!(origin.direction_to(Hex::new(5, 1)), Direction::BottomRight);
    assert_eq!(origin.direction_to(Hex::new(-5, -1)), Direction::TopLeft);
}

#[test]
fn diagonal_to_matches_the_diagonal_offsets() {
    let origin = Hex::new(0, 0);
    let table = [
        (DiagonalDirection::Right, Hex::new(2, -1)),
        (DiagonalDirection::TopRight, Hex::new(1, -2)),
        (DiagonalDirection::TopLeft, Hex::new(-1, -1)),
        (DiagonalDirection::Left, Hex::new(-2, 1)),
        (DiagonalDirection::BottomLeft, Hex::new(-1, 2)),
        (DiagonalDirection::BottomRight, Hex::new(1, 1)),
    ];
    for &(dir, offset) in table.iter() {
        assert_eq!(origin.diagonal_to(offset), dir);
    }
}

#[test]
fn direction_negation_is_three_steps() {
    assert_eq!(Direction::TopRight.const_neg(), Direction::BottomLeft);
    assert_eq!(Direction::Bottom.const_neg(), Direction::Top);
    assert_eq!(DiagonalDirection::Right.const_neg(), DiagonalDirection::Left);
    assert_eq!(
        DiagonalDirection::BottomLeft.const_neg(),
        DiagonalDirection::TopRight
    );
    for dir in Direction::all_directions() {
        assert_eq!(dir.const_neg().const_neg(), dir);
    }
    for dir in DiagonalDirection::all_diagonal_directions() {
        assert_eq!(dir.const_neg().const_neg(), dir);
    }
}

#[test]
fn rotation_steps() {
    let coord = Hex::new(5, -1);
    // (x, y, z) = (5, -1, -4): left is (-z, -x), right is (-y, -z)
    assert_eq!(coord.left(), Hex::new(4, -5));
    assert_eq!(coord.right(), Hex::new(1, 4));
    assert_eq!(coord.rotate_left(3), coord.const_neg());
    assert_eq!(coord.rotate_right(3), coord.const_neg());
}

#[test]
fn rotation_full_turn_and_inverse() {
    let coords = [Hex::new(5, -1), Hex::new(0, 0), Hex::new(-3, 7)];
    for &h in coords.iter() {
        assert_eq!(h.rotate_left(6), h);
        assert_eq!(h.rotate_right(6), h);
        for m in 0..=6u32 {
            assert_eq!(h.rotate_left(m), h.rotate_right((6 - m) % 6));
            assert_eq!(h.rotate_left(m + 6), h.rotate_left(m));
        }
    }
}

#[test]
fn rotation_around_a_pivot() {
    let coord = Hex::new(3, 1);
    let pivot = Hex::new(1, 1);
    // translated to the pivot the coordinate is (2, 0, -2)
    assert_eq!(coord.left_around(pivot), Hex::new(3, -1));
    assert_eq!(coord.right_around(pivot), Hex::new(1, 3));
    assert_eq!(coord.rotate_left_around(pivot, 3), Hex::new(-1, 1));
    assert_eq!(coord.rotate_right_around(pivot, 1), coord.right_around(pivot));
    assert_eq!(coord.rotate_left_around(pivot, 0), coord);
}

#[test]
fn reflections_permute_the_cubic_axes() {
    let coord = Hex::new(3, 5);
    // (x, y, z) = (3, 5, -8)
    assert_eq!(coord.reflect_x(), Hex::new(3, -8));
    assert_eq!(coord.reflect_y(), Hex::new(-8, 5));
    assert_eq!(coord.reflect_z(), Hex::new(5, 3));
}

#[test]
fn reflections_are_involutions() {
    let coords = [Hex::new(3, 5), Hex::new(0, 0), Hex::new(-4, 9)];
    for &h in coords.iter() {
        assert_eq!(h.reflect_x().reflect_x(), h);
        assert_eq!(h.reflect_y().reflect_y(), h);
        assert_eq!(h.reflect_z().reflect_z(), h);
    }
}

#[test]
fn line_to_straight_line() {
    let start = Hex::new(0, 0);
    let end = Hex::new(5, 0);
    let line = start.line_to(end);
    assert_eq!(line.len(), 6);
    let expected = [
        Hex::new(0, 0),
        Hex::new(1, 0),
        Hex::new(2, 0),
        Hex::new(3, 0),
        Hex::new(4, 0),
        Hex::new(5, 0),
    ];
    assert_eq!(line, expected.to_vec());
}

#[test]
fn line_to_self_is_singleton() {
    let coord = Hex::new(7, -2);
    let line = coord.line_to(coord);
    assert_eq!(line, vec![coord]);
}

#[test]
fn line_to_ends_at_both_endpoints() {
    let pairs = [
        (Hex::new(0, 0), Hex::new(3, -2)),
        (Hex::new(-2, 5), Hex::new(4, -1)),
        (Hex::new(1, 1), Hex::new(-4, 2)),
    ];
    for &(a, b) in pairs.iter() {
        let line = a.line_to(b);
        assert_eq!(line.len() as i32, a.distance_to(b) + 1);
        assert_eq!(line[0], a);
        assert_eq!(line[line.len() - 1], b);
        for pair in line.windows(2) {
            assert_eq!(pair[0].distance_to(pair[1]), 1);
        }
    }
}

#[test]
fn line_to_diagonal_line() {
    let line = Hex::new(0, 0).line_to(Hex::new(3, -2));
    let expected = [
        Hex::new(0, 0),
        Hex::new(1, -1),
        Hex::new(2, -1),
        Hex::new(3, -2),
    ];
    assert_eq!(line, expected.to_vec());
}

#[test]
fn line_to_rounds_half_steps_towards_the_larger_remainder() {
    // the midpoint (1, -0.5) rounds to (1, 0): the second axis has the
    // larger remainder and is re-derived from the cubic constraint
    let line = Hex::new(0, 0).line_to(Hex::new(2, -1));
    let expected = [Hex::new(0, 0), Hex::new(1, 0), Hex::new(2, -1)];
    assert_eq!(line, expected.to_vec());
}

#[test]
fn ordinals_follow_table_order() {
    let dirs = Direction::all_directions();
    for (i, d) in dirs.iter().enumerate() {
        assert_eq!(d.index(), i);
    }
    let diags = DiagonalDirection::all_diagonal_directions();
    for (i, d) in diags.iter().enumerate() {
        assert_eq!(d.index(), i);
    }
}

#[test]
fn directions_to_walks_the_line() {
    let dirs = Hex::new(0, 0).directions_to(Hex::new(2, 0));
    assert_eq!(dirs, vec![Direction::BottomRight, Direction::BottomRight]);
    let no_dirs = Hex::new(3, 3).directions_to(Hex::new(3, 3));
    assert_eq!(no_dirs, Vec::new());
}

#[test]
fn range_count_closed_form() {
    assert_eq!(Hex::range_count(0), 1);
    assert_eq!(Hex::range_count(1), 7);
    assert_eq!(Hex::range_count(2), 19);
    assert_eq!(Hex::range_count(15), 721);
}

#[test]
fn range_matches_range_count() {
    let origin = Hex::new(0, 0);
    for r in 0..20u32 {
        assert_eq!(origin.range(r).len(), Hex::range_count(r));
    }
}

#[test]
fn range_contents_within_distance() {
    let center = Hex::new(2, -1);
    let cells = center.range(2);
    assert_eq!(cells.len(), 19);
    for cell in cells.iter() {
        assert!(center.unsigned_distance_to(*cell) <= 2);
    }
    assert_eq!(center.range(0), vec![center]);
}

#[test]
fn wraparound_mirror_centers() {
    let mirrors = Hex::wraparound_mirrors(1);
    let expected = [
        Hex::new(2, -3),
        Hex::new(3, -1),
        Hex::new(1, 2),
        Hex::new(-2, 3),
        Hex::new(-3, 1),
        Hex::new(-1, -2),
    ];
    assert_eq!(mirrors, expected);
    for m in mirrors.iter() {
        assert_eq!(m.ulength(), 3);
    }
}

#[test]
fn wrap_in_range_examples() {
    assert_eq!(Hex::new(3, 0).wrap_in_range(1), Hex::new(0, 1));
    assert_eq!(Hex::new(2, -1).wrap_in_range(0), Hex::new(0, 0));
}

#[test]
fn wrap_in_range_stays_within_radius() {
    let coords = [
        Hex::new(100, -250),
        Hex::new(-77, 13),
        Hex::new(0, 0),
        Hex::new(1000, 1000),
        Hex::new(-5, -5),
    ];
    for &h in coords.iter() {
        for r in 0..5u32 {
            assert!(h.wrap_in_range(r).ulength() <= r);
        }
    }
}

#[test]
fn wrap_in_range_keeps_in_range_coordinates() {
    let coords = [Hex::new(1, 0), Hex::new(0, 0), Hex::new(-2, 1)];
    for &h in coords.iter() {
        assert_eq!(h.wrap_in_range(3), h);
    }
}

#[test]
fn wrap_with_canonical_mirrors() {
    let mirrors = Hex::wraparound_mirrors(2);
    let wrapped = Hex::new(9, -4).wrap_with(2, &mirrors);
    assert!(wrapped.ulength() <= 2);
    assert_eq!(Hex::new(1, 1).wrap_with(2, &mirrors), Hex::new(1, 1));
}

#[test]
fn glam_vector_conversions() {
    let coord = Hex::new(3, 5);
    let v2 = coord.as_ivec2();
    assert_eq!(v2.x, 3);
    assert_eq!(v2.y, 5);
    let v3 = coord.as_ivec3();
    assert_eq!(v3.x, 3);
    assert_eq!(v3.y, 5);
    assert_eq!(v3.z, -8);
}
