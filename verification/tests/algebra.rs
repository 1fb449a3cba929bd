use rsrl::fixed::{Fx, SCALE};
use rsrl::params::{Dense, Tile};

fn fx(units: i64) -> Fx {
    Fx::from_units(units)
}

fn units_of(v: &[Fx]) -> Vec<i64> {
    v.iter().map(|x| x.units()).collect()
}

#[test]
fn merge_preserves_shape_sparse() {
    let a = Tile::new(8, Some((3, fx(250_000))));
    let b = Tile::new(8, Some((3, fx(500_000))));
    let merged = a.merge(&b, |x: Fx, y: Fx| x.add(y));
    assert_eq!(merged.raw_dim(), a.raw_dim());
    assert_eq!(merged.active(), Some((3, fx(750_000))));
}

#[test]
fn merge_preserves_shape_dense() {
    let a = Dense::from_vec(vec![fx(1), fx(2), fx(3)]);
    let b = Dense::from_vec(vec![fx(10), fx(20), fx(30)]);
    let merged = a.merge(&b, |x: Fx, y: Fx| x.add(y));
    assert_eq!(merged.raw_dim(), a.raw_dim());
    assert_eq!(units_of(&merged.to_vec()), vec![11, 22, 33]);
}

#[test]
fn sparse_addto_no_active_cell_leaves_target_unchanged() {
    let empty = Tile::zeros(4);
    let mut target = vec![fx(7), fx(-3), fx(0), fx(11)];
    let before = units_of(&target);
    empty.addto(&mut target);
    assert_eq!(units_of(&target), before);
}

#[test]
fn sparse_addto_adds_exactly_at_active_index() {
    let tile = Tile::new(4, Some((2, fx(5_000))));
    let mut target = vec![fx(100), fx(200), fx(300), fx(400)];
    tile.addto(&mut target);
    assert_eq!(units_of(&target), vec![100, 200, 5_300, 400]);
}

#[test]
fn sparse_scaled_addto_adds_scaled_value() {
    // 0.5 * 1.0 added at index 1 only.
    let tile = Tile::new(3, Some((1, Fx::one())));
    let mut target = vec![fx(0), fx(0), fx(0)];
    tile.scaled_addto(fx(SCALE / 2), &mut target);
    assert_eq!(units_of(&target), vec![0, SCALE / 2, 0]);
}

#[test]
fn dense_addto_is_elementwise() {
    let buf = Dense::from_vec(vec![fx(1), fx(-2), fx(3)]);
    let mut target = vec![fx(10), fx(10), fx(10)];
    buf.addto(&mut target);
    assert_eq!(units_of(&target), vec![11, 8, 13]);
}

#[test]
fn dense_scaled_addto_is_elementwise() {
    // 0.5 * [1.0, 2.0] added in place.
    let buf = Dense::from_vec(vec![Fx::one(), fx(2 * SCALE)]);
    let mut target = vec![fx(0), fx(SCALE)];
    buf.scaled_addto(fx(SCALE / 2), &mut target);
    assert_eq!(units_of(&target), vec![SCALE / 2, 2 * SCALE]);
}

#[test]
fn map_equals_map_into_sparse() {
    let tile = Tile::new(6, Some((4, fx(30_000))));
    let doubled = tile.map(|x: Fx| x.add(x));
    let doubled_into = tile.clone().map_into(|x: Fx| x.add(x));
    assert_eq!(doubled.raw_dim(), doubled_into.raw_dim());
    assert_eq!(doubled.active(), doubled_into.active());
    assert_eq!(doubled.active(), Some((4, fx(60_000))));

    let empty = Tile::zeros(6);
    let mapped = empty.map(|x: Fx| x.add(Fx::one()));
    let mapped_into = empty.clone().map_into(|x: Fx| x.add(Fx::one()));
    assert_eq!(mapped.active(), mapped_into.active());
    assert_eq!(mapped.active(), None);
}

#[test]
fn map_equals_map_into_dense() {
    let buf = Dense::from_vec(vec![fx(1), fx(2), fx(3)]);
    let negated = buf.map(|x: Fx| x.neg());
    let negated_into = buf.clone().map_into(|x: Fx| x.neg());
    assert_eq!(units_of(&negated.to_vec()), units_of(&negated_into.to_vec()));
    assert_eq!(units_of(&negated.to_vec()), vec![-1, -2, -3]);
}

#[test]
fn map_inplace_matches_map() {
    let mut tile = Tile::new(5, Some((0, fx(12))));
    let mapped = tile.map(|x: Fx| x.add(fx(1)));
    tile.map_inplace(|x: Fx| x.add(fx(1)));
    assert_eq!(tile.active(), mapped.active());

    let mut buf = Dense::from_vec(vec![fx(9), fx(8)]);
    let mapped = buf.map(|x: Fx| x.sub(fx(8)));
    buf.map_inplace(|x: Fx| x.sub(fx(8)));
    assert_eq!(units_of(&buf.to_vec()), units_of(&mapped.to_vec()));
}

#[test]
fn merge_into_and_merge_inplace_agree() {
    let a = Tile::new(2, Some((1, fx(3))));
    let b = Tile::new(2, Some((1, fx(4))));
    let merged = a.merge(&b, |x: Fx, y: Fx| x.mul(y));
    let merged_into = a.clone().merge_into(&b, |x: Fx, y: Fx| x.mul(y));
    let mut merged_inplace = a;
    merged_inplace.merge_inplace(&b, |x: Fx, y: Fx| x.mul(y));
    assert_eq!(merged.active(), merged_into.active());
    assert_eq!(merged.active(), merged_inplace.active());

    let da = Dense::from_vec(vec![fx(5), fx(6)]);
    let db = Dense::from_vec(vec![fx(1), fx(2)]);
    let dm = da.merge(&db, |x: Fx, y: Fx| x.sub(y));
    let mut dm_inplace = Dense::from_vec(vec![fx(5), fx(6)]);
    dm_inplace.merge_inplace(&db, |x: Fx, y: Fx| x.sub(y));
    assert_eq!(units_of(&dm.to_vec()), units_of(&dm_inplace.to_vec()));
    assert_eq!(units_of(&dm.to_vec()), vec![4, 4]);
}

#[test]
fn zeros_have_no_content() {
    let tile = Tile::zeros(9);
    assert_eq!(tile.raw_dim(), 9);
    assert_eq!(tile.active(), None);

    let dense = Dense::zeros(3);
    assert_eq!(dense.raw_dim(), 3);
    assert_eq!(units_of(&dense.to_vec()), vec![0, 0, 0]);
}

#[test]
fn fixed_point_multiplication_truncates_toward_zero() {
    // 0.5 * 0.3 == 0.15 exactly.
    assert_eq!(fx(SCALE / 2).mul(fx(300_000)).units(), 150_000);
    // (3 / SCALE) * (1 / 2) truncates to 1 / SCALE.
    assert_eq!(fx(3).mul(fx(SCALE / 2)).units(), 1);
    assert_eq!(fx(-3).mul(fx(SCALE / 2)).units(), -1);
    assert_eq!(fx(0).mul(fx(-700_000)).units(), 0);
}
