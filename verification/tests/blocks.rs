use tiles::block::{BlockMaterial, Material};
use tiles::error::DecodeError;
use tiles::layer::TileLayer;
use tiles::meta::MaterialMeta;
use tiles::pixel::TilePixel;
use tiles::subtile::SubTile;

const KINDS: [TilePixel; 4] =
    [TilePixel::Up, TilePixel::Neutral, TilePixel::Down, TilePixel::Absent];

fn rgba(p: TilePixel) -> [u8; 4] {
    match p {
        TilePixel::Absent => [0, 0, 0, 0],
        TilePixel::Up => [0, 0, 255, 255],
        TilePixel::Neutral => [0, 255, 0, 255],
        TilePixel::Down => [255, 0, 0, 255],
    }
}

fn encode(pixels: &[TilePixel]) -> Vec<u8> {
    let mut bytes = Vec::new();
    for p in pixels {
        bytes.extend_from_slice(&rgba(*p));
    }
    bytes
}

/// A grid that tells its variant apart from the four others at position 0
/// and 1: variant `v` reads as the two base-4 digits of `v + 1`.
fn sentinel(variant: usize) -> TileLayer {
    let mut colors = vec![TilePixel::Absent; 100];
    colors[0] = KINDS[(variant + 1) / 4];
    colors[1] = KINDS[(variant + 1) % 4];
    TileLayer { colors }
}

fn variant_read(block: &BlockMaterial, base: usize, neighbors: &[bool]) -> usize {
    let hi = KINDS.iter().position(|k| *k == block.get_pixel(0, base, neighbors)).unwrap();
    let lo = KINDS.iter().position(|k| *k == block.get_pixel(0, base + 1, neighbors)).unwrap();
    hi * 4 + lo - 1
}

fn sentinel_quadrant(quadrant: usize) -> SubTile {
    SubTile::new(quadrant, (0..5).map(sentinel).collect()).unwrap()
}

fn sentinel_block(repeats: Vec<usize>) -> BlockMaterial {
    BlockMaterial::new((0..4).map(sentinel_quadrant).collect(), &repeats).unwrap()
}

fn expected_variant(horizontal: bool, vertical: bool, diagonal: bool) -> usize {
    match (horizontal, vertical, diagonal) {
        (true, true, true) => 4,
        (true, true, false) => 3,
        (true, false, _) => 2,
        (false, true, _) => 1,
        (false, false, _) => 0,
    }
}

#[test]
fn quadrant_needs_an_index_below_four() {
    assert!(SubTile::new(3, (0..5).map(sentinel).collect()).is_some());
    assert!(SubTile::new(4, (0..5).map(sentinel).collect()).is_none());
}

#[test]
fn quadrant_needs_five_grids() {
    assert!(SubTile::new(0, (0..4).map(sentinel).collect()).is_none());
    assert!(SubTile::new(0, (0..6).map(sentinel).collect()).is_none());
}

#[test]
fn quadrant_needs_grids_of_a_hundred_pixels() {
    let mut grids: Vec<TileLayer> = (0..5).map(sentinel).collect();
    grids[2].colors.pop();
    assert!(SubTile::new(0, grids).is_none());
}

#[test]
fn quadrant_reports_its_index() {
    assert_eq!(sentinel_quadrant(2).quadrant(), 2);
}

#[test]
fn even_quadrants_read_horizontal_first() {
    for quadrant in [0, 2] {
        let sub = sentinel_quadrant(quadrant);
        for bits in 0..8u8 {
            let window = [bits & 1 != 0, bits & 2 != 0, bits & 4 != 0];
            let want = expected_variant(window[0], window[2], window[1]);
            assert_eq!(sub.get(&window).colors, sentinel(want).colors);
        }
    }
}

#[test]
fn odd_quadrants_read_vertical_first() {
    for quadrant in [1, 3] {
        let sub = sentinel_quadrant(quadrant);
        for bits in 0..8u8 {
            let window = [bits & 1 != 0, bits & 2 != 0, bits & 4 != 0];
            let want = expected_variant(window[2], window[0], window[1]);
            assert_eq!(sub.get(&window).colors, sentinel(want).colors);
        }
    }
}

#[test]
fn diagonal_alone_selects_the_first_grid() {
    for quadrant in 0..4 {
        let sub = sentinel_quadrant(quadrant);
        let lonely = sub.get(&[false, false, false]).colors.clone();
        let diagonal = sub.get(&[false, true, false]).colors.clone();
        assert_eq!(lonely, sentinel(0).colors);
        assert_eq!(diagonal, lonely);
    }
}

#[test]
fn strip_is_cut_into_five_grids_side_by_side() {
    let mut row = vec![TilePixel::Absent; 500];
    for variant in 0..5 {
        for ly in 0..10 {
            for lx in 0..10 {
                row[variant * 10 + lx + ly * 50] = KINDS[(variant + lx + 2 * ly) % 4];
            }
        }
    }
    let sub = SubTile::from_strip(1, &row).unwrap();
    assert_eq!(sub.quadrant(), 1);
    let windows = [
        [false, false, false],
        [true, false, false],
        [false, false, true],
        [true, false, true],
        [true, true, true],
    ];
    for (variant, window) in windows.iter().enumerate() {
        let grid = sub.get(window);
        assert_eq!(grid.colors.len(), 100);
        for ly in 0..10 {
            for lx in 0..10 {
                assert_eq!(grid.colors[lx + ly * 10], KINDS[(variant + lx + 2 * ly) % 4]);
            }
        }
    }
}

#[test]
fn strip_of_another_length_is_no_quadrant() {
    assert!(SubTile::from_strip(0, &vec![TilePixel::Up; 499]).is_none());
    assert!(SubTile::from_strip(0, &vec![TilePixel::Up; 501]).is_none());
    assert!(SubTile::from_strip(4, &vec![TilePixel::Up; 500]).is_none());
    assert!(SubTile::from_strip(3, &vec![TilePixel::Up; 500]).is_some());
}

#[test]
fn block_needs_its_four_quadrants_in_order() {
    let repeats = vec![1];
    assert!(BlockMaterial::new((0..4).map(sentinel_quadrant).collect(), &repeats).is_some());
    assert!(BlockMaterial::new((0..3).map(sentinel_quadrant).collect(), &repeats).is_none());
    assert!(BlockMaterial::new((0..4).rev().map(sentinel_quadrant).collect(), &repeats).is_none());
    let twice = vec![
        sentinel_quadrant(0),
        sentinel_quadrant(1),
        sentinel_quadrant(2),
        sentinel_quadrant(2),
    ];
    assert!(BlockMaterial::new(twice, &repeats).is_none());
}

#[test]
fn block_slot_out_of_range_is_neutral() {
    let block = sentinel_block(vec![2, 1]);
    let neighbors = [true; 9];
    assert_eq!(block.get_pixel(3, 0, &neighbors), TilePixel::Neutral);
    assert_eq!(block.get_pixel(3, 399, &neighbors), TilePixel::Neutral);
    assert_eq!(block.get_pixel(usize::MAX, 17, &[false; 9]), TilePixel::Neutral);
}

#[test]
fn block_slot_out_of_range_is_neutral_for_any_position_and_neighbors() {
    let block = sentinel_block(vec![1]);
    assert_eq!(block.get_pixel(1, 400, &[true; 9]), TilePixel::Neutral);
    assert_eq!(block.get_pixel(1, usize::MAX, &[]), TilePixel::Neutral);
    assert_eq!(block.get_pixel(9, 5, &[true, false]), TilePixel::Neutral);
}

#[test]
fn block_looks_its_slots_up_in_the_repeat_table() {
    let block = sentinel_block(vec![2, 0, 1]);
    assert_eq!(block.layer_of(0), Some(0));
    assert_eq!(block.layer_of(1), Some(0));
    assert_eq!(block.layer_of(2), Some(2));
    assert_eq!(block.layer_of(3), None);
}

#[test]
fn block_without_slots_is_neutral_everywhere() {
    let block = sentinel_block(Vec::new());
    for rpos in [0, 10, 199, 399] {
        assert_eq!(block.get_pixel(0, rpos, &[true; 9]), TilePixel::Neutral);
    }
}

#[test]
fn block_every_slot_in_range_draws_the_same_grids() {
    let block = sentinel_block(vec![2, 1]);
    let neighbors = [true, false, true, true, true, false, false, false, true];
    for rpos in [0, 1, 10, 11, 210, 211, 200, 201] {
        let first = block.get_pixel(0, rpos, &neighbors);
        assert_eq!(block.get_pixel(1, rpos, &neighbors), first);
        assert_eq!(block.get_pixel(2, rpos, &neighbors), first);
    }
}

#[test]
fn block_quadrant_zero_takes_each_of_its_five_branches() {
    let block = sentinel_block(vec![1]);
    let cases: [([bool; 3], usize); 6] = [
        ([true, true, true], 4),
        ([true, false, true], 3),
        ([true, true, false], 2),
        ([false, true, true], 1),
        ([false, true, false], 0),
        ([false, false, false], 0),
    ];
    for (window, want) in cases {
        let mut neighbors = [false; 9];
        neighbors[0] = window[0];
        neighbors[1] = window[1];
        neighbors[2] = window[2];
        assert_eq!(variant_read(&block, 0, &neighbors), want);
    }
}

#[test]
fn block_all_neighbors_select_the_last_grid_in_every_quadrant() {
    let block = sentinel_block(vec![1]);
    for base in [0, 10, 210, 200] {
        assert_eq!(variant_read(&block, base, &[true; 9]), 4);
        assert_eq!(variant_read(&block, base, &[false; 9]), 0);
    }
}

#[test]
fn block_quadrant_reads_the_window_at_twice_its_index() {
    let block = sentinel_block(vec![1]);
    // quadrant 1 (top right) reads flags 2, 3, 4: vertical, diagonal, horizontal
    let mut neighbors = [false; 9];
    neighbors[4] = true;
    assert_eq!(variant_read(&block, 10, &neighbors), 2);
    neighbors = [false; 9];
    neighbors[2] = true;
    assert_eq!(variant_read(&block, 10, &neighbors), 1);
    // quadrant 2 (bottom right) reads flags 4, 5, 6: horizontal, diagonal, vertical
    neighbors = [false; 9];
    neighbors[4] = true;
    assert_eq!(variant_read(&block, 210, &neighbors), 2);
    neighbors[6] = true;
    assert_eq!(variant_read(&block, 210, &neighbors), 3);
    neighbors[5] = true;
    assert_eq!(variant_read(&block, 210, &neighbors), 4);
    // quadrant 3 (bottom left) reads flags 6, 7, 8: vertical, diagonal, horizontal
    neighbors = [false; 9];
    neighbors[8] = true;
    assert_eq!(variant_read(&block, 200, &neighbors), 2);
    neighbors = [false; 9];
    neighbors[6] = true;
    assert_eq!(variant_read(&block, 200, &neighbors), 1);
    neighbors = [false; 9];
    neighbors[7] = true;
    assert_eq!(variant_read(&block, 200, &neighbors), 0);
}

#[test]
fn block_position_splits_into_quadrant_and_local_index() {
    // each quadrant's first grid holds one marked pixel, at a place of its own
    let marks = [(3usize, 4usize), (9, 0), (0, 9), (5, 5)];
    let mut quadrants = Vec::new();
    for (quadrant, (lx, ly)) in marks.iter().enumerate() {
        let mut grids: Vec<TileLayer> =
            (0..5).map(|_| TileLayer { colors: vec![TilePixel::Absent; 100] }).collect();
        grids[0].colors[lx + ly * 10] = TilePixel::Down;
        quadrants.push(SubTile::new(quadrant, grids).unwrap());
    }
    let block = BlockMaterial::new(quadrants, &vec![1]).unwrap();
    let origin = [(0usize, 0usize), (10, 0), (10, 10), (0, 10)];
    for rpos in 0..400 {
        let (x, y) = (rpos % 20, rpos / 20);
        let marked = (0..4).any(|q| (x, y) == (origin[q].0 + marks[q].0, origin[q].1 + marks[q].1));
        let want = if marked { TilePixel::Down } else { TilePixel::Absent };
        assert_eq!(block.get_pixel(0, rpos, &[false; 9]), want);
    }
}

fn atlas_pixel(quadrant: usize, variant: usize, local: usize) -> TilePixel {
    KINDS[(quadrant + 3 * variant + local + local / 10) % 4]
}

fn atlas() -> Vec<TilePixel> {
    let mut pixels = vec![TilePixel::Absent; 2000];
    for quadrant in 0..4 {
        for variant in 0..5 {
            for local in 0..100 {
                let (lx, ly) = (local % 10, local / 10);
                pixels[quadrant * 500 + variant * 10 + lx + ly * 50] =
                    atlas_pixel(quadrant, variant, local);
            }
        }
    }
    pixels
}

#[test]
fn material_is_cut_out_of_its_atlas() {
    let meta = MaterialMeta { name: String::from("stone"), layer_repeats: vec![1, 1] };
    let material: Material = Material::from_image(&encode(&atlas()), &meta).unwrap();
    let windows: [[bool; 3]; 5] = [
        [false, false, false],
        [false, false, true],
        [true, false, false],
        [true, false, true],
        [true, true, true],
    ];
    let origin = [(0usize, 0usize), (10, 0), (10, 10), (0, 10)];
    for quadrant in 0..4 {
        for (picked, window) in windows.iter().enumerate() {
            // odd quadrants read the window the other way round
            let variant = match (quadrant % 2, picked) {
                (1, 1) => 2,
                (1, 2) => 1,
                _ => picked,
            };
            let mut neighbors = [false; 9];
            neighbors[2 * quadrant..2 * quadrant + 3].copy_from_slice(window);
            for local in 0..100 {
                let x = origin[quadrant].0 + local % 10;
                let y = origin[quadrant].1 + local / 10;
                assert_eq!(
                    material.block.get_pixel(1, x + y * 20, &neighbors),
                    atlas_pixel(quadrant, variant, local)
                );
            }
        }
    }
    assert_eq!(material.block.get_pixel(2, 0, &[false; 9]), TilePixel::Neutral);
}

#[test]
fn material_rejects_a_bad_pixel() {
    let mut bytes = encode(&atlas());
    bytes[4 * 1234 + 3] = 1;
    let meta = MaterialMeta::default();
    assert_eq!(Material::from_image(&bytes, &meta).err(), Some(DecodeError::UnrecognizedPixel));
}

#[test]
fn material_rejects_a_torn_strip() {
    let meta = MaterialMeta::default();
    let short = encode(&vec![TilePixel::Up; 1999]);
    assert_eq!(Material::from_image(&short, &meta).err(), Some(DecodeError::PartialChunk));
    let mut torn = encode(&atlas());
    torn.pop();
    assert_eq!(Material::from_image(&torn, &meta).err(), Some(DecodeError::PartialChunk));
}

#[test]
fn material_rejects_another_number_of_strips() {
    let meta = MaterialMeta::default();
    for strips in [0usize, 1, 3, 5] {
        let bytes = encode(&vec![TilePixel::Up; 500 * strips]);
        assert_eq!(Material::from_image(&bytes, &meta).err(), Some(DecodeError::WrongExtent));
    }
}

#[test]
fn material_meta_defaults_to_nothing() {
    let meta = MaterialMeta::default();
    assert!(meta.name.is_empty());
    assert!(meta.layer_repeats.is_empty());
}
