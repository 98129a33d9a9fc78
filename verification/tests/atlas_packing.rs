use wgpu_triangle::atlas::{PackerModel, ShelfPacker, PACK_PADDING};

fn state(atlas_size: u32, cursor_x: u32, cursor_y: u32, row_height: u32) -> PackerModel {
    PackerModel { atlas_size, cursor_x, cursor_y, row_height }
}

#[test]
fn new_packer_is_empty() {
    let p = ShelfPacker::new(1024);
    assert_eq!(p.model(), state(1024, 0, 0, 0));
    assert_eq!(PACK_PADDING, 1);
}

#[test]
fn packs_left_to_right_with_padding() {
    let mut p = ShelfPacker::new(1024);
    assert_eq!(p.pack(10, 20), Some((0, 0)));
    assert_eq!(p.model(), state(1024, 11, 0, 21));
    assert_eq!(p.pack(5, 5), Some((11, 0)));
    assert_eq!(p.model(), state(1024, 17, 0, 21));
}

#[test]
fn opens_a_new_shelf_below_the_tallest() {
    let mut p = ShelfPacker::new(1024);
    assert_eq!(p.pack(10, 20), Some((0, 0)));
    assert_eq!(p.pack(5, 5), Some((11, 0)));
    assert_eq!(p.pack(1010, 3), Some((0, 21)));
    assert_eq!(p.model(), state(1024, 1011, 21, 4));
}

#[test]
fn refuses_bitmaps_larger_than_the_atlas() {
    let mut p = ShelfPacker::new(1024);
    assert_eq!(p.pack(1024, 0), None);
    assert_eq!(p.pack(0, 1024), None);
    assert_eq!(p.model(), state(1024, 0, 0, 0));
    assert_eq!(p.pack(1023, 1023), Some((0, 0)));
    assert_eq!(p.model(), state(1024, 1024, 0, 1024));
}

#[test]
fn failed_request_still_opens_the_shelf() {
    let mut p = ShelfPacker::new(10);
    assert_eq!(p.pack(4, 4), Some((0, 0)));
    assert_eq!(p.pack(4, 4), Some((5, 0)));
    assert_eq!(p.pack(0, 0), Some((0, 5)));
    assert_eq!(p.model(), state(10, 1, 5, 1));
    assert_eq!(p.pack(4, 4), Some((1, 5)));
    assert_eq!(p.model(), state(10, 6, 5, 5));
    assert_eq!(p.pack(4, 4), None);
    assert_eq!(p.model(), state(10, 0, 10, 0));
    assert_eq!(p.pack(0, 0), None);
}

#[test]
fn packed_rectangles_never_overlap() {
    let mut p = ShelfPacker::new(64);
    let sizes: Vec<(u32, u32)> = vec![(7, 3), (20, 9), (30, 2), (1, 1), (40, 12), (5, 30), (62, 4), (10, 10), (3, 3), (50, 5)];
    let mut placed: Vec<(u32, u32, u32, u32)> = Vec::new();
    for (w, h) in sizes {
        if let Some((x, y)) = p.pack(w, h) {
            assert!(x + w + 1 <= 64 && y + h + 1 <= 64);
            placed.push((x, y, w + 1, h + 1));
        }
    }
    assert!(placed.len() >= 6);
    for i in 0..placed.len() {
        for j in (i + 1)..placed.len() {
            let a = placed[i];
            let b = placed[j];
            let apart = a.0 + a.2 <= b.0 || b.0 + b.2 <= a.0 || a.1 + a.3 <= b.1 || b.1 + b.3 <= a.1;
            assert!(apart, "{:?} overlaps {:?}", a, b);
        }
    }
}
