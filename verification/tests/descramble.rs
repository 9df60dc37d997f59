use manga_sources::gigaviewer::imp::{
    descramble, page_geometry, process_page_image, tile_moves, tile_side, Image, Rect, TileMove,
};
use manga_sources::model::SourceError;

fn context(width: &str, height: &str) -> Option<Vec<(String, String)>> {
    Some(vec![
        ("width".to_string(), width.to_string()),
        ("height".to_string(), height.to_string()),
    ])
}

fn tiled_image(width: usize, height: usize) -> Image {
    let tw = width / 32 * 8;
    let th = height / 32 * 8;
    let mut rows = Vec::new();
    for y in 0..height {
        let mut row = Vec::new();
        for x in 0..width {
            if tw > 0 && th > 0 && x < 4 * tw && y < 4 * th {
                row.push(((y / th) * 4 + x / tw) as u32);
            } else {
                row.push(1000 + (y * width + x) as u32);
            }
        }
        rows.push(row);
    }
    Image { width, height, rows }
}

#[test]
fn tile_sides_round_down_to_multiples_of_eight() {
    assert_eq!(tile_side(0), 0);
    assert_eq!(tile_side(31), 0);
    assert_eq!(tile_side(32), 8);
    assert_eq!(tile_side(63), 8);
    assert_eq!(tile_side(64), 16);
    assert_eq!(tile_side(844), 208);
    assert_eq!(tile_side(1200), 296);
}

#[test]
fn tile_moves_transpose_the_grid() {
    let moves = tile_moves(64, 96);
    assert_eq!(moves.len(), 16);
    for e in 0..16u64 {
        let dst_e = (e % 4) * 4 + e / 4;
        let expected = TileMove {
            src: Rect { x: (e % 4) * 16, y: (e / 4) * 24, width: 16, height: 24 },
            dst: Rect { x: (dst_e % 4) * 16, y: (dst_e / 4) * 24, width: 16, height: 24 },
        };
        assert_eq!(moves[e as usize], expected);
    }
    assert_eq!(
        moves[1],
        TileMove {
            src: Rect { x: 16, y: 0, width: 16, height: 24 },
            dst: Rect { x: 0, y: 24, width: 16, height: 24 },
        }
    );
}

#[test]
fn tile_moves_are_a_permutation_of_the_grid() {
    let moves = tile_moves(128, 128);
    let mut seen = vec![false; 16];
    for m in &moves {
        let index = (m.dst.y / 32 * 4 + m.dst.x / 32) as usize;
        assert!(!seen[index]);
        seen[index] = true;
    }
    assert!(seen.iter().all(|s| *s));
}

#[test]
fn descramble_moves_every_tile_colour_to_its_destination() {
    let image = tiled_image(64, 96);
    let out = descramble(&image);
    assert_eq!(out.width, 64);
    assert_eq!(out.height, 96);
    for e in 0..16usize {
        let dst_e = (e % 4) * 4 + e / 4;
        let dx = (dst_e % 4) * 16;
        let dy = (dst_e / 4) * 24;
        for j in 0..24 {
            for i in 0..16 {
                assert_eq!(out.rows[dy + j][dx + i], e as u32);
            }
        }
    }
}

#[test]
fn descramble_keeps_the_edges_outside_the_grid() {
    let image = tiled_image(70, 45);
    let out = descramble(&image);
    for y in 0..45 {
        for x in 0..70 {
            if x >= 64 || y >= 32 {
                assert_eq!(out.rows[y][x], image.rows[y][x]);
            }
        }
    }
    assert_eq!(out.rows[8][0], 1);
    assert_eq!(out.rows[0][16], 4);
}

#[test]
fn descramble_follows_the_tile_moves() {
    let width = 40;
    let height = 72;
    let mut rows = Vec::new();
    for y in 0..height {
        let mut row = Vec::new();
        for x in 0..width {
            row.push((y * width + x) as u32);
        }
        rows.push(row);
    }
    let image = Image { width, height, rows };
    let out = descramble(&image);
    for m in tile_moves(width as u64, height as u64) {
        for j in 0..m.src.height as usize {
            for i in 0..m.src.width as usize {
                assert_eq!(
                    out.rows[m.dst.y as usize + j][m.dst.x as usize + i],
                    image.rows[m.src.y as usize + j][m.src.x as usize + i]
                );
            }
        }
    }
}

#[test]
fn descramble_leaves_small_images_alone() {
    let image = tiled_image(31, 100);
    assert_eq!(descramble(&image), image);
    let empty = Image { width: 0, height: 0, rows: Vec::new() };
    assert_eq!(descramble(&empty), empty);
}

#[test]
fn geometry_comes_from_the_page_context() {
    assert_eq!(page_geometry(&context("844", "1200")), Ok((844, 1200)));
    assert_eq!(page_geometry(&context("abc", "-5")), Ok((0, 0)));
    assert_eq!(page_geometry(&Some(Vec::new())), Ok((0, 0)));
    assert_eq!(
        page_geometry(&None),
        Err(SourceError::Message("Missing page context".to_string()))
    );
}

#[test]
fn page_image_processing_plans_the_tile_moves() {
    assert_eq!(process_page_image(&context("64", "96")), Ok(tile_moves(64, 96)));
    assert_eq!(
        process_page_image(&None),
        Err(SourceError::Message("Missing page context".to_string()))
    );
}
