use depth_analyzer::config::{check_threshold, ImageConfig, ModelProximityColor, Pixel, PixelGrid};
use depth_analyzer::{is_supported_extension, DangerSectors, Instruction};

fn px(r: u8, g: u8, b: u8) -> Pixel {
    Pixel { r, g, b, a: 255 }
}

/// A grid of the given size whose every pixel has the same channels.
fn solid_grid(width: u32, height: u32, p: Pixel) -> PixelGrid {
    let n = (width as usize) * (height as usize);
    let mut pixels = Vec::new();
    for _ in 0..n {
        pixels.push(p);
    }
    PixelGrid::new(width, height, pixels).unwrap()
}

/// A one-row grid of width 30 whose sectors (columns 0..10, 10..20, 20..30)
/// hold the given numbers of near pixels (red 255) at the start of each
/// sector, far pixels (all channels 0) elsewhere.
fn sector_grid(left_near: u32, center_near: u32, right_near: u32) -> PixelGrid {
    let mut pixels = Vec::new();
    for sector_near in [left_near, center_near, right_near] {
        for x in 0..10 {
            if x < sector_near {
                pixels.push(px(255, 0, 0));
            } else {
                pixels.push(px(0, 0, 0));
            }
        }
    }
    PixelGrid::new(30, 1, pixels).unwrap()
}

fn classify(grid: PixelGrid, color: ModelProximityColor, threshold: u8) -> DangerSectors {
    let mut config = ImageConfig { proximity_color: color, threshold, img: Some(grid) };
    let mut sectors = DangerSectors::new();
    sectors.analyze(&mut config);
    assert!(config.img.is_none());
    sectors
}

#[test]
fn all_dark_goes_forward() {
    let sectors = classify(solid_grid(30, 2, px(0, 0, 0)), ModelProximityColor::RED, 150);
    assert_eq!(sectors.left, (0, 20));
    assert_eq!(sectors.center, (0, 20));
    assert_eq!(sectors.right, (0, 20));
    assert_eq!(Instruction::Forward, sectors.get_instruction());
}

#[test]
fn all_bright_stops_red_mode() {
    let sectors = classify(solid_grid(30, 2, px(255, 255, 255)), ModelProximityColor::RED, 150);
    assert_eq!(sectors.left, (20, 20));
    assert_eq!(sectors.center, (20, 20));
    assert_eq!(sectors.right, (20, 20));
    assert_eq!(Instruction::Stop, sectors.get_instruction());
}

#[test]
fn all_bright_stops_white_mode() {
    let sectors = classify(solid_grid(30, 2, px(255, 255, 255)), ModelProximityColor::WHITE, 150);
    assert_eq!(Instruction::Stop, sectors.get_instruction());
}

#[test]
fn bright_left_third_still_goes_forward() {
    let sectors = classify(sector_grid(10, 0, 0), ModelProximityColor::RED, 150);
    assert_eq!(sectors.left, (10, 10));
    assert_eq!(sectors.center, (0, 10));
    assert_eq!(sectors.right, (0, 10));
    assert_eq!(Instruction::Forward, sectors.get_instruction());
}

#[test]
fn clearer_right_goes_right() {
    // ratios: left 0.9, center 0.6, right 0.3
    let sectors = classify(sector_grid(9, 6, 3), ModelProximityColor::RED, 150);
    assert_eq!(Instruction::Right, sectors.get_instruction());
}

#[test]
fn clearer_left_goes_left() {
    // ratios: left 0.2, center 0.6, right 0.7
    let sectors = classify(sector_grid(2, 6, 7), ModelProximityColor::RED, 150);
    assert_eq!(Instruction::Left, sectors.get_instruction());
}

#[test]
fn three_way_tie_below_half_goes_forward() {
    // every ratio 0.4
    let sectors = classify(sector_grid(4, 4, 4), ModelProximityColor::RED, 150);
    assert_eq!(Instruction::Forward, sectors.get_instruction());
}

#[test]
fn three_way_tie_at_half_stops() {
    // every ratio exactly 0.5: the Stop rule takes precedence over the tie
    let sectors = classify(sector_grid(5, 5, 5), ModelProximityColor::RED, 150);
    assert_eq!(Instruction::Stop, sectors.get_instruction());
}

#[test]
fn empty_image_goes_forward() {
    // a sector with no pixels counts as ratio 0, so an empty image is all clear
    let sectors = classify(solid_grid(0, 0, px(0, 0, 0)), ModelProximityColor::RED, 150);
    assert_eq!(sectors.left, (0, 0));
    assert_eq!(sectors.center, (0, 0));
    assert_eq!(sectors.right, (0, 0));
    assert_eq!(Instruction::Forward, sectors.get_instruction());
}

#[test]
fn width_one_image_lands_in_right_sector() {
    // width 1: the integer-division boundaries collapse and every column
    // falls in the right sector
    let sectors = classify(solid_grid(1, 3, px(255, 0, 0)), ModelProximityColor::RED, 150);
    assert_eq!(sectors.left, (0, 0));
    assert_eq!(sectors.center, (0, 0));
    assert_eq!(sectors.right, (3, 3));
    assert_eq!(Instruction::Forward, sectors.get_instruction());
}

#[test]
fn width_two_image_splits_center_right() {
    // width 2: column 0 is center, column 1 is right
    let sectors = classify(solid_grid(2, 2, px(255, 0, 0)), ModelProximityColor::RED, 150);
    assert_eq!(sectors.left, (0, 0));
    assert_eq!(sectors.center, (2, 2));
    assert_eq!(sectors.right, (2, 2));
}

#[test]
fn totals_cover_the_image() {
    let sectors = classify(sector_grid(9, 6, 3), ModelProximityColor::RED, 150);
    assert_eq!(sectors.left.1 + sectors.center.1 + sectors.right.1, 30);
    assert!(sectors.left.0 <= sectors.left.1);
    assert!(sectors.center.0 <= sectors.center.1);
    assert!(sectors.right.0 <= sectors.right.1);
}

#[test]
fn accumulation_adds_to_existing_tallies() {
    let mut config = ImageConfig {
        proximity_color: ModelProximityColor::RED,
        threshold: 150,
        img: Some(sector_grid(9, 6, 3)),
    };
    let mut sectors = DangerSectors::new();
    sectors.analyze(&mut config);
    config.img = Some(sector_grid(1, 2, 3));
    sectors.analyze(&mut config);
    assert_eq!(sectors.left, (10, 20));
    assert_eq!(sectors.center, (8, 20));
    assert_eq!(sectors.right, (6, 20));
}

#[test]
fn raising_threshold_cannot_raise_near_counts() {
    let mut mixed = Vec::new();
    for x in 0..30u32 {
        mixed.push(px((8 * x) as u8, 0, 0));
    }
    let grid = |v: &Vec<Pixel>| PixelGrid::new(30, 1, v.clone()).unwrap();
    let low = classify(grid(&mixed), ModelProximityColor::RED, 100);
    let high = classify(grid(&mixed), ModelProximityColor::RED, 200);
    assert!(high.left.0 <= low.left.0);
    assert!(high.center.0 <= low.center.0);
    assert!(high.right.0 <= low.right.0);
    // and the raise really bites somewhere on this image
    assert!(high.left.0 + high.center.0 + high.right.0 < low.left.0 + low.center.0 + low.right.0);
}

#[test]
fn threshold_is_inclusive() {
    assert!(check_threshold(&ModelProximityColor::RED, 150, &px(150, 0, 0)));
    assert!(!check_threshold(&ModelProximityColor::RED, 150, &px(149, 0, 0)));
}

#[test]
fn white_mode_needs_all_three_channels() {
    assert!(check_threshold(&ModelProximityColor::WHITE, 200, &px(210, 220, 230)));
    assert!(!check_threshold(&ModelProximityColor::WHITE, 200, &px(255, 255, 100)));
    assert!(!check_threshold(&ModelProximityColor::WHITE, 200, &px(100, 255, 255)));
}

#[test]
fn red_mode_ignores_green_and_blue() {
    assert!(check_threshold(&ModelProximityColor::RED, 150, &px(200, 0, 0)));
    assert!(!check_threshold(&ModelProximityColor::RED, 150, &px(0, 255, 255)));
}

#[test]
fn pixel_grid_rejects_wrong_length() {
    assert!(PixelGrid::new(2, 2, vec![px(0, 0, 0); 3]).is_none());
    assert!(PixelGrid::new(2, 2, vec![px(0, 0, 0); 4]).is_some());
    assert!(PixelGrid::new(0, 5, Vec::new()).is_some());
}

#[test]
fn instruction_words_match_output_surface() {
    assert_eq!("FORWARD", Instruction::Forward.text());
    assert_eq!("LEFT", Instruction::Left.text());
    assert_eq!("RIGHT", Instruction::Right.text());
    assert_eq!("STOP", Instruction::Stop.text());
}

#[test]
fn supported_extensions_are_exactly_four() {
    assert!(is_supported_extension("png"));
    assert!(is_supported_extension("jpg"));
    assert!(is_supported_extension("jpeg"));
    assert!(is_supported_extension("webp"));
    assert!(!is_supported_extension("txt"));
    assert!(!is_supported_extension("PNG"));
    assert!(!is_supported_extension(""));
    assert!(!is_supported_extension("pngx"));
}
