use mandelbrot_explorer::color_map;

#[test]
fn inside_the_set_is_black() {
    assert_eq!(color_map(1000, 1000), 0x000000);
    assert_eq!(color_map(1, 1), 0x000000);
    assert_eq!(color_map(7, 7), 0x000000);
    assert_eq!(color_map(u32::MAX, u32::MAX), 0x000000);
}

#[test]
fn zero_count_is_pure_red() {
    assert_eq!(color_map(0, 1000), 0xFF0000);
    assert_eq!(color_map(0, 1), 0xFF0000);
}

#[test]
fn first_sector_raises_green() {
    assert_eq!(color_map(1, 1000), 0xFF0100);
    assert_eq!(color_map(100, 1000), 0xFF9900);
    assert_eq!(color_map(166, 1000), 0xFFFD00);
}

#[test]
fn second_sector_lowers_red() {
    assert_eq!(color_map(167, 1000), 0xFEFF00);
    assert_eq!(color_map(250, 1000), 0x7FFF00);
    assert_eq!(color_map(300, 1000), 0x33FF00);
}

#[test]
fn sector_boundaries_give_primaries_and_secondaries() {
    assert_eq!(color_map(1, 3), 0x00FF00);
    assert_eq!(color_map(2, 3), 0x0000FF);
    assert_eq!(color_map(1, 2), 0x00FFFF);
    assert_eq!(color_map(500, 1000), 0x00FFFF);
}

#[test]
fn later_sectors() {
    assert_eq!(color_map(333, 1000), 0x00FF00);
    assert_eq!(color_map(600, 1000), 0x0066FF);
    assert_eq!(color_map(750, 1000), 0x7F00FF);
    assert_eq!(color_map(999, 1000), 0xFF0001);
}

#[test]
fn largest_cap() {
    assert_eq!(color_map(u32::MAX - 1, u32::MAX), 0xFF0000);
}

#[test]
fn same_counts_give_the_same_row() {
    let counts: Vec<u32> = vec![0, 1, 250, 500, 999, 1000];
    let first: Vec<u32> = counts.iter().map(|&n| color_map(n, 1000)).collect();
    let second: Vec<u32> = counts.iter().map(|&n| color_map(n, 1000)).collect();
    assert_eq!(first, second);
}
