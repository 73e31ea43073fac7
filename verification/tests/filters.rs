use apng::filter::predict;
use apng::{filter, filter_path, unfilter, FilterType};

const METHODS: [FilterType; 5] = [
    FilterType::NoFilter,
    FilterType::Sub,
    FilterType::Up,
    FilterType::Avg,
    FilterType::Paeth,
];

fn filtered(method: FilterType, bpp: usize, previous: &[u8], row: &[u8]) -> Vec<u8> {
    let mut current = row.to_vec();
    filter(method, bpp, previous, &mut current);
    current
}

fn restored(method: FilterType, bpp: usize, previous: &[u8], row: &[u8]) -> Vec<u8> {
    let mut current = row.to_vec();
    unfilter(method, bpp, previous, &mut current);
    current
}

#[test]
fn no_filter_is_identity() {
    let row = [1u8, 200, 33, 0, 255];
    assert_eq!(filtered(FilterType::NoFilter, 1, &[9, 9, 9, 9, 9], &row), row.to_vec());
    assert_eq!(filtered(FilterType::NoFilter, 3, &[], &row), row.to_vec());
}

#[test]
fn sub_takes_left_neighbour_away() {
    assert_eq!(filtered(FilterType::Sub, 1, &[0; 4], &[10, 20, 25, 0]), vec![10, 10, 5, 231]);
    assert_eq!(
        filtered(FilterType::Sub, 3, &[0; 6], &[1, 2, 3, 4, 6, 8]),
        vec![1, 2, 3, 3, 4, 5]
    );
}

#[test]
fn sub_ignores_previous_row() {
    assert_eq!(filtered(FilterType::Sub, 2, &[], &[5, 6, 7, 8]), vec![5, 6, 2, 2]);
}

#[test]
fn sub_leaves_short_row_unchanged() {
    assert_eq!(filtered(FilterType::Sub, 4, &[0; 3], &[7, 8, 9]), vec![7, 8, 9]);
}

#[test]
fn up_takes_upper_neighbour_away() {
    assert_eq!(filtered(FilterType::Up, 1, &[1, 2, 3], &[3, 2, 1]), vec![2, 0, 254]);
    assert_eq!(filtered(FilterType::Up, 3, &[255, 0, 128], &[0, 0, 128]), vec![1, 0, 0]);
}

#[test]
fn average_halves_the_neighbours() {
    assert_eq!(filtered(FilterType::Avg, 1, &[100, 200], &[50, 250]), vec![0, 125]);
    assert_eq!(
        filtered(FilterType::Avg, 2, &[10, 21, 30, 41], &[100, 100, 100, 100]),
        vec![95, 90, 35, 30]
    );
}

#[test]
fn average_sum_wraps_before_it_is_halved() {
    // left 200 and above 100 add up to 300, which is 44 modulo 256
    assert_eq!(filtered(FilterType::Avg, 1, &[0, 100], &[200, 30]), vec![200, 8]);
    assert_eq!(predict(FilterType::Avg, 200, 100, 0), 22);
    assert_eq!(predict(FilterType::Avg, 255, 255, 0), 127);
}

#[test]
fn paeth_picks_nearest_neighbour() {
    assert_eq!(filter_path(10, 20, 15), 15);
    assert_eq!(filter_path(50, 60, 50), 60);
    assert_eq!(filter_path(255, 0, 0), 255);
    assert_eq!(filter_path(0, 255, 0), 255);
    assert_eq!(filter_path(0, 0, 255), 0);
    assert_eq!(filter_path(100, 90, 110), 90);
}

#[test]
fn paeth_ties_go_left_then_up() {
    // all three equally near
    assert_eq!(filter_path(7, 7, 7), 7);
    // left and upper left equally near, above farther: left
    assert_eq!(filter_path(0, 3, 2), 0);
    // above and upper left equally near, left farther: above
    assert_eq!(filter_path(3, 0, 2), 0);
    // left and above equally near, upper left farther
    assert_eq!(filter_path(10, 10, 20), 10);
    // upper left nearest
    assert_eq!(filter_path(4, 6, 5), 5);
}

#[test]
fn paeth_filters_a_row() {
    assert_eq!(filtered(FilterType::Paeth, 1, &[10, 20], &[30, 40]), vec![20, 10]);
    assert_eq!(
        filtered(FilterType::Paeth, 2, &[1, 2, 3, 4], &[10, 10, 10, 10]),
        vec![9, 8, 0, 0]
    );
}

#[test]
fn predictions_by_method() {
    assert_eq!(predict(FilterType::NoFilter, 1, 2, 3), 0);
    assert_eq!(predict(FilterType::Sub, 1, 2, 3), 1);
    assert_eq!(predict(FilterType::Up, 1, 2, 3), 2);
    assert_eq!(predict(FilterType::Avg, 1, 2, 3), 1);
    assert_eq!(predict(FilterType::Paeth, 10, 20, 15), 15);
}

#[test]
fn first_row_has_zeros_above() {
    let row = [9u8, 8, 7, 6];
    let zeros = [0u8; 4];
    assert_eq!(filtered(FilterType::Up, 1, &zeros, &row), row.to_vec());
    assert_eq!(filtered(FilterType::Avg, 1, &zeros, &row), vec![9, 4, 3, 3]);
    assert_eq!(filtered(FilterType::Paeth, 1, &zeros, &row), vec![9, 255, 255, 255]);
}

#[test]
fn empty_row_stays_empty() {
    for method in METHODS {
        assert_eq!(filtered(method, 3, &[], &[]), Vec::<u8>::new());
        assert_eq!(restored(method, 3, &[], &[]), Vec::<u8>::new());
    }
}

#[test]
fn row_shorter_than_a_pixel() {
    assert_eq!(filtered(FilterType::Avg, 4, &[10, 20], &[100, 100]), vec![95, 90]);
    assert_eq!(filtered(FilterType::Paeth, 4, &[10, 20], &[100, 100]), vec![90, 80]);
}

#[test]
fn unfilter_restores_every_method() {
    let previous: Vec<u8> = (0..24u32).map(|i| (i * 37 % 256) as u8).collect();
    let row: Vec<u8> = (0..24u32).map(|i| (i * 91 % 251 + 3) as u8).collect();
    for method in METHODS {
        for bpp in [1usize, 2, 3, 4, 6, 8] {
            let there = filtered(method, bpp, &previous, &row);
            assert_eq!(restored(method, bpp, &previous, &there), row);
        }
    }
}

#[test]
fn unfilter_restores_extreme_bytes() {
    let previous = [255u8, 0, 255, 0, 128, 127, 1, 254];
    let row = [0u8, 255, 255, 0, 127, 128, 254, 1];
    for method in METHODS {
        for bpp in [1usize, 2, 4, 8, 16] {
            let there = filtered(method, bpp, &previous, &row);
            assert_eq!(restored(method, bpp, &previous, &there), row.to_vec());
        }
    }
}

#[test]
fn unfilter_restores_with_longer_previous_row() {
    let previous = [3u8, 1, 4, 1, 5, 9, 2, 6];
    let row = [2u8, 7, 1, 8];
    for method in METHODS {
        let there = filtered(method, 2, &previous, &row);
        assert_eq!(restored(method, 2, &previous, &there), row.to_vec());
    }
}

#[test]
fn unfilter_adds_prediction() {
    assert_eq!(restored(FilterType::Sub, 1, &[0; 4], &[10, 10, 5, 231]), vec![10, 20, 25, 0]);
    assert_eq!(restored(FilterType::Up, 1, &[1, 2, 3], &[2, 0, 254]), vec![3, 2, 1]);
    assert_eq!(restored(FilterType::Avg, 1, &[100, 200], &[0, 125]), vec![50, 250]);
    assert_eq!(restored(FilterType::Paeth, 1, &[10, 20], &[20, 10]), vec![30, 40]);
}

#[test]
fn unfilter_counts_missing_previous_bytes_as_zero() {
    assert_eq!(restored(FilterType::Up, 1, &[1], &[5, 5]), vec![6, 5]);
}

#[test]
fn filter_codes() {
    assert_eq!(FilterType::NoFilter.code(), 0);
    assert_eq!(FilterType::Sub.code(), 1);
    assert_eq!(FilterType::Up.code(), 2);
    assert_eq!(FilterType::Avg.code(), 3);
    assert_eq!(FilterType::Paeth.code(), 4);
}
