use term_dash::layout::{centered_band, centered_rect, centered_shares, middle_of, Area, Axis};

#[test]
fn shares_split_the_rest_in_halves() {
    assert_eq!(centered_shares(60), (20, 60, 20));
    assert_eq!(centered_shares(50), (25, 50, 25));
    assert_eq!(centered_shares(55), (22, 55, 22));
    assert_eq!(centered_shares(100), (0, 100, 0));
    assert_eq!(centered_shares(0), (50, 0, 50));
}

#[test]
fn middle_is_the_second_of_three() {
    let parts = vec![
        Area { x: 0, y: 0, width: 4, height: 1 },
        Area { x: 0, y: 1, width: 4, height: 2 },
        Area { x: 0, y: 3, width: 4, height: 1 },
    ];
    assert_eq!(middle_of(&parts), Area { x: 0, y: 1, width: 4, height: 2 });
}

#[test]
fn popup_sits_in_the_middle_of_the_screen() {
    let screen = Area { x: 0, y: 0, width: 100, height: 40 };
    assert_eq!(centered_rect(60, 50, screen), Area { x: 20, y: 10, width: 60, height: 20 });
}

#[test]
fn band_spans_the_area_across_the_cut() {
    let screen = Area { x: 3, y: 5, width: 80, height: 24 };
    let rows = centered_band(Axis::Vertical, 50, screen);
    assert_eq!((rows.x, rows.width), (3, 80));
    assert_eq!((rows.y, rows.height), (11, 12));
    let columns = centered_band(Axis::Horizontal, 50, screen);
    assert_eq!((columns.y, columns.height), (5, 24));
    assert_eq!((columns.x, columns.width), (23, 40));
}

#[test]
fn whole_share_gives_the_whole_area() {
    let screen = Area { x: 2, y: 1, width: 30, height: 10 };
    assert_eq!(centered_rect(100, 100, screen), screen);
}

fn within(area: Area, part: Area) -> bool {
    area.x <= part.x
        && part.x as u32 + part.width as u32 <= area.x as u32 + area.width as u32
        && area.y <= part.y
        && part.y as u32 + part.height as u32 <= area.y as u32 + area.height as u32
}

#[test]
fn popup_lies_within_the_screen() {
    for (x, y) in [(0u16, 0u16), (3, 7), (65000, 65500)] {
        for width in [0u16, 1, 2, 3, 7, 10, 33, 80, 101, 200, 1000] {
            for height in [0u16, 1, 2, 5, 24, 37, 50, 999] {
                for percent in [0u16, 1, 10, 33, 50, 55, 60, 99, 100] {
                    let screen = Area { x, y, width, height };
                    let popup = centered_rect(percent, 100 - percent, screen);
                    assert!(within(screen, popup), "{:?} in {:?}", popup, screen);
                }
            }
        }
    }
}

#[test]
fn bands_lie_within_the_area_and_span_it() {
    for width in [0u16, 1, 4, 9, 80, 121] {
        for height in [0u16, 1, 3, 24, 77] {
            for percent in [0u16, 7, 50, 93, 100] {
                let area = Area { x: 11, y: 2, width, height };
                let rows = centered_band(Axis::Vertical, percent, area);
                assert!(within(area, rows));
                assert_eq!((rows.x, rows.width), (area.x, area.width));
                let columns = centered_band(Axis::Horizontal, percent, area);
                assert!(within(area, columns));
                assert_eq!((columns.y, columns.height), (area.y, area.height));
            }
        }
    }
}
