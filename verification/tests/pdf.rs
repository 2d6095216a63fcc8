use pignote::pdf::{
    crop_bottom, crop_page, crop_pages, effective_media_rect, points, read_rect, write_rect, BoxEdit,
    BoxEntry, BoxValue, PageBoxes, Rect, DEFAULT_HEIGHT, DEFAULT_WIDTH, UNITS_PER_POINT,
};

fn rect(llx: i32, lly: i32, urx: i32, ury: i32) -> Rect {
    Rect { llx: points(llx), lly: points(lly), urx: points(urx), ury: points(ury) }
}

fn array(values: &[i32]) -> BoxValue {
    BoxValue::Array(values.iter().map(|v| BoxEntry::Number(points(*v))).collect())
}

fn uniform(r: Rect) -> BoxEdit {
    BoxEdit { media_box: r, crop_box: r, trim_box: r, bleed_box: r, art_box: r }
}

#[test]
fn points_are_a_million_units() {
    assert_eq!(UNITS_PER_POINT, 1_000_000);
    assert_eq!(points(140), 140_000_000);
    assert_eq!(points(-1), -1_000_000);
    assert_eq!(points(i32::MAX), 2_147_483_647_000_000);
    assert_eq!(DEFAULT_WIDTH, points(595));
    assert_eq!(DEFAULT_HEIGHT, points(842));
}

#[test]
fn single_page_is_cropped_in_all_five_boxes() {
    let page = PageBoxes { media_box: Some(array(&[0, 0, 595, 842])), parent_media_box: None };
    let edit = crop_page(&page, points(140)).unwrap();
    let expected = rect(0, 140, 595, 842);
    assert_eq!(edit.media_box, expected);
    assert_eq!(edit.crop_box, expected);
    assert_eq!(edit.trim_box, expected);
    assert_eq!(edit.bleed_box, expected);
    assert_eq!(edit.art_box, expected);
}

#[test]
fn crop_beyond_the_page_stops_one_point_under_the_top() {
    assert_eq!(crop_bottom(rect(0, 0, 595, 842), points(5000)), rect(0, 841, 595, 842));
    assert_eq!(crop_bottom(rect(0, 0, 595, 842), points(841)), rect(0, 841, 595, 842));
    assert_eq!(crop_bottom(rect(0, 0, 595, 842), points(840)), rect(0, 840, 595, 842));
    assert_eq!(crop_bottom(rect(0, 0, 595, 842), i64::MAX), rect(0, 841, 595, 842));
}

#[test]
fn negative_crop_counts_as_none() {
    assert_eq!(crop_bottom(rect(0, 10, 595, 842), points(-30)), rect(0, 10, 595, 842));
    assert_eq!(crop_bottom(rect(0, 10, 595, 842), 0), rect(0, 10, 595, 842));
}

#[test]
fn lower_edge_above_the_ceiling_comes_down_to_it() {
    assert_eq!(crop_bottom(rect(0, 900, 595, 842), points(10)), rect(0, 841, 595, 842));
}

#[test]
fn fractions_of_a_point_are_kept() {
    let r = Rect { llx: 0, lly: 500_000, urx: 594_959_961, ury: 841_919_983 };
    assert_eq!(
        crop_bottom(r, 140_250_000),
        Rect { llx: 0, lly: 140_750_000, urx: 594_959_961, ury: 841_919_983 }
    );
}

#[test]
fn the_ends_of_the_number_range_are_held() {
    let low = Rect { llx: 0, lly: i64::MIN, urx: 0, ury: i64::MIN };
    assert_eq!(crop_bottom(low, 5).lly, i64::MIN);
    let high = Rect { llx: 0, lly: i64::MAX, urx: 0, ury: i64::MAX };
    assert_eq!(crop_bottom(high, i64::MAX).lly, i64::MAX - UNITS_PER_POINT);
}

#[test]
fn own_media_box_comes_before_the_parents() {
    let page = PageBoxes {
        media_box: Some(array(&[0, 0, 100, 200])),
        parent_media_box: Some(array(&[0, 0, 300, 400])),
    };
    assert_eq!(effective_media_rect(&page), Some(rect(0, 0, 100, 200)));
}

#[test]
fn parents_media_box_is_inherited() {
    let page = PageBoxes { media_box: None, parent_media_box: Some(array(&[10, 20, 300, 400])) };
    assert_eq!(effective_media_rect(&page), Some(rect(10, 20, 300, 400)));
    assert_eq!(crop_page(&page, points(140)), Some(uniform(rect(10, 160, 300, 400))));
}

#[test]
fn default_media_box_is_a4() {
    let page = PageBoxes { media_box: None, parent_media_box: None };
    assert_eq!(effective_media_rect(&page), Some(rect(0, 0, 595, 842)));
    assert_eq!(crop_page(&page, points(140)), Some(uniform(rect(0, 140, 595, 842))));
}

#[test]
fn page_with_a_malformed_box_is_left_alone() {
    let short = PageBoxes { media_box: Some(array(&[0, 0, 595])), parent_media_box: Some(array(&[0, 0, 1, 2])) };
    assert_eq!(crop_page(&short, points(140)), None);
    let long = PageBoxes { media_box: Some(array(&[0, 0, 595, 842, 1])), parent_media_box: None };
    assert_eq!(crop_page(&long, points(140)), None);
    let other = PageBoxes { media_box: Some(BoxValue::Other), parent_media_box: None };
    assert_eq!(crop_page(&other, points(140)), None);
    let inherited = PageBoxes { media_box: None, parent_media_box: Some(BoxValue::Other) };
    assert_eq!(crop_page(&inherited, points(140)), None);
}

#[test]
fn entries_that_are_no_numbers_take_the_defaults() {
    let value = BoxValue::Array(vec![BoxEntry::Other, BoxEntry::Other, BoxEntry::Other, BoxEntry::Other]);
    assert_eq!(read_rect(&value), Some(rect(0, 0, 595, 842)));
    let mixed = BoxValue::Array(vec![
        BoxEntry::Number(points(5)),
        BoxEntry::Other,
        BoxEntry::Number(points(100)),
        BoxEntry::Other,
    ]);
    assert_eq!(read_rect(&mixed), Some(rect(5, 0, 100, 842)));
}

#[test]
fn every_page_is_decided_on_its_own() {
    let pages = vec![
        PageBoxes { media_box: Some(array(&[0, 0, 595, 842])), parent_media_box: None },
        PageBoxes { media_box: Some(BoxValue::Other), parent_media_box: None },
        PageBoxes { media_box: None, parent_media_box: Some(array(&[0, 0, 612, 792])) },
    ];
    assert_eq!(
        crop_pages(&pages, points(140)),
        vec![Some(uniform(rect(0, 140, 595, 842))), None, Some(uniform(rect(0, 140, 612, 792)))]
    );
    assert_eq!(crop_pages(&Vec::new(), points(140)), Vec::new());
}

#[test]
fn written_box_reads_back() {
    let r = rect(1, 2, 3, 4);
    let value = write_rect(r);
    assert_eq!(
        value,
        BoxValue::Array(vec![
            BoxEntry::Number(points(1)),
            BoxEntry::Number(points(2)),
            BoxEntry::Number(points(3)),
            BoxEntry::Number(points(4)),
        ])
    );
    assert_eq!(read_rect(&value), Some(r));
    let page = PageBoxes { media_box: Some(value), parent_media_box: Some(array(&[0, 0, 9, 9])) };
    assert_eq!(effective_media_rect(&page), Some(r));
}
