use kanban_tui::page_size::{
    get_conservative_page_size, get_effective_page_size, get_stable_page_size, ColumnBoundary,
    ListPosition, PageLayout,
};

fn grouped() -> PageLayout {
    PageLayout::GroupedByColumn(vec![
        ColumnBoundary { start_index: 0, card_count: 5 },
        ColumnBoundary { start_index: 5, card_count: 10 },
        ColumnBoundary { start_index: 15, card_count: 3 },
        ColumnBoundary { start_index: 18, card_count: 20 },
    ])
}

#[test]
fn stable_page_size() {
    assert_eq!(get_stable_page_size(20, &PageLayout::Flat), 18);
    assert_eq!(get_stable_page_size(20, &PageLayout::OtherUnified), 18);
    assert_eq!(get_stable_page_size(20, &grouped()), 14);
    assert_eq!(get_stable_page_size(1, &PageLayout::Flat), 0);
    assert_eq!(get_stable_page_size(5, &grouped()), 0);
}

#[test]
fn conservative_page_size() {
    let top = Some(ListPosition { scroll_offset: 0, len: 40 });
    let middle = Some(ListPosition { scroll_offset: 6, len: 40 });
    // At the top, the headers of columns 0 and 1 overlap 10 rows, plus one indicator.
    assert_eq!(get_conservative_page_size(10, &grouped(), top), 7);
    // From row 6, columns 1, 2 and 3 overlap, plus two indicators.
    assert_eq!(get_conservative_page_size(20, &grouped(), middle), 15);
    assert_eq!(get_conservative_page_size(20, &grouped(), None), 15);
    assert_eq!(get_conservative_page_size(20, &PageLayout::OtherUnified, middle), 18);
    assert_eq!(get_conservative_page_size(20, &PageLayout::Flat, middle), 18);
    assert_eq!(get_conservative_page_size(20, &PageLayout::Flat, top), 19);
    assert_eq!(get_conservative_page_size(20, &PageLayout::Flat, None), 18);
    assert_eq!(get_conservative_page_size(1, &PageLayout::Flat, None), 0);
}

#[test]
fn effective_page_size() {
    let top = Some(ListPosition { scroll_offset: 0, len: 40 });
    let end = Some(ListPosition { scroll_offset: 30, len: 40 });
    assert_eq!(get_effective_page_size(10, &PageLayout::Flat, top), 9);
    assert_eq!(get_effective_page_size(10, &PageLayout::Flat, end), 9);
    assert_eq!(
        get_effective_page_size(10, &PageLayout::Flat, Some(ListPosition { scroll_offset: 5, len: 40 })),
        8
    );
    assert_eq!(get_effective_page_size(10, &PageLayout::OtherUnified, top), 10);
    assert_eq!(get_effective_page_size(10, &PageLayout::Flat, None), 10);
    assert_eq!(get_effective_page_size(10, &grouped(), top), 7);
    assert_eq!(get_effective_page_size(2, &grouped(), top), 0);
}
