use games_archive::{GamesArchive, KeyPress, LineStyle, Region};

#[test]
fn hundred_by_twenty_area_splits_into_title_and_list() {
    let menu = GamesArchive::new();
    let area = Region { x: 0, y: 0, width: 100, height: 20 };
    let plan = menu.draw(area);
    assert_eq!(plan.title_region.height, 5);
    assert_eq!(plan.list_region.height, 15);
    assert_eq!(plan.title_region.height + plan.list_region.height, 20);
    assert_eq!(plan.title_region.y, 0);
    assert_eq!(plan.list_region.y, 5);
    assert_eq!(plan.title_region.width, 100);
    assert_eq!(plan.list_region.width, 100);
}

#[test]
fn render_twice_gives_identical_plans() {
    let menu = GamesArchive::new();
    let area = Region { x: 2, y: 3, width: 80, height: 24 };
    let first = menu.draw(area);
    let second = menu.draw(area);
    assert_eq!(first, second);
}

#[test]
fn selected_line_is_highlighted_and_others_accented() {
    let mut menu = GamesArchive::new();
    menu.handle_key_events(KeyPress::Up);
    let plan = menu.draw(Region { x: 0, y: 0, width: 40, height: 10 });
    assert_eq!(plan.lines.len(), 2);
    assert_eq!(plan.lines[0].text.as_str(), "tetris");
    assert_eq!(plan.lines[0].style, LineStyle::Accent);
    assert_eq!(plan.lines[1].text.as_str(), "snake_eats_apples");
    assert_eq!(plan.lines[1].style, LineStyle::Highlighted);
}

#[test]
fn scrollbar_tracks_the_selection() {
    let mut menu = GamesArchive::new();
    let plan = menu.draw(Region { x: 0, y: 0, width: 40, height: 10 });
    assert_eq!(plan.scroll_content_length, 2);
    assert_eq!(plan.scroll_position, 0);
    menu.handle_key_events(KeyPress::Up);
    let plan = menu.draw(Region { x: 0, y: 0, width: 40, height: 10 });
    assert_eq!(plan.scroll_position, 1);
}

#[test]
fn banner_is_the_same_on_every_render() {
    let menu = GamesArchive::new();
    let plan = menu.draw(Region { x: 0, y: 0, width: 100, height: 20 });
    assert!(plan.title_text.contains('█'));
    let again = menu.draw(Region { x: 5, y: 5, width: 10, height: 4 });
    assert_eq!(plan.title_text, again.title_text);
}

#[test]
fn small_areas_still_tile_exactly() {
    let menu = GamesArchive::new();
    for height in 0u16..12 {
        let plan = menu.draw(Region { x: 0, y: 0, width: 1, height });
        assert_eq!(plan.title_region.height + plan.list_region.height, height);
        assert!(plan.title_region.height <= height);
    }
}
