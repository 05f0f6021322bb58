use cube_shuffle_wasm::components::pack_card::{
    colors_of_lowered, get_pile_colors, style_of_colors, table_rows, MarkButton, Msg, PackCard,
    Props, Row,
};
use cube_shuffle_wasm::pack::Pack;

fn pack_of(sources: &[(&str, usize)]) -> Pack {
    Pack { card_sources: sources.iter().map(|(name, amount)| (name.to_string(), *amount)).collect() }
}

fn names_of(rows: &[Row]) -> Vec<String> {
    rows.iter().map(|row| row.name.clone()).collect()
}

#[test]
fn each_known_pile_has_its_colours() {
    assert_eq!(get_pile_colors("black"), Some(("#1a1a1a", "#ffffff")));
    assert_eq!(get_pile_colors("blue"), Some(("#3273dc", "#ffffff")));
    assert_eq!(get_pile_colors("green"), Some(("#23d160", "#ffffff")));
    assert_eq!(get_pile_colors("red"), Some(("#ff3860", "#ffffff")));
    assert_eq!(get_pile_colors("white"), Some(("#f5f5f5", "#363636")));
    assert_eq!(get_pile_colors("artifacts"), Some(("#8b4513", "#ffffff")));
    assert_eq!(get_pile_colors("gold"), Some(("#ffd700", "#363636")));
}

#[test]
fn the_case_of_a_pile_name_does_not_count() {
    assert_eq!(get_pile_colors("Black"), Some(("#1a1a1a", "#ffffff")));
    assert_eq!(get_pile_colors("GOLD"), Some(("#ffd700", "#363636")));
    assert_eq!(get_pile_colors("ArtiFacts"), Some(("#8b4513", "#ffffff")));
    assert_eq!(get_pile_colors("blac\u{212a}"), Some(("#1a1a1a", "#ffffff")));
}

#[test]
fn other_piles_have_no_colours() {
    assert_eq!(get_pile_colors(""), None);
    assert_eq!(get_pile_colors("purple"), None);
    assert_eq!(get_pile_colors("black "), None);
    assert_eq!(get_pile_colors("reds"), None);
}

#[test]
fn a_lowered_name_is_matched_as_it_stands() {
    assert_eq!(colors_of_lowered("red"), Some(("#ff3860", "#ffffff")));
    assert_eq!(colors_of_lowered("Red"), None);
    assert_eq!(colors_of_lowered("RED"), None);
    assert_eq!(colors_of_lowered("re"), None);
}

#[test]
fn a_row_style_names_both_colours() {
    assert_eq!(
        style_of_colors(Some(("#1a1a1a", "#ffffff"))),
        "background-color: #1a1a1a; color: #ffffff;"
    );
    assert_eq!(style_of_colors(None), "");
}

#[test]
fn the_table_is_sorted_by_name() {
    let rows = table_rows(&pack_of(&[("red", 3), ("Blue", 1), ("artifacts", 2), ("zebra", 9)]));
    assert_eq!(names_of(&rows), vec!["Blue", "artifacts", "red", "zebra"]);
    assert_eq!(
        rows,
        vec![
            Row {
                name: "Blue".to_string(),
                amount: 1,
                style: "background-color: #3273dc; color: #ffffff;".to_string(),
            },
            Row {
                name: "artifacts".to_string(),
                amount: 2,
                style: "background-color: #8b4513; color: #ffffff;".to_string(),
            },
            Row {
                name: "red".to_string(),
                amount: 3,
                style: "background-color: #ff3860; color: #ffffff;".to_string(),
            },
            Row { name: "zebra".to_string(), amount: 9, style: String::new() },
        ]
    );
}

#[test]
fn the_table_of_an_empty_pack_is_empty() {
    assert!(table_rows(&pack_of(&[])).is_empty());
}

#[test]
fn names_are_ordered_as_the_standard_library_orders_text() {
    let names = ["b", "a", "", "ab", "B", "\u{e9}", "z", "aa", "a\u{0}", "\u{10348}", "\u{ffff}"];
    let sources: Vec<(&str, usize)> = names.iter().map(|name| (*name, 1)).collect();
    let rows = table_rows(&pack_of(&sources));
    let mut expected: Vec<String> = names.iter().map(|name| name.to_string()).collect();
    expected.sort();
    assert_eq!(names_of(&rows), expected);
}

#[test]
fn a_name_that_comes_twice_keeps_both_rows() {
    let rows = table_rows(&pack_of(&[("red", 1), ("blue", 5), ("red", 2)]));
    assert_eq!(names_of(&rows), vec!["blue", "red", "red"]);
    let mut amounts: Vec<usize> = rows[1..].iter().map(|row| row.amount).collect();
    amounts.sort();
    assert_eq!(amounts, vec![1, 2]);
}

#[test]
fn an_unchecked_card_offers_done() {
    let props =
        Props { index: 0, pack: pack_of(&[("white", 4)]), checked: false, zoom_scale: 1000 };
    let card = PackCard::create().view(&props);
    assert_eq!(card.slot, 1);
    assert_eq!(card.header_class, "card-header");
    assert_eq!(card.mark, MarkButton::Done);
    assert_eq!(card.rows.len(), 1);
    assert_eq!(card.rows[0].name, "white");
    assert_eq!(card.rows[0].amount, 4);
    assert_eq!(card.rows[0].style, "background-color: #f5f5f5; color: #363636;");
    assert_eq!(card.zoom_scale, 1000);
    assert_eq!(card.font_size, 1000);
}

#[test]
fn a_checked_card_offers_delete_and_is_coloured() {
    let props = Props { index: 6, pack: pack_of(&[]), checked: true, zoom_scale: 1300 };
    let card = PackCard::create().view(&props);
    assert_eq!(card.slot, 7);
    assert_eq!(card.header_class, "card-header has-background-success");
    assert_eq!(card.mark, MarkButton::Delete);
    assert!(card.rows.is_empty());
    assert_eq!(card.zoom_scale, 1300);
    assert_eq!(card.font_size, 1300);
}

#[test]
fn a_click_hands_the_position_on_and_asks_for_no_redraw() {
    let mut card = PackCard::create();
    for index in [0usize, 1, 41] {
        let props = Props { index, pack: pack_of(&[]), checked: false, zoom_scale: 1000 };
        assert_eq!(card.update(&props, Msg::Clicked), (index, false));
    }
}
