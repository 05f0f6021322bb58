use cube_shuffle_wasm::components::pack_list::{wheel_message, Msg, PackItem, PackList, Props};
use cube_shuffle_wasm::pack::Pack;

fn pack(name: &str, amount: usize) -> Pack {
    Pack { card_sources: vec![(name.to_string(), amount)] }
}

fn list_of(n: usize, is_desktop: bool) -> PackList {
    let packs = (0..n).map(|i| pack("pile", i)).collect();
    PackList::create(Props { packs }, is_desktop)
}

fn list_with_flags(flags: &[bool]) -> PackList {
    let mut list = list_of(flags.len(), false);
    for (index, flag) in flags.iter().enumerate() {
        if *flag {
            list.update(Msg::Check(index));
        }
    }
    list
}

fn flags_of(list: &PackList) -> Vec<bool> {
    list.packs().iter().map(|item| item.checked).collect()
}

#[test]
fn a_new_list_holds_the_packs_unchecked_and_in_order() {
    let packs = vec![pack("red", 3), pack("blue", 1), pack("green", 2)];
    let list = PackList::create(Props { packs: packs.clone() }, true);
    assert_eq!(list.packs().len(), 3);
    for (item, given) in list.packs().iter().zip(packs.iter()) {
        assert_eq!(&item.pack, given);
        assert!(!item.checked);
    }
    assert_eq!(list.zoom_scale(), 1000);
    assert!(list.is_desktop());
    assert!(!PackList::create(Props { packs }, false).is_desktop());
}

#[test]
fn a_list_of_no_packs_shows_none() {
    let list = PackList::create(Props { packs: Vec::new() }, false);
    assert!(list.packs().is_empty());
    assert_eq!(list.display_order(), Vec::<usize>::new());
}

#[test]
fn checked_packs_sink_to_the_bottom() {
    let list = list_with_flags(&[false, true, false]);
    assert_eq!(list.display_order(), vec![0, 2, 1]);
}

#[test]
fn a_checked_pack_before_an_unchecked_one_changes_places() {
    let list = list_with_flags(&[true, false]);
    assert_eq!(list.display_order(), vec![1, 0]);
}

#[test]
fn the_order_of_display_is_stable() {
    let list = list_with_flags(&[true, false, true, true, false, false, true]);
    assert_eq!(list.display_order(), vec![1, 4, 5, 0, 2, 3, 6]);
    assert_eq!(list_with_flags(&[false; 5]).display_order(), vec![0, 1, 2, 3, 4]);
    assert_eq!(list_with_flags(&[true; 5]).display_order(), vec![0, 1, 2, 3, 4]);
}

#[test]
fn every_pack_is_shown_once_whatever_is_checked() {
    for mask in 0u32..64 {
        let flags: Vec<bool> = (0..6).map(|bit| mask & (1 << bit) != 0).collect();
        let list = list_with_flags(&flags);
        let order = list.display_order();
        assert_eq!(order.len(), 6);
        let mut seen = order.clone();
        seen.sort();
        assert_eq!(seen, vec![0, 1, 2, 3, 4, 5]);
        let clear: Vec<usize> = (0..6).filter(|i| !flags[*i]).collect();
        let set: Vec<usize> = (0..6).filter(|i| flags[*i]).collect();
        assert_eq!(order, [clear, set].concat());
    }
}

#[test]
fn asking_for_the_order_leaves_the_list_alone() {
    let list = list_with_flags(&[true, false, true]);
    let before: Vec<PackItem> = list.packs().clone();
    let _ = list.display_order();
    let _ = list.view();
    assert_eq!(list.packs(), &before);
    assert_eq!(flags_of(&list), vec![true, false, true]);
}

#[test]
fn a_click_turns_one_flag_over_and_asks_for_a_redraw() {
    let mut list = list_of(3, false);
    assert!(list.update(Msg::Check(1)));
    assert_eq!(flags_of(&list), vec![false, true, false]);
    assert_eq!(list.packs()[1].pack, pack("pile", 1));
}

#[test]
fn two_clicks_restore_the_flag_and_each_asks_for_a_redraw() {
    for index in 0..3 {
        let mut list = list_with_flags(&[false, true, false]);
        let before = list.packs().clone();
        assert!(list.update(Msg::Check(index)));
        assert_ne!(list.packs()[index].checked, before[index].checked);
        assert!(list.update(Msg::Check(index)));
        assert_eq!(list.packs(), &before);
    }
}

#[test]
fn a_zoom_outside_the_desktop_shell_does_nothing() {
    let mut list = list_of(2, false);
    for delta in [100, -100, 0, 5000, -5000, i64::MAX, i64::MIN] {
        assert!(!list.update(Msg::Zoom(delta)));
        assert_eq!(list.zoom_scale(), 1000);
    }
    assert_eq!(flags_of(&list), vec![false, false]);
}

#[test]
fn a_zoom_inside_the_desktop_shell_moves_the_scale() {
    let mut list = list_of(2, true);
    assert!(list.update(Msg::Zoom(100)));
    assert_eq!(list.zoom_scale(), 1100);
    assert!(list.update(Msg::Zoom(-300)));
    assert_eq!(list.zoom_scale(), 800);
    assert_eq!(flags_of(&list), vec![false, false]);
}

#[test]
fn eleven_notches_up_end_at_double_size() {
    let mut list = list_of(1, true);
    for _ in 0..10 {
        assert!(list.update(Msg::Zoom(100)));
    }
    assert_eq!(list.zoom_scale(), 2000);
    assert!(!list.update(Msg::Zoom(100)));
    assert_eq!(list.zoom_scale(), 2000);
}

#[test]
fn a_zoom_that_moves_nothing_asks_for_no_redraw() {
    let mut list = list_of(1, true);
    assert!(list.update(Msg::Zoom(5000)));
    assert_eq!(list.zoom_scale(), 2000);
    assert!(!list.update(Msg::Zoom(100)));
    assert_eq!(list.zoom_scale(), 2000);
    assert!(list.update(Msg::Zoom(-100)));
    assert_eq!(list.zoom_scale(), 1900);
    assert!(!list.update(Msg::Zoom(0)));
    assert!(list.update(Msg::Zoom(-5000)));
    assert_eq!(list.zoom_scale(), 500);
    assert!(!list.update(Msg::Zoom(-1)));
    assert_eq!(list.zoom_scale(), 500);
}

#[test]
fn clicks_do_not_touch_the_zoom() {
    let mut list = list_of(2, true);
    list.update(Msg::Zoom(200));
    list.update(Msg::Check(0));
    assert_eq!(list.zoom_scale(), 1200);
    assert!(list.is_desktop());
}

#[test]
fn the_wheel_speaks_inside_the_desktop_shell_only() {
    assert_eq!(wheel_message(true, (-3.0f64).to_bits()), Some(Msg::Zoom(100)));
    assert_eq!(wheel_message(true, 3.0f64.to_bits()), Some(Msg::Zoom(-100)));
    assert_eq!(wheel_message(true, 0.0f64.to_bits()), Some(Msg::Zoom(-100)));
    assert_eq!(wheel_message(false, (-3.0f64).to_bits()), None);
    assert_eq!(wheel_message(false, 3.0f64.to_bits()), None);
}

#[test]
fn the_zoom_is_told_inside_the_desktop_shell_only() {
    let mut desktop = list_of(1, true);
    assert_eq!(desktop.zoom_indicator(), Some("Zoom: 100% (use mouse wheel)".to_string()));
    desktop.update(Msg::Zoom(100));
    assert_eq!(desktop.zoom_indicator(), Some("Zoom: 110% (use mouse wheel)".to_string()));
    desktop.update(Msg::Zoom(-700));
    assert_eq!(desktop.zoom_indicator(), Some("Zoom: 50% (use mouse wheel)".to_string()));
    desktop.update(Msg::Zoom(9000));
    assert_eq!(desktop.zoom_indicator(), Some("Zoom: 200% (use mouse wheel)".to_string()));
    assert_eq!(list_of(1, false).zoom_indicator(), None);
}

#[test]
fn the_view_gathers_order_zoom_and_label() {
    let mut list = list_of(3, true);
    list.update(Msg::Check(0));
    list.update(Msg::Zoom(-100));
    let shown = list.view();
    assert_eq!(shown.order, vec![1, 2, 0]);
    assert_eq!(shown.zoom_scale, 900);
    assert_eq!(shown.zoom_indicator, Some("Zoom: 90% (use mouse wheel)".to_string()));
    let plain = list_with_flags(&[false, true]).view();
    assert_eq!(plain.order, vec![0, 1]);
    assert_eq!(plain.zoom_scale, 1000);
    assert_eq!(plain.zoom_indicator, None);
}
