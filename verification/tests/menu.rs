use vps_toolkit::keys::Key;
use vps_toolkit::menu::{get_menu_items, ListMenu, MainMenu, MAIN_ENTRIES};
use vps_toolkit::models::{MenuAction, MenuItem, Param, TaskConfig};

fn single(action: Option<MenuAction>) -> Option<usize> {
    match action {
        Some(MenuAction::ExecuteSingle(i)) => Some(i),
        _ => None,
    }
}

#[test]
fn menu_item_keeps_what_it_is_given() {
    let item = MenuItem::new(7, "name", "description", true);
    assert_eq!(item.id, 7);
    assert_eq!(item.name, "name");
    assert_eq!(item.description, "description");
    assert!(item.requires_params);
}

#[test]
fn main_menu_has_fifteen_entries_numbered_from_zero() {
    let items = get_menu_items();
    assert_eq!(items.len(), 15);
    assert_eq!(MAIN_ENTRIES, 15);
    for (i, item) in items.iter().enumerate() {
        assert_eq!(item.id, i);
    }
    assert_eq!(items[0].name, "系统信息");
    assert_eq!(items[0].description, "显示系统详细信息");
    assert!(!items[0].requires_params);
    assert_eq!(items[1].name, "硬盘测试");
    assert!(items[1].requires_params);
    assert_eq!(items[10].name, "开放端口");
    assert_eq!(items[14].name, "tcp调优");
    assert_eq!(items[14].description, "应用BBR等TCP网络优化");
    let with_params: Vec<usize> = items.iter().filter(|i| i.requires_params).map(|i| i.id).collect();
    assert_eq!(with_params, vec![1, 2, 4, 7, 8, 10, 11, 12, 13, 14]);
}

#[test]
fn list_menu_moves_and_picks() {
    let mut m = ListMenu::new(6, true).unwrap();
    assert_eq!(m.on_key(Key::Up), None);
    assert_eq!(m.selected, 0);
    assert_eq!(m.on_key(Key::Down), None);
    assert_eq!(m.on_key(Key::Down), None);
    assert_eq!(m.selected, 2);
    assert_eq!(m.on_key(Key::Enter), Some(2));
    for _ in 0..10 {
        m.on_key(Key::Down);
    }
    assert_eq!(m.selected, 5);
    assert_eq!(m.on_key(Key::Char('q')), Some(5));
    assert_eq!(m.on_key(Key::Char('1')), Some(0));
    assert_eq!(m.on_key(Key::Char('6')), Some(5));
    assert_eq!(m.on_key(Key::Char('7')), None);
    assert_eq!(m.on_key(Key::Char('0')), None);
    assert_eq!(m.on_key(Key::Char('x')), None);
    assert_eq!(m.on_key(Key::Esc), None);
    assert_eq!(m.selected, 5);
}

#[test]
fn list_menu_without_digit_keys() {
    let mut m = ListMenu::new(6, false).unwrap();
    assert_eq!(m.on_key(Key::Char('1')), None);
    assert_eq!(m.on_key(Key::Char('q')), Some(5));
    assert_eq!(m.on_key(Key::Enter), Some(0));
    assert!(ListMenu::new(0, true).is_none());
    let mut long = ListMenu::new(12, true).unwrap();
    assert_eq!(long.on_key(Key::Char('9')), Some(8));
}

#[test]
fn main_menu_moves_with_arrows_and_letters() {
    let mut m = MainMenu::new(15).unwrap();
    assert_eq!(m.marked, vec![false; 15]);
    assert!(m.on_key(Key::Up, false).is_none());
    assert_eq!(m.selected_index, 0);
    m.on_key(Key::Down, false);
    m.on_key(Key::Char('j'), false);
    assert_eq!(m.selected_index, 2);
    m.on_key(Key::Char('k'), false);
    assert_eq!(m.selected_index, 1);
    for _ in 0..20 {
        m.on_key(Key::Down, false);
    }
    assert_eq!(m.selected_index, 14);
    assert_eq!(single(m.on_key(Key::Enter, false)), Some(14));
}

#[test]
fn main_menu_runs_the_marked_entries_in_rising_order() {
    let mut m = MainMenu::new(15).unwrap();
    for _ in 0..3 {
        m.on_key(Key::Down, false);
    }
    assert!(m.on_key(Key::Char(' '), false).is_none());
    m.on_key(Key::Up, false);
    m.on_key(Key::Up, false);
    m.on_key(Key::Char(' '), false);
    m.on_key(Key::Down, false);
    m.on_key(Key::Char(' '), false);
    m.on_key(Key::Char(' '), false);
    assert!(m.marked[1] && m.marked[3] && !m.marked[2]);
    match m.on_key(Key::Enter, false) {
        Some(MenuAction::ExecuteMultiple(v)) => assert_eq!(v, vec![1, 3]),
        other => panic!("unexpected action {:?}", other),
    }
}

#[test]
fn main_menu_leaves_on_q_and_control_c() {
    let mut m = MainMenu::new(15).unwrap();
    assert!(matches!(m.on_key(Key::Char('q'), false), Some(MenuAction::Exit)));
    assert!(matches!(m.on_key(Key::Char('c'), true), Some(MenuAction::Exit)));
    assert!(m.on_key(Key::Char('c'), false).is_none());
    assert!(m.on_key(Key::Esc, false).is_none());
    assert!(m.on_key(Key::Other, true).is_none());
}

#[test]
fn digits_pick_an_entry_after_a_pause() {
    let mut m = MainMenu::new(15).unwrap();
    assert!(!m.awaits_digits());
    assert!(m.on_key(Key::Char('1'), false).is_none());
    assert!(m.awaits_digits());
    assert!(m.on_key(Key::Char('2'), false).is_none());
    assert_eq!(m.num_input, "12");
    assert_eq!(single(m.on_quiet()), Some(11));
    let mut m = MainMenu::new(15).unwrap();
    m.on_key(Key::Char('1'), false);
    m.on_key(Key::Char('5'), false);
    assert_eq!(single(m.on_quiet()), Some(14));
}

#[test]
fn digits_that_name_no_entry_are_forgotten() {
    for typed in ["0", "16", "99", "00000000000000000000000", "99999999999999999999999999"] {
        let mut m = MainMenu::new(15).unwrap();
        for c in typed.chars() {
            m.on_key(Key::Char(c), false);
        }
        assert!(m.on_quiet().is_none(), "{}", typed);
        assert_eq!(m.num_input, "");
        assert!(!m.awaits_digits());
    }
    let mut m = MainMenu::new(15).unwrap();
    for c in "0007".chars() {
        m.on_key(Key::Char(c), false);
    }
    assert_eq!(single(m.on_quiet()), Some(6));
    let mut m = MainMenu::new(15).unwrap();
    assert!(m.on_quiet().is_none());
}

#[test]
fn any_other_key_forgets_the_digits() {
    let mut m = MainMenu::new(15).unwrap();
    m.on_key(Key::Char('1'), false);
    m.on_key(Key::Down, false);
    assert_eq!(m.num_input, "");
    assert_eq!(m.selected_index, 1);
    m.on_key(Key::Char('3'), false);
    m.on_key(Key::Char('x'), false);
    assert_eq!(m.num_input, "");
    m.on_key(Key::Char('3'), false);
    m.on_key(Key::Char('4'), false);
    assert_eq!(m.num_input, "34");
}

#[test]
fn main_menu_needs_an_entry() {
    assert!(MainMenu::new(0).is_none());
    let mut one = MainMenu::new(1).unwrap();
    one.on_key(Key::Down, false);
    assert_eq!(one.selected_index, 0);
    assert_eq!(single(one.on_key(Key::Enter, false)), Some(0));
}

#[test]
fn parameters_keep_their_order_and_keys_stay_unique() {
    let mut config = TaskConfig::new(MenuItem::new(1, "disk", "", true));
    assert!(config.params.is_empty());
    assert_eq!(config.get("test_size"), None);
    config.insert("test_size".to_string(), "1024".to_string());
    config.insert("test_path".to_string(), "/tmp".to_string());
    assert_eq!(config.get("test_size"), Some(&"1024".to_string()));
    assert_eq!(config.get("test_path"), Some(&"/tmp".to_string()));
    config.insert("test_size".to_string(), "2048".to_string());
    assert_eq!(config.params.len(), 2);
    assert_eq!(config.params[0].key, "test_size");
    assert_eq!(config.params[0].value, "2048");
    assert_eq!(config.params[1].key, "test_path");
    assert_eq!(config.get("test"), None);
    let p = Param { key: "k".to_string(), value: "v".to_string() };
    assert_eq!(p.clone().key, "k");
}
