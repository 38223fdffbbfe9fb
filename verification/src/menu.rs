//! The menus: their entries and how keys move through them.

use crate::keys::Key;
use crate::models::{MenuAction, MenuItem};
use crate::scan::{number_value, parse_number};
use crate::text::push_char;
use vstd::prelude::*;

verus! {

/// Number of entries of the main menu.
pub const MAIN_ENTRIES: usize = 15;

/// Name and description of each entry of the main menu, in the order of
/// the menu.
pub open spec fn entry_texts() -> Seq<(Seq<char>, Seq<char>)> {
    seq![
        ("系统信息"@, "显示系统详细信息"@),
        ("硬盘测试"@, "测试硬盘读写性能"@),
        ("CPU测试"@, "测试CPU性能和稳定性"@),
        ("解锁测试"@, "测试流媒体解锁情况"@),
        ("网速测试"@, "测试网络上/下行速度"@),
        ("三网ping测试"@, "测试到三大运营商的延迟"@),
        ("三网回程测试"@, "测试到三大运营商的回程路由"@),
        ("sing-box一键脚本"@, "部署sing-box代理服务"@),
        ("xray一键脚本"@, "部署xray代理服务"@),
        ("内存占用排行"@, "显示内存使用排行"@),
        ("开放端口"@, "使用防火墙开放指定端口"@),
        ("关闭端口"@, "使用防火墙关闭指定端口"@),
        ("k3s"@, "安装/管理轻量化K8s"@),
        ("k8s"@, "安装/管理标准K8s"@),
        ("tcp调优"@, "应用BBR等TCP网络优化"@),
    ]
}

/// The entries of the main menu: each has its index as its id and the
/// name and description of its place.
pub fn get_menu_items() -> (r: Vec<MenuItem>)
    ensures
        r@.len() == MAIN_ENTRIES,
        r@.len() == entry_texts().len(),
        forall|i: int| 0 <= i < r@.len() ==> (#[trigger] r@[i]).id == i,
        forall|i: int|
            0 <= i < r@.len() ==> ((#[trigger] r@[i]).requires_params <==> asks_for_parameters(i)),
        forall|i: int|
            0 <= i < r@.len() ==> ((#[trigger] r@[i]).name@, r@[i].description@)
                == entry_texts()[i],
{
    let r = vec![
        MenuItem::new(0, "系统信息", "显示系统详细信息", false),
        MenuItem::new(1, "硬盘测试", "测试硬盘读写性能", true),
        MenuItem::new(2, "CPU测试", "测试CPU性能和稳定性", true),
        MenuItem::new(3, "解锁测试", "测试流媒体解锁情况", false),
        MenuItem::new(4, "网速测试", "测试网络上/下行速度", true),
        MenuItem::new(5, "三网ping测试", "测试到三大运营商的延迟", false),
        MenuItem::new(6, "三网回程测试", "测试到三大运营商的回程路由", false),
        MenuItem::new(7, "sing-box一键脚本", "部署sing-box代理服务", true),
        MenuItem::new(8, "xray一键脚本", "部署xray代理服务", true),
        MenuItem::new(9, "内存占用排行", "显示内存使用排行", false),
        MenuItem::new(10, "开放端口", "使用防火墙开放指定端口", true),
        MenuItem::new(11, "关闭端口", "使用防火墙关闭指定端口", true),
        MenuItem::new(12, "k3s", "安装/管理轻量化K8s", true),
        MenuItem::new(13, "k8s", "安装/管理标准K8s", true),
        MenuItem::new(14, "tcp调优", "应用BBR等TCP网络优化", true),
    ];
    r
}

/// Which entries of the main menu ask for parameters.
pub open spec fn asks_for_parameters(id: int) -> bool {
    id == 1 || id == 2 || id == 4 || id == 7 || id == 8 || (10 <= id <= 14)
}

/// A menu of `len` entries of which one is selected. Enter picks the
/// selected entry, `q` the last one.
#[derive(Debug, Clone, Copy, PartialEq, Eq, Structural)]
pub struct ListMenu {
    pub len: usize,
    pub selected: usize,
    /// The keys `1` to `9` pick an entry directly.
    pub digits: bool,
}

impl ListMenu {
    /// A menu has entries, and one of them is selected.
    pub open spec fn wf(self) -> bool {
        0 < self.len && self.selected < self.len
    }

    /// A menu with its first entry selected; `None` for a menu without
    /// entries.
    pub fn new(len: usize, digits: bool) -> (r: Option<ListMenu>)
        ensures
            r is Some <==> len > 0,
            r is Some ==> r->0 == (ListMenu { len, selected: 0, digits }) && r->0.wf(),
    {
        if len == 0 {
            None
        } else {
            Some(ListMenu { len, selected: 0, digits })
        }
    }

    /// The entry that the digit key `c` picks, if it picks one: `1` the
    /// first, and so on up to the ninth.
    pub open spec fn digit_entry(self, c: char) -> Option<usize> {
        if self.digits && '1' <= c <= '9' && (c as u32 - '1' as u32) < self.len {
            Some((c as u32 - '1' as u32) as usize)
        } else {
            None
        }
    }

    /// The menu and the entry picked, if any, after a key press.
    pub open spec fn pressed(self, key: Key) -> (ListMenu, Option<usize>) {
        match key {
            Key::Up => (
                if self.selected > 0 {
                    ListMenu { selected: (self.selected - 1) as usize, ..self }
                } else {
                    self
                },
                None,
            ),
            Key::Down => (
                if self.selected + 1 < self.len {
                    ListMenu { selected: (self.selected + 1) as usize, ..self }
                } else {
                    self
                },
                None,
            ),
            Key::Enter => (self, Some(self.selected)),
            Key::Char(c) => if c == 'q' {
                (self, Some((self.len - 1) as usize))
            } else {
                (self, self.digit_entry(c))
            },
            _ => (self, None),
        }
    }

    /// Acts on a key press; returns the entry picked, if any.
    pub fn on_key(&mut self, key: Key) -> (r: Option<usize>)
        requires
            old(self).wf(),
        ensures
            (*final(self), r) == old(self).pressed(key),
            final(self).wf(),
            r is Some ==> r->0 < final(self).len,
    {
        match key {
            Key::Up => {
                if self.selected > 0 {
                    self.selected = self.selected - 1;
                }
                None
            },
            Key::Down => {
                if self.selected < self.len - 1 {
                    self.selected = self.selected + 1;
                }
                None
            },
            Key::Enter => Some(self.selected),
            Key::Char(c) => {
                if c == 'q' {
                    Some(self.len - 1)
                } else if self.digits && c >= '1' && c <= '9' {
                    let index: u32 = (c as u32) - ('1' as u32);
                    if (index as usize) < self.len {
                        Some(index as usize)
                    } else {
                        None
                    }
                } else {
                    None
                }
            },
            _ => None,
        }
    }
}

/// The main menu: a selection, marks for running several entries at once,
/// and the digits of an entry number typed so far.
pub struct MainMenu {
    pub selected_index: usize,
    /// One mark per entry.
    pub marked: Vec<bool>,
    /// Digits typed since the last other key.
    pub num_input: String,
}

/// The main menu as plain values.
pub struct MainMenuView {
    pub selected_index: usize,
    pub marked: Seq<bool>,
    pub num_input: Seq<char>,
}

impl View for MainMenu {
    type V = MainMenuView;

    open spec fn view(&self) -> MainMenuView {
        MainMenuView {
            selected_index: self.selected_index,
            marked: self.marked@,
            num_input: self.num_input@,
        }
    }
}

/// What the main menu decided, as plain values.
pub enum Decision {
    /// Nothing yet: the menu stays.
    Stay,
    Exit,
    Single(usize),
    Multiple(Seq<usize>),
}

/// An action of the menu, or none, as a decision.
pub open spec fn decision_of(action: Option<MenuAction>) -> Decision {
    match action {
        None => Decision::Stay,
        Some(MenuAction::Continue) => Decision::Stay,
        Some(MenuAction::Exit) => Decision::Exit,
        Some(MenuAction::ExecuteSingle(i)) => Decision::Single(i),
        Some(MenuAction::ExecuteMultiple(v)) => Decision::Multiple(v@),
    }
}

/// The indices of the marked entries, in rising order.
pub open spec fn marked_indices(marked: Seq<bool>) -> Seq<usize>
    decreases marked.len(),
{
    if marked.len() == 0 {
        Seq::empty()
    } else if marked.last() {
        marked_indices(marked.drop_last()).push((marked.len() - 1) as usize)
    } else {
        marked_indices(marked.drop_last())
    }
}

/// Whether a character is a decimal digit.
pub open spec fn is_digit(c: char) -> bool {
    '0' <= c <= '9'
}

/// Whether a key types a digit.
pub fn is_digit_key(key: Key) -> (r: bool)
    ensures
        r == (key is Char && is_digit(key->Char_0)),
{
    match key {
        Key::Char(c) => c >= '0' && c <= '9',
        _ => false,
    }
}

impl MainMenuView {
    /// A menu has entries, and one of them is selected.
    pub open spec fn wf(self) -> bool {
        0 < self.marked.len() <= usize::MAX && self.selected_index < self.marked.len()
    }

    /// The menu of `entries` entries before any key was pressed.
    pub open spec fn initial(entries: nat) -> MainMenuView {
        MainMenuView {
            selected_index: 0,
            marked: Seq::new(entries, |i: int| false),
            num_input: Seq::empty(),
        }
    }

    /// The menu with the digits forgotten, unless `key` is a digit itself.
    pub open spec fn after_clearing(self, key: Key) -> MainMenuView {
        match key {
            Key::Char(c) => if is_digit(c) {
                self
            } else {
                MainMenuView { num_input: Seq::empty(), ..self }
            },
            _ => MainMenuView { num_input: Seq::empty(), ..self },
        }
    }

    /// The menu and its decision after a key press. Control-C and `q`
    /// leave; the arrows, `k` and `j` move the selection; the space bar
    /// marks or unmarks the selected entry; Enter runs the marked entries,
    /// or the selected one where none is marked; a digit is added to the
    /// entry number.
    pub open spec fn pressed(self, key: Key, control: bool) -> (MainMenuView, Decision) {
        let m = self.after_clearing(key);
        if key == Key::Char('c') && control {
            (m, Decision::Exit)
        } else {
            match key {
                Key::Up | Key::Char('k') => (
                    if m.selected_index > 0 {
                        MainMenuView { selected_index: (m.selected_index - 1) as usize, ..m }
                    } else {
                        m
                    },
                    Decision::Stay,
                ),
                Key::Down | Key::Char('j') => (
                    if m.selected_index + 1 < m.marked.len() {
                        MainMenuView { selected_index: (m.selected_index + 1) as usize, ..m }
                    } else {
                        m
                    },
                    Decision::Stay,
                ),
                Key::Char(' ') => (
                    MainMenuView {
                        marked: m.marked.update(
                            m.selected_index as int,
                            !m.marked[m.selected_index as int],
                        ),
                        ..m
                    },
                    Decision::Stay,
                ),
                Key::Enter => if marked_indices(m.marked).len() > 0 {
                    (m, Decision::Multiple(marked_indices(m.marked)))
                } else {
                    (m, Decision::Single(m.selected_index))
                },
                Key::Char('q') => (m, Decision::Exit),
                Key::Char(c) => if is_digit(c) {
                    (MainMenuView { num_input: m.num_input.push(c), ..m }, Decision::Stay)
                } else {
                    (m, Decision::Stay)
                },
                _ => (m, Decision::Stay),
            }
        }
    }

    /// The menu and its decision when no digit has followed for a while:
    /// the digits typed so far pick the entry of that number, counted from
    /// one; digits that name no entry are forgotten.
    pub open spec fn settled(self) -> (MainMenuView, Decision) {
        match number_value(self.num_input, usize::MAX as int) {
            Ok(number) => if 0 < number <= self.marked.len() {
                (self, Decision::Single((number - 1) as usize))
            } else {
                (MainMenuView { num_input: Seq::empty(), ..self }, Decision::Stay)
            },
            Err(_) => (MainMenuView { num_input: Seq::empty(), ..self }, Decision::Stay),
        }
    }
}

impl MainMenu {
    /// A menu of `entries` entries; `None` for a menu without entries.
    pub fn new(entries: usize) -> (r: Option<MainMenu>)
        ensures
            r is Some <==> entries > 0,
            r is Some ==> r->0@ == MainMenuView::initial(entries as nat) && r->0@.wf(),
    {
        if entries == 0 {
            return None;
        }
        let mut marked: Vec<bool> = Vec::new();
        let mut i: usize = 0;
        while i < entries
            invariant
                i <= entries,
                marked@ == Seq::new(i as nat, |k: int| false),
            decreases entries - i,
        {
            marked.push(false);
            i = i + 1;
            assert(marked@ =~= Seq::new(i as nat, |k: int| false));
        }
        Some(MainMenu { selected_index: 0, marked, num_input: String::new() })
    }

    /// Whether digits are waiting for more digits or for a pause.
    pub fn awaits_digits(&self) -> (r: bool)
        ensures
            r == (self@.num_input.len() > 0),
    {
        !self.num_input.as_str().is_empty()
    }

    fn marked_entries(&self) -> (r: Vec<usize>)
        ensures
            r@ == marked_indices(self.marked@),
    {
        let mut out: Vec<usize> = Vec::new();
        let mut i: usize = 0;
        proof {
            assert(self.marked@.take(0) =~= Seq::<bool>::empty());
        }
        while i < self.marked.len()
            invariant
                i <= self.marked.len(),
                out@ == marked_indices(self.marked@.take(i as int)),
            decreases self.marked.len() - i,
        {
            proof {
                let upto = self.marked@.take(i + 1);
                assert(upto.drop_last() =~= self.marked@.take(i as int));
                assert(upto.last() == self.marked@[i as int]);
            }
            if self.marked[i] {
                out.push(i);
            }
            i = i + 1;
        }
        proof {
            assert(self.marked@.take(self.marked.len() as int) =~= self.marked@);
        }
        out
    }

    /// Acts on a key press. `control` says whether the control key is held.
    pub fn on_key(&mut self, key: Key, control: bool) -> (r: Option<MenuAction>)
        requires
            old(self)@.wf(),
        ensures
            (final(self)@, decision_of(r)) == old(self)@.pressed(key, control),
            final(self)@.wf(),
    {
        let digit: Option<char> = match key {
            Key::Char(c) => if c >= '0' && c <= '9' {
                Some(c)
            } else {
                None
            },
            _ => None,
        };
        if digit.is_none() {
            self.num_input = String::new();
        }
        match key {
            Key::Up => {
                self.move_up();
                None
            },
            Key::Down => {
                self.move_down();
                None
            },
            Key::Enter => {
                let picked = self.marked_entries();
                if picked.len() > 0 {
                    Some(MenuAction::ExecuteMultiple(picked))
                } else {
                    Some(MenuAction::ExecuteSingle(self.selected_index))
                }
            },
            Key::Char(c) => {
                if c == 'c' && control {
                    Some(MenuAction::Exit)
                } else if c == 'k' {
                    self.move_up();
                    None
                } else if c == 'j' {
                    self.move_down();
                    None
                } else if c == ' ' {
                    let now: bool = self.marked[self.selected_index];
                    self.marked.set(self.selected_index, !now);
                    None
                } else if c == 'q' {
                    Some(MenuAction::Exit)
                } else {
                    match digit {
                        Some(d) => {
                            push_char(&mut self.num_input, d);
                        },
                        None => {},
                    }
                    None
                }
            },
            _ => None,
        }
    }

    fn move_up(&mut self)
        ensures
            final(self)@ == (if old(self).selected_index > 0 {
                MainMenuView {
                    selected_index: (old(self).selected_index - 1) as usize,
                    ..old(self)@
                }
            } else {
                old(self)@
            }),
    {
        if self.selected_index > 0 {
            self.selected_index = self.selected_index - 1;
        }
    }

    fn move_down(&mut self)
        requires
            old(self)@.wf(),
        ensures
            final(self)@ == (if old(self).selected_index + 1 < old(self).marked@.len() {
                MainMenuView {
                    selected_index: (old(self).selected_index + 1) as usize,
                    ..old(self)@
                }
            } else {
                old(self)@
            }),
    {
        if self.selected_index < self.marked.len() - 1 {
            self.selected_index = self.selected_index + 1;
        }
    }

    /// Acts on a pause after the last digit.
    pub fn on_quiet(&mut self) -> (r: Option<MenuAction>)
        requires
            old(self)@.wf(),
        ensures
            (final(self)@, decision_of(r)) == old(self)@.settled(),
            final(self)@.wf(),
    {
        match parse_number(self.num_input.as_str(), usize::MAX as u64) {
            Ok(number) => {
                if number > 0 && number <= self.marked.len() as u64 {
                    return Some(MenuAction::ExecuteSingle((number - 1) as usize));
                }
            },
            Err(_) => {},
        }
        self.num_input = String::new();
        None
    }
}

} // verus!
