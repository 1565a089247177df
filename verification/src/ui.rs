//! The decisions of the terminal interface: screen layout, list rows, the detail
//! panel, and how keys move the selection.

use vstd::prelude::*;
use crate::text;
use crate::usage;
use crate::profile;
use crate::profile::{ApiAccount, ApiUsageTone};

verus! {

/// A screen rectangle, in terminal cells.
#[derive(Clone, Copy, Debug, PartialEq, Eq, Structural)]
pub struct Rect {
    pub x: u16,
    pub y: u16,
    pub width: u16,
    pub height: u16,
}

/// `a - b`, or zero where `b` is larger.
pub open spec fn sat_sub(a: int, b: int) -> int {
    if a > b {
        a - b
    } else {
        0
    }
}

/// The smaller of `a` and `b`.
pub open spec fn min(a: int, b: int) -> int {
    if a < b {
        a
    } else {
        b
    }
}

/// The three areas inside the border of `area`: the header, the account list and
/// the detail panel, stacked.
pub open spec fn screen_areas(area: Rect) -> (Rect, Rect, Rect) {
    let ix = if area.x == 0xFFFF { area.x as int } else { area.x + 1 };
    let iy = if area.y == 0xFFFF { area.y as int } else { area.y + 1 };
    let iw = sat_sub(area.width as int, 2);
    let ih = sat_sub(area.height as int, 2);
    let header_h = min(ih, 2);
    let detail_h = min(sat_sub(ih, header_h), 4);
    let list_h = sat_sub(sat_sub(ih, header_h), detail_h);
    (
        Rect { x: ix as u16, y: iy as u16, width: iw as u16, height: header_h as u16 },
        Rect { x: ix as u16, y: (iy + header_h) as u16, width: iw as u16, height: list_h as u16 },
        Rect {
            x: ix as u16,
            y: (iy + header_h + list_h) as u16,
            width: iw as u16,
            height: detail_h as u16,
        },
    )
}

/// Splits the screen `area` into the header (two rows at most), the account list,
/// and the detail panel (four rows at most), inside a one-cell border.
pub fn layout_areas(area: Rect) -> (r: (Rect, Rect, Rect))
    requires
        area.y + area.height <= 0xFFFF,
    ensures
        r == screen_areas(area),
{
    let inner = Rect {
        x: area.x.saturating_add(1),
        y: area.y.saturating_add(1),
        width: area.width.saturating_sub(2),
        height: area.height.saturating_sub(2),
    };
    let header_height = if inner.height < 2 {
        inner.height
    } else {
        2
    };
    let rest = inner.height.saturating_sub(header_height);
    let detail_height = if rest < 4 {
        rest
    } else {
        4
    };
    let list_height = inner.height.saturating_sub(header_height).saturating_sub(detail_height);
    let header = Rect { x: inner.x, y: inner.y, width: inner.width, height: header_height };
    let list = Rect {
        x: inner.x,
        y: inner.y + header_height,
        width: inner.width,
        height: list_height,
    };
    let detail = Rect {
        x: inner.x,
        y: inner.y + header_height + list_height,
        width: inner.width,
        height: detail_height,
    };
    (header, list, detail)
}

/// The width left for a list row beside the three-cell selection marker `>> `.
pub fn item_width(list_width: u16) -> (r: usize)
    ensures
        r == sat_sub(list_width as int, 3),
{
    (list_width as usize).saturating_sub(3)
}

/// One row of the account list: the name, the gap, and the usage text.
pub struct AccountRow {
    pub name: String,
    pub gap: String,
    pub usage: String,
    pub tone: ApiUsageTone,
    pub selected: bool,
}

/// The gap of a row `width` cells wide: spaces that push the usage text to the
/// right edge, or a single space where the row is too narrow.
pub open spec fn row_gap(width: int, name_width: int, usage_width: int) -> Seq<char> {
    if width <= name_width + usage_width {
        seq![' ']
    } else {
        text::spaces((width - name_width - usage_width) as nat)
    }
}

/// The row of `account` in a list `width` cells wide.
pub fn format_account_row(account: &ApiAccount, width: usize, is_selected: bool) -> (r: AccountRow)
    ensures
        r.name == account.name,
        r.usage@ == profile::usage_text_of(account.usage),
        r.gap@ == row_gap(
            width as int,
            account.name@.len() as int,
            profile::usage_text_of(account.usage).len() as int,
        ),
        r.tone == profile::tone_of(account.usage),
        r.selected == is_selected,
{
    let usage = account.usage_text();
    let name_width = account.name.as_str().unicode_len();
    let usage_width = usage.as_str().unicode_len();
    let mut gap = String::new();
    if name_width >= width || width - name_width <= usage_width {
        text::push_char(&mut gap, ' ');
        proof {
            assert(gap@ =~= seq![' ']);
        }
    } else {
        text::push_spaces(&mut gap, width - name_width - usage_width);
        proof {
            assert(gap@ =~= text::spaces((width - name_width - usage_width) as nat));
        }
    }
    AccountRow {
        name: account.name.clone(),
        gap,
        usage,
        tone: account.usage_tone(),
        selected: is_selected,
    }
}

/// The header's profile name: the active profile, or `--` where none matches.
pub fn active_label(active: &Option<String>) -> (r: String)
    ensures
        r@ == usage::or_dashes(*active),
{
    match active {
        Some(name) => name.clone(),
        None => "--".to_owned(),
    }
}

/// A key press, as the interface tells them apart.
pub enum KeyInput {
    Down,
    Up,
    Enter,
    Char(char),
    Other,
}

/// What the interface asks for after a key.
#[derive(PartialEq, Eq, Structural)]
pub enum UiAction {
    Nothing,
    /// Switch to the account at this index.
    Apply(usize),
}

/// The selection, the last switch error, and whether to leave.
pub struct UiState {
    pub selected: Option<usize>,
    pub exit: bool,
    pub last_error: Option<String>,
}

/// The selection after moving down in a list of `n > 0` accounts: the next one,
/// wrapping from the last to the first.
pub open spec fn moved_down(selected: Option<usize>, n: int) -> int {
    match selected {
        Some(i) => (i + 1) % n,
        None => 0,
    }
}

/// The selection after moving up in a list of `n > 0` accounts: the previous one,
/// wrapping from the first to the last.
pub open spec fn moved_up(selected: Option<usize>, n: int) -> int {
    match selected {
        Some(i) => if i == 0 {
            n - 1
        } else {
            i - 1
        },
        None => 0,
    }
}

/// Whether a key moves the selection down (`↓` or `j`).
pub open spec fn is_down(key: KeyInput) -> bool {
    key is Down || key == KeyInput::Char('j')
}

/// Whether a key moves the selection up (`↑` or `k`).
pub open spec fn is_up(key: KeyInput) -> bool {
    key is Up || key == KeyInput::Char('k')
}

/// Whether a key switches to the selection (`Enter` or `l`).
pub open spec fn is_enter(key: KeyInput) -> bool {
    key is Enter || key == KeyInput::Char('l')
}

impl UiState {
    /// The state at start: the first row selected.
    pub fn new() -> (r: Self)
        ensures
            r.selected == Some(0usize),
            !r.exit,
            r.last_error is None,
    {
        UiState { selected: Some(0), exit: false, last_error: None }
    }

    /// Selects the first row of a freshly loaded list of `count` accounts.
    pub fn select_first(&mut self, count: usize)
        ensures
            final(self).selected == (if count == 0 {
                None
            } else {
                Some(0usize)
            }),
            final(self).exit == old(self).exit,
            final(self).last_error == old(self).last_error,
    {
        if count == 0 {
            self.selected = None;
        } else {
            self.selected = Some(0);
        }
    }

    /// Handles a key in a list of `count` accounts.
    pub fn handle_key(&mut self, key: KeyInput, count: usize) -> (r: UiAction)
        ensures
            is_down(key) && count > 0 ==> final(self).selected == Some(
                moved_down(old(self).selected, count as int) as usize,
            ) && final(self).last_error is None && final(self).exit == old(self).exit
                && r == UiAction::Nothing,
            is_up(key) && count > 0 ==> final(self).selected == Some(
                moved_up(old(self).selected, count as int) as usize,
            ) && final(self).last_error is None && final(self).exit == old(self).exit
                && r == UiAction::Nothing,
            is_enter(key) ==> *final(self) == *old(self) && r == (match old(self).selected {
                Some(i) => if i < count {
                    UiAction::Apply(i)
                } else {
                    UiAction::Nothing
                },
                None => UiAction::Nothing,
            }),
            key == KeyInput::Char('q') ==> final(self).exit && final(self).selected == old(
                self,
            ).selected && final(self).last_error == old(self).last_error && r
                == UiAction::Nothing,
            !(is_down(key) && count > 0) && !(is_up(key) && count > 0) && !is_enter(key) && key
                != KeyInput::Char('q') ==> *final(self) == *old(self) && r == UiAction::Nothing,
    {
        let down = match key {
            KeyInput::Down => true,
            KeyInput::Char(c) => c == 'j',
            _ => false,
        };
        let up = match key {
            KeyInput::Up => true,
            KeyInput::Char(c) => c == 'k',
            _ => false,
        };
        let enter = match key {
            KeyInput::Enter => true,
            KeyInput::Char(c) => c == 'l',
            _ => false,
        };
        let quit = match key {
            KeyInput::Char(c) => c == 'q',
            _ => false,
        };
        if down {
            if count > 0 {
                let i = match self.selected {
                    Some(i) => (i % count + 1) % count,
                    None => 0,
                };
                proof {
                    if let Some(j) = old(self).selected {
                        let m = count as int;
                        vstd::arithmetic::div_mod::lemma_add_mod_noop(j as int, 1, m);
                        vstd::arithmetic::div_mod::lemma_add_mod_noop(j as int % m, 1, m);
                        vstd::arithmetic::div_mod::lemma_mod_twice(j as int, m);
                        assert((j as int + 1) % m == ((j as int) % m + 1) % m);
                    }
                }
                self.selected = Some(i);
                self.last_error = None;
            }
            UiAction::Nothing
        } else if up {
            if count > 0 {
                let i = match self.selected {
                    Some(i) => if i == 0 {
                        count - 1
                    } else {
                        i - 1
                    },
                    None => 0,
                };
                self.selected = Some(i);
                self.last_error = None;
            }
            UiAction::Nothing
        } else if enter {
            match self.selected {
                Some(i) => if i < count {
                    UiAction::Apply(i)
                } else {
                    UiAction::Nothing
                },
                None => UiAction::Nothing,
            }
        } else if quit {
            self.exit = true;
            UiAction::Nothing
        } else {
            UiAction::Nothing
        }
    }

    /// Records the outcome of a switch: leave on success, show the error otherwise.
    pub fn switch_finished(&mut self, result: Result<(), String>)
        ensures
            result is Ok ==> final(self).exit && final(self).last_error == old(self).last_error,
            result matches Err(e) ==> final(self).last_error == Some(e) && final(self).exit == old(
                self,
            ).exit,
            final(self).selected == old(self).selected,
    {
        match result {
            Ok(()) => self.exit = true,
            Err(e) => self.last_error = Some(e),
        }
    }

    /// Keeps the selection on the same row after the list of `count` accounts was
    /// re-sorted, clamped to the last row; `previous` is the selection before.
    pub fn reselect(&mut self, previous: Option<usize>, count: usize)
        ensures
            count == 0 ==> final(self).selected is None,
            count > 0 ==> final(self).selected == Some(
                min(
                    match previous {
                        Some(i) => i as int,
                        None => 0,
                    },
                    count - 1,
                ) as usize,
            ),
            final(self).exit == old(self).exit,
            final(self).last_error == old(self).last_error,
    {
        if count == 0 {
            self.selected = None;
        } else {
            let i = match previous {
                Some(i) => i,
                None => 0,
            };
            let last = count - 1;
            self.selected = Some(
                if i < last {
                    i
                } else {
                    last
                },
            );
        }
    }

    /// The index of the selected account, where it is in a list of `count`.
    pub fn selected_account(&self, count: usize) -> (r: Option<usize>)
        ensures
            r == (match self.selected {
                Some(i) => if i < count {
                    Some(i)
                } else {
                    None
                },
                None => None,
            }),
    {
        match self.selected {
            Some(i) => if i < count {
                Some(i)
            } else {
                None
            },
            None => None,
        }
    }
}

/// In a list of `n > 0` accounts, moving down or up from a row of the list, or
/// from no selection, lands on a row of the list.
pub proof fn lemma_moves_stay_in_list(selected: Option<usize>, n: int)
    requires
        n > 0,
        selected matches Some(i) ==> i < n,
    ensures
        0 <= moved_down(selected, n) < n,
        0 <= moved_up(selected, n) < n,
{
    if let Some(i) = selected {
        vstd::arithmetic::div_mod::lemma_mod_bound((i + 1) as int, n);
    }
}

/// Moving down then up returns to the row where the selection was.
pub proof fn lemma_down_then_up(i: usize, n: int)
    requires
        0 <= i < n,
        n <= usize::MAX,
    ensures
        moved_up(Some(moved_down(Some(i), n) as usize), n) == i,
{
    if i + 1 < n {
        vstd::arithmetic::div_mod::lemma_small_mod((i + 1) as nat, n as nat);
    } else {
        vstd::arithmetic::div_mod::lemma_mod_self_0(n);
    }
}

/// Moving up then down returns to the row where the selection was.
pub proof fn lemma_up_then_down(i: usize, n: int)
    requires
        0 <= i < n,
        n <= usize::MAX,
    ensures
        moved_down(Some(moved_up(Some(i), n) as usize), n) == i,
{
    if i == 0 {
        vstd::arithmetic::div_mod::lemma_mod_self_0(n);
    } else {
        vstd::arithmetic::div_mod::lemma_small_mod(i as nat, n as nat);
    }
}

/// The detail panel: the last switch error, else the selected account's details,
/// else empty fields.
pub open spec fn detail_panel_ok(
    last_error: Option<String>,
    selected: Option<ApiAccount>,
    lines: Seq<Seq<char>>,
) -> bool {
    match last_error {
        Some(e) => lines == seq!["error: "@ + e@, "按 q 退出，或选择其他 profile"@],
        None => match selected {
            Some(a) => profile::account_details(a.usage, lines),
            None => lines == seq![
                "email: --"@,
                "plan_type: --"@,
                "5h --% reset --"@,
                "7d --% reset --"@,
            ],
        },
    }
}

/// The lines of the detail panel.
pub fn detail_panel(last_error: &Option<String>, selected: Option<&ApiAccount>) -> (r: Vec<String>)
    ensures
        detail_panel_ok(*last_error, profile::deref_account(selected), usage::lines_of(r@)),
{
    match last_error {
        Some(e) => {
            let mut first = "error: ".to_owned();
            first.append(e.as_str());
            let mut r = Vec::new();
            r.push(first);
            r.push("按 q 退出，或选择其他 profile".to_owned());
            proof {
                assert(usage::lines_of(r@) =~= seq!["error: "@ + e@, "按 q 退出，或选择其他 profile"@]);
            }
            r
        },
        None => match selected {
            Some(a) => a.detail_lines(),
            None => {
                let mut r = Vec::new();
                r.push("email: --".to_owned());
                r.push("plan_type: --".to_owned());
                r.push("5h --% reset --".to_owned());
                r.push("7d --% reset --".to_owned());
                proof {
                    assert(usage::lines_of(r@) =~= seq![
                        "email: --"@,
                        "plan_type: --"@,
                        "5h --% reset --"@,
                        "7d --% reset --"@,
                    ]);
                }
                r
            },
        },
    }
}

} // verus!
