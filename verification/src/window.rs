//! The windowed ("less") list engine.
//!
//! A long option list is kept navigable inside a fixed budget of visible
//! terminal rows. The state is a logical focus index into the full list
//! plus the row of the visible window that holds it; the visible slice is
//! derived, never stored. Every transition wraps around the full list, and
//! every transition keeps the window inside the list.
use vstd::prelude::*;
use vstd::arithmetic::div_mod::{lemma_mod_self_0, lemma_small_mod};

verus! {

/// The index one forward step reaches, wrapping from the end to the start.
pub open spec fn next_idx(idx: int, len: int) -> int {
    if idx + 1 < len {
        idx + 1
    } else {
        0
    }
}

/// The index one backward step reaches, wrapping from the start to the end.
pub open spec fn prev_idx(idx: int, len: int) -> int {
    if idx > 0 {
        idx - 1
    } else {
        len - 1
    }
}

/// The focus index after `n` forward steps from `idx`.
pub open spec fn next_idx_iter(idx: int, n: nat, len: int) -> int
    decreases n,
{
    if n == 0 {
        idx
    } else {
        next_idx(next_idx_iter(idx, (n - 1) as nat, len), len)
    }
}

/// Wrap-around law: `n` forward steps from `idx` on a list of length `len`
/// land on `(idx + n) % len`.
pub proof fn lemma_next_wraps(idx: int, n: nat, len: int)
    requires
        len > 0,
        0 <= idx < len,
    ensures
        next_idx_iter(idx, n, len) == (idx + n) % len,
    decreases n,
{
    if n == 0 {
        lemma_small_mod(idx as nat, len as nat);
    } else {
        lemma_next_wraps(idx, (n - 1) as nat, len);
        let prev = (idx + n - 1) % len;
        assert(0 <= prev < len) by {
            vstd::arithmetic::div_mod::lemma_mod_bound(idx + n - 1, len);
        }
        if prev + 1 < len {
            assert((idx + n) % len == prev + 1) by {
                vstd::arithmetic::div_mod::lemma_mod_sub_multiples_vanish(idx + n, len);
                lemma_small_mod((prev + 1) as nat, len as nat);
                vstd::arithmetic::div_mod::lemma_add_mod_noop(idx + n - 1, 1, len);
                lemma_small_mod(1nat, len as nat);
            }
        } else {
            assert(prev == len - 1);
            assert((idx + n) % len == 0) by {
                vstd::arithmetic::div_mod::lemma_add_mod_noop(idx + n - 1, 1, len);
                if len == 1 {
                    lemma_mod_self_0(1);
                    lemma_small_mod(0nat, 1nat);
                } else {
                    lemma_small_mod(1nat, len as nat);
                    lemma_mod_self_0(len);
                }
            }
        }
    }
}

/// Windowed navigation state: the focused index into the full list, and the
/// visible row that holds it.
#[derive(Clone, Copy, Debug, PartialEq, Eq, Structural)]
pub struct Window {
    /// Logical index of the focused option in the full list.
    pub idx: usize,
    /// Row of the visible window (0-based) where the focused option sits.
    pub less_idx: u16,
}

impl Window {
    /// Well-formedness under a list of `len` options and a window of `less`
    /// rows: paging is active (`less < len`), the focus is in the list, the
    /// focused row is in the window, and the visible slice
    /// `[idx - less_idx, idx - less_idx + less)` lies inside the list.
    pub open spec fn wf(&self, len: int, less: int) -> bool {
        &&& 0 < less < len
        &&& len <= usize::MAX - 0x10000
        &&& self.idx < len
        &&& self.less_idx < less
        &&& self.less_idx <= self.idx
        &&& self.idx - self.less_idx + less <= len
    }

    /// First index of the visible slice.
    pub open spec fn start(&self) -> int {
        self.idx - self.less_idx
    }

    /// The state a forward step (Down/Right) reaches.
    pub open spec fn spec_next(self, len: int, less: int) -> Window {
        if self.idx + 1 < len {
            Window {
                idx: (self.idx + 1) as usize,
                less_idx: if self.less_idx + 1 < less {
                    (self.less_idx + 1) as u16
                } else {
                    self.less_idx
                },
            }
        } else {
            Window { idx: 0, less_idx: 0 }
        }
    }

    /// The state a backward step (Up/Left) reaches.
    pub open spec fn spec_prev(self, len: int, less: int) -> Window {
        if self.idx > 0 {
            Window {
                idx: (self.idx - 1) as usize,
                less_idx: if self.less_idx > 0 {
                    (self.less_idx - 1) as u16
                } else {
                    0
                },
            }
        } else {
            Window { idx: (len - 1) as usize, less_idx: (less - 1) as u16 }
        }
    }

    /// The state a page-down jump reaches: forward by `less`, clamped to the
    /// last index, with the window pulled back so it never overruns the end.
    pub open spec fn spec_page_down(self, len: int, less: int) -> Window {
        if self.idx + less >= len - 1 {
            Window { idx: (len - 1) as usize, less_idx: (less - 1) as u16 }
        } else {
            let idx = self.idx + less;
            Window {
                idx: idx as usize,
                less_idx: if len - idx < less - self.less_idx {
                    (less - (len - idx)) as u16
                } else {
                    self.less_idx
                },
            }
        }
    }

    /// The state a page-up jump reaches: backward by `less`, clamped to the
    /// first index, with the focused row kept where the clamp allows.
    pub open spec fn spec_page_up(self, len: int, less: int) -> Window {
        if self.idx <= less {
            Window { idx: 0, less_idx: 0 }
        } else {
            let idx = self.idx - less;
            Window {
                idx: idx as usize,
                less_idx: vstd::math::min(self.less_idx as int, idx) as u16,
            }
        }
    }

    /// A fresh window focused on the first option.
    pub fn new() -> (w: Window)
        ensures
            w == (Window { idx: 0, less_idx: 0 }),
    {
        Window { idx: 0, less_idx: 0 }
    }

    /// One forward step with wrap-around.
    pub fn next(&mut self, len: usize, less: u16)
        requires
            old(self).wf(len as int, less as int),
        ensures
            *final(self) == old(self).spec_next(len as int, less as int),
            final(self).wf(len as int, less as int),
            final(self).idx == next_idx(old(self).idx as int, len as int),
    {
        if self.idx < len - 1 {
            self.idx = self.idx + 1;
            if self.less_idx < less - 1 {
                self.less_idx = self.less_idx + 1;
            }
        } else {
            self.idx = 0;
            self.less_idx = 0;
        }
    }

    /// One backward step with wrap-around.
    pub fn prev(&mut self, len: usize, less: u16)
        requires
            old(self).wf(len as int, less as int),
        ensures
            *final(self) == old(self).spec_prev(len as int, less as int),
            final(self).wf(len as int, less as int),
            final(self).idx == prev_idx(old(self).idx as int, len as int),
    {
        if self.idx > 0 {
            self.idx = self.idx - 1;
            self.less_idx = self.less_idx.saturating_sub(1);
        } else {
            self.idx = len - 1;
            self.less_idx = less - 1;
        }
    }

    /// Jump forward by a whole window, clamping at the end of the list.
    pub fn page_down(&mut self, len: usize, less: u16)
        requires
            old(self).wf(len as int, less as int),
        ensures
            *final(self) == old(self).spec_page_down(len as int, less as int),
            final(self).wf(len as int, less as int),
    {
        if self.idx + less as usize >= len - 1 {
            self.less_idx = less - 1;
            self.idx = len - 1;
        } else {
            self.idx = self.idx + less as usize;
            if len - self.idx < (less - self.less_idx) as usize {
                self.less_idx = less - (len - self.idx) as u16;
            }
        }
    }

    /// Jump backward by a whole window, clamping at the start of the list.
    pub fn page_up(&mut self, len: usize, less: u16)
        requires
            old(self).wf(len as int, less as int),
        ensures
            *final(self) == old(self).spec_page_up(len as int, less as int),
            final(self).wf(len as int, less as int),
    {
        if self.idx <= less as usize {
            self.less_idx = 0;
            self.idx = 0;
        } else {
            self.idx = self.idx - less as usize;
            if self.idx < self.less_idx as usize {
                self.less_idx = self.idx as u16;
            }
        }
    }
}

/// The window size paging runs with, or `None` where paging stays off.
///
/// `enabled` is the `less()` switch; `less_amt` an explicit row count;
/// `less_max` a cap on the row count derived from the terminal height
/// (`rows`), which loses a fixed 4-row chrome budget. Paging activates only
/// when the option count exceeds the window that would be used.
pub open spec fn spec_mk_less(
    len: int,
    enabled: bool,
    less_amt: Option<u16>,
    less_max: Option<u16>,
    rows: Option<u16>,
) -> Option<u16> {
    if !enabled {
        None
    } else if less_amt is Some {
        let amt = less_amt.unwrap();
        if len > amt {
            Some(amt)
        } else {
            None
        }
    } else if rows is Some {
        let budget = if rows.unwrap() >= 4 {
            (rows.unwrap() - 4) as u16
        } else {
            0u16
        };
        let capped = if less_max is Some && less_max.unwrap() < budget {
            less_max.unwrap()
        } else {
            budget
        };
        if capped > 0 && len > capped {
            Some(capped)
        } else {
            None
        }
    } else {
        None
    }
}

/// Computes [`spec_mk_less`]: which window size paging runs with.
pub fn mk_less_window(
    len: usize,
    enabled: bool,
    less_amt: Option<u16>,
    less_max: Option<u16>,
    rows: Option<u16>,
) -> (r: Option<u16>)
    ensures
        r == spec_mk_less(len as int, enabled, less_amt, less_max, rows),
        r matches Some(w) ==> len > w,
{
    if !enabled {
        return None;
    }
    match less_amt {
        Some(amt) => {
            if len > amt as usize {
                Some(amt)
            } else {
                None
            }
        },
        None => {
            match rows {
                Some(terminal_rows) => {
                    let budget = terminal_rows.saturating_sub(4);
                    let capped = match less_max {
                        Some(max) => if max < budget {
                            max
                        } else {
                            budget
                        },
                        None => budget,
                    };
                    if capped > 0 && len > capped as usize {
                        Some(capped)
                    } else {
                        None
                    }
                },
                None => None,
            }
        },
    }
}

/// A forward step under either mode: the windowed transition when paging is
/// active, plain wrap-around otherwise.
pub open spec fn nav_next(w: Window, len: int, less: Option<u16>) -> Window {
    match less {
        Some(l) => w.spec_next(len, l as int),
        None => Window { idx: next_idx(w.idx as int, len) as usize, less_idx: 0 },
    }
}

/// A backward step under either mode.
pub open spec fn nav_prev(w: Window, len: int, less: Option<u16>) -> Window {
    match less {
        Some(l) => w.spec_prev(len, l as int),
        None => Window { idx: prev_idx(w.idx as int, len) as usize, less_idx: 0 },
    }
}

/// A page-down jump: a whole-window jump when paging is active, ignored
/// otherwise.
pub open spec fn nav_page_down(w: Window, len: int, less: Option<u16>) -> Window {
    match less {
        Some(l) => w.spec_page_down(len, l as int),
        None => w,
    }
}

/// A page-up jump: a whole-window jump when paging is active, ignored
/// otherwise.
pub open spec fn nav_page_up(w: Window, len: int, less: Option<u16>) -> Window {
    match less {
        Some(l) => w.spec_page_up(len, l as int),
        None => w,
    }
}

/// Well-formedness of the navigation state under either mode.
pub open spec fn nav_wf(w: Window, len: int, less: Option<u16>) -> bool {
    match less {
        Some(l) => w.wf(len, l as int),
        None => w.idx < len && w.less_idx == 0,
    }
}

/// The character for one decimal digit.
pub open spec fn digit_char(d: int) -> char {
    if d == 0 {
        '0'
    } else if d == 1 {
        '1'
    } else if d == 2 {
        '2'
    } else if d == 3 {
        '3'
    } else if d == 4 {
        '4'
    } else if d == 5 {
        '5'
    } else if d == 6 {
        '6'
    } else if d == 7 {
        '7'
    } else if d == 8 {
        '8'
    } else {
        '9'
    }
}

/// The decimal digits of `n`, most significant first.
pub open spec fn spec_digits(n: nat) -> Seq<char>
    decreases n,
{
    if n < 10 {
        seq![digit_char(n as int)]
    } else {
        spec_digits(n / 10).push(digit_char((n % 10) as int))
    }
}

/// `s` left-padded with zeroes to `width` characters.
pub open spec fn spec_pad_zeroes(s: Seq<char>, width: int) -> Seq<char> {
    Seq::new(
        if s.len() < width {
            (width - s.len()) as nat
        } else {
            0
        },
        |i: int| '0',
    ) + s
}

/// The progress indicator of a windowed list: `current/total`, with
/// `current` zero-padded to the width of `total`.
pub open spec fn spec_progress(idx: int, len: nat) -> Seq<char> {
    spec_pad_zeroes(spec_digits((idx + 1) as nat), spec_digits(len).len() as int) + "/"@
        + spec_digits(len)
}

/// One decimal digit as text.
fn digit_str(d: usize) -> (r: &'static str)
    requires
        d < 10,
    ensures
        r@ == seq![digit_char(d as int)],
{
    let r: &'static str = if d == 0 {
        "0"
    } else if d == 1 {
        "1"
    } else if d == 2 {
        "2"
    } else if d == 3 {
        "3"
    } else if d == 4 {
        "4"
    } else if d == 5 {
        "5"
    } else if d == 6 {
        "6"
    } else if d == 7 {
        "7"
    } else if d == 8 {
        "8"
    } else {
        "9"
    };
    proof {
        reveal_strlit("0");
        reveal_strlit("1");
        reveal_strlit("2");
        reveal_strlit("3");
        reveal_strlit("4");
        reveal_strlit("5");
        reveal_strlit("6");
        reveal_strlit("7");
        reveal_strlit("8");
        reveal_strlit("9");
        assert(r@ =~= seq![digit_char(d as int)]);
    }
    r
}

/// Writes `n` in decimal.
pub fn fmt_usize(n: usize) -> (r: String)
    ensures
        r@ == spec_digits(n as nat),
    decreases n,
{
    if n < 10 {
        let s = digit_str(n).to_owned();
        proof {
            assert(s@ =~= spec_digits(n as nat));
        }
        s
    } else {
        let mut s = fmt_usize(n / 10);
        s.append(digit_str(n % 10));
        proof {
            assert(s@ =~= spec_digits(n as nat));
        }
        s
    }
}

/// Writes `n` in decimal.
pub fn fmt_u64(n: u64) -> (r: String)
    ensures
        r@ == spec_digits(n as nat),
    decreases n,
{
    if n < 10 {
        let s = digit_str((n % 10) as usize).to_owned();
        proof {
            assert(s@ =~= spec_digits(n as nat));
        }
        s
    } else {
        let mut s = fmt_u64(n / 10);
        s.append(digit_str((n % 10) as usize));
        proof {
            assert(s@ =~= spec_digits(n as nat));
        }
        s
    }
}

/// The decimal writing of a signed number: a minus sign and the digits of
/// its magnitude.
pub open spec fn spec_int_digits(n: int) -> Seq<char> {
    if n < 0 {
        seq!['-'] + spec_digits((-n) as nat)
    } else {
        spec_digits(n as nat)
    }
}

/// Writes `n` in decimal, with a minus sign when it is negative.
pub fn fmt_i64(n: i64) -> (r: String)
    ensures
        r@ == spec_int_digits(n as int),
{
    if n >= 0 {
        let r = fmt_u64(n as u64);
        r
    } else {
        let magnitude: u64 = if n == i64::MIN {
            9223372036854775808u64
        } else {
            (-n) as u64
        };
        let mut r = "-".to_owned();
        r.append(fmt_u64(magnitude).as_str());
        proof {
            reveal_strlit("-");
            assert(r@ =~= spec_int_digits(n as int));
        }
        r
    }
}

/// Writes `n` in decimal, left-padded with zeroes to `width` characters.
pub fn fmt_usize_padded(n: usize, width: usize) -> (r: String)
    ensures
        r@ == spec_pad_zeroes(spec_digits(n as nat), width as int),
{
    let digits = fmt_usize(n);
    let digit_count = digits.as_str().unicode_len();
    let mut r = String::new();
    let mut j: usize = 0;
    let pad: usize = if digit_count < width {
        width - digit_count
    } else {
        0
    };
    while j < pad
        invariant
            j <= pad,
            r@ =~= Seq::new(j as nat, |i: int| '0'),
        decreases pad - j,
    {
        r.append("0");
        j = j + 1;
        proof {
            reveal_strlit("0");
            assert(r@ =~= Seq::new(j as nat, |i: int| '0'));
        }
    }
    r.append(digits.as_str());
    proof {
        assert(r@ =~= spec_pad_zeroes(spec_digits(n as nat), width as int));
    }
    r
}

/// The progress indicator shown under a windowed list: `current/total`.
pub fn progress_line(idx: usize, len: usize) -> (r: String)
    requires
        idx < len,
    ensures
        r@ == spec_progress(idx as int, len as nat),
{
    let total = fmt_usize(len);
    let width = total.as_str().unicode_len();
    let mut r = fmt_usize_padded(idx + 1, width);
    r.append("/");
    r.append(total.as_str());
    proof {
        assert(r@ =~= spec_progress(idx as int, len as nat));
    }
    r
}

/// Paging law: whenever paging activates with window size `w`, the list is
/// strictly longer than `w`; a list that fits in the window it would be
/// given never enters windowed mode, whatever the `less` configuration.
pub proof fn lemma_short_list_never_pages(
    len: int,
    enabled: bool,
    less_amt: Option<u16>,
    less_max: Option<u16>,
    rows: Option<u16>,
    w: u16,
)
    requires
        spec_mk_less(len, enabled, less_amt, less_max, rows) == Some(w),
    ensures
        len > w,
{
}

} // verus!
