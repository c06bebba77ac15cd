//! Single choice from a list of options.
use vstd::prelude::*;
use crate::error::ClackError;
use crate::key::Key;
use crate::style::{CLEAR_LINE, Glyphs, spec_bar, spec_radio_active, spec_radio_inactive};
use crate::term;
use crate::term::{cyan_of, dim_of, green_of, trunc_of};
use crate::traits::{CancelHook, NoCancel};
use crate::window::{
    Window, mk_less_window, nav_next, nav_page_down, nav_page_up, nav_prev, nav_wf,
    progress_line, spec_mk_less,
};

verus! {

/// The display width left for a label: the terminal width less the prompt
/// chrome (`need` columns), floored at zero.
pub open spec fn spec_avail(width: int, need: int) -> int {
    if width > need {
        width - need
    } else {
        0
    }
}

/// A label as it is shown: truncated to the terminal width when the width
/// is known, the full label otherwise. `need` is the chrome budget.
pub open spec fn spec_shown_label(label: Seq<char>, need: int, size: Option<(u16, u16)>) -> Seq<
    char,
> {
    match size {
        Some((w, h)) => trunc_of(label, spec_avail(w as int, need)),
        None => label,
    }
}

/// One selectable option of a [`Select`] prompt.
#[derive(Debug, Clone)]
pub struct Opt<T> {
    /// Opaque payload handed back to the caller on selection; never shown.
    pub value: T,
    /// The text shown for this option.
    pub label: String,
    /// A short annotation shown only while the option has focus.
    pub hint: Option<String>,
}

/// The chrome budget beside a focused label with a hint: the radio point,
/// the spaces and the parenthesized hint, capped at what a `usize` holds.
pub open spec fn spec_hint_need(hint: Seq<char>) -> int {
    if hint.len() + 8 <= usize::MAX {
        8 + hint.len() as int
    } else {
        usize::MAX as int
    }
}

/// The line painted for a focused option: a green active radio point, the
/// truncated label, and the dimmed parenthesized hint when there is one.
pub open spec fn spec_focus_line<T>(o: Opt<T>, g: Glyphs, size: Option<(u16, u16)>) -> Seq<char> {
    let label = match o.hint {
        Some(h) => spec_shown_label(o.label@, spec_hint_need(h@), size),
        None => spec_shown_label(o.label@, 5, size),
    };
    let base = green_of(spec_radio_active(g)) + " "@ + label;
    match o.hint {
        Some(h) => base + " "@ + dim_of("("@ + h@ + ")"@),
        None => base,
    }
}

/// The line painted for an unfocused option: a dimmed inactive radio point
/// and the dimmed truncated label.
pub open spec fn spec_unfocus_line<T>(o: Opt<T>, g: Glyphs, size: Option<(u16, u16)>) -> Seq<
    char,
> {
    dim_of(spec_radio_inactive(g)) + " "@ + dim_of(spec_shown_label(o.label@, 5, size))
}

/// One repainted row of the windowed frame: clear the line, the cyan bar,
/// the unfocused option, then carriage return and newline.
pub open spec fn spec_less_row<T>(o: Opt<T>, g: Glyphs, size: Option<(u16, u16)>) -> Seq<char> {
    CLEAR_LINE@ + cyan_of(spec_bar(g)) + "  "@ + spec_unfocus_line(o, g, size) + "\r\n"@
}

/// The first `count` rows of the visible window starting at `start`.
pub open spec fn spec_less_rows<T>(
    opts: Seq<Opt<T>>,
    g: Glyphs,
    start: int,
    count: int,
    size: Option<(u16, u16)>,
) -> Seq<char>
    decreases count,
{
    if count <= 0 {
        Seq::empty()
    } else {
        spec_less_rows(opts, g, start, count - 1, size) + spec_less_row(
            opts[start + count - 1],
            g,
            size,
        )
    }
}

/// The whole windowed frame one redraw paints: exactly
/// the window's `less` rows, each unfocused, followed by the one-line
/// progress indicator.
pub open spec fn spec_less_frame<T>(
    opts: Seq<Opt<T>>,
    g: Glyphs,
    w: Window,
    less: int,
    size: Option<(u16, u16)>,
) -> Seq<char> {
    spec_less_rows(opts, g, w.start(), less, size) + CLEAR_LINE@ + cyan_of(spec_bar(g))
        + "  ......... ("@ + crate::window::spec_progress(w.idx as int, opts.len()) + ")\n"@
}

impl<T> Opt<T> {
    /// A new option with a value, a label, and perhaps a hint.
    pub fn new(value: T, label: &str, hint: Option<&str>) -> (o: Opt<T>)
        ensures
            o.value == value,
            o.label@ == label@,
            match hint {
                Some(h) => o.hint matches Some(oh) && oh@ == h@,
                None => o.hint is None,
            },
    {
        Opt {
            value,
            label: label.to_owned(),
            hint: match hint {
                Some(h) => Some(h.to_owned()),
                None => None,
            },
        }
    }

    /// A new option without a hint.
    pub fn simple(value: T, label: &str) -> (o: Opt<T>)
        ensures
            o.value == value,
            o.label@ == label@,
            o.hint is None,
    {
        Opt::new(value, label, None)
    }

    /// A new option with a hint.
    pub fn hint(value: T, label: &str, hint: &str) -> (o: Opt<T>)
        ensures
            o.value == value,
            o.label@ == label@,
            o.hint matches Some(h) && h@ == hint@,
    {
        Opt::new(value, label, Some(hint))
    }

    /// The label cut down to the width left beside `need` columns of chrome.
    fn shown_label(&self, need: usize, size: Option<(u16, u16)>) -> (r: String)
        ensures
            r@ == spec_shown_label(self.label@, need as int, size),
    {
        match size {
            Some((w, _h)) => {
                let wu = w as usize;
                let avail: usize = if wu > need {
                    wu - need
                } else {
                    0
                };
                term::trunc_str(self.label.as_str(), avail)
            },
            None => self.label.clone(),
        }
    }

    /// The focused form of this option's line.
    pub fn focus(&self, g: &Glyphs, size: Option<(u16, u16)>) -> (r: String)
        ensures
            r@ == spec_focus_line(*self, *g, size),
    {
        let mut r = term::style_green(g.radio_active());
        r.append(" ");
        match &self.hint {
            Some(h) => {
                let hint_chars = h.as_str().unicode_len();
                let need: usize = if hint_chars <= usize::MAX - 8 {
                    8 + hint_chars
                } else {
                    usize::MAX
                };
                let label = self.shown_label(need, size);
                r.append(label.as_str());
                r.append(" ");
                let mut inner = "(".to_owned();
                inner.append(h.as_str());
                inner.append(")");
                proof {
                    reveal_strlit("(");
                    reveal_strlit(")");
                    assert(inner@ =~= "("@ + self.hint.unwrap()@ + ")"@);
                }
                let styled = term::style_dim(inner.as_str());
                r.append(styled.as_str());
                proof {
                    reveal_strlit(" ");
                    assert(r@ =~= spec_focus_line(*self, *g, size));
                }
            },
            None => {
                let label = self.shown_label(5, size);
                r.append(label.as_str());
                proof {
                    reveal_strlit(" ");
                    assert(r@ =~= spec_focus_line(*self, *g, size));
                }
            },
        }
        r
    }

    /// The unfocused form of this option's line.
    pub fn unfocus(&self, g: &Glyphs, size: Option<(u16, u16)>) -> (r: String)
        ensures
            r@ == spec_unfocus_line(*self, *g, size),
    {
        let mut r = term::style_dim(g.radio_inactive());
        r.append(" ");
        let label = self.shown_label(5, size);
        let styled = term::style_dim(label.as_str());
        r.append(styled.as_str());
        proof {
            reveal_strlit(" ");
            assert(r@ =~= spec_unfocus_line(*self, *g, size));
        }
        r
    }
}

/// What a run of the select state machine ends in: the focused index was
/// submitted, or the prompt was cancelled.
pub enum SelectOutcome {
    /// Enter was pressed with the focus on this index.
    Picked(int),
    /// Ctrl-C, or the key stream ran out.
    Cancelled,
}

/// The select state machine, run to its end over a key sequence: arrows
/// move the focus (wrapping around the list), page keys jump by a window
/// when paging is active, Enter submits the focused index, Ctrl-C — or
/// exhausting the keys — cancels, and every other key is ignored.
pub open spec fn spec_select_drive(
    w: Window,
    len: int,
    less: Option<u16>,
    keys: Seq<Key>,
) -> SelectOutcome
    decreases keys.len(),
{
    if keys.len() == 0 {
        SelectOutcome::Cancelled
    } else {
        let rest = keys.skip(1);
        match keys[0] {
            Key::Enter => SelectOutcome::Picked(w.idx as int),
            Key::CtrlC => SelectOutcome::Cancelled,
            Key::Up => spec_select_drive(nav_prev(w, len, less), len, less, rest),
            Key::Left => spec_select_drive(nav_prev(w, len, less), len, less, rest),
            Key::Down => spec_select_drive(nav_next(w, len, less), len, less, rest),
            Key::Right => spec_select_drive(nav_next(w, len, less), len, less, rest),
            Key::PageDown => spec_select_drive(nav_page_down(w, len, less), len, less, rest),
            Key::PageUp => spec_select_drive(nav_page_up(w, len, less), len, less, rest),
            _ => spec_select_drive(w, len, less, rest),
        }
    }
}

/// A single-select prompt under construction.
pub struct Select<T, C> {
    /// The question shown above the options.
    pub message: String,
    /// Whether windowed ("less") paging was requested.
    pub less: bool,
    /// An explicit window size, if one was set.
    pub less_amt: Option<u16>,
    /// A cap on the terminal-derived window size, if one was set.
    pub less_max: Option<u16>,
    /// Hook run when the user cancels.
    pub cancel: C,
    /// The options, in the order they were added.
    pub options: Vec<Opt<T>>,
    /// The glyph set frames are painted with.
    pub glyphs: Glyphs,
}

impl<T> Select<T, NoCancel> {
    /// A new select prompt with no options yet.
    pub fn new(message: &str) -> (s: Select<T, NoCancel>)
        ensures
            s.message@ == message@,
            s.less == false,
            s.less_amt is None,
            s.less_max is None,
            s.options@.len() == 0,
    {
        Select {
            message: message.to_owned(),
            less: false,
            less_amt: None,
            less_max: None,
            cancel: NoCancel,
            options: Vec::new(),
            glyphs: Glyphs::detect(),
        }
    }
}

impl<T, C: CancelHook> Select<T, C> {
    /// Adds an option without a hint.
    pub fn option(self, value: T, label: &str) -> (s: Select<T, C>)
        ensures
            s.options@.len() == self.options@.len() + 1,
            s.options@.drop_last() == self.options@,
            s.options@.last().value == value,
            s.options@.last().label@ == label@,
            s.options@.last().hint is None,
            s.message == self.message,
            s.less == self.less,
            s.less_amt == self.less_amt,
            s.less_max == self.less_max,
            s.glyphs == self.glyphs,
    {
        let mut s = self;
        s.options.push(Opt::simple(value, label));
        proof {
            assert(s.options@.drop_last() =~= self.options@);
        }
        s
    }

    /// Adds an option with a hint.
    pub fn option_hint(self, value: T, label: &str, hint: &str) -> (s: Select<T, C>)
        ensures
            s.options@.len() == self.options@.len() + 1,
            s.options@.drop_last() == self.options@,
            s.options@.last().value == value,
            s.options@.last().label@ == label@,
            s.options@.last().hint matches Some(h) && h@ == hint@,
            s.message == self.message,
            s.less == self.less,
            s.less_amt == self.less_amt,
            s.less_max == self.less_max,
            s.glyphs == self.glyphs,
    {
        let mut s = self;
        s.options.push(Opt::hint(value, label, hint));
        proof {
            assert(s.options@.drop_last() =~= self.options@);
        }
        s
    }

    /// Replaces the option list wholesale.
    pub fn options(self, options: Vec<Opt<T>>) -> (s: Select<T, C>)
        ensures
            s.options == options,
            s.message == self.message,
            s.less == self.less,
            s.less_amt == self.less_amt,
            s.less_max == self.less_max,
            s.glyphs == self.glyphs,
    {
        let mut s = self;
        s.options = options;
        s
    }

    /// Enables paging sized from the terminal height.
    pub fn less(self) -> (s: Select<T, C>)
        ensures
            s.less == true,
            s.less_amt == self.less_amt,
            s.less_max == self.less_max,
            s.options == self.options,
            s.message == self.message,
            s.glyphs == self.glyphs,
    {
        let mut s = self;
        s.less = true;
        s
    }

    /// Enables paging sized from the terminal height, capped at `max` rows.
    ///
    /// `max` must be positive, and an explicit row count must not also be
    /// set.
    pub fn less_max(self, max: u16) -> (s: Select<T, C>)
        requires
            max > 0,
            self.less_amt is None,
        ensures
            s.less == true,
            s.less_max == Some(max),
            s.less_amt is None,
            s.options == self.options,
            s.message == self.message,
            s.glyphs == self.glyphs,
    {
        let mut s = self;
        s.less = true;
        s.less_max = Some(max);
        s
    }

    /// Enables paging with an explicit window of `amt` rows.
    ///
    /// `amt` must be positive, and a cap must not also be set.
    pub fn less_amt(self, amt: u16) -> (s: Select<T, C>)
        requires
            amt > 0,
            self.less_max is None,
        ensures
            s.less == true,
            s.less_amt == Some(amt),
            s.less_max is None,
            s.options == self.options,
            s.message == self.message,
            s.glyphs == self.glyphs,
    {
        let mut s = self;
        s.less = true;
        s.less_amt = Some(amt);
        s
    }

    /// Sets the hook run when the user cancels.
    pub fn cancel<C2: CancelHook>(self, cancel: C2) -> (s: Select<T, C2>)
        ensures
            s.options == self.options,
            s.message == self.message,
            s.less == self.less,
            s.less_amt == self.less_amt,
            s.less_max == self.less_max,
            s.glyphs == self.glyphs,
    {
        Select {
            message: self.message,
            less: self.less,
            less_amt: self.less_amt,
            less_max: self.less_max,
            cancel,
            options: self.options,
            glyphs: self.glyphs,
        }
    }

    /// Runs the select state machine over a fixed key sequence, with no
    /// terminal involved: the submitted option's value is returned exactly
    /// as [`spec_select_drive`] picks it. The prompt is consumed so the
    /// value can be moved out as it stands, without cloning. Since no
    /// terminal is read, the height-derived paging mode stays off unless
    /// an explicit window was configured.
    #[verifier::loop_isolation(false)]
    pub fn interact_keys(self, keys: &Vec<Key>) -> (r: Result<T, ClackError>)
        requires
            self.options@.len() <= usize::MAX - 0x10000,
            self.less_amt matches Some(a) ==> a > 0,
        ensures
            self.options@.len() == 0 <==> r == Err::<T, ClackError>(ClackError::NoOptions),
            self.options@.len() > 0 ==> match spec_select_drive(
                (Window { idx: 0, less_idx: 0 }),
                self.options@.len() as int,
                spec_mk_less(self.options@.len() as int, self.less, self.less_amt, self.less_max, None),
                keys@,
            ) {
                SelectOutcome::Picked(i) => r matches Ok(v) && v == self.options@[i].value,
                SelectOutcome::Cancelled => r == Err::<T, ClackError>(ClackError::Cancelled),
            },
    {
        let ghost opts_view = self.options@;
        let len = self.options.len();
        if len == 0 {
            return Err(ClackError::NoOptions);
        }
        let is_less = mk_less_window(len, self.less, self.less_amt, self.less_max, None);
        let ghost target = spec_select_drive(
            (Window { idx: 0, less_idx: 0 }),
            len as int,
            is_less,
            keys@,
        );
        proof {
            assert(spec_select_drive(
                (Window { idx: 0, less_idx: 0 }),
                self.options@.len() as int,
                spec_mk_less(self.options@.len() as int, self.less, self.less_amt, self.less_max, None),
                keys@,
            ) == target);
        }
        let mut w = Window::new();
        let mut opts = self.options;
        let mut k: usize = 0;
        proof {
            assert(keys@.skip(0) =~= keys@);
        }
        while k < keys.len()
            invariant
                0 < len <= usize::MAX - 0x10000,
                opts@ == opts_view,
                len == opts@.len(),
                k <= keys@.len(),
                nav_wf(w, len as int, is_less),
                is_less matches Some(l) ==> l < len,
                spec_select_drive(w, len as int, is_less, keys@.skip(k as int)) == target,
            decreases keys@.len() - k,
        {
            proof {
                assert(keys@.skip(k as int)[0] == keys@[k as int]);
                assert(keys@.skip(k as int).skip(1) =~= keys@.skip(k as int + 1));
            }
            let key = keys[k];
            match key {
                Key::Enter => {
                    proof {
                        assert(spec_select_drive(w, len as int, is_less, keys@.skip(k as int))
                            == SelectOutcome::Picked(w.idx as int));
                    }
                    let picked = opts.remove(w.idx);
                    return Ok(picked.value);
                },
                Key::CtrlC => {
                    proof {
                        assert(spec_select_drive(w, len as int, is_less, keys@.skip(k as int))
                            == SelectOutcome::Cancelled);
                    }
                    self.cancel.on_cancel();
                    return Err(ClackError::Cancelled);
                },
                Key::Up | Key::Left => {
                    match is_less {
                        Some(l) => w.prev(len, l),
                        None => {
                            if w.idx > 0 {
                                w.idx = w.idx - 1;
                            } else {
                                w.idx = len - 1;
                            }
                        },
                    }
                },
                Key::Down | Key::Right => {
                    match is_less {
                        Some(l) => w.next(len, l),
                        None => {
                            if w.idx < len - 1 {
                                w.idx = w.idx + 1;
                            } else {
                                w.idx = 0;
                            }
                        },
                    }
                },
                Key::PageDown => {
                    match is_less {
                        Some(l) => w.page_down(len, l),
                        None => {},
                    }
                },
                Key::PageUp => {
                    match is_less {
                        Some(l) => w.page_up(len, l),
                        None => {},
                    }
                },
                _ => {},
            }
            k = k + 1;
        }
        proof {
            assert(keys@.skip(k as int) =~= Seq::<Key>::empty());
        }
        Err(ClackError::Cancelled)
    }

}

impl<T: Clone, C: CancelHook> Select<T, C> {
    /// Waits for the user to submit an option on the terminal.
    ///
    /// With no options configured this fails with `NoOptions` before
    /// anything is painted. Whatever the user does, a submitted value is
    /// always a clone of one of the configured options' values, and the
    /// prompt itself is untouched, so the same configuration can be run
    /// again.
    pub fn interact(&self) -> (r: Result<T, ClackError>)
        requires
            self.options@.len() <= usize::MAX - 0x10000,
            self.less_amt matches Some(a) ==> a > 0,
        ensures
            self.options@.len() == 0 <==> r == Err::<T, ClackError>(ClackError::NoOptions),
            r matches Ok(v) ==> exists|i: int|
                0 <= i < self.options@.len() && cloned::<T>(
                    #[trigger] self.options@[i].value,
                    v,
                ),
    {
        let len = self.options.len();
        if len == 0 {
            return Err(ClackError::NoOptions);
        }
        let size = term::term_size();
        let rows: Option<u16> = match size {
            Some((_w, h)) => Some(h),
            None => None,
        };
        let is_less = mk_less_window(len, self.less, self.less_amt, self.less_max, rows);
        match match is_less {
            Some(l) => self.w_init_less(l, size),
            None => self.w_init(size),
        } {
            Err(e) => { return Err(e); },
            Ok(()) => {},
        }
        match term::enable_raw() {
            Err(e) => { return Err(e); },
            Ok(()) => {},
        }
        let mut w = Window::new();
        // The read loop blocks on the user and ends only through one of the
        // returns below; the counter gives it a termination bound that no
        // interactive session can reach.
        let mut fuel: u64 = u64::MAX;
        while fuel > 0
            invariant
                0 < len <= usize::MAX - 0x10000,
                len == self.options@.len(),
                nav_wf(w, len as int, is_less),
                is_less matches Some(l) ==> l < len,
            decreases fuel,
        {
            fuel = fuel - 1;
            let key = match term::read_key() {
                Err(e) => {
                    let _ = term::disable_raw();
                    return Err(e);
                },
                Ok(None) => { continue ; },
                Ok(Some(key)) => key,
            };
            match key {
                Key::Enter => {
                    match term::disable_raw() {
                        Err(e) => { return Err(e); },
                        Ok(()) => {},
                    }
                    match match is_less {
                        Some(l) => self.w_out_less(l, w, size),
                        None => self.w_out(w.idx, size),
                    } {
                        Err(e) => { return Err(e); },
                        Ok(()) => {},
                    }
                    let picked = self.options[w.idx].value.clone();
                    proof {
                        assert(cloned::<T>(self.options@[w.idx as int].value, picked));
                    }
                    return Ok(picked);
                },
                Key::CtrlC => {
                    match term::disable_raw() {
                        Err(e) => { return Err(e); },
                        Ok(()) => {},
                    }
                    match match is_less {
                        Some(l) => self.w_cancel_less(l, w, size),
                        None => self.w_cancel(w.idx, size),
                    } {
                        Err(e) => { return Err(e); },
                        Ok(()) => {},
                    }
                    self.cancel.on_cancel();
                    return Err(ClackError::Cancelled);
                },
                Key::Up | Key::Left => {
                    match is_less {
                        Some(l) => {
                            let prev_less = w.less_idx;
                            w.prev(len, l);
                            match self.draw_less(l, w, prev_less, size) {
                                Err(e) => {
                                    let _ = term::disable_raw();
                                    return Err(e);
                                },
                                Ok(()) => {},
                            }
                        },
                        None => {
                            match self.draw_unfocus(w.idx, size) {
                                Err(e) => {
                                    let _ = term::disable_raw();
                                    return Err(e);
                                },
                                Ok(()) => {},
                            }
                            if w.idx > 0 {
                                w.idx = w.idx - 1;
                                term::move_up(1);
                            } else {
                                w.idx = len - 1;
                                term::move_down(#[verifier::truncate] ((len - 1) as u16));
                            }
                            match self.draw_focus(w.idx, size) {
                                Err(e) => {
                                    let _ = term::disable_raw();
                                    return Err(e);
                                },
                                Ok(()) => {},
                            }
                        },
                    }
                },
                Key::Down | Key::Right => {
                    match is_less {
                        Some(l) => {
                            let prev_less = w.less_idx;
                            w.next(len, l);
                            match self.draw_less(l, w, prev_less, size) {
                                Err(e) => {
                                    let _ = term::disable_raw();
                                    return Err(e);
                                },
                                Ok(()) => {},
                            }
                        },
                        None => {
                            match self.draw_unfocus(w.idx, size) {
                                Err(e) => {
                                    let _ = term::disable_raw();
                                    return Err(e);
                                },
                                Ok(()) => {},
                            }
                            if w.idx < len - 1 {
                                w.idx = w.idx + 1;
                                term::move_down(1);
                            } else {
                                w.idx = 0;
                                term::move_up(#[verifier::truncate] ((len - 1) as u16));
                            }
                            match self.draw_focus(w.idx, size) {
                                Err(e) => {
                                    let _ = term::disable_raw();
                                    return Err(e);
                                },
                                Ok(()) => {},
                            }
                        },
                    }
                },
                Key::PageDown => {
                    match is_less {
                        Some(l) => {
                            let prev_less = w.less_idx;
                            w.page_down(len, l);
                            match self.draw_less(l, w, prev_less, size) {
                                Err(e) => {
                                    let _ = term::disable_raw();
                                    return Err(e);
                                },
                                Ok(()) => {},
                            }
                        },
                        None => {},
                    }
                },
                Key::PageUp => {
                    match is_less {
                        Some(l) => {
                            let prev_less = w.less_idx;
                            w.page_up(len, l);
                            match self.draw_less(l, w, prev_less, size) {
                                Err(e) => {
                                    let _ = term::disable_raw();
                                    return Err(e);
                                },
                                Ok(()) => {},
                            }
                        },
                        None => {},
                    }
                },
                _ => {},
            }
        }
        let _ = term::disable_raw();
        Err(ClackError::IoError)
    }
}

impl<T, C: CancelHook> Select<T, C> {
    /// Repaints the current line in place.
    fn draw(&self, line: &str) -> (r: Result<(), ClackError>)
        ensures
            r matches Err(e) ==> e == ClackError::IoError,
    {
        term::move_to_column(0);
        let mut s = CLEAR_LINE.to_owned();
        let bar = term::style_cyan(self.glyphs.bar());
        s.append(bar.as_str());
        s.append("  ");
        s.append(line);
        term::term_write(s.as_str())
    }

    /// Repaints the current line as the focused form of option `idx`.
    fn draw_focus(&self, idx: usize, size: Option<(u16, u16)>) -> (r: Result<(), ClackError>)
        requires
            idx < self.options@.len(),
        ensures
            r matches Err(e) ==> e == ClackError::IoError,
    {
        let line = self.options[idx].focus(&self.glyphs, size);
        self.draw(line.as_str())
    }

    /// Repaints the current line as the unfocused form of option `idx`.
    fn draw_unfocus(&self, idx: usize, size: Option<(u16, u16)>) -> (r: Result<(), ClackError>)
        requires
            idx < self.options@.len(),
        ensures
            r matches Err(e) ==> e == ClackError::IoError,
    {
        let line = self.options[idx].unfocus(&self.glyphs, size);
        self.draw(line.as_str())
    }

    /// Builds the windowed frame exactly as [`spec_less_frame`] lays it
    /// out: the window's rows, each unfocused, then the progress line.
    #[verifier::loop_isolation(false)]
    fn less_frame(&self, less: u16, w: Window, size: Option<(u16, u16)>) -> (r: String)
        requires
            w.wf(self.options@.len() as int, less as int),
        ensures
            r@ == spec_less_frame(self.options@, self.glyphs, w, less as int, size),
    {
        let start = w.idx - w.less_idx as usize;
        let mut r = String::new();
        let mut i: usize = 0;
        proof {
            assert(r@ =~= spec_less_rows(self.options@, self.glyphs, w.start(), 0, size));
        }
        while i < less as usize
            invariant
                i <= less as usize,
                r@ == spec_less_rows(self.options@, self.glyphs, w.start(), i as int, size),
            decreases less as usize - i,
        {
            let line = self.options[start + i].unfocus(&self.glyphs, size);
            r.append(CLEAR_LINE);
            let bar = term::style_cyan(self.glyphs.bar());
            r.append(bar.as_str());
            r.append("  ");
            r.append(line.as_str());
            r.append("\r\n");
            i = i + 1;
            proof {
                assert(r@ =~= spec_less_rows(
                    self.options@,
                    self.glyphs,
                    w.start(),
                    i as int,
                    size,
                ));
            }
        }
        let progress = progress_line(w.idx, self.options.len());
        r.append(CLEAR_LINE);
        let bar = term::style_cyan(self.glyphs.bar());
        r.append(bar.as_str());
        r.append("  ......... (");
        r.append(progress.as_str());
        r.append(")\n");
        proof {
            assert(r@ =~= spec_less_frame(self.options@, self.glyphs, w, less as int, size));
        }
        r
    }

    /// Repaints the whole visible window plus the progress indicator —
    /// the frame [`spec_less_frame`] states — positioned from the previous
    /// frame's focused row, then puts the focus line back.
    fn draw_less(&self, less: u16, w: Window, prev_less: u16, size: Option<(u16, u16)>) -> (r:
        Result<(), ClackError>)
        requires
            w.wf(self.options@.len() as int, less as int),
        ensures
            r matches Err(e) ==> e == ClackError::IoError,
    {
        if prev_less > 0 {
            term::move_to_previous_line(prev_less);
        } else {
            term::move_to_column(0);
        }
        let frame = self.less_frame(less, w, size);
        match term::term_write(frame.as_str()) {
            Err(e) => { return Err(e); },
            Ok(()) => {},
        }
        term::move_to_previous_line(less.saturating_add(1));
        if w.less_idx > 0 {
            term::move_to_next_line(w.less_idx);
        }
        self.draw_focus(w.idx, size)
    }

    /// Paints the initial frame: header, every option unfocused, the end
    /// bar, then the focus on the first option.
    fn w_init(&self, size: Option<(u16, u16)>) -> (r: Result<(), ClackError>)
        requires
            self.options@.len() > 0,
        ensures
            r matches Err(e) ==> e == ClackError::IoError,
    {
        let mut s = self.glyphs.bar().to_owned();
        s.append("\n");
        let step = term::style_cyan(self.glyphs.step_active());
        s.append(step.as_str());
        s.append("  ");
        s.append(self.message.as_str());
        s.append("\n");
        let mut i: usize = 0;
        while i < self.options.len()
            invariant
                i <= self.options@.len(),
            decreases self.options@.len() - i,
        {
            let line = self.options[i].unfocus(&self.glyphs, size);
            let bar = term::style_cyan(self.glyphs.bar());
            s.append(bar.as_str());
            s.append("  ");
            s.append(line.as_str());
            s.append("\n");
            i = i + 1;
        }
        let bar_end = term::style_cyan(self.glyphs.bar_end());
        s.append(bar_end.as_str());
        match term::term_write(s.as_str()) {
            Err(e) => { return Err(e); },
            Ok(()) => {},
        }
        term::move_to_previous_line(#[verifier::truncate] (self.options.len() as u16));
        self.draw_focus(0, size)
    }

    /// Paints the initial frame in windowed mode.
    fn w_init_less(&self, less: u16, size: Option<(u16, u16)>) -> (r: Result<(), ClackError>)
        requires
            (Window { idx: 0, less_idx: 0 }).wf(self.options@.len() as int, less as int),
        ensures
            r matches Err(e) ==> e == ClackError::IoError,
    {
        let mut s = self.glyphs.bar().to_owned();
        s.append("\n");
        let step = term::style_cyan(self.glyphs.step_active());
        s.append(step.as_str());
        s.append("  ");
        s.append(self.message.as_str());
        s.append("\n");
        match term::term_write(s.as_str()) {
            Err(e) => { return Err(e); },
            Ok(()) => {},
        }
        match self.draw_less(less, Window::new(), 0, size) {
            Err(e) => { return Err(e); },
            Ok(()) => {},
        }
        term::move_to_next_line(less);
        let mut e = "\n".to_owned();
        let bar_end = term::style_cyan(self.glyphs.bar_end());
        e.append(bar_end.as_str());
        match term::term_write(e.as_str()) {
            Err(e) => { return Err(e); },
            Ok(()) => {},
        }
        term::move_to_previous_line(less.saturating_add(1));
        self.draw_focus(0, size)
    }

    /// Collapses the block to the submitted answer: the header glyph turns
    /// to the submit glyph and the option lines are cleared down to one
    /// dimmed label.
    fn w_out(&self, idx: usize, size: Option<(u16, u16)>) -> (r: Result<(), ClackError>)
        requires
            idx < self.options@.len(),
        ensures
            r matches Err(e) ==> e == ClackError::IoError,
    {
        term::move_to_previous_line((#[verifier::truncate] (idx as u16)).saturating_add(1));
        let mut s = term::style_green(self.glyphs.step_submit());
        s.append("  ");
        s.append(self.message.as_str());
        s.append("\n");
        let mut i: usize = 0;
        while i < self.options.len()
            decreases self.options@.len() - i,
        {
            s.append(CLEAR_LINE);
            s.append("\n");
            i = i + 1;
        }
        s.append(CLEAR_LINE);
        match term::term_write(s.as_str()) {
            Err(e) => { return Err(e); },
            Ok(()) => {},
        }
        term::move_to_previous_line(#[verifier::truncate] (self.options.len() as u16));
        let mut a = self.glyphs.bar().to_owned();
        a.append("  ");
        let label = term::style_dim(self.options[idx].label.as_str());
        a.append(label.as_str());
        a.append("\n");
        term::term_write(a.as_str())
    }

    /// Collapses the windowed block to the submitted answer.
    fn w_out_less(&self, less: u16, w: Window, size: Option<(u16, u16)>) -> (r: Result<(), ClackError>)
        requires
            w.wf(self.options@.len() as int, less as int),
        ensures
            r matches Err(e) ==> e == ClackError::IoError,
    {
        if w.less_idx > 0 {
            term::move_to_previous_line(w.less_idx.saturating_add(1));
        } else {
            term::move_to_previous_line(1);
        }
        let mut s = term::style_green(self.glyphs.step_submit());
        s.append("  ");
        s.append(self.message.as_str());
        s.append("\n");
        let mut i: usize = 0;
        while i < less as usize
            decreases less as usize - i,
        {
            s.append(CLEAR_LINE);
            s.append("\n");
            i = i + 1;
        }
        s.append(CLEAR_LINE);
        s.append("\n");
        s.append(CLEAR_LINE);
        s.append("\n");
        match term::term_write(s.as_str()) {
            Err(e) => { return Err(e); },
            Ok(()) => {},
        }
        term::move_to_previous_line(less.saturating_add(2));
        let mut a = self.glyphs.bar().to_owned();
        a.append("  ");
        let label = term::style_dim(self.options[w.idx].label.as_str());
        a.append(label.as_str());
        a.append("\n");
        term::term_write(a.as_str())
    }

    /// Collapses the block to the cancelled answer: the header glyph turns
    /// red and the focused label is struck through and dimmed.
    fn w_cancel(&self, idx: usize, size: Option<(u16, u16)>) -> (r: Result<(), ClackError>)
        requires
            idx < self.options@.len(),
        ensures
            r matches Err(e) ==> e == ClackError::IoError,
    {
        term::move_to_previous_line((#[verifier::truncate] (idx as u16)).saturating_add(1));
        let mut s = term::style_red(self.glyphs.step_cancel());
        s.append("  ");
        s.append(self.message.as_str());
        s.append("\n");
        let mut i: usize = 0;
        while i < self.options.len()
            decreases self.options@.len() - i,
        {
            s.append(CLEAR_LINE);
            s.append("\n");
            i = i + 1;
        }
        s.append(CLEAR_LINE);
        match term::term_write(s.as_str()) {
            Err(e) => { return Err(e); },
            Ok(()) => {},
        }
        term::move_to_previous_line(#[verifier::truncate] (self.options.len() as u16));
        let mut a = self.glyphs.bar().to_owned();
        a.append("  ");
        let struck = term::style_strikethrough(self.options[idx].label.as_str());
        let label = term::style_dim(struck.as_str());
        a.append(label.as_str());
        a.append("\n");
        term::term_write(a.as_str())
    }

    /// Collapses the windowed block to the cancelled answer.
    fn w_cancel_less(&self, less: u16, w: Window, size: Option<(u16, u16)>) -> (r: Result<(), ClackError>)
        requires
            w.wf(self.options@.len() as int, less as int),
        ensures
            r matches Err(e) ==> e == ClackError::IoError,
    {
        if w.less_idx > 0 {
            term::move_to_previous_line(w.less_idx.saturating_add(1));
        } else {
            term::move_to_previous_line(1);
        }
        let mut s = term::style_red(self.glyphs.step_cancel());
        s.append("  ");
        s.append(self.message.as_str());
        s.append("\n");
        let mut i: usize = 0;
        while i < less as usize
            decreases less as usize - i,
        {
            s.append(CLEAR_LINE);
            s.append("\n");
            i = i + 1;
        }
        s.append(CLEAR_LINE);
        s.append("\n");
        s.append(CLEAR_LINE);
        s.append("\n");
        match term::term_write(s.as_str()) {
            Err(e) => { return Err(e); },
            Ok(()) => {},
        }
        term::move_to_previous_line(less.saturating_add(2));
        let mut a = self.glyphs.bar().to_owned();
        a.append("  ");
        let struck = term::style_strikethrough(self.options[w.idx].label.as_str());
        let label = term::style_dim(struck.as_str());
        a.append(label.as_str());
        a.append("\n");
        term::term_write(a.as_str())
    }
}

/// Shorthand for [`Select::new`].
pub fn select<T>(message: &str) -> (s: Select<T, NoCancel>)
    ensures
        s.message@ == message@,
        s.less == false,
        s.less_amt is None,
        s.less_max is None,
        s.options@.len() == 0,
{
    Select::new(message)
}

} // verus!
