//! Multiple choices from a list of options.
use vstd::prelude::*;
use crate::error::ClackError;
use crate::key::Key;
use crate::style::{
    CLEAR_LINE, Glyphs, spec_bar, spec_checkbox_active, spec_checkbox_inactive,
    spec_checkbox_selected,
};
use crate::term;
use crate::term::{cyan_of, dim_of, green_of};
use crate::traits::{CancelHook, NoCancel};
use crate::window::{
    Window, mk_less_window, nav_next, nav_page_down, nav_page_up, nav_prev, nav_wf,
    progress_line, spec_mk_less,
};

verus! {

/// One selectable option of a [`MultiSelect`] prompt.
#[derive(Debug, Clone)]
pub struct Opt<T> {
    /// Opaque payload handed back to the caller when submitted; never shown.
    pub value: T,
    /// The text shown for this option.
    pub label: String,
    /// A short annotation shown only while the option has focus.
    pub hint: Option<String>,
    /// Whether this option is currently checked. Toggled by the user with
    /// the space key, never by the engine on its own.
    pub active: bool,
}

impl<T> Opt<T> {
    /// A new, unchecked option with a value, a label, and perhaps a hint.
    pub fn new(value: T, label: &str, hint: Option<&str>) -> (o: Opt<T>)
        ensures
            o.value == value,
            o.label@ == label@,
            match hint {
                Some(h) => o.hint matches Some(oh) && oh@ == h@,
                None => o.hint is None,
            },
            o.active == false,
    {
        Opt {
            value,
            label: label.to_owned(),
            hint: match hint {
                Some(h) => Some(h.to_owned()),
                None => None,
            },
            active: false,
        }
    }

    /// A new option without a hint.
    pub fn simple(value: T, label: &str) -> (o: Opt<T>)
        ensures
            o.value == value,
            o.label@ == label@,
            o.hint is None,
            o.active == false,
    {
        Opt::new(value, label, None)
    }

    /// A new option with a hint.
    pub fn hint(value: T, label: &str, hint: &str) -> (o: Opt<T>)
        ensures
            o.value == value,
            o.label@ == label@,
            o.hint matches Some(h) && h@ == hint@,
            o.active == false,
    {
        Opt::new(value, label, Some(hint))
    }

    /// Flips whether this option is checked; nothing else changes.
    pub fn toggle(&mut self)
        ensures
            final(self).active == !old(self).active,
            final(self).value == old(self).value,
            final(self).label == old(self).label,
            final(self).hint == old(self).hint,
    {
        self.active = !self.active;
    }

    /// The label cut down to the width left beside `need` columns of chrome.
    fn shown_label(&self, need: usize, size: Option<(u16, u16)>) -> (r: String)
        ensures
            r@ == crate::select::spec_shown_label(self.label@, need as int, size),
    {
        match size {
            Some((w, _h)) => {
                let wu = w as usize;
                let avail: usize = if wu > need {
                    wu - need
                } else {
                    0
                };
                term::trunc_str(self.label.as_str(), avail)
            },
            None => self.label.clone(),
        }
    }

    /// The focused form of this option's line, as it stands.
    pub fn focus(&self, g: &Glyphs, size: Option<(u16, u16)>) -> (r: String)
        ensures
            r@ == spec_focus_line(*self, *g, size),
    {
        self.focus_as(self.active, g, size)
    }

    /// The focused form of this option's line with the checked flag given
    /// explicitly, for painting interaction state kept beside the options.
    pub fn focus_as(&self, active: bool, g: &Glyphs, size: Option<(u16, u16)>) -> (r: String)
        ensures
            r@ == spec_focus_line_as(*self, active, *g, size),
    {
        let base_need: usize = if g.unicode {
            5
        } else {
            7
        };
        let mut r = if active {
            term::style_green(g.checkbox_selected())
        } else {
            term::style_cyan(g.checkbox_active())
        };
        r.append(" ");
        match &self.hint {
            Some(h) => {
                let hint_chars = h.as_str().unicode_len();
                let need: usize = if hint_chars <= usize::MAX - base_need - 3 {
                    base_need + 3 + hint_chars
                } else {
                    usize::MAX
                };
                let label = self.shown_label(need, size);
                r.append(label.as_str());
                r.append(" ");
                let mut inner = "(".to_owned();
                inner.append(h.as_str());
                inner.append(")");
                proof {
                    reveal_strlit("(");
                    reveal_strlit(")");
                    assert(inner@ =~= "("@ + self.hint.unwrap()@ + ")"@);
                }
                let styled = term::style_dim(inner.as_str());
                r.append(styled.as_str());
                proof {
                    reveal_strlit(" ");
                    assert(r@ =~= spec_focus_line_as(*self, active, *g, size));
                }
            },
            None => {
                let label = self.shown_label(base_need, size);
                r.append(label.as_str());
                proof {
                    reveal_strlit(" ");
                    assert(r@ =~= spec_focus_line_as(*self, active, *g, size));
                }
            },
        }
        r
    }

    /// The unfocused form of this option's line, as it stands.
    pub fn unfocus(&self, g: &Glyphs, size: Option<(u16, u16)>) -> (r: String)
        ensures
            r@ == spec_unfocus_line(*self, *g, size),
    {
        self.unfocus_as(self.active, g, size)
    }

    /// The unfocused form of this option's line with the checked flag
    /// given explicitly.
    pub fn unfocus_as(&self, active: bool, g: &Glyphs, size: Option<(u16, u16)>) -> (r: String)
        ensures
            r@ == spec_unfocus_line_as(*self, active, *g, size),
    {
        let base_need: usize = if g.unicode {
            5
        } else {
            7
        };
        let mut r = if active {
            term::style_green(g.checkbox_selected())
        } else {
            term::style_dim(g.checkbox_inactive())
        };
        r.append(" ");
        let label = self.shown_label(base_need, size);
        let styled = term::style_dim(label.as_str());
        r.append(styled.as_str());
        proof {
            reveal_strlit(" ");
            assert(r@ =~= spec_unfocus_line_as(*self, active, *g, size));
        }
        r
    }
}

/// The chrome budget beside a multi-select label: the checkbox (one cell in
/// Unicode, three in ASCII) plus the prompt bar and spaces, and the
/// parenthesized hint when it is shown, capped at what a `usize` holds.
pub open spec fn spec_multi_need(g: Glyphs, hint: Option<Seq<char>>) -> int {
    let base: int = if g.unicode {
        5
    } else {
        7
    };
    match hint {
        Some(h) => if h.len() + base + 3 <= usize::MAX {
            base + 3 + h.len() as int
        } else {
            usize::MAX as int
        },
        None => base,
    }
}

/// The line painted for a focused option with the checked flag given
/// explicitly: a green checked or cyan unchecked checkbox, the truncated
/// label, and the dimmed parenthesized hint.
pub open spec fn spec_focus_line_as<T>(
    o: Opt<T>,
    active: bool,
    g: Glyphs,
    size: Option<(u16, u16)>,
) -> Seq<char> {
    let label = crate::select::spec_shown_label(
        o.label@,
        spec_multi_need(g, match o.hint {
            Some(h) => Some(h@),
            None => None,
        }),
        size,
    );
    let head = if active {
        green_of(spec_checkbox_selected(g))
    } else {
        cyan_of(spec_checkbox_active(g))
    };
    let base = head + " "@ + label;
    match o.hint {
        Some(h) => base + " "@ + dim_of("("@ + h@ + ")"@),
        None => base,
    }
}

/// The line painted for a focused option as it stands.
pub open spec fn spec_focus_line<T>(o: Opt<T>, g: Glyphs, size: Option<(u16, u16)>) -> Seq<char> {
    spec_focus_line_as(o, o.active, g, size)
}

/// The line painted for an unfocused option with the checked flag given
/// explicitly: the checked checkbox stays green, an unchecked one is
/// dimmed, and the label is dimmed.
pub open spec fn spec_unfocus_line_as<T>(
    o: Opt<T>,
    active: bool,
    g: Glyphs,
    size: Option<(u16, u16)>,
) -> Seq<char> {
    let label = crate::select::spec_shown_label(o.label@, spec_multi_need(g, None), size);
    let head = if active {
        green_of(spec_checkbox_selected(g))
    } else {
        dim_of(spec_checkbox_inactive(g))
    };
    head + " "@ + dim_of(label)
}

/// The line painted for an unfocused option as it stands.
pub open spec fn spec_unfocus_line<T>(o: Opt<T>, g: Glyphs, size: Option<(u16, u16)>) -> Seq<
    char,
> {
    spec_unfocus_line_as(o, o.active, g, size)
}

/// The options with the checked flag of the one at `i` flipped.
pub open spec fn spec_toggle_at<T>(opts: Seq<Opt<T>>, i: int) -> Seq<Opt<T>> {
    opts.update(
        i,
        Opt {
            value: opts[i].value,
            label: opts[i].label,
            hint: opts[i].hint,
            active: !opts[i].active,
        },
    )
}

/// The values of the checked options, in list order.
pub open spec fn spec_selected_values<T>(opts: Seq<Opt<T>>) -> Seq<T>
    decreases opts.len(),
{
    if opts.len() == 0 {
        Seq::empty()
    } else {
        (if opts[0].active {
            seq![opts[0].value]
        } else {
            Seq::empty()
        }) + spec_selected_values(opts.drop_first())
    }
}

/// Toggle law: toggling the same option twice returns the whole list — and
/// with it the submitted value sequence — to what it was, so an option that
/// started unchecked is again excluded from the submitted values.
pub proof fn lemma_toggle_twice<T>(opts: Seq<Opt<T>>, i: int)
    requires
        0 <= i < opts.len(),
    ensures
        spec_toggle_at(spec_toggle_at(opts, i), i) == opts,
        spec_selected_values(spec_toggle_at(spec_toggle_at(opts, i), i))
            == spec_selected_values(opts),
{
    assert(spec_toggle_at(spec_toggle_at(opts, i), i) =~= opts);
}

/// What a run of the multi-select state machine ends in.
pub enum MultiOutcome<T> {
    /// Enter was pressed with the options in this state.
    Submitted(Seq<Opt<T>>),
    /// Ctrl-C, or the key stream ran out.
    Cancelled,
}

/// The multi-select state machine, run to its end over a key sequence:
/// arrows move the focus (wrapping around the list), page keys jump by a
/// window when paging is active, space toggles the focused option, Enter
/// submits the options as they stand, Ctrl-C — or exhausting the keys —
/// cancels, and every other key is ignored.
pub open spec fn spec_multi_drive<T>(
    w: Window,
    opts: Seq<Opt<T>>,
    less: Option<u16>,
    keys: Seq<Key>,
) -> MultiOutcome<T>
    decreases keys.len(),
{
    let len = opts.len() as int;
    if keys.len() == 0 {
        MultiOutcome::Cancelled
    } else {
        let rest = keys.skip(1);
        match keys[0] {
            Key::Enter => MultiOutcome::Submitted(opts),
            Key::CtrlC => MultiOutcome::Cancelled,
            Key::Up => spec_multi_drive(nav_prev(w, len, less), opts, less, rest),
            Key::Left => spec_multi_drive(nav_prev(w, len, less), opts, less, rest),
            Key::Down => spec_multi_drive(nav_next(w, len, less), opts, less, rest),
            Key::Right => spec_multi_drive(nav_next(w, len, less), opts, less, rest),
            Key::PageDown => spec_multi_drive(nav_page_down(w, len, less), opts, less, rest),
            Key::PageUp => spec_multi_drive(nav_page_up(w, len, less), opts, less, rest),
            Key::Char(c) => if c == ' ' {
                spec_multi_drive(w, spec_toggle_at(opts, w.idx as int), less, rest)
            } else {
                spec_multi_drive(w, opts, less, rest)
            },
            _ => spec_multi_drive(w, opts, less, rest),
        }
    }
}

/// A multi-select prompt under construction.
pub struct MultiSelect<T, C> {
    /// The question shown above the options.
    pub message: String,
    /// Whether windowed ("less") paging was requested.
    pub less: bool,
    /// An explicit window size, if one was set.
    pub less_amt: Option<u16>,
    /// A cap on the terminal-derived window size, if one was set.
    pub less_max: Option<u16>,
    /// Hook run when the user cancels.
    pub cancel: C,
    /// The options, in the order they were added.
    pub options: Vec<Opt<T>>,
    /// The glyph set frames are painted with.
    pub glyphs: Glyphs,
}

impl<T> MultiSelect<T, NoCancel> {
    /// A new multi-select prompt with no options yet.
    pub fn new(message: &str) -> (s: MultiSelect<T, NoCancel>)
        ensures
            s.message@ == message@,
            s.less == false,
            s.less_amt is None,
            s.less_max is None,
            s.options@.len() == 0,
    {
        MultiSelect {
            message: message.to_owned(),
            less: false,
            less_amt: None,
            less_max: None,
            cancel: NoCancel,
            options: Vec::new(),
            glyphs: Glyphs::detect(),
        }
    }
}

impl<T, C: CancelHook> MultiSelect<T, C> {
    /// Replaces the message wholesale.
    pub fn message(self, message: &str) -> (s: MultiSelect<T, C>)
        ensures
            s.message@ == message@,
            s.less == self.less,
            s.less_amt == self.less_amt,
            s.less_max == self.less_max,
            s.options == self.options,
            s.glyphs == self.glyphs,
    {
        let mut s = self;
        s.message = message.to_owned();
        s
    }

    /// Adds an unchecked option without a hint.
    pub fn option(self, value: T, label: &str) -> (s: MultiSelect<T, C>)
        ensures
            s.options@.len() == self.options@.len() + 1,
            s.options@.drop_last() == self.options@,
            s.options@.last().value == value,
            s.options@.last().label@ == label@,
            s.options@.last().hint is None,
            s.options@.last().active == false,
            s.message == self.message,
            s.less == self.less,
            s.less_amt == self.less_amt,
            s.less_max == self.less_max,
            s.glyphs == self.glyphs,
    {
        let mut s = self;
        s.options.push(Opt::simple(value, label));
        proof {
            assert(s.options@.drop_last() =~= self.options@);
        }
        s
    }

    /// Adds an unchecked option with a hint.
    pub fn option_hint(self, value: T, label: &str, hint: &str) -> (s: MultiSelect<T, C>)
        ensures
            s.options@.len() == self.options@.len() + 1,
            s.options@.drop_last() == self.options@,
            s.options@.last().value == value,
            s.options@.last().label@ == label@,
            s.options@.last().hint matches Some(h) && h@ == hint@,
            s.options@.last().active == false,
            s.message == self.message,
            s.less == self.less,
            s.less_amt == self.less_amt,
            s.less_max == self.less_max,
            s.glyphs == self.glyphs,
    {
        let mut s = self;
        s.options.push(Opt::hint(value, label, hint));
        proof {
            assert(s.options@.drop_last() =~= self.options@);
        }
        s
    }

    /// Replaces the option list wholesale.
    pub fn options(self, options: Vec<Opt<T>>) -> (s: MultiSelect<T, C>)
        ensures
            s.options == options,
            s.message == self.message,
            s.less == self.less,
            s.less_amt == self.less_amt,
            s.less_max == self.less_max,
            s.glyphs == self.glyphs,
    {
        let mut s = self;
        s.options = options;
        s
    }

    /// Enables paging sized from the terminal height.
    pub fn less(self) -> (s: MultiSelect<T, C>)
        ensures
            s.less == true,
            s.less_amt == self.less_amt,
            s.less_max == self.less_max,
            s.options == self.options,
            s.message == self.message,
            s.glyphs == self.glyphs,
    {
        let mut s = self;
        s.less = true;
        s
    }

    /// Enables paging sized from the terminal height, capped at `max` rows.
    ///
    /// `max` must be positive, and an explicit row count must not also be
    /// set.
    pub fn less_max(self, max: u16) -> (s: MultiSelect<T, C>)
        requires
            max > 0,
            self.less_amt is None,
        ensures
            s.less == true,
            s.less_max == Some(max),
            s.less_amt is None,
            s.options == self.options,
            s.message == self.message,
            s.glyphs == self.glyphs,
    {
        let mut s = self;
        s.less = true;
        s.less_max = Some(max);
        s
    }

    /// Enables paging with an explicit window of `amt` rows.
    ///
    /// `amt` must be positive, and a cap must not also be set.
    pub fn less_amt(self, amt: u16) -> (s: MultiSelect<T, C>)
        requires
            amt > 0,
            self.less_max is None,
        ensures
            s.less == true,
            s.less_amt == Some(amt),
            s.less_max is None,
            s.options == self.options,
            s.message == self.message,
            s.glyphs == self.glyphs,
    {
        let mut s = self;
        s.less = true;
        s.less_amt = Some(amt);
        s
    }

    /// Sets the hook run when the user cancels.
    pub fn cancel<C2: CancelHook>(self, cancel: C2) -> (s: MultiSelect<T, C2>)
        ensures
            s.options == self.options,
            s.message == self.message,
            s.less == self.less,
            s.less_amt == self.less_amt,
            s.less_max == self.less_max,
            s.glyphs == self.glyphs,
    {
        MultiSelect {
            message: self.message,
            less: self.less,
            less_amt: self.less_amt,
            less_max: self.less_max,
            cancel,
            options: self.options,
            glyphs: self.glyphs,
        }
    }

    /// Runs the multi-select state machine over a fixed key sequence, with
    /// no terminal involved: the submitted values are exactly the checked
    /// options' values, in list order, as [`spec_multi_drive`] leaves them.
    /// The prompt is consumed so the values can be moved out as they
    /// stand, without cloning. Since no terminal is read, the
    /// height-derived paging mode stays off unless an explicit window was
    /// configured.
    #[verifier::loop_isolation(false)]
    pub fn interact_keys(self, keys: &Vec<Key>) -> (r: Result<Vec<T>, ClackError>)
        requires
            self.options@.len() <= usize::MAX - 0x10000,
            self.less_amt matches Some(a) ==> a > 0,
        ensures
            self.options@.len() == 0 <==> r == Err::<Vec<T>, ClackError>(ClackError::NoOptions),
            self.options@.len() > 0 ==> match spec_multi_drive(
                (Window { idx: 0, less_idx: 0 }),
                self.options@,
                spec_mk_less(self.options@.len() as int, self.less, self.less_amt, self.less_max, None),
                keys@,
            ) {
                MultiOutcome::Submitted(o) => r matches Ok(v) && v@ == spec_selected_values(o),
                MultiOutcome::Cancelled => r == Err::<Vec<T>, ClackError>(ClackError::Cancelled),
            },
    {
        let len = self.options.len();
        if len == 0 {
            return Err(ClackError::NoOptions);
        }
        let is_less = mk_less_window(len, self.less, self.less_amt, self.less_max, None);
        let ghost target = spec_multi_drive(
            (Window { idx: 0, less_idx: 0 }),
            self.options@,
            is_less,
            keys@,
        );
        let mut w = Window::new();
        let mut opts = self.options;
        let mut k: usize = 0;
        proof {
            assert(keys@.skip(0) =~= keys@);
        }
        while k < keys.len()
            invariant
                0 < len <= usize::MAX - 0x10000,
                len == opts@.len(),
                k <= keys@.len(),
                nav_wf(w, len as int, is_less),
                is_less matches Some(l) ==> l < len,
                spec_multi_drive(w, opts@, is_less, keys@.skip(k as int)) == target,
            decreases keys@.len() - k,
        {
            proof {
                assert(keys@.skip(k as int)[0] == keys@[k as int]);
                assert(keys@.skip(k as int).skip(1) =~= keys@.skip(k as int + 1));
            }
            let key = keys[k];
            match key {
                Key::Enter => {
                    proof {
                        assert(spec_multi_drive(w, opts@, is_less, keys@.skip(k as int))
                            == MultiOutcome::Submitted(opts@));
                    }
                    let all = collect_selected(opts);
                    return Ok(all);
                },
                Key::CtrlC => {
                    proof {
                        assert(spec_multi_drive(w, opts@, is_less, keys@.skip(k as int))
                            == MultiOutcome::<T>::Cancelled);
                    }
                    self.cancel.on_cancel();
                    return Err(ClackError::Cancelled);
                },
                Key::Char(c) => {
                    if c == ' ' {
                        let ghost opts0 = opts@;
                        let mut focused = opts.remove(w.idx);
                        focused.toggle();
                        opts.insert(w.idx, focused);
                        proof {
                            assert(opts@ =~= spec_toggle_at(opts0, w.idx as int));
                        }
                    }
                },
                Key::Up | Key::Left => {
                    match is_less {
                        Some(l) => w.prev(len, l),
                        None => {
                            if w.idx > 0 {
                                w.idx = w.idx - 1;
                            } else {
                                w.idx = len - 1;
                            }
                        },
                    }
                },
                Key::Down | Key::Right => {
                    match is_less {
                        Some(l) => w.next(len, l),
                        None => {
                            if w.idx < len - 1 {
                                w.idx = w.idx + 1;
                            } else {
                                w.idx = 0;
                            }
                        },
                    }
                },
                Key::PageDown => {
                    match is_less {
                        Some(l) => w.page_down(len, l),
                        None => {},
                    }
                },
                Key::PageUp => {
                    match is_less {
                        Some(l) => w.page_up(len, l),
                        None => {},
                    }
                },
                _ => {},
            }
            k = k + 1;
        }
        proof {
            assert(keys@.skip(k as int) =~= Seq::<Key>::empty());
        }
        Err(ClackError::Cancelled)
    }
}

/// Whether `x` is a clone of the value of one of `opts`.
pub open spec fn is_cloned_value_of<T: Clone>(x: T, opts: Seq<Opt<T>>) -> bool {
    exists|i: int| 0 <= i < opts.len() && cloned::<T>(#[trigger] opts[i].value, x)
}

/// Every submitted value is the value of some option.
pub proof fn lemma_selected_are_options<T>(opts: Seq<Opt<T>>)
    ensures
        forall|j: int|
            0 <= j < spec_selected_values(opts).len() ==> exists|i: int|
                0 <= i < opts.len() && #[trigger] spec_selected_values(opts)[j]
                    == opts[i].value,
    decreases opts.len(),
{
    if opts.len() > 0 {
        let rest = opts.drop_first();
        lemma_selected_are_options(rest);
        assert forall|j: int| 0 <= j < spec_selected_values(opts).len() implies exists|i: int|
            0 <= i < opts.len() && #[trigger] spec_selected_values(opts)[j]
                == opts[i].value by {
            let head: int = if opts[0].active {
                1
            } else {
                0
            };
            if j < head {
                assert(spec_selected_values(opts)[j] == opts[0].value);
            } else {
                let jr = j - head;
                assert(spec_selected_values(opts)[j] == spec_selected_values(rest)[jr]);
                let ir = choose|ir: int|
                    0 <= ir < rest.len() && #[trigger] spec_selected_values(rest)[jr]
                        == rest[ir].value;
                assert(opts[ir + 1].value == rest[ir].value);
            }
        }
    }
}

/// Moves the values of the checked options out, in list order.
#[verifier::loop_isolation(false)]
fn collect_selected<T>(opts: Vec<Opt<T>>) -> (r: Vec<T>)
    ensures
        r@ == spec_selected_values(opts@),
{
    let mut rest = opts;
    let mut r: Vec<T> = Vec::new();
    proof {
        assert(r@ + spec_selected_values(rest@) =~= spec_selected_values(opts@));
    }
    while rest.len() > 0
        invariant
            r@ + spec_selected_values(rest@) == spec_selected_values(opts@),
        decreases rest@.len(),
    {
        let ghost rest0 = rest@;
        let ghost r0 = r@;
        let head = rest.remove(0);
        if head.active {
            r.push(head.value);
        }
        proof {
            assert(rest@ =~= rest0.drop_first());
            if head.active {
                assert(r@ =~= r0 + seq![head.value]);
                assert(r@ + spec_selected_values(rest@) =~= r0 + spec_selected_values(rest0));
            } else {
                assert(r@ + spec_selected_values(rest@) =~= r0 + spec_selected_values(rest0));
            }
        }
    }
    proof {
        assert(spec_selected_values(rest@) =~= Seq::<T>::empty());
        assert(r@ =~= spec_selected_values(opts@));
    }
    r
}

/// The labels joined with `", "`.
pub open spec fn spec_join_commas(l: Seq<Seq<char>>) -> Seq<char>
    decreases l.len(),
{
    if l.len() == 0 {
        Seq::empty()
    } else {
        spec_join_commas(l.drop_last()) + (if l.len() == 1 {
            l.last()
        } else {
            ", "@ + l.last()
        })
    }
}

/// Joins labels with `", "` for the collapsed answer line.
#[verifier::loop_isolation(false)]
pub fn join(labels: &Vec<String>) -> (r: String)
    ensures
        r@ == spec_join_commas(labels@.map_values(|s: String| s@)),
{
    let ghost views = labels@.map_values(|s: String| s@);
    let mut r = String::new();
    let mut i: usize = 0;
    proof {
        assert(r@ =~= spec_join_commas(views.take(0)));
    }
    while i < labels.len()
        invariant
            i <= labels@.len(),
            r@ == spec_join_commas(views.take(i as int)),
        decreases labels@.len() - i,
    {
        if i != 0 {
            r.append(", ");
        }
        r.append(labels[i].as_str());
        i = i + 1;
        proof {
            reveal_strlit(", ");
            assert(views.take(i as int).drop_last() =~= views.take(i as int - 1));
            assert(views.take(i as int).last() == labels@[i as int - 1]@);
            assert(r@ =~= spec_join_commas(views.take(i as int)));
        }
    }
    proof {
        assert(views.take(labels@.len() as int) =~= views);
    }
    r
}

impl<T: Clone, C: CancelHook> MultiSelect<T, C> {
    /// Waits for the user to toggle options and submit on the terminal.
    ///
    /// With no options configured this fails with `NoOptions` before
    /// anything is painted. Whatever the user does, every submitted value
    /// is a clone of one of the configured options' values, and the prompt
    /// itself is untouched — the toggles act on interaction state kept
    /// beside it — so the same configuration can be run again, starting
    /// with every option unchecked again.
    #[verifier::loop_isolation(false)]
    pub fn interact(&self) -> (r: Result<Vec<T>, ClackError>)
        requires
            self.options@.len() <= usize::MAX - 0x10000,
            self.less_amt matches Some(a) ==> a > 0,
        ensures
            self.options@.len() == 0 <==> r == Err::<Vec<T>, ClackError>(ClackError::NoOptions),
            r matches Ok(v) ==> forall|j: int|
                0 <= j < v@.len() ==> is_cloned_value_of(#[trigger] v@[j], self.options@),
    {
        let len = self.options.len();
        if len == 0 {
            return Err(ClackError::NoOptions);
        }
        let size = term::term_size();
        let rows: Option<u16> = match size {
            Some((_w, h)) => Some(h),
            None => None,
        };
        let is_less = mk_less_window(len, self.less, self.less_amt, self.less_max, rows);
        let mut actives: Vec<bool> = Vec::new();
        let mut i: usize = 0;
        while i < len
            invariant
                actives@.len() == i,
                i <= len,
            decreases len - i,
        {
            actives.push(self.options[i].active);
            i = i + 1;
        }
        match match is_less {
            Some(l) => w_init_less(&self.message, &self.glyphs, &self.options, &actives, l, size),
            None => w_init(&self.message, &self.glyphs, &self.options, &actives, size),
        } {
            Err(e) => { return Err(e); },
            Ok(()) => {},
        }
        match term::enable_raw() {
            Err(e) => { return Err(e); },
            Ok(()) => {},
        }
        let mut w = Window::new();
        // The read loop blocks on the user and ends only through one of the
        // returns below; the counter gives it a termination bound that no
        // interactive session can reach.
        let mut fuel: u64 = u64::MAX;
        while fuel > 0
            invariant
                0 < len <= usize::MAX - 0x10000,
                len == self.options@.len(),
                actives@.len() == len,
                nav_wf(w, len as int, is_less),
                is_less matches Some(l) ==> l < len,
            decreases fuel,
        {
            fuel = fuel - 1;
            let key = match term::read_key() {
                Err(e) => {
                    let _ = term::disable_raw();
                    return Err(e);
                },
                Ok(None) => { continue ; },
                Ok(Some(key)) => key,
            };
            match key {
                Key::Enter => {
                    match term::disable_raw() {
                        Err(e) => { return Err(e); },
                        Ok(()) => {},
                    }
                    let labels = selected_labels(&self.options, &actives);
                    match match is_less {
                        Some(l) => w_out_less(&self.message, &self.glyphs, l, w, &labels),
                        None => w_out(&self.message, &self.glyphs, &self.options, w.idx, &labels),
                    } {
                        Err(e) => { return Err(e); },
                        Ok(()) => {},
                    }
                    let mut all: Vec<T> = Vec::new();
                    let mut i2: usize = 0;
                    while i2 < len
                        invariant
                            i2 <= len,
                            forall|j: int|
                                0 <= j < all@.len() ==> is_cloned_value_of(
                                    #[trigger] all@[j],
                                    self.options@,
                                ),
                        decreases len - i2,
                    {
                        if actives[i2] {
                            let picked = self.options[i2].value.clone();
                            proof {
                                assert(cloned::<T>(self.options@[i2 as int].value, picked));
                            }
                            all.push(picked);
                        }
                        i2 = i2 + 1;
                    }
                    return Ok(all);
                },
                Key::CtrlC => {
                    match term::disable_raw() {
                        Err(e) => { return Err(e); },
                        Ok(()) => {},
                    }
                    match match is_less {
                        Some(l) => w_cancel_less(&self.message, &self.glyphs, &self.options, l, w),
                        None => w_cancel(&self.message, &self.glyphs, &self.options, w.idx),
                    } {
                        Err(e) => { return Err(e); },
                        Ok(()) => {},
                    }
                    self.cancel.on_cancel();
                    return Err(ClackError::Cancelled);
                },
                Key::Char(c) => {
                    if c == ' ' {
                        let current = actives.remove(w.idx);
                        actives.insert(w.idx, !current);
                        match draw_focus(&self.glyphs, &self.options, &actives, w.idx, size) {
                            Err(e) => {
                                let _ = term::disable_raw();
                                return Err(e);
                            },
                            Ok(()) => {},
                        }
                    }
                },
                Key::Up | Key::Left => {
                    match is_less {
                        Some(l) => {
                            let prev_less = w.less_idx;
                            w.prev(len, l);
                            match draw_less(
                                &self.glyphs,
                                &self.options,
                                &actives,
                                l,
                                w,
                                prev_less,
                                size,
                            ) {
                                Err(e) => {
                                    let _ = term::disable_raw();
                                    return Err(e);
                                },
                                Ok(()) => {},
                            }
                        },
                        None => {
                            match draw_unfocus(&self.glyphs, &self.options, &actives, w.idx, size) {
                                Err(e) => {
                                    let _ = term::disable_raw();
                                    return Err(e);
                                },
                                Ok(()) => {},
                            }
                            if w.idx > 0 {
                                w.idx = w.idx - 1;
                                term::move_up(1);
                            } else {
                                w.idx = len - 1;
                                term::move_down(#[verifier::truncate] ((len - 1) as u16));
                            }
                            match draw_focus(&self.glyphs, &self.options, &actives, w.idx, size) {
                                Err(e) => {
                                    let _ = term::disable_raw();
                                    return Err(e);
                                },
                                Ok(()) => {},
                            }
                        },
                    }
                },
                Key::Down | Key::Right => {
                    match is_less {
                        Some(l) => {
                            let prev_less = w.less_idx;
                            w.next(len, l);
                            match draw_less(
                                &self.glyphs,
                                &self.options,
                                &actives,
                                l,
                                w,
                                prev_less,
                                size,
                            ) {
                                Err(e) => {
                                    let _ = term::disable_raw();
                                    return Err(e);
                                },
                                Ok(()) => {},
                            }
                        },
                        None => {
                            match draw_unfocus(&self.glyphs, &self.options, &actives, w.idx, size) {
                                Err(e) => {
                                    let _ = term::disable_raw();
                                    return Err(e);
                                },
                                Ok(()) => {},
                            }
                            if w.idx < len - 1 {
                                w.idx = w.idx + 1;
                                term::move_down(1);
                            } else {
                                w.idx = 0;
                                term::move_up(#[verifier::truncate] ((len - 1) as u16));
                            }
                            match draw_focus(&self.glyphs, &self.options, &actives, w.idx, size) {
                                Err(e) => {
                                    let _ = term::disable_raw();
                                    return Err(e);
                                },
                                Ok(()) => {},
                            }
                        },
                    }
                },
                Key::PageDown => {
                    match is_less {
                        Some(l) => {
                            let prev_less = w.less_idx;
                            w.page_down(len, l);
                            match draw_less(
                                &self.glyphs,
                                &self.options,
                                &actives,
                                l,
                                w,
                                prev_less,
                                size,
                            ) {
                                Err(e) => {
                                    let _ = term::disable_raw();
                                    return Err(e);
                                },
                                Ok(()) => {},
                            }
                        },
                        None => {},
                    }
                },
                Key::PageUp => {
                    match is_less {
                        Some(l) => {
                            let prev_less = w.less_idx;
                            w.page_up(len, l);
                            match draw_less(
                                &self.glyphs,
                                &self.options,
                                &actives,
                                l,
                                w,
                                prev_less,
                                size,
                            ) {
                                Err(e) => {
                                    let _ = term::disable_raw();
                                    return Err(e);
                                },
                                Ok(()) => {},
                            }
                        },
                        None => {},
                    }
                },
                _ => {},
            }
        }
        let _ = term::disable_raw();
        Err(ClackError::IoError)
    }
}

/// Clones the labels of the checked options, in list order.
fn selected_labels<T>(opts: &Vec<Opt<T>>, actives: &Vec<bool>) -> (r: Vec<String>)
    requires
        actives@.len() == opts@.len(),
{
    let mut r: Vec<String> = Vec::new();
    let mut i: usize = 0;
    while i < opts.len()
        invariant
            actives@.len() == opts@.len(),
            i <= opts@.len(),
        decreases opts@.len() - i,
    {
        if actives[i] {
            r.push(opts[i].label.clone());
        }
        i = i + 1;
    }
    r
}

/// Repaints the current line in place.
fn draw(glyphs: &Glyphs, line: &str) -> (r: Result<(), ClackError>)
    ensures
        r matches Err(e) ==> e == ClackError::IoError,
{
    term::move_to_column(0);
    let mut s = CLEAR_LINE.to_owned();
    let bar = term::style_cyan(glyphs.bar());
    s.append(bar.as_str());
    s.append("  ");
    s.append(line);
    term::term_write(s.as_str())
}

/// Repaints the current line as the focused form of option `idx`.
fn draw_focus<T>(
    glyphs: &Glyphs,
    opts: &Vec<Opt<T>>,
    actives: &Vec<bool>,
    idx: usize,
    size: Option<(u16, u16)>,
) -> (r: Result<(), ClackError>)
    requires
        idx < opts@.len(),
        actives@.len() == opts@.len(),
    ensures
        r matches Err(e) ==> e == ClackError::IoError,
{
    let line = opts[idx].focus_as(actives[idx], glyphs, size);
    draw(glyphs, line.as_str())
}

/// Repaints the current line as the unfocused form of option `idx`.
fn draw_unfocus<T>(
    glyphs: &Glyphs,
    opts: &Vec<Opt<T>>,
    actives: &Vec<bool>,
    idx: usize,
    size: Option<(u16, u16)>,
) -> (r: Result<(), ClackError>)
    requires
        idx < opts@.len(),
        actives@.len() == opts@.len(),
    ensures
        r matches Err(e) ==> e == ClackError::IoError,
{
    let line = opts[idx].unfocus_as(actives[idx], glyphs, size);
    draw(glyphs, line.as_str())
}

/// One repainted row of the windowed frame: clear the line, the cyan bar,
/// the unfocused option in its current checked state, then carriage
/// return and newline.
pub open spec fn spec_less_row<T>(
    o: Opt<T>,
    active: bool,
    g: Glyphs,
    size: Option<(u16, u16)>,
) -> Seq<char> {
    CLEAR_LINE@ + cyan_of(spec_bar(g)) + "  "@ + spec_unfocus_line_as(o, active, g, size)
        + "\r\n"@
}

/// The first `count` rows of the visible window starting at `start`.
pub open spec fn spec_less_rows<T>(
    opts: Seq<Opt<T>>,
    actives: Seq<bool>,
    g: Glyphs,
    start: int,
    count: int,
    size: Option<(u16, u16)>,
) -> Seq<char>
    decreases count,
{
    if count <= 0 {
        Seq::empty()
    } else {
        spec_less_rows(opts, actives, g, start, count - 1, size) + spec_less_row(
            opts[start + count - 1],
            actives[start + count - 1],
            g,
            size,
        )
    }
}

/// The whole windowed frame one redraw paints: exactly
/// the window's `less` rows, each unfocused in its current checked state,
/// followed by the one-line progress indicator.
pub open spec fn spec_less_frame<T>(
    opts: Seq<Opt<T>>,
    actives: Seq<bool>,
    g: Glyphs,
    w: Window,
    less: int,
    size: Option<(u16, u16)>,
) -> Seq<char> {
    spec_less_rows(opts, actives, g, w.start(), less, size) + CLEAR_LINE@ + cyan_of(spec_bar(g))
        + "  ......... ("@ + crate::window::spec_progress(w.idx as int, opts.len()) + ")\n"@
}

/// Builds the windowed frame exactly as [`spec_less_frame`] lays it out:
/// the window's rows, each unfocused, then the progress line.
#[verifier::loop_isolation(false)]
fn less_frame<T>(
    glyphs: &Glyphs,
    opts: &Vec<Opt<T>>,
    actives: &Vec<bool>,
    less: u16,
    w: Window,
    size: Option<(u16, u16)>,
) -> (r: String)
    requires
        w.wf(opts@.len() as int, less as int),
        actives@.len() == opts@.len(),
    ensures
        r@ == spec_less_frame(opts@, actives@, *glyphs, w, less as int, size),
{
    let start = w.idx - w.less_idx as usize;
    let mut r = String::new();
    let mut i: usize = 0;
    proof {
        assert(r@ =~= spec_less_rows(opts@, actives@, *glyphs, w.start(), 0, size));
    }
    while i < less as usize
        invariant
            i <= less as usize,
            r@ == spec_less_rows(opts@, actives@, *glyphs, w.start(), i as int, size),
        decreases less as usize - i,
    {
        let line = opts[start + i].unfocus_as(actives[start + i], glyphs, size);
        r.append(CLEAR_LINE);
        let bar = term::style_cyan(glyphs.bar());
        r.append(bar.as_str());
        r.append("  ");
        r.append(line.as_str());
        r.append("\r\n");
        i = i + 1;
        proof {
            assert(r@ =~= spec_less_rows(opts@, actives@, *glyphs, w.start(), i as int, size));
        }
    }
    let progress = progress_line(w.idx, opts.len());
    r.append(CLEAR_LINE);
    let bar = term::style_cyan(glyphs.bar());
    r.append(bar.as_str());
    r.append("  ......... (");
    r.append(progress.as_str());
    r.append(")\n");
    proof {
        assert(r@ =~= spec_less_frame(opts@, actives@, *glyphs, w, less as int, size));
    }
    r
}

/// Repaints the whole visible window plus the progress indicator — the
/// frame [`spec_less_frame`] states — positioned from the previous
/// frame's focused row, then puts the focus line back.
fn draw_less<T>(
    glyphs: &Glyphs,
    opts: &Vec<Opt<T>>,
    actives: &Vec<bool>,
    less: u16,
    w: Window,
    prev_less: u16,
    size: Option<(u16, u16)>,
) -> (r: Result<(), ClackError>)
    requires
        w.wf(opts@.len() as int, less as int),
        actives@.len() == opts@.len(),
    ensures
        r matches Err(e) ==> e == ClackError::IoError,
{
    if prev_less > 0 {
        term::move_to_previous_line(prev_less);
    } else {
        term::move_to_column(0);
    }
    let frame = less_frame(glyphs, opts, actives, less, w, size);
    match term::term_write(frame.as_str()) {
        Err(e) => { return Err(e); },
        Ok(()) => {},
    }
    term::move_to_previous_line(less.saturating_add(1));
    if w.less_idx > 0 {
        term::move_to_next_line(w.less_idx);
    }
    draw_focus(glyphs, opts, actives, w.idx, size)
}

/// Paints the initial frame: header, every option unfocused, the end bar,
/// then the focus on the first option.
fn w_init<T>(
    message: &String,
    glyphs: &Glyphs,
    opts: &Vec<Opt<T>>,
    actives: &Vec<bool>,
    size: Option<(u16, u16)>,
) -> (r: Result<(), ClackError>)
    requires
        opts@.len() > 0,
        actives@.len() == opts@.len(),
    ensures
        r matches Err(e) ==> e == ClackError::IoError,
{
    let mut s = glyphs.bar().to_owned();
    s.append("\n");
    let step = term::style_cyan(glyphs.step_active());
    s.append(step.as_str());
    s.append("  ");
    s.append(message.as_str());
    s.append("\n");
    let mut i: usize = 0;
    while i < opts.len()
        invariant
            actives@.len() == opts@.len(),
            i <= opts@.len(),
        decreases opts@.len() - i,
    {
        let line = opts[i].unfocus_as(actives[i], glyphs, size);
        let bar = term::style_cyan(glyphs.bar());
        s.append(bar.as_str());
        s.append("  ");
        s.append(line.as_str());
        s.append("\n");
        i = i + 1;
    }
    let bar_end = term::style_cyan(glyphs.bar_end());
    s.append(bar_end.as_str());
    match term::term_write(s.as_str()) {
        Err(e) => { return Err(e); },
        Ok(()) => {},
    }
    term::move_to_previous_line(#[verifier::truncate] (opts.len() as u16));
    draw_focus(glyphs, opts, actives, 0, size)
}

/// Paints the initial frame in windowed mode.
fn w_init_less<T>(
    message: &String,
    glyphs: &Glyphs,
    opts: &Vec<Opt<T>>,
    actives: &Vec<bool>,
    less: u16,
    size: Option<(u16, u16)>,
) -> (r: Result<(), ClackError>)
    requires
        (Window { idx: 0, less_idx: 0 }).wf(opts@.len() as int, less as int),
        actives@.len() == opts@.len(),
    ensures
        r matches Err(e) ==> e == ClackError::IoError,
{
    let mut s = glyphs.bar().to_owned();
    s.append("\n");
    let step = term::style_cyan(glyphs.step_active());
    s.append(step.as_str());
    s.append("  ");
    s.append(message.as_str());
    s.append("\n");
    match term::term_write(s.as_str()) {
        Err(e) => { return Err(e); },
        Ok(()) => {},
    }
    match draw_less(glyphs, opts, actives, less, Window::new(), 0, size) {
        Err(e) => { return Err(e); },
        Ok(()) => {},
    }
    term::move_to_next_line(less);
    let mut e2 = "\n".to_owned();
    let bar_end = term::style_cyan(glyphs.bar_end());
    e2.append(bar_end.as_str());
    match term::term_write(e2.as_str()) {
        Err(e) => { return Err(e); },
        Ok(()) => {},
    }
    term::move_to_previous_line(less.saturating_add(1));
    draw_focus(glyphs, opts, actives, 0, size)
}

/// The collapsed answer: the joined labels of the checked options, dimmed,
/// or an italic dimmed `none`.
fn answer_line(glyphs: &Glyphs, labels: &Vec<String>) -> (r: String) {
    let mut a = glyphs.bar().to_owned();
    a.append("  ");
    if labels.len() == 0 {
        let dimmed = term::style_dim("none");
        let styled = term::style_italic(dimmed.as_str());
        a.append(styled.as_str());
    } else {
        let joined = join(labels);
        let styled = term::style_dim(joined.as_str());
        a.append(styled.as_str());
    }
    a.append("\n");
    a
}

/// Collapses the block to the submitted answer.
fn w_out<T>(
    message: &String,
    glyphs: &Glyphs,
    opts: &Vec<Opt<T>>,
    idx: usize,
    labels: &Vec<String>,
) -> (r: Result<(), ClackError>)
    ensures
        r matches Err(e) ==> e == ClackError::IoError,
{
    term::move_to_previous_line((#[verifier::truncate] (idx as u16)).saturating_add(1));
    let mut s = term::style_green(glyphs.step_submit());
    s.append("  ");
    s.append(message.as_str());
    s.append("\n");
    let mut i: usize = 0;
    while i < opts.len()
        decreases opts@.len() - i,
    {
        s.append(CLEAR_LINE);
        s.append("\n");
        i = i + 1;
    }
    s.append(CLEAR_LINE);
    s.append("\n");
    match term::term_write(s.as_str()) {
        Err(e) => { return Err(e); },
        Ok(()) => {},
    }
    term::move_to_previous_line(
        (#[verifier::truncate] (opts.len() as u16)).saturating_add(1),
    );
    let a = answer_line(glyphs, labels);
    term::term_write(a.as_str())
}

/// Collapses the windowed block to the submitted answer.
fn w_out_less(
    message: &String,
    glyphs: &Glyphs,
    less: u16,
    w: Window,
    labels: &Vec<String>,
) -> (r: Result<(), ClackError>)
    ensures
        r matches Err(e) ==> e == ClackError::IoError,
{
    if w.less_idx > 0 {
        term::move_to_previous_line(w.less_idx.saturating_add(1));
    } else {
        term::move_to_previous_line(1);
    }
    let mut s = term::style_green(glyphs.step_submit());
    s.append("  ");
    s.append(message.as_str());
    s.append("\n");
    let mut i: usize = 0;
    while i < less as usize
        decreases less as usize - i,
    {
        s.append(CLEAR_LINE);
        s.append("\n");
        i = i + 1;
    }
    s.append(CLEAR_LINE);
    s.append("\n");
    s.append(CLEAR_LINE);
    s.append("\n");
    match term::term_write(s.as_str()) {
        Err(e) => { return Err(e); },
        Ok(()) => {},
    }
    term::move_to_previous_line(less.saturating_add(2));
    let a = answer_line(glyphs, labels);
    term::term_write(a.as_str())
}

/// Collapses the block to the cancelled answer: the focused label struck
/// through and dimmed.
fn w_cancel<T>(message: &String, glyphs: &Glyphs, opts: &Vec<Opt<T>>, idx: usize) -> (r:
    Result<(), ClackError>)
    requires
        idx < opts@.len(),
    ensures
        r matches Err(e) ==> e == ClackError::IoError,
{
    term::move_to_previous_line((#[verifier::truncate] (idx as u16)).saturating_add(1));
    let mut s = term::style_red(glyphs.step_cancel());
    s.append("  ");
    s.append(message.as_str());
    s.append("\n");
    let mut i: usize = 0;
    while i < opts.len()
        decreases opts@.len() - i,
    {
        s.append(CLEAR_LINE);
        s.append("\n");
        i = i + 1;
    }
    s.append(CLEAR_LINE);
    match term::term_write(s.as_str()) {
        Err(e) => { return Err(e); },
        Ok(()) => {},
    }
    term::move_to_previous_line(#[verifier::truncate] (opts.len() as u16));
    let mut a = glyphs.bar().to_owned();
    a.append("  ");
    let struck = term::style_strikethrough(opts[idx].label.as_str());
    let label = term::style_dim(struck.as_str());
    a.append(label.as_str());
    a.append("\n");
    term::term_write(a.as_str())
}

/// Collapses the windowed block to the cancelled answer.
fn w_cancel_less<T>(
    message: &String,
    glyphs: &Glyphs,
    opts: &Vec<Opt<T>>,
    less: u16,
    w: Window,
) -> (r: Result<(), ClackError>)
    requires
        w.wf(opts@.len() as int, less as int),
    ensures
        r matches Err(e) ==> e == ClackError::IoError,
{
    if w.less_idx > 0 {
        term::move_to_previous_line(w.less_idx.saturating_add(1));
    } else {
        term::move_to_previous_line(1);
    }
    let mut s = term::style_red(glyphs.step_cancel());
    s.append("  ");
    s.append(message.as_str());
    s.append("\n");
    let mut i: usize = 0;
    while i < less as usize
        decreases less as usize - i,
    {
        s.append(CLEAR_LINE);
        s.append("\n");
        i = i + 1;
    }
    s.append(CLEAR_LINE);
    s.append("\n");
    s.append(CLEAR_LINE);
    s.append("\n");
    match term::term_write(s.as_str()) {
        Err(e) => { return Err(e); },
        Ok(()) => {},
    }
    term::move_to_previous_line(less.saturating_add(2));
    let mut a = glyphs.bar().to_owned();
    a.append("  ");
    let struck = term::style_strikethrough(opts[w.idx].label.as_str());
    let label = term::style_dim(struck.as_str());
    a.append(label.as_str());
    a.append("\n");
    term::term_write(a.as_str())
}

/// Shorthand for [`MultiSelect::new`].
pub fn multi_select<T>(message: &str) -> (s: MultiSelect<T, NoCancel>)
    ensures
        s.message@ == message@,
        s.less == false,
        s.less_amt is None,
        s.less_max is None,
        s.options@.len() == 0,
{
    MultiSelect::new(message)
}

} // verus!
