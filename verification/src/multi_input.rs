//! Repeated line input with a minimum and maximum count.
use vstd::prelude::*;
use crate::error::ClackError;
use crate::input::{Validate, NoValidate, parse_i64, accepted_number, is_int_str, int_of_str};
use crate::style::{CLEAR_LINE, Glyphs};
use crate::term;
use crate::traits::{CancelHook, NoCancel};
use crate::window::{fmt_u64, fmt_i64};

verus! {

/// What a run of the multi-input state machine over a line sequence ends
/// in.
pub enum MultiInputOutcome {
    /// The accumulated lines were submitted.
    Submitted(Seq<Seq<char>>),
    /// The line stream ran out.
    Cancelled,
}

/// The multi-input state machine over submitted lines, carrying the lines
/// accepted so far: an empty line submits them once the minimum count is
/// met and is rejected before that; a non-empty line that passes the
/// validation rule is appended, and submits everything as soon as the
/// maximum count is reached; anything else asks for the next line; running
/// out of lines cancels.
pub open spec fn spec_multi_input_drive<V: Validate>(
    v: V,
    min: int,
    max: int,
    acc: Seq<Seq<char>>,
    lines: Seq<Seq<char>>,
) -> MultiInputOutcome
    decreases lines.len(),
{
    if lines.len() == 0 {
        MultiInputOutcome::Cancelled
    } else {
        let line = lines[0];
        let rest = lines.skip(1);
        if line.len() == 0 {
            if acc.len() < min {
                spec_multi_input_drive(v, min, max, acc, rest)
            } else {
                MultiInputOutcome::Submitted(acc)
            }
        } else if v.ok(line) {
            if acc.len() + 1 == max {
                MultiInputOutcome::Submitted(acc.push(line))
            } else {
                spec_multi_input_drive(v, min, max, acc.push(line), rest)
            }
        } else {
            spec_multi_input_drive(v, min, max, acc, rest)
        }
    }
}

/// What a run of the parsing multi-input state machine over a line
/// sequence ends in.
pub enum MultiParseOutcome {
    /// The accumulated numbers were submitted.
    Submitted(Seq<int>),
    /// The line stream ran out.
    Cancelled,
}

/// The parsing multi-input state machine over submitted lines, carrying
/// the numbers accepted so far: an empty line submits them once the
/// minimum count is met and is rejected before that; a non-empty line
/// that passes the validation rule and is an integer literal in `i64`
/// range is appended as its number, and submits everything as soon as the
/// maximum count is reached; anything else asks for the next line;
/// running out of lines cancels.
pub open spec fn spec_multi_parse_drive<V: Validate>(
    v: V,
    min: int,
    max: int,
    acc: Seq<int>,
    lines: Seq<Seq<char>>,
) -> MultiParseOutcome
    decreases lines.len(),
{
    if lines.len() == 0 {
        MultiParseOutcome::Cancelled
    } else {
        let line = lines[0];
        let rest = lines.skip(1);
        if line.len() == 0 {
            if acc.len() < min {
                spec_multi_parse_drive(v, min, max, acc, rest)
            } else {
                MultiParseOutcome::Submitted(acc)
            }
        } else if v.ok(line) && is_int_str(line) && i64::MIN <= int_of_str(line) <= i64::MAX {
            let n = int_of_str(line);
            if acc.len() + 1 == max {
                MultiParseOutcome::Submitted(acc.push(n))
            } else {
                spec_multi_parse_drive(v, min, max, acc.push(n), rest)
            }
        } else {
            spec_multi_parse_drive(v, min, max, acc, rest)
        }
    }
}

/// A multi-line input prompt under construction.
pub struct MultiInput<V, C> {
    /// The question shown above the input lines.
    pub message: String,
    /// Text pre-filling each input buffer, if any.
    pub initial_value: Option<String>,
    /// Dimmed text shown while a buffer is empty, if any.
    pub placeholder: Option<String>,
    /// The validation rule lines must pass.
    pub validate: V,
    /// Hook run when the user cancels.
    pub cancel: C,
    /// The count below which an empty submission keeps being rejected.
    pub min: u16,
    /// The count at which the prompt submits on its own.
    pub max: u16,
    /// The glyph set frames are painted with.
    pub glyphs: Glyphs,
}

impl MultiInput<NoValidate, NoCancel> {
    /// A new multi-input prompt that accepts any line, asking for at least
    /// one.
    pub fn new(message: &str) -> (s: MultiInput<NoValidate, NoCancel>)
        ensures
            s.message@ == message@,
            s.initial_value is None,
            s.placeholder is None,
            s.min == 1,
            s.max == u16::MAX,
    {
        MultiInput {
            message: message.to_owned(),
            initial_value: None,
            placeholder: None,
            validate: NoValidate,
            cancel: NoCancel,
            min: 1,
            max: u16::MAX,
            glyphs: Glyphs::detect(),
        }
    }
}

impl<V: Validate, C: CancelHook> MultiInput<V, C> {
    /// Sets the text pre-filling each input buffer.
    pub fn initial_value(self, initial_value: &str) -> (s: MultiInput<V, C>)
        ensures
            s.initial_value matches Some(v) && v@ == initial_value@,
            s.message == self.message,
            s.placeholder == self.placeholder,
            s.min == self.min,
            s.max == self.max,
            s.glyphs == self.glyphs,
    {
        let mut s = self;
        s.initial_value = Some(initial_value.to_owned());
        s
    }

    /// Sets the placeholder shown while a buffer is empty.
    ///
    /// The library's own prompts read plain lines and do not render it;
    /// it is shown when a caller drives the line editor with its own
    /// highlighting and hands the finished lines to
    /// [`MultiInput::interact_lines`].
    pub fn placeholder(self, placeholder: &str) -> (s: MultiInput<V, C>)
        ensures
            s.placeholder matches Some(p) && p@ == placeholder@,
            s.message == self.message,
            s.initial_value == self.initial_value,
            s.min == self.min,
            s.max == self.max,
            s.glyphs == self.glyphs,
    {
        let mut s = self;
        s.placeholder = Some(placeholder.to_owned());
        s
    }

    /// Sets the minimum number of answers an empty submission needs.
    pub fn min(self, min: u16) -> (s: MultiInput<V, C>)
        ensures
            s.min == min,
            s.max == self.max,
            s.message == self.message,
            s.initial_value == self.initial_value,
            s.placeholder == self.placeholder,
            s.glyphs == self.glyphs,
    {
        let mut s = self;
        s.min = min;
        s
    }

    /// Sets the number of answers at which the prompt submits on its own.
    pub fn max(self, max: u16) -> (s: MultiInput<V, C>)
        ensures
            s.max == max,
            s.min == self.min,
            s.message == self.message,
            s.initial_value == self.initial_value,
            s.placeholder == self.placeholder,
            s.glyphs == self.glyphs,
    {
        let mut s = self;
        s.max = max;
        s
    }

    /// Sets the validation rule lines must pass.
    pub fn validate<V2: Validate>(self, validate: V2) -> (s: MultiInput<V2, C>)
        ensures
            s.message == self.message,
            s.initial_value == self.initial_value,
            s.placeholder == self.placeholder,
            s.min == self.min,
            s.max == self.max,
            s.glyphs == self.glyphs,
    {
        MultiInput {
            message: self.message,
            initial_value: self.initial_value,
            placeholder: self.placeholder,
            validate,
            cancel: self.cancel,
            min: self.min,
            max: self.max,
            glyphs: self.glyphs,
        }
    }

    /// Computes the configured rule for one line.
    fn do_validate(&self, line: &str) -> (r: Option<String>)
        ensures
            r is None <==> self.validate.ok(line@),
    {
        self.validate.check(line)
    }

    /// Sets the hook run when the user cancels.
    pub fn cancel<C2: CancelHook>(self, cancel: C2) -> (s: MultiInput<V, C2>)
        ensures
            s.message == self.message,
            s.initial_value == self.initial_value,
            s.placeholder == self.placeholder,
            s.min == self.min,
            s.max == self.max,
            s.glyphs == self.glyphs,
    {
        MultiInput {
            message: self.message,
            initial_value: self.initial_value,
            placeholder: self.placeholder,
            validate: self.validate,
            cancel,
            min: self.min,
            max: self.max,
            glyphs: self.glyphs,
        }
    }

    /// Runs the multi-input state machine over a fixed line sequence, with
    /// no terminal involved: the outcome is exactly what
    /// [`spec_multi_input_drive`] reaches from an empty accumulator, every
    /// returned line is non-empty and passes the validation rule, the
    /// prompt never submits below the minimum count except by filling the
    /// maximum, and a positive maximum is never exceeded.
    #[verifier::loop_isolation(false)]
    pub fn interact_lines(&self, lines: &Vec<String>) -> (r: Result<Vec<String>, ClackError>)
        ensures
            match spec_multi_input_drive(
                self.validate,
                self.min as int,
                self.max as int,
                Seq::empty(),
                lines@.map_values(|s: String| s@),
            ) {
                MultiInputOutcome::Submitted(o) => r matches Ok(vv) && vv@.map_values(
                    |s: String| s@,
                ) == o,
                MultiInputOutcome::Cancelled => r == Err::<Vec<String>, ClackError>(
                    ClackError::Cancelled,
                ),
            },
            r matches Ok(vv) ==> (vv@.len() >= self.min || vv@.len() == self.max),
            self.max >= 1 ==> (r matches Ok(vv) ==> vv@.len() <= self.max),
            r matches Ok(vv) ==> forall|j: int|
                0 <= j < vv@.len() ==> (#[trigger] vv@[j])@.len() > 0 && self.validate.ok(
                    vv@[j]@,
                ),
    {
        let ghost views = lines@.map_values(|s: String| s@);
        let ghost target = spec_multi_input_drive(
            self.validate,
            self.min as int,
            self.max as int,
            Seq::empty(),
            views,
        );
        let mut acc: Vec<String> = Vec::new();
        let mut k: usize = 0;
        proof {
            assert(views.skip(0) =~= views);
            assert(acc@.map_values(|s: String| s@) =~= Seq::<Seq<char>>::empty());
        }
        while k < lines.len()
            invariant
                k <= lines@.len(),
                spec_multi_input_drive(
                    self.validate,
                    self.min as int,
                    self.max as int,
                    acc@.map_values(|s: String| s@),
                    views.skip(k as int),
                ) == target,
                self.max >= 1 ==> acc@.len() < self.max,
                forall|j: int|
                    0 <= j < acc@.len() ==> (#[trigger] acc@[j])@.len() > 0
                        && self.validate.ok(acc@[j]@),
            decreases lines@.len() - k,
        {
            proof {
                assert(views.skip(k as int)[0] == views[k as int]);
                assert(views.skip(k as int).skip(1) =~= views.skip(k as int + 1));
            }
            let line = &lines[k];
            if line.as_str().is_empty() {
                if acc.len() >= self.min as usize {
                    return Ok(acc);
                }
            } else {
                match self.do_validate(line.as_str()) {
                    None => {
                        let ghost acc0 = acc@.map_values(|s: String| s@);
                        acc.push(line.clone());
                        proof {
                            assert(acc@.map_values(|s: String| s@) =~= acc0.push(
                                views[k as int],
                            ));
                        }
                        if acc.len() == self.max as usize {
                            return Ok(acc);
                        }
                    },
                    Some(_message) => {},
                }
            }
            k = k + 1;
        }
        proof {
            assert(views.skip(k as int) =~= Seq::<Seq<char>>::empty());
        }
        Err(ClackError::Cancelled)
    }

    /// Waits for the user to submit lines on the terminal, until an empty
    /// submission once the minimum count is met, or the maximum count is
    /// reached.
    ///
    /// Every returned line is non-empty and passes the validation rule,
    /// the prompt never returns below the minimum count except by filling
    /// the maximum, and a positive maximum is never exceeded.
    #[verifier::loop_isolation(false)]
    pub fn interact(&self) -> (r: Result<Vec<String>, ClackError>)
        ensures
            r matches Ok(vv) ==> (vv@.len() >= self.min || vv@.len() == self.max),
            self.max >= 1 ==> (r matches Ok(vv) ==> vv@.len() <= self.max),
            r matches Ok(vv) ==> forall|j: int|
                0 <= j < vv@.len() ==> (#[trigger] vv@[j])@.len() > 0 && self.validate.ok(
                    vv@[j]@,
                ),
    {
        match self.w_init() {
            Err(e) => { return Err(e); },
            Ok(()) => {},
        }
        let mut prompt = self.glyphs.bar().to_owned();
        prompt.append("  ");
        let mut acc: Vec<String> = Vec::new();
        let mut initial: Option<String> = match &self.initial_value {
            Some(v) => Some(v.clone()),
            None => None,
        };
        // The read loop blocks on the user and ends only through one of the
        // returns below; the counter gives it a termination bound that no
        // interactive session can reach.
        let mut fuel: u64 = u64::MAX;
        while fuel > 0
            invariant
                self.max >= 1 ==> acc@.len() < self.max,
                forall|j: int|
                    0 <= j < acc@.len() ==> (#[trigger] acc@[j])@.len() > 0
                        && self.validate.ok(acc@[j]@),
            decreases fuel,
        {
            fuel = fuel - 1;
            let line = match &initial {
                Some(v) => term::read_line(prompt.as_str(), Some(v)),
                None => term::read_line(prompt.as_str(), None),
            };
            match line {
                Err(ClackError::Cancelled) => {
                    match self.w_cancel(acc.len()) {
                        Err(e) => { return Err(e); },
                        Ok(()) => {},
                    }
                    self.cancel.on_cancel();
                    return Err(ClackError::Cancelled);
                },
                Err(e) => {
                    return Err(e);
                },
                Ok(value) => {
                    if value.as_str().is_empty() {
                        if acc.len() >= self.min as usize {
                            match self.w_out(&acc) {
                                Err(e) => { return Err(e); },
                                Ok(()) => {},
                            }
                            return Ok(acc);
                        }
                        initial = None;
                        let mut text = "minimum ".to_owned();
                        let shown = fmt_u64(self.min as u64);
                        text.append(shown.as_str());
                        match self.w_val(text.as_str(), acc.len()) {
                            Err(e) => { return Err(e); },
                            Ok(()) => {},
                        }
                    } else {
                        match self.do_validate(value.as_str()) {
                            None => {
                                match self.w_line(value.as_str(), acc.len()) {
                                    Err(e) => { return Err(e); },
                                    Ok(()) => {},
                                }
                                initial = match &self.initial_value {
                                    Some(v) => Some(v.clone()),
                                    None => None,
                                };
                                acc.push(value);
                                if acc.len() == self.max as usize {
                                    match term::term_write("\n") {
                                        Err(e) => { return Err(e); },
                                        Ok(()) => {},
                                    }
                                    match self.w_out(&acc) {
                                        Err(e) => { return Err(e); },
                                        Ok(()) => {},
                                    }
                                    return Ok(acc);
                                }
                            },
                            Some(message) => {
                                initial = Some(value);
                                match self.w_val(message.as_str(), acc.len()) {
                                    Err(e) => { return Err(e); },
                                    Ok(()) => {},
                                }
                            },
                        }
                    }
                },
            }
        }
        Err(ClackError::IoError)
    }

    /// Like [`MultiInput::interact`], but each line must also parse as a
    /// decimal integer, and the numbers are returned: every returned
    /// number is the number of some accepted, validated integer literal,
    /// the count meets the minimum unless the maximum filled it, and a
    /// positive maximum is never exceeded. [`MultiInput::parse_lines`] is
    /// the same machine over a fixed line sequence, with its whole outcome
    /// pinned down.
    #[verifier::loop_isolation(false)]
    pub fn parse(&self) -> (r: Result<Vec<i64>, ClackError>)
        ensures
            r matches Ok(vv) ==> (vv@.len() >= self.min || vv@.len() == self.max),
            self.max >= 1 ==> (r matches Ok(vv) ==> vv@.len() <= self.max),
            r matches Ok(vv) ==> forall|j: int|
                0 <= j < vv@.len() ==> accepted_number(
                    self.validate,
                    (#[trigger] vv@[j]) as int,
                ),
    {
        match self.w_init() {
            Err(e) => { return Err(e); },
            Ok(()) => {},
        }
        let mut prompt = self.glyphs.bar().to_owned();
        prompt.append("  ");
        let mut acc: Vec<i64> = Vec::new();
        let mut shown: Vec<String> = Vec::new();
        let mut initial: Option<String> = match &self.initial_value {
            Some(v) => Some(v.clone()),
            None => None,
        };
        // The read loop blocks on the user and ends only through one of the
        // returns below; the counter gives it a termination bound that no
        // interactive session can reach.
        let mut fuel: u64 = u64::MAX;
        while fuel > 0
            invariant
                self.max >= 1 ==> acc@.len() < self.max,
                forall|j: int|
                    0 <= j < acc@.len() ==> accepted_number(
                        self.validate,
                        (#[trigger] acc@[j]) as int,
                    ),
            decreases fuel,
        {
            fuel = fuel - 1;
            let line = match &initial {
                Some(v) => term::read_line(prompt.as_str(), Some(v)),
                None => term::read_line(prompt.as_str(), None),
            };
            match line {
                Err(ClackError::Cancelled) => {
                    match self.w_cancel(acc.len()) {
                        Err(e) => { return Err(e); },
                        Ok(()) => {},
                    }
                    self.cancel.on_cancel();
                    return Err(ClackError::Cancelled);
                },
                Err(e) => {
                    return Err(e);
                },
                Ok(value) => {
                    if value.as_str().is_empty() {
                        if acc.len() >= self.min as usize {
                            match self.w_out(&shown) {
                                Err(e) => { return Err(e); },
                                Ok(()) => {},
                            }
                            return Ok(acc);
                        }
                        initial = None;
                        let mut text = "minimum ".to_owned();
                        let m = fmt_u64(self.min as u64);
                        text.append(m.as_str());
                        match self.w_val(text.as_str(), acc.len()) {
                            Err(e) => { return Err(e); },
                            Ok(()) => {},
                        }
                    } else {
                        match self.do_validate(value.as_str()) {
                            None => {
                                match parse_i64(value.as_str()) {
                                    Some(number) => {
                                        proof {
                                            assert(value@.len() > 0 && self.validate.ok(value@)
                                                && is_int_str(value@)
                                                && int_of_str(value@)
                                                == number as int);
                                        }
                                        let text = fmt_i64(number);
                                        match self.w_line(text.as_str(), acc.len()) {
                                            Err(e) => { return Err(e); },
                                            Ok(()) => {},
                                        }
                                        initial = match &self.initial_value {
                                            Some(v) => Some(v.clone()),
                                            None => None,
                                        };
                                        acc.push(number);
                                        shown.push(text);
                                        if acc.len() == self.max as usize {
                                            match term::term_write("\n") {
                                                Err(e) => { return Err(e); },
                                                Ok(()) => {},
                                            }
                                            match self.w_out(&shown) {
                                                Err(e) => { return Err(e); },
                                                Ok(()) => {},
                                            }
                                            return Ok(acc);
                                        }
                                    },
                                    None => {
                                        initial = Some(value);
                                        match self.w_val("invalid number", acc.len()) {
                                            Err(e) => { return Err(e); },
                                            Ok(()) => {},
                                        }
                                    },
                                }
                            },
                            Some(message) => {
                                initial = Some(value);
                                match self.w_val(message.as_str(), acc.len()) {
                                    Err(e) => { return Err(e); },
                                    Ok(()) => {},
                                }
                            },
                        }
                    }
                },
            }
        }
        Err(ClackError::IoError)
    }

    /// Runs the parsing multi-input state machine over a fixed line
    /// sequence, with no terminal involved: the outcome is exactly what
    /// [`spec_multi_parse_drive`] reaches from an empty accumulator, with
    /// the same counting guarantees as [`MultiInput::parse`].
    #[verifier::loop_isolation(false)]
    pub fn parse_lines(&self, lines: &Vec<String>) -> (r: Result<Vec<i64>, ClackError>)
        ensures
            match spec_multi_parse_drive(
                self.validate,
                self.min as int,
                self.max as int,
                Seq::empty(),
                lines@.map_values(|s: String| s@),
            ) {
                MultiParseOutcome::Submitted(o) => r matches Ok(vv) && vv@.map_values(
                    |x: i64| x as int,
                ) == o,
                MultiParseOutcome::Cancelled => r == Err::<Vec<i64>, ClackError>(
                    ClackError::Cancelled,
                ),
            },
            r matches Ok(vv) ==> (vv@.len() >= self.min || vv@.len() == self.max),
            self.max >= 1 ==> (r matches Ok(vv) ==> vv@.len() <= self.max),
            r matches Ok(vv) ==> forall|j: int|
                0 <= j < vv@.len() ==> accepted_number(
                    self.validate,
                    (#[trigger] vv@[j]) as int,
                ),
    {
        let ghost views = lines@.map_values(|s: String| s@);
        let ghost target = spec_multi_parse_drive(
            self.validate,
            self.min as int,
            self.max as int,
            Seq::empty(),
            views,
        );
        let mut acc: Vec<i64> = Vec::new();
        let mut k: usize = 0;
        proof {
            assert(views.skip(0) =~= views);
            assert(acc@.map_values(|x: i64| x as int) =~= Seq::<int>::empty());
        }
        while k < lines.len()
            invariant
                k <= lines@.len(),
                spec_multi_parse_drive(
                    self.validate,
                    self.min as int,
                    self.max as int,
                    acc@.map_values(|x: i64| x as int),
                    views.skip(k as int),
                ) == target,
                self.max >= 1 ==> acc@.len() < self.max,
                forall|j: int|
                    0 <= j < acc@.len() ==> accepted_number(
                        self.validate,
                        (#[trigger] acc@[j]) as int,
                    ),
            decreases lines@.len() - k,
        {
            proof {
                assert(views.skip(k as int)[0] == views[k as int]);
                assert(views.skip(k as int).skip(1) =~= views.skip(k as int + 1));
            }
            let line = &lines[k];
            if line.as_str().is_empty() {
                if acc.len() >= self.min as usize {
                    return Ok(acc);
                }
            } else {
                match self.do_validate(line.as_str()) {
                    None => {
                        match parse_i64(line.as_str()) {
                            Some(number) => {
                                let ghost acc0 = acc@.map_values(|x: i64| x as int);
                                proof {
                                    assert(line@.len() > 0 && self.validate.ok(line@)
                                        && is_int_str(line@) && int_of_str(line@)
                                        == number as int);
                                }
                                acc.push(number);
                                proof {
                                    assert(acc@.map_values(|x: i64| x as int) =~= acc0.push(
                                        number as int,
                                    ));
                                }
                                if acc.len() == self.max as usize {
                                    return Ok(acc);
                                }
                            },
                            None => {},
                        }
                    },
                    Some(_message) => {},
                }
            }
            k = k + 1;
        }
        proof {
            assert(views.skip(k as int) =~= Seq::<Seq<char>>::empty());
        }
        Err(ClackError::Cancelled)
    }

    /// Paints the initial frame: header, the input line, the end bar.
    fn w_init(&self) -> (r: Result<(), ClackError>)
        ensures
            r matches Err(e) ==> e == ClackError::IoError,
    {
        let mut s = self.glyphs.bar().to_owned();
        s.append("\n");
        let step = term::style_cyan(self.glyphs.step_active());
        s.append(step.as_str());
        s.append("  ");
        s.append(self.message.as_str());
        s.append("\n");
        let bar = term::style_cyan(self.glyphs.bar());
        s.append(bar.as_str());
        s.append("\n");
        let bar_end = term::style_cyan(self.glyphs.bar_end());
        s.append(bar_end.as_str());
        match term::term_write(s.as_str()) {
            Err(e) => { return Err(e); },
            Ok(()) => {},
        }
        term::move_to_previous_line(1);
        let mut p = term::style_cyan(self.glyphs.bar());
        p.append("  ");
        term::term_write(p.as_str())
    }

    /// Reflows the frame after a line is accepted: the accepted lines sit
    /// dimmed under the header and a fresh input line opens below them.
    fn w_line(&self, value: &str, amt: usize) -> (r: Result<(), ClackError>)
        ensures
            r matches Err(e) ==> e == ClackError::IoError,
    {
        let rows = (#[verifier::truncate] (amt as u16)).saturating_add(2);
        term::move_to_previous_line(rows);
        let mut s = term::style_cyan(self.glyphs.step_active());
        s.append("  ");
        s.append(self.message.as_str());
        s.append("\n");
        let mut i: usize = 0;
        while i < amt
            decreases amt - i,
        {
            let bar = term::style_cyan(self.glyphs.bar());
            s.append(bar.as_str());
            s.append("\n");
            i = i + 1;
        }
        let bar = term::style_cyan(self.glyphs.bar());
        s.append(bar.as_str());
        s.append("  ");
        let styled = term::style_dim(value);
        s.append(styled.as_str());
        s.append("\n");
        let bar2 = term::style_cyan(self.glyphs.bar());
        s.append(bar2.as_str());
        s.append("\n");
        s.append(CLEAR_LINE);
        let bar_end = term::style_cyan(self.glyphs.bar_end());
        s.append(bar_end.as_str());
        match term::term_write(s.as_str()) {
            Err(e) => { return Err(e); },
            Ok(()) => {},
        }
        term::move_to_previous_line(1);
        let mut p = term::style_cyan(self.glyphs.bar());
        p.append("  ");
        term::term_write(p.as_str())
    }

    /// Repaints the frame in the attention style with a failure message
    /// under the input line.
    fn w_val(&self, text: &str, amt: usize) -> (r: Result<(), ClackError>)
        ensures
            r matches Err(e) ==> e == ClackError::IoError,
    {
        let rows = (#[verifier::truncate] (amt as u16)).saturating_add(2);
        term::move_to_previous_line(rows);
        let mut s = term::style_yellow(self.glyphs.step_error());
        s.append("  ");
        s.append(self.message.as_str());
        s.append("\n");
        let mut i: usize = 0;
        while i < amt
            decreases amt - i,
        {
            let bar = term::style_yellow(self.glyphs.bar());
            s.append(bar.as_str());
            s.append("\n");
            i = i + 1;
        }
        let last_bar = term::style_yellow(self.glyphs.bar());
        s.append(last_bar.as_str());
        s.append("\n");
        s.append(CLEAR_LINE);
        let bar_end = term::style_yellow(self.glyphs.bar_end());
        s.append(bar_end.as_str());
        s.append("  ");
        let styled = term::style_yellow(text);
        s.append(styled.as_str());
        match term::term_write(s.as_str()) {
            Err(e) => { return Err(e); },
            Ok(()) => {},
        }
        term::move_to_previous_line(1);
        Ok(())
    }

    /// Collapses the block to the submitted answers.
    fn w_out(&self, values: &Vec<String>) -> (r: Result<(), ClackError>)
        ensures
            r matches Err(e) ==> e == ClackError::IoError,
    {
        let amt = values.len();
        let rows = (#[verifier::truncate] (amt as u16)).saturating_add(2);
        term::move_to_previous_line(rows);
        let mut s = term::style_green(self.glyphs.step_submit());
        s.append("  ");
        s.append(self.message.as_str());
        s.append("\n");
        if amt == 0 {
            s.append(self.glyphs.bar());
            s.append("\n");
        }
        let mut i: usize = 0;
        while i < amt
            invariant
                amt == values@.len(),
                i <= amt,
            decreases amt - i,
        {
            s.append(self.glyphs.bar());
            s.append("  ");
            let styled = term::style_dim(values[i].as_str());
            s.append(styled.as_str());
            s.append("\n");
            i = i + 1;
        }
        s.append(CLEAR_LINE);
        s.append("\n");
        s.append(CLEAR_LINE);
        s.append("\n");
        match term::term_write(s.as_str()) {
            Err(e) => { return Err(e); },
            Ok(()) => {},
        }
        term::move_to_previous_line(2);
        Ok(())
    }

    /// Collapses the block to the cancelled answer.
    fn w_cancel(&self, amt: usize) -> (r: Result<(), ClackError>)
        ensures
            r matches Err(e) ==> e == ClackError::IoError,
    {
        term::move_to_previous_line(1);
        let mut s = CLEAR_LINE.to_owned();
        s.append(self.glyphs.bar());
        s.append("  ");
        let struck = term::style_strikethrough("cancelled");
        let styled = term::style_dim(struck.as_str());
        s.append(styled.as_str());
        s.append("\n");
        s.append(CLEAR_LINE);
        match term::term_write(s.as_str()) {
            Err(e) => { return Err(e); },
            Ok(()) => {},
        }
        let rows = (#[verifier::truncate] (amt as u16)).saturating_add(2);
        term::move_to_previous_line(rows);
        let mut h = term::style_red(self.glyphs.step_cancel());
        h.append("  ");
        h.append(self.message.as_str());
        h.append("\n");
        let mut i: usize = 0;
        while i < amt
            decreases amt - i,
        {
            h.append(self.glyphs.bar());
            h.append("\n");
            i = i + 1;
        }
        match term::term_write(h.as_str()) {
            Err(e) => { return Err(e); },
            Ok(()) => {},
        }
        term::move_to_next_line(1);
        Ok(())
    }
}

/// Shorthand for [`MultiInput::new`].
pub fn multi_input(message: &str) -> (s: MultiInput<NoValidate, NoCancel>)
    ensures
        s.message@ == message@,
        s.initial_value is None,
        s.placeholder is None,
        s.min == 1,
        s.max == u16::MAX,
{
    MultiInput::new(message)
}

} // verus!
