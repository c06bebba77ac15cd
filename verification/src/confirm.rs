//! A yes/no question.
use vstd::prelude::*;
use crate::error::ClackError;
use crate::key::Key;
use crate::style::{CLEAR_LINE, Glyphs, spec_radio_active, spec_radio_inactive};
use crate::term;
use crate::term::{dim_of, green_of};
use crate::traits::{CancelHook, NoCancel};

verus! {

/// What a run of the confirm state machine ends in.
pub enum ConfirmOutcome {
    /// The user answered: `true` for yes, `false` for no.
    Answered(bool),
    /// Ctrl-C / Ctrl-D, or the key stream ran out.
    Cancelled,
}

/// The confirm state machine, run to its end over a key sequence: any
/// arrow flips the current answer, `y`/`Y` and `n`/`N` answer at once,
/// Enter submits the current answer, Ctrl-C and Ctrl-D — or exhausting the
/// keys — cancel, and every other key is ignored.
pub open spec fn spec_confirm_drive(val: bool, keys: Seq<Key>) -> ConfirmOutcome
    decreases keys.len(),
{
    if keys.len() == 0 {
        ConfirmOutcome::Cancelled
    } else {
        let rest = keys.skip(1);
        match keys[0] {
            Key::Enter => ConfirmOutcome::Answered(val),
            Key::CtrlC => ConfirmOutcome::Cancelled,
            Key::CtrlD => ConfirmOutcome::Cancelled,
            Key::Up => spec_confirm_drive(!val, rest),
            Key::Down => spec_confirm_drive(!val, rest),
            Key::Left => spec_confirm_drive(!val, rest),
            Key::Right => spec_confirm_drive(!val, rest),
            Key::Char(c) => if c == 'y' || c == 'Y' {
                ConfirmOutcome::Answered(true)
            } else if c == 'n' || c == 'N' {
                ConfirmOutcome::Answered(false)
            } else {
                spec_confirm_drive(val, rest)
            },
            _ => spec_confirm_drive(val, rest),
        }
    }
}

/// One radio point of the confirm line: green and active, or dimmed whole.
pub open spec fn spec_radio_pnt(g: Glyphs, is_active: bool, prompt: Seq<char>) -> Seq<char> {
    if is_active {
        green_of(spec_radio_active(g)) + " "@ + prompt
    } else {
        dim_of(spec_radio_inactive(g) + " "@ + prompt)
    }
}

/// The whole confirm line: the yes point, a separator, the no point.
pub open spec fn spec_radio(g: Glyphs, value: bool, yes: Seq<char>, no: Seq<char>) -> Seq<char> {
    spec_radio_pnt(g, value, yes) + " / "@ + spec_radio_pnt(g, !value, no)
}

/// A confirm prompt under construction.
pub struct Confirm<C> {
    /// The question shown above the radio line.
    pub message: String,
    /// The answer the radio line starts on.
    pub initial_value: bool,
    /// The texts shown for yes and for no.
    pub prompts: (String, String),
    /// Hook run when the user cancels.
    pub cancel: C,
    /// The glyph set frames are painted with.
    pub glyphs: Glyphs,
}

impl Confirm<NoCancel> {
    /// A new confirm prompt answering `yes` / `no`, starting on no.
    pub fn new(message: &str) -> (s: Confirm<NoCancel>)
        ensures
            s.message@ == message@,
            s.initial_value == false,
            s.prompts.0@ == "yes"@,
            s.prompts.1@ == "no"@,
    {
        Confirm {
            message: message.to_owned(),
            initial_value: false,
            prompts: ("yes".to_owned(), "no".to_owned()),
            cancel: NoCancel,
            glyphs: Glyphs::detect(),
        }
    }
}

impl<C: CancelHook> Confirm<C> {
    /// Sets the answer the radio line starts on.
    pub fn initial_value(self, b: bool) -> (s: Confirm<C>)
        ensures
            s.initial_value == b,
            s.message == self.message,
            s.prompts == self.prompts,
            s.glyphs == self.glyphs,
    {
        let mut s = self;
        s.initial_value = b;
        s
    }

    /// Sets the texts shown for yes and for no.
    pub fn prompts(self, yes: &str, no: &str) -> (s: Confirm<C>)
        ensures
            s.prompts.0@ == yes@,
            s.prompts.1@ == no@,
            s.message == self.message,
            s.initial_value == self.initial_value,
            s.glyphs == self.glyphs,
    {
        let mut s = self;
        s.prompts = (yes.to_owned(), no.to_owned());
        s
    }

    /// Sets the hook run when the user cancels.
    pub fn cancel<C2: CancelHook>(self, cancel: C2) -> (s: Confirm<C2>)
        ensures
            s.message == self.message,
            s.initial_value == self.initial_value,
            s.prompts == self.prompts,
            s.glyphs == self.glyphs,
    {
        Confirm {
            message: self.message,
            initial_value: self.initial_value,
            prompts: self.prompts,
            cancel,
            glyphs: self.glyphs,
        }
    }

    /// Runs the confirm state machine over a fixed key sequence, with no
    /// terminal involved: the answer is exactly what [`spec_confirm_drive`]
    /// reaches from the configured initial value.
    #[verifier::loop_isolation(false)]
    pub fn interact_keys(&self, keys: &Vec<Key>) -> (r: Result<bool, ClackError>)
        ensures
            match spec_confirm_drive(self.initial_value, keys@) {
                ConfirmOutcome::Answered(b) => r == Ok::<bool, ClackError>(b),
                ConfirmOutcome::Cancelled => r == Err::<bool, ClackError>(ClackError::Cancelled),
            },
    {
        let mut val = self.initial_value;
        let mut k: usize = 0;
        proof {
            assert(keys@.skip(0) =~= keys@);
        }
        while k < keys.len()
            invariant
                k <= keys@.len(),
                spec_confirm_drive(val, keys@.skip(k as int)) == spec_confirm_drive(
                    self.initial_value,
                    keys@,
                ),
            decreases keys@.len() - k,
        {
            proof {
                assert(keys@.skip(k as int)[0] == keys@[k as int]);
                assert(keys@.skip(k as int).skip(1) =~= keys@.skip(k as int + 1));
            }
            let key = keys[k];
            match key {
                Key::Enter => {
                    return Ok(val);
                },
                Key::CtrlC | Key::CtrlD => {
                    self.cancel.on_cancel();
                    return Err(ClackError::Cancelled);
                },
                Key::Up | Key::Down | Key::Left | Key::Right => {
                    val = !val;
                },
                Key::Char(c) => {
                    if c == 'y' || c == 'Y' {
                        return Ok(true);
                    } else if c == 'n' || c == 'N' {
                        return Ok(false);
                    }
                },
                _ => {},
            }
            k = k + 1;
        }
        proof {
            assert(keys@.skip(k as int) =~= Seq::<Key>::empty());
        }
        Err(ClackError::Cancelled)
    }

    /// Waits for the user to answer on the terminal.
    ///
    /// The only errors that leave this call are an I/O failure and a
    /// cancellation.
    #[verifier::loop_isolation(false)]
    pub fn interact(&self) -> (r: Result<bool, ClackError>)
        ensures
            r matches Err(e) ==> (e == ClackError::IoError || e == ClackError::Cancelled),
    {
        match self.w_init() {
            Err(e) => { return Err(e); },
            Ok(()) => {},
        }
        term::hide_cursor();
        match term::enable_raw() {
            Err(e) => {
                term::show_cursor();
                return Err(e);
            },
            Ok(()) => {},
        }
        let mut val = self.initial_value;
        // The read loop blocks on the user and ends only through one of the
        // returns below; the counter gives it a termination bound that no
        // interactive session can reach.
        let mut fuel: u64 = u64::MAX;
        while fuel > 0
            decreases fuel,
        {
            fuel = fuel - 1;
            let key = match term::read_key() {
                Err(e) => {
                    term::show_cursor();
                    let _ = term::disable_raw();
                    return Err(e);
                },
                Ok(None) => { continue ; },
                Ok(Some(key)) => key,
            };
            match key {
                Key::Up | Key::Down | Key::Left | Key::Right => {
                    val = !val;
                    match self.draw(val) {
                        Err(e) => {
                            term::show_cursor();
                            let _ = term::disable_raw();
                            return Err(e);
                        },
                        Ok(()) => {},
                    }
                },
                Key::Char(c) => {
                    if c == 'y' || c == 'Y' {
                        term::show_cursor();
                        match term::disable_raw() {
                            Err(e) => { return Err(e); },
                            Ok(()) => {},
                        }
                        match self.w_out(true) {
                            Err(e) => { return Err(e); },
                            Ok(()) => {},
                        }
                        return Ok(true);
                    } else if c == 'n' || c == 'N' {
                        term::show_cursor();
                        match term::disable_raw() {
                            Err(e) => { return Err(e); },
                            Ok(()) => {},
                        }
                        match self.w_out(false) {
                            Err(e) => { return Err(e); },
                            Ok(()) => {},
                        }
                        return Ok(false);
                    }
                },
                Key::Enter => {
                    term::show_cursor();
                    match term::disable_raw() {
                        Err(e) => { return Err(e); },
                        Ok(()) => {},
                    }
                    match self.w_out(val) {
                        Err(e) => { return Err(e); },
                        Ok(()) => {},
                    }
                    return Ok(val);
                },
                Key::CtrlC | Key::CtrlD => {
                    term::show_cursor();
                    match term::disable_raw() {
                        Err(e) => { return Err(e); },
                        Ok(()) => {},
                    }
                    match self.w_cancel(val) {
                        Err(e) => { return Err(e); },
                        Ok(()) => {},
                    }
                    self.cancel.on_cancel();
                    return Err(ClackError::Cancelled);
                },
                _ => {},
            }
        }
        term::show_cursor();
        let _ = term::disable_raw();
        Err(ClackError::IoError)
    }

    /// One radio point, active or dimmed.
    pub fn radio_pnt(&self, is_active: bool, prompt: &str) -> (r: String)
        ensures
            r@ == spec_radio_pnt(self.glyphs, is_active, prompt@),
    {
        if is_active {
            let mut r = term::style_green(self.glyphs.radio_active());
            r.append(" ");
            r.append(prompt);
            proof {
                reveal_strlit(" ");
                assert(r@ =~= spec_radio_pnt(self.glyphs, is_active, prompt@));
            }
            r
        } else {
            let mut plain = self.glyphs.radio_inactive().to_owned();
            plain.append(" ");
            plain.append(prompt);
            let r = term::style_dim(plain.as_str());
            proof {
                reveal_strlit(" ");
                assert(plain@ =~= spec_radio_inactive(self.glyphs) + " "@ + prompt@);
            }
            r
        }
    }

    /// The whole radio line for the current answer.
    pub fn radio(&self, value: bool) -> (r: String)
        ensures
            r@ == spec_radio(self.glyphs, value, self.prompts.0@, self.prompts.1@),
    {
        let mut r = self.radio_pnt(value, self.prompts.0.as_str());
        r.append(" / ");
        let no = self.radio_pnt(!value, self.prompts.1.as_str());
        r.append(no.as_str());
        proof {
            reveal_strlit(" / ");
            assert(r@ =~= spec_radio(self.glyphs, value, self.prompts.0@, self.prompts.1@));
        }
        r
    }

    /// Repaints the radio line in place.
    fn draw(&self, value: bool) -> (r: Result<(), ClackError>)
        ensures
            r matches Err(e) ==> e == ClackError::IoError,
    {
        term::move_to_column(0);
        let mut s = term::style_cyan(self.glyphs.bar());
        s.append("  ");
        let line = self.radio(value);
        s.append(line.as_str());
        term::term_write(s.as_str())
    }

    /// Paints the initial frame: header, radio line, end bar.
    fn w_init(&self) -> (r: Result<(), ClackError>)
        ensures
            r matches Err(e) ==> e == ClackError::IoError,
    {
        let mut s = self.glyphs.bar().to_owned();
        s.append("\n");
        let step = term::style_cyan(self.glyphs.step_active());
        s.append(step.as_str());
        s.append("  ");
        s.append(self.message.as_str());
        s.append("\n");
        let bar = term::style_cyan(self.glyphs.bar());
        s.append(bar.as_str());
        s.append("\n");
        let bar_end = term::style_cyan(self.glyphs.bar_end());
        s.append(bar_end.as_str());
        match term::term_write(s.as_str()) {
            Err(e) => { return Err(e); },
            Ok(()) => {},
        }
        term::move_to_previous_line(1);
        self.draw(self.initial_value)
    }

    /// Collapses the block to the submitted answer.
    fn w_out(&self, value: bool) -> (r: Result<(), ClackError>)
        ensures
            r matches Err(e) ==> e == ClackError::IoError,
    {
        term::move_to_previous_line(1);
        let mut s = term::style_green(self.glyphs.step_submit());
        s.append("  ");
        s.append(self.message.as_str());
        s.append("\n");
        s.append(CLEAR_LINE);
        s.append(self.glyphs.bar());
        s.append("  ");
        let answer = if value {
            term::style_dim(self.prompts.0.as_str())
        } else {
            term::style_dim(self.prompts.1.as_str())
        };
        s.append(answer.as_str());
        s.append("\n");
        term::term_write(s.as_str())
    }

    /// Collapses the block to the cancelled answer.
    fn w_cancel(&self, value: bool) -> (r: Result<(), ClackError>)
        ensures
            r matches Err(e) ==> e == ClackError::IoError,
    {
        term::move_to_previous_line(1);
        let mut s = term::style_red(self.glyphs.step_cancel());
        s.append("  ");
        s.append(self.message.as_str());
        s.append("\n");
        s.append(CLEAR_LINE);
        s.append(self.glyphs.bar());
        s.append("  ");
        let struck = if value {
            term::style_strikethrough(self.prompts.0.as_str())
        } else {
            term::style_strikethrough(self.prompts.1.as_str())
        };
        let answer = term::style_dim(struck.as_str());
        s.append(answer.as_str());
        s.append("\n");
        term::term_write(s.as_str())
    }
}

/// Shorthand for [`Confirm::new`].
pub fn confirm(message: &str) -> (s: Confirm<NoCancel>)
    ensures
        s.message@ == message@,
        s.initial_value == false,
        s.prompts.0@ == "yes"@,
        s.prompts.1@ == "no"@,
{
    Confirm::new(message)
}

} // verus!
