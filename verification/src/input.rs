//! Single-line text input with validation.
use vstd::prelude::*;
use crate::error::ClackError;
use crate::style::{CLEAR_LINE, Glyphs};
use crate::term;
use crate::traits::{CancelHook, NoCancel};

verus! {

/// A caller-supplied validation rule, standing in for the
/// `Fn(&str) -> Result<(), message>` closures of the builder API.
///
/// `ok` is the rule itself; `check` computes it and hands back the message
/// shown when a line is rejected.
pub trait Validate {
    /// Whether the rule accepts this text.
    spec fn ok(&self, s: Seq<char>) -> bool;

    /// Computes the rule: `None` accepts the line, `Some(message)` rejects
    /// it with a message for the user.
    fn check(&self, s: &str) -> (r: Option<String>)
        ensures
            r is None <==> self.ok(s@),
    ;
}

/// The default rule: accepts everything.
pub struct NoValidate;

impl Validate for NoValidate {
    open spec fn ok(&self, s: Seq<char>) -> bool {
        true
    }

    fn check(&self, s: &str) -> (r: Option<String>)
        ensures
            r is None <==> self.ok(s@),
    {
        None
    }
}

/// Whether `c` is an ASCII character (code point below 128).
pub open spec fn ascii_char(c: char) -> bool {
    (c as int) < 128
}

/// A rule that accepts ASCII text only.
pub struct AsciiValidate;

impl Validate for AsciiValidate {
    open spec fn ok(&self, s: Seq<char>) -> bool {
        forall|i: int| 0 <= i < s.len() ==> ascii_char(#[trigger] s[i])
    }

    fn check(&self, s: &str) -> (r: Option<String>)
        ensures
            r is None <==> self.ok(s@),
    {
        if ascii_only(s) {
            None
        } else {
            Some("only use ascii characters".to_owned())
        }
    }
}

/// Whether every character of `s` is ASCII.
#[verifier::loop_isolation(false)]
fn ascii_only(s: &str) -> (r: bool)
    ensures
        r <==> forall|i: int| 0 <= i < s@.len() ==> ascii_char(#[trigger] s@[i]),
{
    let n = s.unicode_len();
    let mut i: usize = 0;
    while i < n
        invariant
            i <= n,
            forall|j: int| 0 <= j < i ==> ascii_char(#[trigger] s@[j]),
        decreases n - i,
    {
        let c = s.get_char(i);
        if c as u32 >= 128 {
            return false;
        }
        i = i + 1;
    }
    true
}

/// Whether `c` is a decimal digit (code points 48 through 57).
pub open spec fn dec_digit(c: char) -> bool {
    48 <= c as int && c as int <= 57
}

/// The numeric value of a decimal digit.
pub open spec fn digit_val(c: char) -> int {
    c as int - 48
}

/// Whether every character of `s` is a decimal digit.
pub open spec fn is_digits(s: Seq<char>) -> bool {
    forall|i: int| 0 <= i < s.len() ==> dec_digit(#[trigger] s[i])
}

/// The number the digit string `s` writes in decimal (0 for the empty
/// string; leading zeroes are allowed).
pub open spec fn digits_val(s: Seq<char>) -> int
    decreases s.len(),
{
    if s.len() == 0 {
        0
    } else {
        10 * digits_val(s.drop_last()) + digit_val(s.last())
    }
}

/// Whether `s` is a decimal integer literal: at least one digit, with an
/// optional leading minus sign.
pub open spec fn is_int_str(s: Seq<char>) -> bool {
    if s.len() > 0 && s[0] == '-' {
        s.len() > 1 && is_digits(s.skip(1))
    } else {
        s.len() > 0 && is_digits(s)
    }
}

/// The number an integer literal writes.
pub open spec fn int_of_str(s: Seq<char>) -> int
    recommends
        is_int_str(s),
{
    if s[0] == '-' {
        -digits_val(s.skip(1))
    } else {
        digits_val(s)
    }
}

/// Ten to the `n`.
pub open spec fn pow10(n: nat) -> int
    decreases n,
{
    if n == 0 {
        1
    } else {
        10 * pow10((n - 1) as nat)
    }
}

/// The powers of ten up to the twentieth, written out.
proof fn lemma_pow10_19()
    ensures
        pow10(18) == 1000000000000000000,
        pow10(19) == 10000000000000000000,
{
    assert(pow10(0) == 1);
    assert(pow10(1) == 10);
    assert(pow10(2) == 100);
    assert(pow10(3) == 1000);
    assert(pow10(4) == 10000);
    assert(pow10(5) == 100000);
    assert(pow10(6) == 1000000);
    assert(pow10(7) == 10000000);
    assert(pow10(8) == 100000000);
    assert(pow10(9) == 1000000000);
    assert(pow10(10) == 10000000000);
    assert(pow10(11) == 100000000000);
    assert(pow10(12) == 1000000000000);
    assert(pow10(13) == 10000000000000);
    assert(pow10(14) == 100000000000000);
    assert(pow10(15) == 1000000000000000);
    assert(pow10(16) == 10000000000000000);
    assert(pow10(17) == 100000000000000000);
    assert(pow10(18) == 1000000000000000000);
    assert(pow10(19) == 10000000000000000000);
}

/// A digit string of length `n` writes a number below ten to the `n`.
proof fn lemma_digits_val_bounds(s: Seq<char>)
    requires
        is_digits(s),
    ensures
        0 <= digits_val(s) < pow10(s.len()),
    decreases s.len(),
{
    if s.len() > 0 {
        assert(dec_digit(s[s.len() - 1]));
        lemma_digits_val_bounds(s.drop_last());
    }
}

/// A digit string that does not start with a zero writes a number of at
/// least ten to one less than its length.
proof fn lemma_digits_val_lower(s: Seq<char>)
    requires
        is_digits(s),
        s.len() >= 1,
        s[0] != '0',
    ensures
        digits_val(s) >= pow10((s.len() - 1) as nat),
    decreases s.len(),
{
    assert(dec_digit(s[0]));
    if s.len() == 1 {
        assert('0' as int == 48);
        assert(digit_val(s[0]) >= 1);
        assert(s.drop_last().len() == 0);
        assert(digits_val(s.drop_last()) == 0);
    } else {
        assert(dec_digit(s[s.len() - 1]));
        lemma_digits_val_lower(s.drop_last());
    }
}

/// A leading zero does not change the number a digit string writes.
proof fn lemma_strip_zero(s: Seq<char>)
    requires
        is_digits(s),
        s.len() >= 1,
        s[0] == '0',
    ensures
        digits_val(s) == digits_val(s.drop_first()),
    decreases s.len(),
{
    assert('0' as int == 48);
    if s.len() == 1 {
        assert(s.drop_first() =~= Seq::<char>::empty());
        assert(digits_val(s) == 10 * digits_val(s.drop_last()) + digit_val(s.last()));
        assert(s.drop_last() =~= Seq::<char>::empty());
    } else {
        let dl = s.drop_last();
        assert(forall|i: int| 0 <= i < dl.len() ==> dec_digit(#[trigger] dl[i]));
        lemma_strip_zero(dl);
        assert(s.drop_first().drop_last() =~= dl.drop_first());
        assert(s.drop_first().last() == s.last());
    }
}

/// Any number of leading zeroes do not change the number.
proof fn lemma_strip_zeros(s: Seq<char>, k: int)
    requires
        is_digits(s),
        0 <= k <= s.len(),
        forall|i: int| 0 <= i < k ==> s[i] == '0',
    ensures
        digits_val(s.skip(k)) == digits_val(s),
    decreases k,
{
    if k == 0 {
        assert(s.skip(0) =~= s);
    } else {
        lemma_strip_zeros(s, k - 1);
        let t = s.skip(k - 1);
        assert(forall|i: int| 0 <= i < t.len() ==> dec_digit(#[trigger] t[i]));
        assert(t[0] == s[k - 1]);
        lemma_strip_zero(t);
        assert(t.drop_first() =~= s.skip(k));
    }
}

/// Parses a decimal integer, exactly as [`int_of_str`] reads it: the
/// result exists if and only if the text is an integer literal whose value
/// fits in an `i64`, and it is then that value.
#[verifier::loop_isolation(false)]
pub fn parse_i64(s: &str) -> (r: Option<i64>)
    ensures
        r is Some <==> (is_int_str(s@) && i64::MIN <= int_of_str(s@) <= i64::MAX),
        r matches Some(v) ==> v as int == int_of_str(s@),
{
    let n = s.unicode_len();
    if n == 0 {
        return None;
    }
    let neg = s.get_char(0) == '-';
    let start: usize = if neg {
        1
    } else {
        0
    };
    if n == start {
        return None;
    }
    let ghost digits = s@.skip(start as int);
    let mut i = start;
    while i < n
        invariant
            start <= i <= n,
            forall|j: int| start <= j < i ==> dec_digit(#[trigger] s@[j]),
        decreases n - i,
    {
        let c = s.get_char(i);
        let u = c as u32;
        if u < 48 || u > 57 {
            proof {
                assert(!dec_digit(s@[i as int]));
                assert(digits[i - start as int] == s@[i as int]);
                assert(!is_digits(digits));
                if !neg {
                    assert(digits =~= s@);
                }
            }
            return None;
        }
        i = i + 1;
    }
    proof {
        assert(forall|j: int| 0 <= j < digits.len() ==> dec_digit(#[trigger] digits[j]));
    }
    let mut z = start;
    while z < n && s.get_char(z) == '0'
        invariant
            start <= z <= n,
            forall|j: int| start <= j < z ==> s@[j] == '0',
        decreases n - z,
    {
        z = z + 1;
    }
    proof {
        lemma_strip_zeros(digits, z - start as int);
        assert(s@.subrange(z as int, n as int) =~= digits.skip(z - start as int));
    }
    let rem = n - z;
    if rem > 19 {
        proof {
            let sig = digits.skip(z - start as int);
            assert(forall|j: int| 0 <= j < sig.len() ==> dec_digit(#[trigger] sig[j]));
            assert(sig[0] == s@[z as int]);
            assert(s@[z as int] != '0');
            lemma_digits_val_lower(sig);
            lemma_pow10_19();
            assert(sig.len() - 1 >= 19);
            assert(pow10((sig.len() - 1) as nat) >= pow10(19)) by {
                lemma_pow10_mono(19, (sig.len() - 1) as nat);
            }
            if neg {
                assert(s@.skip(1) == digits);
            } else {
                assert(digits =~= s@);
            }
        }
        return None;
    }
    let mut acc: u64 = 0;
    let mut p = z;
    while p < n
        invariant
            z <= p <= n,
            n - z <= 19,
            acc == digits_val(s@.subrange(z as int, p as int)),
        decreases n - p,
    {
        let c = s.get_char(p);
        let d: u64 = ((c as u32) - 48) as u64;
        let ghost prefix = s@.subrange(z as int, p as int);
        proof {
            assert(forall|j: int|
                0 <= j < prefix.len() ==> dec_digit(#[trigger] prefix[j]));
            lemma_digits_val_bounds(prefix);
            lemma_pow10_19();
            assert(prefix.len() <= 18);
            lemma_pow10_mono(prefix.len(), 18);
        }
        acc = acc * 10 + d;
        p = p + 1;
        proof {
            let now = s@.subrange(z as int, p as int);
            assert(now.drop_last() =~= prefix);
            assert(now.last() == s@[p - 1]);
        }
    }
    proof {
        assert(s@.subrange(z as int, n as int) =~= digits.skip(z - start as int));
        assert(acc == digits_val(digits));
        if neg {
            assert(s@.skip(1) == digits);
        } else {
            assert(s@.skip(0) =~= s@);
        }
    }
    if neg {
        if acc > 9223372036854775808u64 {
            return None;
        }
        if acc == 9223372036854775808u64 {
            return Some(i64::MIN);
        }
        Some(-(acc as i64))
    } else {
        if acc > 9223372036854775807u64 {
            return None;
        }
        Some(acc as i64)
    }
}

/// What judging one submitted line decides.
pub enum LineOutcome {
    /// The line is accepted: the submitted text, or `None` for an accepted
    /// empty submission.
    Done(Option<String>),
    /// The line is rejected; the prompt repeats with this message.
    Retry(String),
}

/// What a run of the input state machine over a line sequence ends in.
pub enum InputOutcome {
    /// A line was accepted.
    Done(Option<Seq<char>>),
    /// The line stream ran out.
    Cancelled,
}

/// The input state machine over submitted lines: an empty line is accepted
/// as `None` unless a non-empty line is being enforced, a non-empty line is
/// accepted when the validation rule passes, and everything else asks for
/// the next line; running out of lines cancels.
pub open spec fn spec_input_drive<V: Validate>(
    v: V,
    enforce_non_empty: bool,
    lines: Seq<Seq<char>>,
) -> InputOutcome
    decreases lines.len(),
{
    if lines.len() == 0 {
        InputOutcome::Cancelled
    } else if lines[0].len() == 0 {
        if enforce_non_empty {
            spec_input_drive(v, enforce_non_empty, lines.skip(1))
        } else {
            InputOutcome::Done(None)
        }
    } else if v.ok(lines[0]) {
        InputOutcome::Done(Some(lines[0]))
    } else {
        spec_input_drive(v, enforce_non_empty, lines.skip(1))
    }
}

/// Default law: with a non-empty pre-filled line that passes the
/// validation rule as the first submission, the prompt accepts it at once,
/// whatever follows and whether or not a non-empty line is being enforced.
pub proof fn lemma_default_submits_immediately<V: Validate>(
    v: V,
    enforce_non_empty: bool,
    lines: Seq<Seq<char>>,
)
    requires
        lines.len() >= 1,
        lines[0].len() > 0,
        v.ok(lines[0]),
    ensures
        spec_input_drive(v, enforce_non_empty, lines) == InputOutcome::Done(Some(lines[0])),
{
}

/// Whether `n` is the number of some non-empty integer literal that the
/// validation rule accepts — what every value a `parse` call hands back
/// must be.
pub open spec fn accepted_number<V: Validate>(v: V, n: int) -> bool {
    exists|s: Seq<char>|
        #![trigger v.ok(s)]
        s.len() > 0 && v.ok(s) && is_int_str(s) && int_of_str(s) == n
}

/// What a run of the parsing input state machine over a line sequence ends
/// in.
pub enum ParseOutcome {
    /// A line was accepted: its number, or `None` for an accepted empty
    /// submission.
    Done(Option<int>),
    /// The line stream ran out.
    Cancelled,
}

/// The parsing input state machine over submitted lines: an empty line is
/// accepted as `None` unless a non-empty line is being enforced, a
/// non-empty line is accepted when the validation rule passes it and it is
/// an integer literal in `i64` range, and everything else asks for the
/// next line; running out of lines cancels.
pub open spec fn spec_parse_drive<V: Validate>(
    v: V,
    enforce_non_empty: bool,
    lines: Seq<Seq<char>>,
) -> ParseOutcome
    decreases lines.len(),
{
    if lines.len() == 0 {
        ParseOutcome::Cancelled
    } else if lines[0].len() == 0 {
        if enforce_non_empty {
            spec_parse_drive(v, enforce_non_empty, lines.skip(1))
        } else {
            ParseOutcome::Done(None)
        }
    } else if v.ok(lines[0]) && is_int_str(lines[0]) && i64::MIN <= int_of_str(lines[0])
        <= i64::MAX {
        ParseOutcome::Done(Some(int_of_str(lines[0])))
    } else {
        spec_parse_drive(v, enforce_non_empty, lines.skip(1))
    }
}

/// A single-line text prompt under construction.
pub struct Input<V, C> {
    /// The question shown above the input line.
    pub message: String,
    /// Text pre-filling the input buffer, if any.
    pub initial_value: Option<String>,
    /// Dimmed text shown while the buffer is empty, if any.
    pub placeholder: Option<String>,
    /// The validation rule lines must pass.
    pub validate: V,
    /// Hook run when the user cancels.
    pub cancel: C,
    /// The glyph set frames are painted with.
    pub glyphs: Glyphs,
}

impl Input<NoValidate, NoCancel> {
    /// A new input prompt that accepts any line.
    pub fn new(message: &str) -> (s: Input<NoValidate, NoCancel>)
        ensures
            s.message@ == message@,
            s.initial_value is None,
            s.placeholder is None,
    {
        Input {
            message: message.to_owned(),
            initial_value: None,
            placeholder: None,
            validate: NoValidate,
            cancel: NoCancel,
            glyphs: Glyphs::detect(),
        }
    }
}

impl<V: Validate, C: CancelHook> Input<V, C> {
    /// Sets the placeholder shown while the buffer is empty.
    ///
    /// The library's own prompts read plain lines and do not render it;
    /// it is shown when a caller drives the line editor with its own
    /// highlighting and hands the finished lines to
    /// [`Input::interact_lines`].
    pub fn placeholder(self, placeholder: &str) -> (s: Input<V, C>)
        ensures
            s.placeholder matches Some(p) && p@ == placeholder@,
            s.message == self.message,
            s.initial_value == self.initial_value,
            s.glyphs == self.glyphs,
    {
        let mut s = self;
        s.placeholder = Some(placeholder.to_owned());
        s
    }

    /// Sets the text pre-filling the input buffer, when one is given.
    pub fn maybe_initial(self, initial: Option<&str>) -> (s: Input<V, C>)
        ensures
            match initial {
                Some(t) => s.initial_value matches Some(v) && v@ == t@,
                None => s.initial_value == self.initial_value,
            },
            s.message == self.message,
            s.placeholder == self.placeholder,
            s.glyphs == self.glyphs,
    {
        let mut s = self;
        match initial {
            Some(t) => {
                s.initial_value = Some(t.to_owned());
            },
            None => {},
        }
        s
    }

    /// Sets the text pre-filling the input buffer.
    pub fn initial_value(self, initial_value: &str) -> (s: Input<V, C>)
        ensures
            s.initial_value matches Some(v) && v@ == initial_value@,
            s.message == self.message,
            s.placeholder == self.placeholder,
            s.glyphs == self.glyphs,
    {
        let mut s = self;
        s.initial_value = Some(initial_value.to_owned());
        s
    }

    /// Sets the validation rule lines must pass.
    pub fn validate<V2: Validate>(self, validate: V2) -> (s: Input<V2, C>)
        ensures
            s.message == self.message,
            s.initial_value == self.initial_value,
            s.placeholder == self.placeholder,
            s.glyphs == self.glyphs,
    {
        Input {
            message: self.message,
            initial_value: self.initial_value,
            placeholder: self.placeholder,
            validate,
            cancel: self.cancel,
            glyphs: self.glyphs,
        }
    }

    /// Computes the configured rule for one line.
    fn do_validate(&self, line: &str) -> (r: Option<String>)
        ensures
            r is None <==> self.validate.ok(line@),
    {
        self.validate.check(line)
    }

    /// Sets the hook run when the user cancels.
    pub fn cancel<C2: CancelHook>(self, cancel: C2) -> (s: Input<V, C2>)
        ensures
            s.message == self.message,
            s.initial_value == self.initial_value,
            s.placeholder == self.placeholder,
            s.glyphs == self.glyphs,
    {
        Input {
            message: self.message,
            initial_value: self.initial_value,
            placeholder: self.placeholder,
            validate: self.validate,
            cancel,
            glyphs: self.glyphs,
        }
    }

    /// Judges one submitted line: an empty line falls back to `None` or is
    /// rejected with `value is required` when a non-empty line is being
    /// enforced; a non-empty line is accepted exactly when the validation
    /// rule passes, and rejected with the rule's message otherwise.
    pub fn judge_line(&self, line: &str, enforce_non_empty: bool) -> (r: LineOutcome)
        ensures
            line@.len() == 0 && enforce_non_empty ==> (r matches LineOutcome::Retry(m) && m@
                == "value is required"@),
            line@.len() == 0 && !enforce_non_empty ==> (r matches LineOutcome::Done(v)
                && v is None),
            line@.len() > 0 && self.validate.ok(line@) ==> (r matches LineOutcome::Done(v)
                && v matches Some(s) && s@ == line@),
            line@.len() > 0 && !self.validate.ok(line@) ==> r is Retry,
    {
        if s_is_empty(line) {
            if enforce_non_empty {
                LineOutcome::Retry("value is required".to_owned())
            } else {
                LineOutcome::Done(None)
            }
        } else {
            match self.do_validate(line) {
                Some(message) => LineOutcome::Retry(message),
                None => LineOutcome::Done(Some(line.to_owned())),
            }
        }
    }

    /// Reads lines from the terminal until one is accepted.
    #[verifier::loop_isolation(false)]
    fn interact_once(&self, enforce_non_empty: bool) -> (r: Result<Option<String>, ClackError>)
        ensures
            r matches Ok(Some(s)) ==> (s@.len() > 0 && self.validate.ok(s@)),
            r matches Ok(None::<String>) ==> !enforce_non_empty,
    {
        let mut prompt = self.glyphs.bar().to_owned();
        prompt.append("  ");
        let mut initial: Option<String> = match &self.initial_value {
            Some(v) => Some(v.clone()),
            None => None,
        };
        // The read loop blocks on the user and ends only through one of the
        // returns below; the counter gives it a termination bound that no
        // interactive session can reach.
        let mut fuel: u64 = u64::MAX;
        while fuel > 0
            decreases fuel,
        {
            fuel = fuel - 1;
            let line = match &initial {
                Some(v) => term::read_line(prompt.as_str(), Some(v)),
                None => term::read_line(prompt.as_str(), None),
            };
            match line {
                Err(e) => {
                    return Err(e);
                },
                Ok(value) => {
                    match self.judge_line(value.as_str(), enforce_non_empty) {
                        LineOutcome::Done(v) => {
                            return Ok(v);
                        },
                        LineOutcome::Retry(message) => {
                            if value.as_str().is_empty() {
                                initial = None;
                            } else {
                                initial = Some(value);
                            }
                            match self.w_val(message.as_str()) {
                                Err(e) => { return Err(e); },
                                Ok(()) => {},
                            }
                        },
                    }
                },
            }
        }
        Err(ClackError::IoError)
    }

    /// Runs the input state machine over a fixed line sequence, with no
    /// terminal involved: each entry stands for one submitted line, and
    /// running out of lines stands for an end of input. The outcome is
    /// exactly what [`spec_input_drive`] reaches, so with a non-empty line
    /// enforced the prompt never accepts until a line is non-empty and
    /// passes the validation rule.
    #[verifier::loop_isolation(false)]
    pub fn interact_lines(&self, lines: &Vec<String>, enforce_non_empty: bool) -> (r: Result<
        Option<String>,
        ClackError,
    >)
        ensures
            match spec_input_drive(
                self.validate,
                enforce_non_empty,
                lines@.map_values(|s: String| s@),
            ) {
                InputOutcome::Done(v) => r matches Ok(x) && match v {
                    Some(s) => x matches Some(xs) && xs@ == s,
                    None => x is None,
                },
                InputOutcome::Cancelled => r == Err::<Option<String>, ClackError>(
                    ClackError::Cancelled,
                ),
            },
            r matches Ok(Some(s)) ==> (s@.len() > 0 && self.validate.ok(s@)),
            r matches Ok(None::<String>) ==> !enforce_non_empty,
    {
        let ghost views = lines@.map_values(|s: String| s@);
        let ghost target = spec_input_drive(self.validate, enforce_non_empty, views);
        let mut k: usize = 0;
        proof {
            assert(views.skip(0) =~= views);
        }
        while k < lines.len()
            invariant
                k <= lines@.len(),
                spec_input_drive(self.validate, enforce_non_empty, views.skip(k as int))
                    == target,
            decreases lines@.len() - k,
        {
            proof {
                assert(views.skip(k as int)[0] == views[k as int]);
                assert(views.skip(k as int).skip(1) =~= views.skip(k as int + 1));
            }
            match self.judge_line(lines[k].as_str(), enforce_non_empty) {
                LineOutcome::Done(v) => {
                    return Ok(v);
                },
                LineOutcome::Retry(_message) => {},
            }
            k = k + 1;
        }
        proof {
            assert(views.skip(k as int) =~= Seq::<Seq<char>>::empty());
        }
        Err(ClackError::Cancelled)
    }

    /// Waits for the user to submit a line on the terminal.
    ///
    /// An empty line is accepted and returned as `None`; a non-empty line
    /// is returned only once the validation rule passes it.
    pub fn interact(&self) -> (r: Result<Option<String>, ClackError>)
        ensures
            r matches Ok(Some(s)) ==> (s@.len() > 0 && self.validate.ok(s@)),
    {
        match self.w_init() {
            Err(e) => { return Err(e); },
            Ok(()) => {},
        }
        match self.interact_once(false) {
            Ok(v) => {
                match match &v {
                    Some(s) => self.w_out(s.as_str()),
                    None => self.w_out(""),
                } {
                    Err(e) => { return Err(e); },
                    Ok(()) => {},
                }
                Ok(v)
            },
            Err(ClackError::Cancelled) => {
                match self.w_cancel() {
                    Err(e) => { return Err(e); },
                    Ok(()) => {},
                }
                self.cancel.on_cancel();
                Err(ClackError::Cancelled)
            },
            Err(e) => Err(e),
        }
    }

    /// Like [`Input::interact`], but keeps asking until the line is
    /// non-empty: the returned text is never empty and always passes the
    /// validation rule.
    pub fn required(&self) -> (r: Result<String, ClackError>)
        ensures
            r matches Ok(s) ==> s@.len() > 0 && self.validate.ok(s@),
    {
        match self.w_init() {
            Err(e) => { return Err(e); },
            Ok(()) => {},
        }
        match self.interact_once(true) {
            Ok(Some(value)) => {
                match self.w_out(value.as_str()) {
                    Err(e) => { return Err(e); },
                    Ok(()) => {},
                }
                Ok(value)
            },
            Ok(None) => {
                proof {
                    assert(false);
                }
                Err(ClackError::IoError)
            },
            Err(ClackError::Cancelled) => {
                match self.w_cancel() {
                    Err(e) => { return Err(e); },
                    Ok(()) => {},
                }
                self.cancel.on_cancel();
                Err(ClackError::Cancelled)
            },
            Err(e) => Err(e),
        }
    }

    /// Reads lines until one is non-empty, passes the validation rule and
    /// parses as a decimal integer, which is returned: every returned
    /// number is the number of some accepted, validated integer literal.
    /// [`Input::parse_lines`] is the same machine over a fixed line
    /// sequence, with its whole outcome pinned down.
    #[verifier::loop_isolation(false)]
    pub fn parse(&self) -> (r: Result<i64, ClackError>)
        ensures
            r matches Ok(v) ==> accepted_number(self.validate, v as int),
            r matches Err(e) ==> (e == ClackError::Cancelled || e == ClackError::ReadlineError
                || e == ClackError::IoError),
    {
        match self.w_init() {
            Err(e) => { return Err(e); },
            Ok(()) => {},
        }
        match self.parse_once(true) {
            Ok(Some(value)) => {
                let shown = crate::window::fmt_i64(value);
                match self.w_out(shown.as_str()) {
                    Err(e) => { return Err(e); },
                    Ok(()) => {},
                }
                Ok(value)
            },
            Ok(None) => {
                proof {
                    assert(false);
                }
                Err(ClackError::IoError)
            },
            Err(ClackError::Cancelled) => {
                match self.w_cancel() {
                    Err(e) => { return Err(e); },
                    Ok(()) => {},
                }
                self.cancel.on_cancel();
                Err(ClackError::Cancelled)
            },
            Err(e) => Err(e),
        }
    }

    /// Like [`Input::parse`], but an empty submission is accepted as
    /// `None`; only an accepted empty submission produces it (the run over
    /// a fixed line sequence, [`Input::parse_lines`], states that
    /// exactly).
    pub fn maybe_parse(&self) -> (r: Result<Option<i64>, ClackError>)
        ensures
            r matches Ok(Some(v)) ==> accepted_number(self.validate, v as int),
            r matches Err(e) ==> (e == ClackError::Cancelled || e == ClackError::ReadlineError
                || e == ClackError::IoError),
    {
        match self.w_init() {
            Err(e) => { return Err(e); },
            Ok(()) => {},
        }
        match self.parse_once(false) {
            Ok(v) => {
                match v {
                    Some(value) => {
                        let shown = crate::window::fmt_i64(value);
                        match self.w_out(shown.as_str()) {
                            Err(e) => { return Err(e); },
                            Ok(()) => {},
                        }
                        Ok(Some(value))
                    },
                    None => {
                        match self.w_out("") {
                            Err(e) => { return Err(e); },
                            Ok(()) => {},
                        }
                        Ok(None)
                    },
                }
            },
            Err(ClackError::Cancelled) => {
                match self.w_cancel() {
                    Err(e) => { return Err(e); },
                    Ok(()) => {},
                }
                self.cancel.on_cancel();
                Err(ClackError::Cancelled)
            },
            Err(e) => Err(e),
        }
    }

    /// Reads lines from the terminal until one is accepted and parses.
    #[verifier::loop_isolation(false)]
    fn parse_once(&self, enforce_non_empty: bool) -> (r: Result<Option<i64>, ClackError>)
        ensures
            r matches Ok(Some(v)) ==> accepted_number(self.validate, v as int),
            r matches Ok(None::<i64>) ==> !enforce_non_empty,
            r matches Err(e) ==> (e == ClackError::Cancelled || e == ClackError::ReadlineError
                || e == ClackError::IoError),
    {
        let mut prompt = self.glyphs.bar().to_owned();
        prompt.append("  ");
        let mut initial: Option<String> = match &self.initial_value {
            Some(v) => Some(v.clone()),
            None => None,
        };
        // The read loop blocks on the user and ends only through one of the
        // returns below; the counter gives it a termination bound that no
        // interactive session can reach.
        let mut fuel: u64 = u64::MAX;
        while fuel > 0
            decreases fuel,
        {
            fuel = fuel - 1;
            let line = match &initial {
                Some(v) => term::read_line(prompt.as_str(), Some(v)),
                None => term::read_line(prompt.as_str(), None),
            };
            match line {
                Err(e) => {
                    return Err(e);
                },
                Ok(value) => {
                    match self.judge_line(value.as_str(), enforce_non_empty) {
                        LineOutcome::Done(None) => {
                            return Ok(None);
                        },
                        LineOutcome::Done(Some(text)) => {
                            match parse_i64(text.as_str()) {
                                Some(number) => {
                                    proof {
                                        assert(text@.len() > 0 && self.validate.ok(text@)
                                            && is_int_str(text@) && int_of_str(text@)
                                            == number as int);
                                    }
                                    return Ok(Some(number));
                                },
                                None => {
                                    initial = Some(text);
                                    match self.w_val("invalid number") {
                                        Err(e) => { return Err(e); },
                                        Ok(()) => {},
                                    }
                                },
                            }
                        },
                        LineOutcome::Retry(message) => {
                            if value.as_str().is_empty() {
                                initial = None;
                            } else {
                                initial = Some(value);
                            }
                            match self.w_val(message.as_str()) {
                                Err(e) => { return Err(e); },
                                Ok(()) => {},
                            }
                        },
                    }
                },
            }
        }
        Err(ClackError::IoError)
    }

    /// Runs the parsing input state machine over a fixed line sequence,
    /// with no terminal involved: the outcome is exactly what
    /// [`spec_parse_drive`] reaches, so a number comes back if and only if
    /// a line is non-empty, passes the validation rule and is an integer
    /// literal in range — and it is that line's number; `None` comes only
    /// from an accepted empty submission.
    #[verifier::loop_isolation(false)]
    pub fn parse_lines(&self, lines: &Vec<String>, enforce_non_empty: bool) -> (r: Result<
        Option<i64>,
        ClackError,
    >)
        ensures
            match spec_parse_drive(
                self.validate,
                enforce_non_empty,
                lines@.map_values(|s: String| s@),
            ) {
                ParseOutcome::Done(v) => r matches Ok(x) && match v {
                    Some(n) => x matches Some(xn) && xn as int == n,
                    None => x is None,
                },
                ParseOutcome::Cancelled => r == Err::<Option<i64>, ClackError>(
                    ClackError::Cancelled,
                ),
            },
            r matches Ok(Some(v)) ==> accepted_number(self.validate, v as int),
            r matches Ok(None::<i64>) ==> !enforce_non_empty,
    {
        let ghost views = lines@.map_values(|s: String| s@);
        let ghost target = spec_parse_drive(self.validate, enforce_non_empty, views);
        let mut k: usize = 0;
        proof {
            assert(views.skip(0) =~= views);
        }
        while k < lines.len()
            invariant
                k <= lines@.len(),
                spec_parse_drive(self.validate, enforce_non_empty, views.skip(k as int))
                    == target,
            decreases lines@.len() - k,
        {
            proof {
                assert(views.skip(k as int)[0] == views[k as int]);
                assert(views.skip(k as int).skip(1) =~= views.skip(k as int + 1));
            }
            match self.judge_line(lines[k].as_str(), enforce_non_empty) {
                LineOutcome::Done(None) => {
                    return Ok(None);
                },
                LineOutcome::Done(Some(text)) => {
                    match parse_i64(text.as_str()) {
                        Some(number) => {
                            proof {
                                assert(text@.len() > 0 && self.validate.ok(text@)
                                    && is_int_str(text@) && int_of_str(text@)
                                    == number as int);
                            }
                            return Ok(Some(number));
                        },
                        None => {},
                    }
                },
                LineOutcome::Retry(_message) => {},
            }
            k = k + 1;
        }
        proof {
            assert(views.skip(k as int) =~= Seq::<Seq<char>>::empty());
        }
        Err(ClackError::Cancelled)
    }

    /// Paints the initial frame: header, the input line, the end bar.
    fn w_init(&self) -> (r: Result<(), ClackError>)
        ensures
            r matches Err(e) ==> e == ClackError::IoError,
    {
        let mut s = self.glyphs.bar().to_owned();
        s.append("\n");
        let step = term::style_cyan(self.glyphs.step_active());
        s.append(step.as_str());
        s.append("  ");
        s.append(self.message.as_str());
        s.append("\n");
        let bar = term::style_cyan(self.glyphs.bar());
        s.append(bar.as_str());
        s.append("\n");
        let bar_end = term::style_cyan(self.glyphs.bar_end());
        s.append(bar_end.as_str());
        match term::term_write(s.as_str()) {
            Err(e) => { return Err(e); },
            Ok(()) => {},
        }
        term::move_to_previous_line(1);
        let mut p = term::style_cyan(self.glyphs.bar());
        p.append("  ");
        term::term_write(p.as_str())
    }

    /// Repaints the frame in the attention style with a failure message
    /// under the input line, keeping the rejected text for correction.
    fn w_val(&self, text: &str) -> (r: Result<(), ClackError>)
        ensures
            r matches Err(e) ==> e == ClackError::IoError,
    {
        term::move_to_previous_line(2);
        let mut s = term::style_yellow(self.glyphs.step_error());
        s.append("  ");
        s.append(self.message.as_str());
        s.append("\n");
        let bar = term::style_yellow(self.glyphs.bar());
        s.append(bar.as_str());
        s.append("\n");
        s.append(CLEAR_LINE);
        let bar_end = term::style_yellow(self.glyphs.bar_end());
        s.append(bar_end.as_str());
        s.append("  ");
        let styled = term::style_yellow(text);
        s.append(styled.as_str());
        match term::term_write(s.as_str()) {
            Err(e) => { return Err(e); },
            Ok(()) => {},
        }
        term::move_to_previous_line(1);
        Ok(())
    }

    /// Collapses the block to the submitted answer.
    fn w_out(&self, value: &str) -> (r: Result<(), ClackError>)
        ensures
            r matches Err(e) ==> e == ClackError::IoError,
    {
        term::move_to_previous_line(2);
        let mut s = term::style_green(self.glyphs.step_submit());
        s.append("  ");
        s.append(self.message.as_str());
        s.append("\n");
        s.append(CLEAR_LINE);
        s.append(self.glyphs.bar());
        s.append("  ");
        let styled = term::style_dim(value);
        s.append(styled.as_str());
        s.append("\n");
        s.append(CLEAR_LINE);
        term::term_write(s.as_str())
    }

    /// Collapses the block to the cancelled answer.
    fn w_cancel(&self) -> (r: Result<(), ClackError>)
        ensures
            r matches Err(e) ==> e == ClackError::IoError,
    {
        term::move_to_previous_line(2);
        let mut s = term::style_red(self.glyphs.step_cancel());
        s.append("  ");
        s.append(self.message.as_str());
        s.append("\n");
        s.append(CLEAR_LINE);
        s.append(self.glyphs.bar());
        s.append("  ");
        let struck = term::style_strikethrough("cancelled");
        let styled = term::style_dim(struck.as_str());
        s.append(styled.as_str());
        s.append("\n");
        s.append(CLEAR_LINE);
        term::term_write(s.as_str())
    }
}

/// Whether the text is empty.
fn s_is_empty(s: &str) -> (r: bool)
    ensures
        r <==> s@.len() == 0,
{
    s.is_empty()
}

/// Shorthand for [`Input::new`].
pub fn input(message: &str) -> (s: Input<NoValidate, NoCancel>)
    ensures
        s.message@ == message@,
        s.initial_value is None,
        s.placeholder is None,
{
    Input::new(message)
}

/// Ten to the `n` grows with `n`, and is at least one.
proof fn lemma_pow10_mono(a: nat, b: nat)
    requires
        a <= b,
    ensures
        pow10(a) <= pow10(b),
        pow10(a) >= 1,
    decreases b,
{
    if b > 0 {
        if a == b {
            lemma_pow10_mono((a - 1) as nat, (b - 1) as nat);
        } else {
            lemma_pow10_mono(a, (b - 1) as nat);
            lemma_pow10_mono((b - 1) as nat, (b - 1) as nat);
        }
    }
}

} // verus!
