//! The periodic producer: a random value in `[0, 100]`, sent as decimal text.
use rand::Rng;
use vstd::prelude::*;
use vstd::string::StringExecFns;

use crate::frame::Frame;
use crate::task::{after_result, TaskState};

verus! {

/// The character of the decimal digit `d`.
pub open spec fn digit_char(d: nat) -> char
    recommends
        d < 10,
{
    if d == 0 { '0' }
    else if d == 1 { '1' }
    else if d == 2 { '2' }
    else if d == 3 { '3' }
    else if d == 4 { '4' }
    else if d == 5 { '5' }
    else if d == 6 { '6' }
    else if d == 7 { '7' }
    else if d == 8 { '8' }
    else { '9' }
}

/// The decimal representation of `n`, most significant digit first, with no
/// leading zero.
pub open spec fn decimal(n: nat) -> Seq<char>
    decreases n,
{
    if n < 10 {
        seq![digit_char(n)]
    } else {
        decimal(n / 10).push(digit_char(n % 10))
    }
}

/// The text of the single digit `d`.
fn digit_str(d: u8) -> (r: &'static str)
    requires
        d < 10,
    ensures
        r@ == seq![digit_char(d as nat)],
{
    match d {
        0 => { proof { reveal_strlit("0"); } "0" },
        1 => { proof { reveal_strlit("1"); } "1" },
        2 => { proof { reveal_strlit("2"); } "2" },
        3 => { proof { reveal_strlit("3"); } "3" },
        4 => { proof { reveal_strlit("4"); } "4" },
        5 => { proof { reveal_strlit("5"); } "5" },
        6 => { proof { reveal_strlit("6"); } "6" },
        7 => { proof { reveal_strlit("7"); } "7" },
        8 => { proof { reveal_strlit("8"); } "8" },
        _ => { proof { reveal_strlit("9"); } "9" },
    }
}

/// Appends the decimal representation of `n` to `s`.
fn push_decimal(s: &mut String, n: u8)
    ensures
        final(s)@ == old(s)@ + decimal(n as nat),
    decreases n,
{
    if n >= 10 {
        push_decimal(s, n / 10);
    }
    s.append(digit_str(n % 10));
}

/// The decimal text of `n`.
pub fn decimal_text(n: u8) -> (r: String)
    ensures
        r@ == decimal(n as nat),
{
    let mut s = String::new();
    push_decimal(&mut s, n);
    s
}

/// The value of the decimal digit character `c`.
pub open spec fn digit_value(c: char) -> int {
    (c as u32) as int - ('0' as u32) as int
}

/// Whether `c` is one of the characters `0` to `9`.
pub open spec fn is_digit(c: char) -> bool {
    '0' <= c && c <= '9'
}

/// The number that the decimal digits `s` stand for.
pub open spec fn parse_decimal(s: Seq<char>) -> int
    decreases s.len(),
{
    if s.len() == 0 {
        0
    } else {
        parse_decimal(s.drop_last()) * 10 + digit_value(s.last())
    }
}

proof fn lemma_digit(d: nat)
    requires
        d < 10,
    ensures
        digit_value(digit_char(d)) == d,
        is_digit(digit_char(d)),
        d > 0 ==> digit_char(d) != '0',
{
}

/// Decimal text is made of one or more digits, starts with a nonzero digit
/// unless it is `0` itself, and reads back as the number it was made from.
pub proof fn lemma_decimal_round_trip(n: nat)
    ensures
        decimal(n).len() >= 1,
        forall|i: int| 0 <= i < decimal(n).len() ==> is_digit(#[trigger] decimal(n)[i]),
        n > 0 ==> decimal(n)[0] != '0',
        parse_decimal(decimal(n)) == n,
    decreases n,
{
    lemma_digit(n % 10);
    if n >= 10 {
        lemma_decimal_round_trip(n / 10);
        let d = decimal(n);
        assert(d.drop_last() == decimal(n / 10));
        assert(parse_decimal(d) == (n / 10) as int * 10 + (n % 10) as int);
        assert((n / 10) as int * 10 + (n % 10) as int == n as int) by (nonlinear_arith);
    } else {
        assert(decimal(n).drop_last() =~= Seq::<char>::empty());
        assert(parse_decimal(Seq::<char>::empty()) == 0);
        assert(parse_decimal(decimal(n)) == digit_value(digit_char(n)));
    }
}

/// Relies on rand's `thread_rng` and `Rng::gen_range`: a value drawn from the
/// inclusive range `0..=100`. That range is not empty, so the draw does not
/// panic.
#[verifier::external_body]
fn draw_percent() -> (r: u8)
    ensures
        r <= 100,
{
    rand::thread_rng().gen_range(0..=100u8)
}

/// The frame that carries the tick value `value`: its decimal text.
pub fn tick_frame(value: u8) -> (f: Frame)
    ensures
        f matches Frame::Text(s) && s@ == decimal(value as nat),
{
    Frame::Text(decimal_text(value))
}

/// What the ticker asks for at a tick.
#[derive(Clone, Debug, PartialEq, Eq)]
pub enum TickerAction {
    /// Queue this frame for the writer.
    Push(Frame),
    /// Leave the loop: the ticker has terminated.
    Stop,
}

/// Whether `a` is an action that a ticker in `state` may take at a tick: a
/// running ticker queues the decimal text of some value in `[0, 100]`, a
/// terminated one stops.
pub open spec fn is_tick_action(state: TaskState, a: TickerAction) -> bool {
    match state {
        TaskState::Running => exists|v: nat|
            #![trigger decimal(v)]
            v <= 100 && (a matches TickerAction::Push(Frame::Text(s)) && s@ == decimal(v)),
        TaskState::Terminated => a is Stop,
    }
}

/// The decisions of the task that queues a random value at each period.
#[derive(Clone, Copy, Debug, PartialEq, Eq, Structural)]
pub struct Ticker {
    pub state: TaskState,
}

impl Ticker {
    /// A ticker of a newly opened connection.
    pub fn new() -> (t: Ticker)
        ensures
            t.state == TaskState::Running,
    {
        Ticker { state: TaskState::Running }
    }

    /// The action at a tick of the period: while running, a fresh random
    /// value in `[0, 100]` as decimal text.
    pub fn on_tick(&self) -> (a: TickerAction)
        ensures
            is_tick_action(self.state, a),
    {
        if self.state.is_running() {
            let value = draw_percent();
            let f = tick_frame(value);
            TickerAction::Push(f)
        } else {
            TickerAction::Stop
        }
    }

    /// Records whether the frame of the last tick was queued; a queue that
    /// refused it terminates the ticker.
    pub fn on_pushed(&mut self, ok: bool)
        ensures
            final(self).state == after_result(old(self).state, ok),
    {
        self.state = self.state.after(ok);
    }
}

/// Every frame that a running ticker queues is the decimal text of an integer
/// between 0 and 100 inclusive: one to three digits that read back as that
/// integer.
pub proof fn lemma_tick_is_percentage(a: TickerAction)
    requires
        is_tick_action(TaskState::Running, a),
    ensures
        a matches TickerAction::Push(Frame::Text(s)) && {
            &&& 1 <= s@.len() <= 3
            &&& forall|i: int| 0 <= i < s@.len() ==> is_digit(#[trigger] s@[i])
            &&& 0 <= parse_decimal(s@) <= 100
        },
{
    let v = choose|v: nat| #![trigger decimal(v)] v <= 100 && (a matches TickerAction::Push(Frame::Text(s)) && s@ == decimal(v));
    lemma_decimal_round_trip(v);
    if v >= 10 {
        assert(decimal(v).len() == decimal(v / 10).len() + 1);
        if v >= 100 {
            assert(decimal(v / 10).len() == decimal(v / 100).len() + 1);
        }
    }
}

} // verus!
