//! Volume trades between two accounts of one venue: the maker account places an
//! order (with a small guard order next to it), the taker account fills it. This
//! module decides the sides, the checks and the order of rounds; the caller does
//! the requests and the waiting.
use vstd::prelude::*;
use vstd::string::StrSliceExecFns;
use vstd::string::StringSliceAdditionalSpecFns;
use vstd::utf8::{encode_utf8, is_char_boundary};
use crate::text::{contains, lowercase_of, owned, str_contains, to_lowercase};

verus! {

/// The direction of the volume a round makes.
#[derive(Clone, Copy, Debug, PartialEq, Eq, Structural)]
pub enum Direction {
    /// Makes a buy fill: the maker sells, the taker buys.
    Buy,
    /// Makes a sell fill: the maker buys, the taker sells.
    Sell,
}

/// Why volume trades cannot start.
#[derive(Debug)]
pub enum VolumeError {
    /// The direction (as lower-cased) is neither `buy` nor `sell`.
    InvalidDirection { given: String },
}

/// The other direction.
pub open spec fn flipped(d: Direction) -> Direction {
    match d {
        Direction::Buy => Direction::Sell,
        Direction::Sell => Direction::Buy,
    }
}

impl Direction {
    /// Reads a direction from its lower-cased text: `buy` or `sell`.
    pub fn from_lowercase(lower: String) -> (r: Result<Direction, VolumeError>)
        ensures
            lower@ == "buy"@ ==> r == Ok::<Direction, VolumeError>(Direction::Buy),
            lower@ == "sell"@ ==> r == Ok::<Direction, VolumeError>(Direction::Sell),
            lower@ != "buy"@ && lower@ != "sell"@ ==> (r matches Err(
                VolumeError::InvalidDirection { given },
            ) && given@ == lower@),
    {
        proof {
            reveal_strlit("buy");
            reveal_strlit("sell");
            assert("buy"@.len() == 3);
            assert("sell"@.len() == 4);
        }
        let buy = owned("buy");
        let sell = owned("sell");
        if lower == buy {
            Ok(Direction::Buy)
        } else if lower == sell {
            Ok(Direction::Sell)
        } else {
            Err(VolumeError::InvalidDirection { given: lower })
        }
    }

    /// Reads a direction: `buy` or `sell`, in any case.
    pub fn parse(text: &str) -> (r: Result<Direction, VolumeError>)
        ensures
            lowercase_of(text@) == "buy"@ ==> r == Ok::<Direction, VolumeError>(Direction::Buy),
            lowercase_of(text@) == "sell"@ ==> r == Ok::<Direction, VolumeError>(Direction::Sell),
            lowercase_of(text@) != "buy"@ && lowercase_of(text@) != "sell"@ ==> (r matches Err(
                VolumeError::InvalidDirection { given },
            ) && given@ == lowercase_of(text@)),
    {
        Self::from_lowercase(to_lowercase(text))
    }

    /// The other direction.
    pub fn opposite(self) -> (d: Direction)
        ensures
            d == flipped(self),
    {
        match self {
            Direction::Buy => Direction::Sell,
            Direction::Sell => Direction::Buy,
        }
    }

    /// `buy` or `sell`.
    pub fn name(self) -> (s: String)
        ensures
            s@ == match self {
                Direction::Buy => "buy"@,
                Direction::Sell => "sell"@,
            },
    {
        match self {
            Direction::Buy => owned("buy"),
            Direction::Sell => owned("sell"),
        }
    }

    /// The side of the maker order: `SELL` to make a buy fill, `BUY` to make a sell fill.
    pub fn maker_side(self) -> (s: String)
        ensures
            s@ == match self {
                Direction::Buy => "SELL"@,
                Direction::Sell => "BUY"@,
            },
    {
        match self {
            Direction::Buy => owned("SELL"),
            Direction::Sell => owned("BUY"),
        }
    }

    /// The side of the taker order, and of the guard order placed next to the maker
    /// order: `BUY` to make a buy fill, `SELL` to make a sell fill.
    pub fn taker_side(self) -> (s: String)
        ensures
            s@ == match self {
                Direction::Buy => "BUY"@,
                Direction::Sell => "SELL"@,
            },
    {
        match self {
            Direction::Buy => owned("BUY"),
            Direction::Sell => owned("SELL"),
        }
    }
}

/// Which balances must cover a round before the first one: the maker's base and
/// quote assets and the taker's. With direction changes all four; otherwise the
/// assets each account gives up.
pub struct BalanceChecks {
    pub maker_base: bool,
    pub maker_quote: bool,
    pub taker_base: bool,
    pub taker_quote: bool,
}

/// The balances to check before starting.
pub fn required_balance_checks(direction: Direction, toggle: u32) -> (c: BalanceChecks)
    ensures
        toggle > 0 ==> c.maker_base && c.maker_quote && c.taker_base && c.taker_quote,
        toggle == 0 && direction == Direction::Buy ==> c.maker_base && !c.maker_quote
            && !c.taker_base && c.taker_quote,
        toggle == 0 && direction == Direction::Sell ==> !c.maker_base && c.maker_quote
            && c.taker_base && !c.taker_quote,
{
    if toggle > 0 {
        BalanceChecks { maker_base: true, maker_quote: true, taker_base: true, taker_quote: true }
    } else {
        match direction {
            Direction::Buy => BalanceChecks {
                maker_base: true,
                maker_quote: false,
                taker_base: false,
                taker_quote: true,
            },
            Direction::Sell => BalanceChecks {
                maker_base: false,
                maker_quote: true,
                taker_base: true,
                taker_quote: false,
            },
        }
    }
}

/// A single round in one direction is confirmed by hand; repeated runs are not.
pub fn needs_confirmation(repeat: u32, toggle: u32) -> (b: bool)
    ensures
        b == (repeat == 1 && toggle == 0),
{
    repeat == 1 && toggle == 0
}

/// The number of rounds of a run: `repeat` in each of the `toggle + 1` directions.
pub fn total_executions(repeat: u32, toggle: u32) -> (n: u32)
    requires
        toggle < u32::MAX,
        repeat * (toggle + 1) <= u32::MAX,
    ensures
        n == repeat * (toggle + 1),
{
    repeat * (toggle + 1)
}

/// Whether a request failed for the network (it is then retried after a pause).
pub fn is_network_error(error_text: &str) -> (b: bool)
    ensures
        b == (contains(error_text@, "dns error"@) || contains(
            error_text@,
            "error sending request"@,
        ) || contains(error_text@, "connection"@)),
{
    str_contains(error_text, "dns error") || str_contains(error_text, "error sending request")
        || str_contains(error_text, "connection")
}

/// Whether a lower-cased error message says the order was filled or is gone.
pub fn is_gone_message(lower: &str) -> (b: bool)
    ensures
        b == (contains(lower@, "filled"@) || contains(lower@, "已成交"@) || contains(
            lower@,
            "not exist"@,
        ) || contains(lower@, "order_not_found"@)),
{
    str_contains(lower, "filled") || str_contains(lower, "已成交") || str_contains(
        lower,
        "not exist",
    ) || str_contains(lower, "order_not_found")
}

/// Whether cancelling the guard order failed because it was filled or is gone (the
/// message compared in lower case).
pub fn is_order_gone_error(error_text: &str) -> (b: bool)
    ensures
        b == ({
            let l = lowercase_of(error_text@);
            contains(l, "filled"@) || contains(l, "已成交"@) || contains(l, "not exist"@)
                || contains(l, "order_not_found"@)
        }),
{
    let l = to_lowercase(error_text);
    is_gone_message(l.as_str())
}

/// Whether an order left after a round must be cancelled: it is neither filled nor
/// cancelled.
pub fn needs_cancel(status: &str) -> (b: bool)
    ensures
        b == (status@ != "FILLED"@ && status@ != "CANCELED"@),
{
    let s = owned(status);
    let filled = owned("FILLED");
    let canceled = owned("CANCELED");
    !(s == filled) && !(s == canceled)
}

/// An API key shortened for display: its first 8 bytes (all of it when shorter).
pub fn key_preview(key: &str) -> (p: String)
    requires
        is_char_boundary(
            key.spec_bytes(),
            if key.spec_bytes().len() < 8 {
                key.spec_bytes().len() as int
            } else {
                8
            },
        ),
    ensures
        encode_utf8(p@) == key.spec_bytes().subrange(
            0,
            if key.spec_bytes().len() < 8 {
                key.spec_bytes().len() as int
            } else {
                8
            },
        ),
{
    let len = key.as_bytes().len();
    let n = if len < 8 {
        len
    } else {
        8
    };
    let (head, _rest) = key.split_at(n);
    owned(head)
}

/// The direction of phase `k` of a run that starts in direction `d`: it changes at
/// every phase.
pub open spec fn phase_direction(d: Direction, k: nat) -> Direction {
    if k % 2 == 0 {
        d
    } else {
        flipped(d)
    }
}

/// The progress of a run of volume rounds: `repeat` rounds per phase, `toggle + 1`
/// phases, the direction changing between phases. A failed round is run again, so
/// only successful rounds move the run on.
pub struct VolumeSession {
    pub initial: Direction,
    pub direction: Direction,
    pub repeat: u32,
    pub toggle: u32,
    /// The phase, from 0.
    pub toggle_round: u32,
    /// The round of the phase, from 1.
    pub round: u64,
}

/// What the caller does next.
#[derive(Debug, PartialEq, Eq, Structural)]
pub enum VolumeAction {
    /// Run round `round` of the phase in `direction`.
    Execute { direction: Direction, round: u64 },
    /// Change to `next` for the next phase (after the pause).
    SwitchDirection { next: Direction },
    /// All rounds are done.
    Finished,
}

/// The state of a run that is consistent.
pub open spec fn session_wf(s: VolumeSession) -> bool {
    &&& 1 <= s.round <= s.repeat + 1
    &&& s.toggle_round <= s.toggle
    &&& s.direction == phase_direction(s.initial, s.toggle_round as nat)
}

/// What the run does next from state `s`.
pub open spec fn action_of(s: VolumeSession) -> VolumeAction {
    if s.round <= s.repeat {
        VolumeAction::Execute { direction: s.direction, round: s.round }
    } else if s.toggle_round < s.toggle {
        VolumeAction::SwitchDirection { next: flipped(s.direction) }
    } else {
        VolumeAction::Finished
    }
}

/// The state after a successful round.
pub open spec fn after_success(s: VolumeSession) -> VolumeSession {
    VolumeSession { round: (s.round + 1) as u64, ..s }
}

/// The state after changing direction.
pub open spec fn after_switch(s: VolumeSession) -> VolumeSession {
    VolumeSession {
        direction: flipped(s.direction),
        toggle_round: (s.toggle_round + 1) as u32,
        round: 1,
        ..s
    }
}

/// The rounds a run still executes from `s` when every round succeeds.
pub open spec fn rounds_left(s: VolumeSession) -> nat
    decreases s.toggle - s.toggle_round, s.repeat + 1 - s.round,
    when session_wf(s)
{
    match action_of(s) {
        VolumeAction::Execute { .. } => 1 + rounds_left(after_success(s)),
        VolumeAction::SwitchDirection { .. } => rounds_left(after_switch(s)),
        VolumeAction::Finished => 0,
    }
}

/// The state in which a run starts.
pub open spec fn start_state(direction: Direction, repeat: u32, toggle: u32) -> VolumeSession {
    VolumeSession { initial: direction, direction, repeat, toggle, toggle_round: 0, round: 1 }
}

impl VolumeSession {
    /// A run that starts in `direction`.
    pub fn start(direction: Direction, repeat: u32, toggle: u32) -> (s: Self)
        ensures
            s == start_state(direction, repeat, toggle),
            session_wf(s),
    {
        VolumeSession { initial: direction, direction, repeat, toggle, toggle_round: 0, round: 1 }
    }

    /// What the caller does next.
    pub fn next_action(&self) -> (a: VolumeAction)
        ensures
            a == action_of(*self),
    {
        if self.round <= self.repeat as u64 {
            VolumeAction::Execute { direction: self.direction, round: self.round }
        } else if self.toggle_round < self.toggle {
            VolumeAction::SwitchDirection { next: self.direction.opposite() }
        } else {
            VolumeAction::Finished
        }
    }

    /// Records a successful round; `true` when another round of the phase follows
    /// (the caller pauses before it).
    pub fn round_succeeded(&mut self) -> (more: bool)
        requires
            session_wf(*old(self)),
            action_of(*old(self)) is Execute,
        ensures
            *final(self) == after_success(*old(self)),
            session_wf(*final(self)),
            more == (final(self).round <= final(self).repeat),
    {
        self.round = self.round + 1;
        self.round <= self.repeat as u64
    }

    /// Changes the direction for the next phase.
    pub fn switch_direction(&mut self)
        requires
            session_wf(*old(self)),
            action_of(*old(self)) is SwitchDirection,
        ensures
            *final(self) == after_switch(*old(self)),
            session_wf(*final(self)),
    {
        self.direction = self.direction.opposite();
        self.toggle_round = self.toggle_round + 1;
        self.round = 1;
    }
}

proof fn lemma_rounds_left(s: VolumeSession)
    requires
        session_wf(s),
    ensures
        rounds_left(s) == (s.repeat + 1 - s.round) + (s.toggle - s.toggle_round) * s.repeat,
    decreases s.toggle - s.toggle_round, s.repeat + 1 - s.round,
{
    match action_of(s) {
        VolumeAction::Execute { .. } => {
            lemma_rounds_left(after_success(s));
        },
        VolumeAction::SwitchDirection { .. } => {
            let t = after_switch(s);
            assert(t.direction == phase_direction(t.initial, t.toggle_round as nat)) by {
                assert((s.toggle_round + 1) % 2 == 0 <==> s.toggle_round % 2 != 0);
            }
            lemma_rounds_left(t);
            assert((s.toggle - s.toggle_round) * s.repeat == (s.toggle - (s.toggle_round + 1))
                * s.repeat + s.repeat) by (nonlinear_arith);
        },
        VolumeAction::Finished => {
            assert((s.toggle - s.toggle_round) * s.repeat == 0) by (nonlinear_arith)
                requires
                    s.toggle == s.toggle_round,
            ;
        },
    }
}

/// A run in which every round succeeds executes `repeat` rounds in each of its
/// `toggle + 1` phases, as many as `total_executions` announces.
pub proof fn lemma_run_length(direction: Direction, repeat: u32, toggle: u32)
    ensures
        rounds_left(start_state(direction, repeat, toggle)) == repeat * (toggle + 1),
{
    lemma_rounds_left(start_state(direction, repeat, toggle));
    assert(repeat + toggle * repeat == repeat * (toggle + 1)) by (nonlinear_arith);
}

/// Every round a run executes is in the direction of its phase: the starting
/// direction in even phases, the other one in odd phases.
pub proof fn lemma_round_direction(s: VolumeSession)
    requires
        session_wf(s),
    ensures
        action_of(s) matches VolumeAction::Execute { direction, .. } ==> direction
            == phase_direction(s.initial, s.toggle_round as nat),
{
}

} // verus!
