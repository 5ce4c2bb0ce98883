//! What the player's display shows: the current command, a countdown bar,
//! the distance and the hull health, kept up to date from the game's events.

use vstd::prelude::*;
use crate::messages::{Action, Event};
use crate::time::{Duration, Instant};

verus! {

/// The number of blocks in a full countdown bar.
pub const TIMER_BLOCKS: u8 = 20;

/// The countdown bar for `remaining` out of `total`: `floor(20 * remaining /
/// total)` blocks.
pub fn calc_blocks(remaining: Duration, total: Duration) -> (r: u8)
    requires
        total.millis > 0,
        remaining.millis <= total.millis,
    ensures
        r as int == (20 * remaining.millis as int) / (total.millis as int),
        r <= TIMER_BLOCKS,
{
    let scaled: u128 = 20 * (remaining.millis as u128);
    let blocks: u128 = scaled / (total.millis as u128);
    proof {
        let rem = remaining.millis as int;
        let tot = total.millis as int;
        assert(20 * rem <= 20 * tot) by (nonlinear_arith)
            requires
                rem <= tot,
        ;
        assert((20 * rem) / tot <= 20) by (nonlinear_arith)
            requires
                20 * rem <= 20 * tot,
                tot > 0,
        ;
    }
    blocks as u8
}

/// Where a time span stands at some instant.
#[derive(Clone, Copy, Debug, PartialEq, Eq, Structural)]
pub enum SpanStatus {
    Ongoing { remaining: Duration, total: Duration },
    Completed,
}

/// A span of time that starts at `start` and lasts `total`.
#[derive(Clone, Copy, Debug, PartialEq, Eq, Structural)]
pub struct TimeSpan {
    pub start: Instant,
    pub total: Duration,
}

impl TimeSpan {
    pub open spec fn end(&self) -> int {
        self.start.millis + self.total.millis
    }

    /// Ongoing before the end, with the time left (at most the whole span);
    /// completed from the end on.
    pub fn status(&self, now: Instant) -> (r: SpanStatus)
        requires
            self.end() <= u64::MAX,
        ensures
            now.millis >= self.end() ==> r == SpanStatus::Completed,
            now.millis < self.end() ==> r == (SpanStatus::Ongoing {
                remaining: Duration {
                    millis: if self.end() - now.millis > self.total.millis {
                        self.total.millis
                    } else {
                        (self.end() - now.millis) as u64
                    },
                },
                total: self.total,
            }),
    {
        let end = self.start.plus(self.total);
        if now.at_or_after(end) {
            SpanStatus::Completed
        } else {
            let left = end.saturating_since(now);
            let remaining = if left.millis > self.total.millis {
                self.total
            } else {
                left
            };
            SpanStatus::Ongoing { remaining, total: self.total }
        }
    }
}

/// One change to the display.
#[derive(Clone, Copy, Debug, PartialEq, Eq, Structural)]
pub enum ScreenCommand {
    /// Show the command for an action, or clear the command text.
    CommandText(Option<Action>),
    /// Show a countdown bar of this many blocks.
    Timer(u8),
    /// Show the distance travelled.
    Distance(u32),
    /// Show a change of hull health.
    HullHealth(i32),
}

/// The countdown bar for a span at `now`: full at the start, empty when done.
pub open spec fn span_blocks(total: u64, remaining: u64) -> int {
    if total == 0 {
        0
    } else {
        (20 * remaining as int) / (total as int)
    }
}

/// The display's side of a game.
pub struct Client {
    directive_time_span: Option<TimeSpan>,
}

impl Client {
    /// The countdown of the directive on show, if any.
    pub closed spec fn span(&self) -> Option<TimeSpan> {
        self.directive_time_span
    }

    pub open spec fn wf(&self) -> bool {
        self.span() matches Some(s) ==> s.end() <= u64::MAX
    }

    pub fn new() -> (r: Client)
        ensures
            r.wf(),
            r.span() is None,
    {
        Client { directive_time_span: None }
    }

    /// Refreshes the countdown at `now`, clearing the command once its time
    /// is up.
    pub fn update(&mut self, now: Instant) -> (r: Vec<ScreenCommand>)
        requires
            old(self).wf(),
        ensures
            final(self).wf(),
            match old(self).span() {
                None => r@.len() == 0 && final(self).span() is None,
                Some(s) => if now.millis >= s.end() {
                    r@ == seq![ScreenCommand::CommandText(None), ScreenCommand::Timer(0)]
                        && final(self).span() is None
                } else {
                    let left = s.end() - now.millis;
                    let rem = if left > s.total.millis {
                        s.total.millis as int
                    } else {
                        left
                    };
                    r@ == seq![ScreenCommand::Timer(span_blocks(s.total.millis, rem as u64) as u8)]
                        && final(self).span() == Some(s)
                },
            },
    {
        let mut r: Vec<ScreenCommand> = Vec::new();
        if let Some(span) = self.directive_time_span {
            match span.status(now) {
                SpanStatus::Ongoing { remaining, total } => {
                    let blocks = if total.millis == 0 {
                        0
                    } else {
                        calc_blocks(remaining, total)
                    };
                    r.push(ScreenCommand::Timer(blocks));
                },
                SpanStatus::Completed => {
                    r.push(ScreenCommand::CommandText(None));
                    r.push(ScreenCommand::Timer(0));
                    self.directive_time_span = None;
                },
            }
        }
        r
    }

    /// Shows what a game event at `now` changes on the display.
    pub fn handle(&mut self, now: Instant, msg: Event) -> (r: Vec<ScreenCommand>)
        requires
            old(self).wf(),
        ensures
            final(self).wf(),
            match msg {
                Event::ShipDistanceUpdated { distance } => r@ == seq![
                    ScreenCommand::Distance(distance),
                ] && final(self).span() == old(self).span(),
                Event::UpdateHullHealth { delta } => r@ == seq![ScreenCommand::HullHealth(delta)]
                    && final(self).span() == old(self).span(),
                Event::NewDirective(d) => if now.millis + d.time_limit.millis <= u64::MAX {
                    r@ == seq![
                        ScreenCommand::CommandText(Some(d.action)),
                        ScreenCommand::Timer(
                            span_blocks(d.time_limit.millis, d.time_limit.millis) as u8,
                        ),
                    ] && final(self).span() == Some(
                        TimeSpan { start: now, total: d.time_limit },
                    )
                } else {
                    r@.len() == 0 && final(self).span() == old(self).span()
                },
                Event::DirectiveCompleted => r@ == seq![
                    ScreenCommand::CommandText(None),
                    ScreenCommand::Timer(0),
                ] && final(self).span() is None,
                _ => r@.len() == 0 && final(self).span() == old(self).span(),
            },
    {
        let mut r: Vec<ScreenCommand> = Vec::new();
        match msg {
            Event::ShipDistanceUpdated { distance } => {
                r.push(ScreenCommand::Distance(distance));
            },
            Event::UpdateHullHealth { delta } => {
                r.push(ScreenCommand::HullHealth(delta));
            },
            Event::NewDirective(d) => {
                if now.millis <= u64::MAX - d.time_limit.millis {
                    let blocks = if d.time_limit.millis == 0 {
                        0
                    } else {
                        calc_blocks(d.time_limit, d.time_limit)
                    };
                    r.push(ScreenCommand::CommandText(Some(d.action)));
                    r.push(ScreenCommand::Timer(blocks));
                    self.directive_time_span = Some(TimeSpan { start: now, total: d.time_limit });
                }
            },
            Event::DirectiveCompleted => {
                r.push(ScreenCommand::CommandText(None));
                r.push(ScreenCommand::Timer(0));
                self.directive_time_span = None;
            },
            _ => {},
        }
        r
    }
}

} // verus!
