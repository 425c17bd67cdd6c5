//! The fault injector: a random verdict drawn for every mutating command, and
//! the policy that says what each verdict does to the command.

use rand::Rng;
use vstd::prelude::*;

verus! {

/// The ways in which the injector takes a command off its normal path.
#[derive(Clone, Copy, Debug, PartialEq, Eq, Structural)]
pub enum DivertKind {
    /// The command is decided by a game instead of being carried out.
    GamingDiversion,
    /// The command fails as if the store had been corrupted.
    SimulatedCorruption,
    /// The command fails as if the data had been lost.
    SimulatedLoss,
    /// The command is reported as done and nothing is carried out.
    NoOp,
}

/// What the injector decided for one mutating command.
#[derive(Clone, Copy, Debug, PartialEq, Eq, Structural)]
pub enum ChaosVerdict {
    /// The command is carried out.
    Proceed,
    /// The command is diverted.
    Divert(DivertKind),
}

/// What is left of a command once its verdict has been applied.
#[derive(Clone, Copy, Debug, PartialEq, Eq, Structural)]
pub enum Gate {
    /// The command goes to the storage engine.
    Run,
    /// Success is reported and the storage engine is not touched.
    Skip,
}

/// The first draw is taken from `0..FIRST_DRAW_BOUND`.
pub const FIRST_DRAW_BOUND: u32 = 10;

/// A first draw below this threshold diverts the command.
pub const DIVERT_THRESHOLD: u32 = 3;

/// The second draw is taken from `0..SECOND_DRAW_BOUND`.
pub const SECOND_DRAW_BOUND: u32 = 5;

/// The kind of diversion that a second draw selects: 0, 1 and 2 pick the
/// game, corruption and loss; every other value picks the no-op.
pub open spec fn kind_of_draw(second: u32) -> DivertKind {
    if second == 0 {
        DivertKind::GamingDiversion
    } else if second == 1 {
        DivertKind::SimulatedCorruption
    } else if second == 2 {
        DivertKind::SimulatedLoss
    } else {
        DivertKind::NoOp
    }
}

/// The verdict that two draws give: a first draw of 3 or more proceeds,
/// whatever the second; below 3 the second draw picks the diversion.
pub open spec fn verdict_of_draws(first: u32, second: u32) -> ChaosVerdict {
    if first < DIVERT_THRESHOLD {
        ChaosVerdict::Divert(kind_of_draw(second))
    } else {
        ChaosVerdict::Proceed
    }
}

/// What applying a verdict gives, with `won` the outcome of the game for a
/// gaming diversion: the way on for the command, or the diversion that
/// stops it.
pub open spec fn settled(verdict: ChaosVerdict, won: bool) -> Result<Gate, DivertKind> {
    match verdict {
        ChaosVerdict::Proceed => Ok(Gate::Run),
        ChaosVerdict::Divert(DivertKind::NoOp) => Ok(Gate::Skip),
        ChaosVerdict::Divert(DivertKind::GamingDiversion) => if won {
            Ok(Gate::Skip)
        } else {
            Err(DivertKind::GamingDiversion)
        },
        ChaosVerdict::Divert(kind) => Err(kind),
    }
}

/// Maps two draws to the verdict they stand for.
pub fn verdict_from_draws(first: u32, second: u32) -> (verdict: ChaosVerdict)
    ensures
        verdict == verdict_of_draws(first, second),
{
    if first < DIVERT_THRESHOLD {
        let kind = match second {
            0 => DivertKind::GamingDiversion,
            1 => DivertKind::SimulatedCorruption,
            2 => DivertKind::SimulatedLoss,
            _ => DivertKind::NoOp,
        };
        ChaosVerdict::Divert(kind)
    } else {
        ChaosVerdict::Proceed
    }
}

/// The game behind a gaming diversion. It is a stand-in that is always won.
pub fn play_game() -> (won: bool)
    ensures
        won,
{
    true
}

/// Applies a verdict to a command, which then runs, or is reported as done
/// without running, or is stopped by the diversion.
pub fn settle(verdict: ChaosVerdict, won: bool) -> (gate: Result<Gate, DivertKind>)
    ensures
        gate == settled(verdict, won),
{
    match verdict {
        ChaosVerdict::Proceed => Ok(Gate::Run),
        ChaosVerdict::Divert(kind) => match kind {
            DivertKind::NoOp => Ok(Gate::Skip),
            DivertKind::GamingDiversion => if won {
                Ok(Gate::Skip)
            } else {
                Err(DivertKind::GamingDiversion)
            },
            DivertKind::SimulatedCorruption => Err(DivertKind::SimulatedCorruption),
            DivertKind::SimulatedLoss => Err(DivertKind::SimulatedLoss),
        },
    }
}

/// The sentence that reports a diversion.
pub open spec fn divert_text(kind: DivertKind) -> Seq<char> {
    match kind {
        DivertKind::GamingDiversion =>
            "You lost the game! You also lost some PRECIOUS data as well!"@,
        DivertKind::SimulatedCorruption => "Oh no, the database is on fire! 🔥"@,
        DivertKind::SimulatedLoss =>
            "Oops, I dropped your data in the trash! I think I can recover it?"@,
        DivertKind::NoOp => "Nah, nothing happened. I'm feelin a little QUIRKY today"@,
    }
}

impl DivertKind {
    /// The sentence that reports this diversion. It is the same whatever the
    /// command was.
    pub fn message(&self) -> (text: String)
        ensures
            text@ == divert_text(*self),
    {
        match self {
            DivertKind::GamingDiversion => String::from_str(
                "You lost the game! You also lost some PRECIOUS data as well!",
            ),
            DivertKind::SimulatedCorruption => String::from_str(
                "Oh no, the database is on fire! 🔥",
            ),
            DivertKind::SimulatedLoss => String::from_str(
                "Oops, I dropped your data in the trash! I think I can recover it?",
            ),
            DivertKind::NoOp => String::from_str(
                "Nah, nothing happened. I'm feelin a little QUIRKY today",
            ),
        }
    }
}

/// `rand::rngs::ThreadRng`, the thread-local generator of the `rand` crate,
/// opaque here.
#[verifier::external_type_specification]
#[verifier::external_body]
pub struct ExThreadRng(rand::rngs::ThreadRng);

/// `rand::thread_rng`: hands out the calling thread's generator. Nothing is
/// claimed of it.
pub assume_specification[ rand::thread_rng ]() -> (rng: rand::rngs::ThreadRng);

/// `rand::Rng::gen_range` on the half-open range `0..bound`: the value drawn
/// lies in the range, and nothing else is claimed of it. The range must not
/// be empty, or the call panics.
#[verifier::external_body]
fn draw_below(rng: &mut rand::rngs::ThreadRng, bound: u32) -> (drawn: u32)
    requires
        bound > 0,
    ensures
        drawn < bound,
{
    rng.gen_range(0..bound)
}

/// The fault injector. It owns its random source and keeps nothing else: a
/// verdict depends on the draws made for it and on no earlier verdict.
pub struct FaultInjector {
    rng: rand::rngs::ThreadRng,
}

impl FaultInjector {
    /// An injector on the calling thread's random source.
    pub fn new() -> (injector: FaultInjector) {
        FaultInjector { rng: rand::thread_rng() }
    }

    /// Draws the verdict for one mutating command: a first draw from `0..10`,
    /// and, when that diverts, a second from `0..5` for the kind.
    pub fn roll(&mut self) -> (verdict: ChaosVerdict)
        ensures
            exists|first: u32, second: u32|
                first < FIRST_DRAW_BOUND && second < SECOND_DRAW_BOUND && verdict
                    == #[trigger] verdict_of_draws(first, second),
    {
        let first: u32 = draw_below(&mut self.rng, FIRST_DRAW_BOUND);
        let second: u32 = if first < DIVERT_THRESHOLD {
            draw_below(&mut self.rng, SECOND_DRAW_BOUND)
        } else {
            0
        };
        verdict_from_draws(first, second)
    }
}

} // verus!
