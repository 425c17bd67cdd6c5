use wacky_db::chaos::{
    play_game, settle, verdict_from_draws, ChaosVerdict, DivertKind, FaultInjector, Gate,
};

#[test]
fn first_draw_of_three_or_more_proceeds() {
    for first in 3..10 {
        for second in 0..5 {
            assert_eq!(verdict_from_draws(first, second), ChaosVerdict::Proceed);
        }
    }
}

#[test]
fn first_draw_below_three_diverts_by_second_draw() {
    for first in 0..3 {
        assert_eq!(
            verdict_from_draws(first, 0),
            ChaosVerdict::Divert(DivertKind::GamingDiversion)
        );
        assert_eq!(
            verdict_from_draws(first, 1),
            ChaosVerdict::Divert(DivertKind::SimulatedCorruption)
        );
        assert_eq!(
            verdict_from_draws(first, 2),
            ChaosVerdict::Divert(DivertKind::SimulatedLoss)
        );
        assert_eq!(verdict_from_draws(first, 3), ChaosVerdict::Divert(DivertKind::NoOp));
        assert_eq!(verdict_from_draws(first, 4), ChaosVerdict::Divert(DivertKind::NoOp));
    }
}

#[test]
fn three_draws_in_ten_divert() {
    let mut diverted = 0;
    for first in 0..10 {
        if verdict_from_draws(first, 0) != ChaosVerdict::Proceed {
            diverted += 1;
        }
    }
    assert_eq!(diverted, 3);
}

#[test]
fn verdict_takes_no_account_of_earlier_calls() {
    let before = verdict_from_draws(2, 1);
    let _ = verdict_from_draws(7, 0);
    let _ = verdict_from_draws(0, 4);
    assert_eq!(verdict_from_draws(2, 1), before);
}

#[test]
fn settle_proceed_runs() {
    assert_eq!(settle(ChaosVerdict::Proceed, true), Ok(Gate::Run));
    assert_eq!(settle(ChaosVerdict::Proceed, false), Ok(Gate::Run));
}

#[test]
fn settle_noop_skips() {
    assert_eq!(settle(ChaosVerdict::Divert(DivertKind::NoOp), true), Ok(Gate::Skip));
    assert_eq!(settle(ChaosVerdict::Divert(DivertKind::NoOp), false), Ok(Gate::Skip));
}

#[test]
fn settle_game_goes_by_its_outcome() {
    let verdict = ChaosVerdict::Divert(DivertKind::GamingDiversion);
    assert_eq!(settle(verdict, true), Ok(Gate::Skip));
    assert_eq!(settle(verdict, false), Err(DivertKind::GamingDiversion));
}

#[test]
fn settle_corruption_and_loss_fail() {
    for won in [true, false] {
        assert_eq!(
            settle(ChaosVerdict::Divert(DivertKind::SimulatedCorruption), won),
            Err(DivertKind::SimulatedCorruption)
        );
        assert_eq!(
            settle(ChaosVerdict::Divert(DivertKind::SimulatedLoss), won),
            Err(DivertKind::SimulatedLoss)
        );
    }
}

#[test]
fn game_is_always_won() {
    assert!(play_game());
}

#[test]
fn diversion_messages_are_fixed() {
    assert_eq!(
        DivertKind::GamingDiversion.message(),
        "You lost the game! You also lost some PRECIOUS data as well!"
    );
    assert_eq!(DivertKind::SimulatedCorruption.message(), "Oh no, the database is on fire! 🔥");
    assert_eq!(
        DivertKind::SimulatedLoss.message(),
        "Oops, I dropped your data in the trash! I think I can recover it?"
    );
    assert_eq!(
        DivertKind::NoOp.message(),
        "Nah, nothing happened. I'm feelin a little QUIRKY today"
    );
}

#[test]
fn injector_rolls_every_verdict_from_the_table() {
    let mut injector = FaultInjector::new();
    let mut proceeded = 0;
    for _ in 0..2000 {
        match injector.roll() {
            ChaosVerdict::Proceed => proceeded += 1,
            ChaosVerdict::Divert(_) => {}
        }
    }
    // 70% of the rolls proceed; a generator that handed its bound back, or
    // always the same value, would give 0 or 2000.
    assert!(proceeded > 1000 && proceeded < 1800);
}
