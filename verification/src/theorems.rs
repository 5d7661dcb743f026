//! What holds of every session, whatever happens to it.
//!
//! Each theorem is stated over [`Session`], the mathematical view of an
//! [`EpisodeController`](crate::session::EpisodeController), and over
//! arbitrary sequences of [`Event`]s.

use vstd::prelude::*;
use crate::cart::Episode;
use crate::session::{Event, Session};

verus! {

/// Running one event more is running the events before it, then that event.
pub proof fn lemma_run_prefix(s: Session, events: Seq<Event>, i: int)
    requires
        0 <= i < events.len(),
    ensures
        s.run(events.take(i + 1)) == s.run(events.take(i)).step(events[i]),
{
    assert(events.take(i + 1).drop_last() =~= events.take(i));
}

/// A cart that dies is replaced in the very tick in which it died.
///
/// From a session whose cart is alive, the cart held after any events is
/// alive, so no dead cart is ever advanced. And a tick in which the pendulum
/// falls leaves a fresh episode, with score zero.
pub proof fn lemma_dead_cart_is_never_kept(s: Session, events: Seq<Event>, heads: bool)
    requires
        !s.episode.dead,
    ensures
        !s.run(events).episode.dead,
        s.run(events).tick(true, heads).episode == Episode::fresh(heads),
        s.run(events).tick(true, heads).episode.score == 0,
    decreases events.len(),
{
    if events.len() > 0 {
        lemma_dead_cart_is_never_kept(s, events.drop_last(), heads);
    }
}

/// While an episode lives on, a tick adds exactly one to its score, and
/// nothing else about the episode changes.
pub proof fn lemma_score_rises_by_one(s: Session, fallen: bool, heads: bool)
    requires
        !s.ends_episode(fallen),
    ensures
        s.tick(fallen, heads).episode.score == s.episode.score + 1,
        s.tick(fallen, heads).episode.start_angle == s.episode.start_angle,
        !s.tick(fallen, heads).episode.dead,
{
}

/// Every event is a tick in which the pendulum stays up.
pub open spec fn all_upright(events: Seq<Event>) -> bool {
    forall|i: int|
        0 <= i < events.len() ==> (#[trigger] events[i] matches Event::Tick { fallen, .. }
            && !fallen)
}

/// The score of a living episode counts its ticks: after `n` ticks in which
/// the pendulum stays up and no reset is asked for, it has risen by `n`.
pub proof fn lemma_score_counts_ticks(s: Session, events: Seq<Event>)
    requires
        !s.episode.dead,
        !s.reset_pending,
        all_upright(events),
    ensures
        s.run(events).episode.score == s.episode.score + events.len(),
        s.run(events).episode.start_angle == s.episode.start_angle,
        !s.run(events).episode.dead,
        !s.run(events).reset_pending,
    decreases events.len(),
{
    if events.len() > 0 {
        let before = events.drop_last();
        assert forall|i: int| 0 <= i < before.len() implies (#[trigger] before[i] matches Event::Tick {
            fallen,
            ..
        } && !fallen) by {
            assert(before[i] == events[i]);
        }
        lemma_score_counts_ticks(s, before);
    }
}

/// The position just past the last reset request among `events`, or zero
/// if there is none.
pub open spec fn restart_point(events: Seq<Event>) -> int
    decreases events.len(),
{
    if events.len() == 0 {
        0
    } else if events.last() is ResetRequest {
        events.len() as int
    } else {
        restart_point(events.drop_last())
    }
}

/// The high score that the events from `restart_point` on build upon: the
/// one the session came with if no reset was requested, zero otherwise.
pub open spec fn base_score(s: Session, events: Seq<Event>) -> nat {
    if restart_point(events) == 0 {
        s.high_score
    } else {
        0
    }
}

/// The score the live cart shows at the end of event `i`, which is a tick.
pub open spec fn shown(s: Session, events: Seq<Event>, i: int) -> nat {
    s.run(events.take(i)).episode.score + 1
}

/// Whether event `i` is a tick that ends the live episode.
pub open spec fn completes(s: Session, events: Seq<Event>, i: int) -> bool {
    events[i] matches Event::Tick { fallen, .. } && s.run(events.take(i)).ends_episode(fallen)
}

/// No reset request lies at or after the restart point, and the restart
/// point is within the events.
pub proof fn lemma_ticks_after_restart(events: Seq<Event>, i: int)
    requires
        restart_point(events) <= i < events.len(),
    ensures
        0 <= restart_point(events) <= events.len(),
        events[i] is Tick,
    decreases events.len(),
{
    if events.last() is ResetRequest {
    } else if i < events.len() - 1 {
        lemma_ticks_after_restart(events.drop_last(), i);
    } else {
        lemma_restart_point_in_range(events.drop_last());
    }
}

/// The restart point is a position within the events.
pub proof fn lemma_restart_point_in_range(events: Seq<Event>)
    ensures
        0 <= restart_point(events) <= events.len(),
    decreases events.len(),
{
    if events.len() > 0 && !(events.last() is ResetRequest) {
        lemma_restart_point_in_range(events.drop_last());
    }
}

/// The high score is the best score shown since the last restart.
///
/// After any events, the high score is at least every score that a tick has
/// shown since the last reset request, and it is one of those scores unless
/// it still is the value those ticks built upon: zero after a reset request,
/// the session's earlier high score if there was none.
pub proof fn lemma_high_score_is_best_shown(s: Session, events: Seq<Event>)
    ensures
        s.run(events).high_score >= base_score(s, events),
        forall|i: int|
            restart_point(events) <= i < events.len() ==> #[trigger] shown(s, events, i) <= s.run(
                events,
            ).high_score,
        s.run(events).high_score == base_score(s, events) || exists|i: int|
            restart_point(events) <= i < events.len() && #[trigger] shown(s, events, i) == s.run(
                events,
            ).high_score,
    decreases events.len(),
{
    if events.len() > 0 {
        let before = events.drop_last();
        let n = events.len() as int;
        lemma_high_score_is_best_shown(s, before);
        lemma_restart_point_in_range(before);
        assert(events.take(n - 1) =~= before);
        assert forall|i: int| 0 <= i < n - 1 implies shown(s, events, i) == shown(
            s,
            before,
            i,
        ) by {
            assert(events.take(i) =~= before.take(i));
        }
        match events.last() {
            Event::ResetRequest => {},
            Event::Tick { fallen, heads } => {
                let h = s.run(events).high_score;
                assert(shown(s, events, n - 1) == s.run(before).episode.score + 1);
                assert forall|i: int| restart_point(events) <= i < n implies #[trigger] shown(
                    s,
                    events,
                    i,
                ) <= h by {
                    if i < n - 1 {
                        assert(shown(s, before, i) <= s.run(before).high_score);
                    }
                }
                if h == s.run(before).high_score {
                    if h != base_score(s, events) {
                        let i = choose|i: int|
                            restart_point(before) <= i < before.len() && #[trigger] shown(
                                s,
                                before,
                                i,
                            ) == s.run(before).high_score;
                        assert(shown(s, events, i) == h);
                    }
                } else {
                    assert(shown(s, events, n - 1) == h);
                }
            },
        }
    }
}

/// At the end of an episode, the high score is the best final score of the
/// episodes completed since the last restart.
///
/// If the last event is a tick that ends an episode, the high score is at
/// least the final score of every episode completed since the last reset
/// request, and it is one of those final scores unless it still is the
/// value they built upon.
pub proof fn lemma_high_score_is_best_completed(s: Session, events: Seq<Event>)
    requires
        events.len() > 0,
        completes(s, events, events.len() - 1),
    ensures
        forall|i: int|
            restart_point(events) <= i < events.len() && #[trigger] completes(s, events, i)
                ==> shown(s, events, i) <= s.run(events).high_score,
        s.run(events).high_score == base_score(s, events) || exists|i: int|
            restart_point(events) <= i < events.len() && #[trigger] completes(s, events, i)
                && shown(s, events, i) == s.run(events).high_score,
{
    let h = s.run(events).high_score;
    lemma_high_score_is_best_shown(s, events);
    if h != base_score(s, events) {
        let i = choose|i: int|
            restart_point(events) <= i < events.len() && #[trigger] shown(s, events, i) == h;
        lemma_ticks_after_restart(events, i);
        if !completes(s, events, i) {
            // The episode lived on, so the next tick showed a higher score.
            lemma_ticks_after_restart(events, i + 1);
            lemma_run_prefix(s, events, i);
            assert(shown(s, events, i + 1) == shown(s, events, i) + 1);
            assert(shown(s, events, i + 1) <= h);
        }
    }
}

/// A full restart sets the high score to zero, whatever it was.
pub proof fn lemma_restart_clears_high_score(s: Session, events: Seq<Event>)
    ensures
        s.request_reset().high_score == 0,
        s.run(events.push(Event::ResetRequest)).high_score == 0,
{
    assert(events.push(Event::ResetRequest).drop_last() =~= events);
}

/// A forced reset ends the episode exactly as a death does, apart from the
/// cleared high score.
///
/// The tick that follows a reset request, with the pendulum still up, leaves
/// the session that a fatal tick would have left had the high score been
/// zero beforehand: a fresh episode with score zero, leaning one
/// milliradian to the side the coin picks, and a high score equal to the
/// score of the episode that ended.
pub proof fn lemma_forced_reset_matches_death(s: Session, heads: bool)
    requires
        !s.episode.dead,
        !s.reset_pending,
    ensures
        s.request_reset().tick(false, heads) == (Session { high_score: 0, ..s }).tick(true, heads),
        s.request_reset().tick(false, heads).episode == Episode::fresh(heads),
        s.request_reset().tick(false, heads).episode.score == 0,
        s.request_reset().tick(false, heads).episode.start_angle == 1
            || s.request_reset().tick(false, heads).episode.start_angle == -1,
        s.request_reset().tick(false, heads).high_score == s.episode.score + 1,
{
}

} // verus!
