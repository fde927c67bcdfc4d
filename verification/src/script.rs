//! The dialog run over a finite script of inputs, and what holds of every run.

use crate::dialog::{step, step_of, Input, Reply, Stage};
use vstd::prelude::*;

verus! {

/// The dialog run over a script of inputs, from `stage` on: the stage it ends
/// in and the replies it gave, one for each input it took. Inputs are taken in
/// order until the script or the dialog is over; what is left of the script
/// is never looked at.
pub open spec fn replay_of<T>(stage: Stage<T>, script: Seq<Input<T>>) -> (Stage<T>, Seq<Reply<T>>)
    decreases script.len(),
{
    if script.len() == 0 || stage.is_over() {
        (stage, Seq::empty())
    } else {
        let (next, reply) = step_of(stage, script.first());
        let (end, replies) = replay_of(next, script.drop_first());
        (end, seq![reply] + replies)
    }
}

/// Runs the dialog over a script of inputs, from `stage` on.
pub fn replay<T: Copy>(stage: Stage<T>, script: &Vec<Input<T>>) -> (r: (Stage<T>, Vec<Reply<T>>))
    ensures
        r.0 == replay_of(stage, script@).0,
        r.1@ == replay_of(stage, script@).1,
{
    let mut current = stage;
    let mut replies: Vec<Reply<T>> = Vec::new();
    let mut taken: usize = 0;
    proof {
        assert(script@.skip(0) == script@);
        assert(replies@ + replay_of(stage, script@).1 == replay_of(stage, script@).1);
    }
    while taken < script.len() && !current.over()
        invariant
            taken <= script.len(),
            replay_of(stage, script@).0 == replay_of(current, script@.skip(taken as int)).0,
            replay_of(stage, script@).1 == replies@ + replay_of(
                current,
                script@.skip(taken as int),
            ).1,
        decreases script.len() - taken,
    {
        let (next, reply) = step(current, &script[taken]);
        proof {
            let rest = script@.skip(taken as int);
            assert(rest.first() == script@[taken as int]);
            assert(rest.drop_first() == script@.skip(taken + 1));
            assert(replies@.push(reply) + replay_of(next, rest.drop_first()).1 == replies@ + (
                seq![reply] + replay_of(next, rest.drop_first()).1));
        }
        replies.push(reply);
        current = next;
        taken = taken + 1;
    }
    proof {
        assert(replies@ + Seq::<Reply<T>>::empty() == replies@);
    }
    (current, replies)
}

/// Whether `input` is a line that does not answer the question of `stage`.
pub open spec fn is_turned_down<T>(stage: Stage<T>, input: Input<T>) -> bool {
    step_of(stage, input).1 is Retry
}

/// A script may be fed in two parts: the run over `head + tail` is the run
/// over `head`, followed by the run over `tail` from where the first ended.
pub proof fn replay_in_parts<T>(stage: Stage<T>, head: Seq<Input<T>>, tail: Seq<Input<T>>)
    ensures
        replay_of(stage, head + tail).0 == replay_of(replay_of(stage, head).0, tail).0,
        replay_of(stage, head + tail).1 == replay_of(stage, head).1 + replay_of(
            replay_of(stage, head).0,
            tail,
        ).1,
    decreases head.len(),
{
    if head.len() == 0 {
        assert(head + tail == tail);
        assert(Seq::<Reply<T>>::empty() + replay_of(stage, tail).1 == replay_of(stage, tail).1);
    } else if stage.is_over() {
        assert(Seq::<Reply<T>>::empty() + Seq::<Reply<T>>::empty() == Seq::<Reply<T>>::empty());
    } else {
        let (next, reply) = step_of(stage, head.first());
        assert((head + tail).first() == head.first());
        assert((head + tail).drop_first() == head.drop_first() + tail);
        replay_in_parts(next, head.drop_first(), tail);
        let mid = replay_of(next, head.drop_first());
        assert(seq![reply] + (mid.1 + replay_of(mid.0, tail).1) == (seq![reply] + mid.1)
            + replay_of(mid.0, tail).1);
    }
}

/// A run takes no more inputs than the script holds, and all of them unless
/// the dialog ends first. No reply of a run is `Idle`, and only the last one
/// can be `Convert` or `Abort`: the run ends as `Finished` exactly where its
/// last reply is `Convert`, and as `Aborted` exactly where it is `Abort`,
/// provided the dialog was not over when the run began.
pub proof fn replay_ends_with_the_dialog<T>(stage: Stage<T>, script: Seq<Input<T>>)
    ensures
        replay_of(stage, script).1.len() <= script.len(),
        !replay_of(stage, script).0.is_over() ==> replay_of(stage, script).1.len() == script.len(),
        forall|k: int|
            0 <= k < replay_of(stage, script).1.len() ==> !(#[trigger] replay_of(
                stage,
                script,
            ).1[k] is Idle),
        forall|k: int|
            0 <= k < replay_of(stage, script).1.len() - 1 ==> (#[trigger] replay_of(
                stage,
                script,
            ).1[k] is Retry) || replay_of(stage, script).1[k] is Echo,
        !stage.is_over() ==> (replay_of(stage, script).0 is Finished <==> replay_of(
            stage,
            script,
        ).1.len() > 0 && replay_of(stage, script).1.last() is Convert),
        !stage.is_over() ==> (replay_of(stage, script).0 is Aborted <==> replay_of(
            stage,
            script,
        ).1.len() > 0 && replay_of(stage, script).1.last() is Abort),
    decreases script.len(),
{
    if script.len() == 0 || stage.is_over() {
    } else {
        let (next, reply) = step_of(stage, script.first());
        let rest = replay_of(next, script.drop_first());
        replay_ends_with_the_dialog(next, script.drop_first());
        let replies = replay_of(stage, script).1;
        assert(replies == seq![reply] + rest.1);
        assert forall|k: int| 0 <= k < replies.len() implies !(#[trigger] replies[k] is Idle) by {
            if k > 0 {
                assert(replies[k] == rest.1[k - 1]);
            }
        }
        assert forall|k: int| 0 <= k < replies.len() - 1 implies (#[trigger] replies[k] is Retry)
            || replies[k] is Echo by {
            if k > 0 {
                assert(replies[k] == rest.1[k - 1]);
            }
        }
        if rest.1.len() > 0 {
            assert(replies.last() == rest.1.last());
        }
    }
}

/// Whether `input` is a line that reads as the temperature `t`.
pub open spec fn reads_as<T>(input: Input<T>, t: T) -> bool {
    input matches Input::Line { reading, .. } && reading == Some(t)
}

/// Whether the run over `script` from `stage` accepted `t` at its `j`-th
/// input: the input reads as `t`, and the reply to it is the `Echo` of `t`.
pub open spec fn accepts_at<T>(stage: Stage<T>, script: Seq<Input<T>>, j: int, t: T) -> bool {
    &&& 0 <= j < replay_of(stage, script).1.len()
    &&& replay_of(stage, script).1[j] == Reply::Echo { temperature: t }
    &&& reads_as(script[j], t)
}

/// The temperature that is converted is the one that was accepted: in a run
/// from the start, a `Convert` reply is preceded by an `Echo` of the same
/// temperature, and that temperature is the reading of the line which the
/// `Echo` answers.
pub proof fn converted_temperature_is_the_accepted_one<T>(script: Seq<Input<T>>, k: int)
    requires
        0 <= k < replay_of(Stage::AwaitTemperature, script).1.len(),
        replay_of(Stage::AwaitTemperature, script).1[k] is Convert,
    ensures
        exists|j: int|
            j < k && #[trigger] accepts_at(
                Stage::AwaitTemperature,
                script,
                j,
                replay_of(Stage::AwaitTemperature, script).1[k]->Convert_temperature,
            ),
{
    carried_or_accepted(Stage::AwaitTemperature, script, k);
}

/// The induction behind `converted_temperature_is_the_accepted_one`: from any
/// stage, what `Convert` carries is what the stage carried or what the run
/// accepted earlier.
proof fn carried_or_accepted<T>(stage: Stage<T>, script: Seq<Input<T>>, k: int)
    requires
        0 <= k < replay_of(stage, script).1.len(),
        replay_of(stage, script).1[k] is Convert,
    ensures
        stage == (Stage::AwaitUnit {
            temperature: replay_of(stage, script).1[k]->Convert_temperature,
        }) || exists|j: int|
            j < k && #[trigger] accepts_at(
                stage,
                script,
                j,
                replay_of(stage, script).1[k]->Convert_temperature,
            ),
    decreases script.len(),
{
    let (next, reply) = step_of(stage, script.first());
    let tail = script.drop_first();
    let rest = replay_of(next, tail).1;
    let replies = replay_of(stage, script).1;
    assert(replies == seq![reply] + rest);
    if k > 0 {
        let t = replies[k]->Convert_temperature;
        assert(replies[k] == rest[k - 1]);
        carried_or_accepted(next, tail, k - 1);
        if next == (Stage::AwaitUnit { temperature: t }) {
            if stage != next {
                assert(accepts_at(stage, script, 0, t));
            }
        } else {
            let j = choose|j: int| j < k - 1 && #[trigger] accepts_at(next, tail, j, t);
            replay_ends_with_the_dialog(next, tail);
            assert(replies[j + 1] == rest[j]);
            assert(script[j + 1] == tail[j]);
            assert(accepts_at(stage, script, j + 1, t));
        }
    }
}

/// Retries are not bounded: a script of lines that each fail to answer the
/// question of `stage` is taken to its end, gets a `Retry` for every line and
/// leaves the dialog in `stage`, however long it is.
pub proof fn retries_are_unbounded<T>(stage: Stage<T>, script: Seq<Input<T>>)
    requires
        forall|k: int| 0 <= k < script.len() ==> is_turned_down(stage, #[trigger] script[k]),
    ensures
        replay_of(stage, script).0 == stage,
        replay_of(stage, script).1.len() == script.len(),
        forall|k: int|
            0 <= k < script.len() ==> #[trigger] replay_of(stage, script).1[k] == step_of(
                stage,
                script[k],
            ).1,
    decreases script.len(),
{
    if script.len() > 0 {
        assert(is_turned_down(stage, script[0]));
        let (next, reply) = step_of(stage, script.first());
        assert(next == stage);
        let tail = script.drop_first();
        assert forall|k: int| 0 <= k < tail.len() implies is_turned_down(
            stage,
            #[trigger] tail[k],
        ) by {
            assert(tail[k] == script[k + 1]);
        }
        retries_are_unbounded(stage, tail);
        let replies = replay_of(stage, script).1;
        assert(replies == seq![reply] + replay_of(stage, tail).1);
        assert forall|k: int| 0 <= k < script.len() implies #[trigger] replies[k] == step_of(
            stage,
            script[k],
        ).1 by {
            if k > 0 {
                assert(replies[k] == replay_of(stage, tail).1[k - 1]);
                assert(tail[k - 1] == script[k]);
            }
        }
    }
}

} // verus!
