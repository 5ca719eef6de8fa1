//! Whole-run laws of the narration machine: what a run speaks, as a
//! function of the pause and cancellation values its polls observe.

use vstd::prelude::*;
use crate::dto::PostView;
use crate::lines::intro_line_spec;
use crate::lines::outro_line_spec;
use crate::lines::unit_line_spec;
use crate::runner::ActionView;
use crate::runner::RunPhase;
use crate::runner::phase_wf;
use crate::runner::spec_step_action;
use crate::runner::spec_step_phase;

verus! {

/// The title lines for the threads at zero-based indices `from..to`.
pub open spec fn unit_lines(posts: Seq<PostView>, from: int, to: int) -> Seq<Seq<char>> {
    if 0 <= from <= to <= posts.len() {
        Seq::new(
            (to - from) as nat,
            |i: int| unit_line_spec((from + i + 1) as nat, posts[from + i]),
        )
    } else {
        Seq::empty()
    }
}

/// Every line of an uninterrupted run: greeting, all titles in fetch
/// order, closing line.
pub open spec fn full_lines(posts: Seq<PostView>) -> Seq<Seq<char>> {
    seq![intro_line_spec(posts.len())] + unit_lines(posts, 0, posts.len() as int) + seq![
        outro_line_spec(posts.len()),
    ]
}

/// The lines a run still owes from phase `ph` when no poll observes a
/// pause or a cancellation.
pub open spec fn lines_from(ph: RunPhase, posts: Seq<PostView>) -> Seq<Seq<char>> {
    match ph {
        RunPhase::Intro => full_lines(posts),
        RunPhase::Unit { next } => unit_lines(posts, next as int, posts.len() as int) + seq![
            outro_line_spec(posts.len()),
        ],
        RunPhase::Outro => seq![outro_line_spec(posts.len())],
        RunPhase::Done { .. } => Seq::empty(),
    }
}

/// How many polls an uninterrupted run needs from phase `ph` to speak
/// everything it owes (the final completion poll not counted).
pub open spec fn steps_from(ph: RunPhase, n: nat) -> nat {
    match ph {
        RunPhase::Intro => n + 2,
        RunPhase::Unit { next } => (n - next + 1) as nat,
        RunPhase::Outro => 1,
        RunPhase::Done { .. } => 0,
    }
}

/// The lines a run speaks from phase `ph` when its polls observe the
/// pause and cancellation pairs in `obs`, in order. The run stops at its
/// completion report; a too-short `obs` cuts the run off unfinished.
pub open spec fn run_spoken(ph: RunPhase, posts: Seq<PostView>, obs: Seq<(bool, bool)>) -> Seq<
    Seq<char>,
>
    decreases obs.len(),
{
    if obs.len() == 0 {
        Seq::empty()
    } else {
        let paused = obs[0].0;
        let cancel = obs[0].1;
        let rest = obs.subrange(1, obs.len() as int);
        let ph2 = spec_step_phase(ph, posts.len(), paused, cancel);
        match spec_step_action(ph, posts, paused, cancel) {
            ActionView::Speak(l) => seq![l] + run_spoken(ph2, posts, rest),
            ActionView::WaitResume => run_spoken(ph2, posts, rest),
            ActionView::Complete => Seq::empty(),
        }
    }
}

/// A run that no poll pauses or cancels speaks exactly the lines it owes;
/// from the start that is the greeting, every title in fetch order, and
/// the closing line — `posts.len() + 2` lines for any batch length.
pub proof fn lemma_uninterrupted_run(ph: RunPhase, posts: Seq<PostView>, obs: Seq<(bool, bool)>)
    requires
        posts.len() <= usize::MAX,
        phase_wf(ph, posts.len()),
        forall|i: int| 0 <= i < obs.len() ==> obs[i] == (false, false),
        obs.len() >= steps_from(ph, posts.len()),
    ensures
        run_spoken(ph, posts, obs) == lines_from(ph, posts),
        ph == RunPhase::Intro ==> run_spoken(ph, posts, obs).len() == posts.len() + 2,
    decreases obs.len(),
{
    let n = posts.len();
    match ph {
        RunPhase::Done { .. } => {
            assert(run_spoken(ph, posts, obs) =~= Seq::<Seq<char>>::empty());
        },
        RunPhase::Outro => {
            let rest = obs.subrange(1, obs.len() as int);
            assert(run_spoken(spec_step_phase(ph, n, false, false), posts, rest) =~= Seq::<
                Seq<char>,
            >::empty());
            assert(run_spoken(ph, posts, obs) =~= lines_from(ph, posts));
        },
        RunPhase::Intro => {
            let rest = obs.subrange(1, obs.len() as int);
            let ph2 = spec_step_phase(ph, n, false, false);
            assert(forall|i: int| 0 <= i < rest.len() ==> rest[i] == (false, false));
            lemma_uninterrupted_run(ph2, posts, rest);
            assert(run_spoken(ph, posts, obs) =~= seq![intro_line_spec(n)] + lines_from(
                ph2,
                posts,
            ));
            assert(lines_from(ph, posts) =~= seq![intro_line_spec(n)] + lines_from(ph2, posts));
            assert(run_spoken(ph, posts, obs).len() == n + 2);
        },
        RunPhase::Unit { next } => {
            let rest = obs.subrange(1, obs.len() as int);
            let ph2 = spec_step_phase(ph, n, false, false);
            assert(forall|i: int| 0 <= i < rest.len() ==> rest[i] == (false, false));
            lemma_uninterrupted_run(ph2, posts, rest);
            assert(run_spoken(ph, posts, obs) =~= seq![
                unit_line_spec(next as nat + 1, posts[next as int]),
            ] + lines_from(ph2, posts));
            assert(lines_from(ph, posts) =~= seq![
                unit_line_spec(next as nat + 1, posts[next as int]),
            ] + lines_from(ph2, posts));
        },
    }
}

/// A poll that observes "paused" at a title checkpoint speaks nothing and
/// leaves the run exactly where it stood: the pending title does not
/// start while the pause holds.
pub proof fn lemma_pause_defers_unit(ph: RunPhase, posts: Seq<PostView>, cancel: bool)
    requires
        ph is Unit,
    ensures
        spec_step_phase(ph, posts.len(), true, cancel) == ph,
        spec_step_action(ph, posts, true, cancel) == ActionView::WaitResume,
{
}

/// Paused polls at a title checkpoint are transparent: after the pause is
/// toggled back, the run speaks exactly what it would have spoken had it
/// never been paused.
pub proof fn lemma_pause_resume_identical(
    ph: RunPhase,
    posts: Seq<PostView>,
    stalls: Seq<(bool, bool)>,
    obs: Seq<(bool, bool)>,
)
    requires
        ph is Unit,
        forall|i: int| 0 <= i < stalls.len() ==> stalls[i].0 == true,
    ensures
        run_spoken(ph, posts, stalls + obs) == run_spoken(ph, posts, obs),
    decreases stalls.len(),
{
    if stalls.len() == 0 {
        assert(stalls + obs =~= obs);
    } else {
        let all = stalls + obs;
        let tail = stalls.subrange(1, stalls.len() as int);
        assert(all[0] == stalls[0]);
        assert(all.subrange(1, all.len() as int) =~= tail + obs);
        lemma_pause_resume_identical(ph, posts, tail, obs);
    }
}

/// A poll that observes a cancellation at the checkpoint before a title
/// ends the run at once: that title, every later title, and the closing
/// line are never spoken.
pub proof fn lemma_cancel_stops_run(ph: RunPhase, posts: Seq<PostView>, obs: Seq<(bool, bool)>)
    requires
        ph is Unit,
        obs.len() >= 1,
        obs[0] == (false, true),
    ensures
        run_spoken(ph, posts, obs) == Seq::<Seq<char>>::empty(),
{
}

/// Once the closing line's turn has come, pause and cancellation are no
/// longer consulted: the poll at the Outro phase speaks the closing line
/// whatever it observes, and only then is the run over.
pub proof fn lemma_outro_unaffected(posts: Seq<PostView>, paused: bool, cancel: bool)
    ensures
        spec_step_action(RunPhase::Outro, posts, paused, cancel) == ActionView::Speak(
            outro_line_spec(posts.len()),
        ),
        spec_step_phase(RunPhase::Outro, posts.len(), paused, cancel) == (RunPhase::Done {
            cancelled: false,
        }),
{
}

proof fn lemma_cancel_at(posts: Seq<PostView>, u: usize, j: usize, obs: Seq<(bool, bool)>)
    requires
        u <= j < posts.len(),
        obs.len() >= j - u + 1,
        forall|i: int| 0 <= i < j - u ==> obs[i] == (false, false),
        obs[j - u] == (false, true),
    ensures
        run_spoken(RunPhase::Unit { next: u }, posts, obs) == unit_lines(posts, u as int, j as int),
    decreases j - u,
{
    if u == j {
        assert(run_spoken(RunPhase::Unit { next: u }, posts, obs) =~= unit_lines(
            posts,
            u as int,
            j as int,
        ));
    } else {
        let rest = obs.subrange(1, obs.len() as int);
        assert(forall|i: int| 0 <= i < j - (u + 1) ==> rest[i] == (false, false));
        assert(rest[j - (u + 1)] == (false, true));
        lemma_cancel_at(posts, (u + 1) as usize, j, rest);
        assert(run_spoken(RunPhase::Unit { next: u }, posts, obs) =~= seq![
            unit_line_spec(u as nat + 1, posts[u as int]),
        ] + unit_lines(posts, u as int + 1, j as int));
        assert(seq![unit_line_spec(u as nat + 1, posts[u as int])] + unit_lines(
            posts,
            u as int + 1,
            j as int,
        ) =~= unit_lines(posts, u as int, j as int));
    }
}

/// A run whose polls observe nothing up to the checkpoint before the
/// zero-based title `j`, and a cancellation at that checkpoint, speaks
/// exactly the greeting and the `j` titles before `j` — `j + 1` lines —
/// and never title `j`, any later title, or the closing line.
pub proof fn lemma_cancelled_run(posts: Seq<PostView>, j: usize, obs: Seq<(bool, bool)>)
    requires
        j < posts.len(),
        obs.len() >= j + 2,
        forall|i: int| 0 <= i <= j ==> obs[i] == (false, false),
        obs[j as int + 1] == (false, true),
    ensures
        run_spoken(RunPhase::Intro, posts, obs) == seq![intro_line_spec(posts.len())] + unit_lines(
            posts,
            0,
            j as int,
        ),
        run_spoken(RunPhase::Intro, posts, obs).len() == j + 1,
{
    let n = posts.len();
    let rest = obs.subrange(1, obs.len() as int);
    assert(forall|i: int| 0 <= i < j ==> rest[i] == (false, false));
    assert(rest[j as int] == (false, true));
    lemma_cancel_at(posts, 0, j, rest);
    assert(run_spoken(RunPhase::Intro, posts, obs) =~= seq![intro_line_spec(n)] + unit_lines(
        posts,
        0,
        j as int,
    ));
}

} // verus!
