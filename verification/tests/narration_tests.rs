use reddit_reader::dto::RedditPost;
use reddit_reader::dto::RedditPostsDTO;
use reddit_reader::lines::intro_line;
use reddit_reader::lines::outro_line;
use reddit_reader::lines::unit_line;
use reddit_reader::runner::RunAction;
use reddit_reader::runner::RunPhase;
use reddit_reader::runner::Runner;

fn post(title: &str, author: &str) -> RedditPost {
    RedditPost {
        id: String::new(),
        title: String::from(title),
        author: String::from(author),
        score: 0,
        upvotes: 0,
        downvotes: 0,
        num_comments: 0,
        subreddit: String::new(),
        url: String::new(),
    }
}

fn batch(items: &[(&str, &str)]) -> RedditPostsDTO {
    let mut dto = RedditPostsDTO::new();
    for (t, a) in items {
        dto.add_post(post(t, a));
    }
    dto
}

/// Drive a run to completion, feeding each poll the next observation
/// from `obs` (repeating the last one if the run polls more often), and
/// collect the spoken lines.
fn drive(runner: &mut Runner, obs: &[(bool, bool)]) -> Vec<String> {
    let mut spoken = Vec::new();
    let mut i = 0;
    loop {
        let (paused, cancelled) = if obs.is_empty() {
            (false, false)
        } else if i < obs.len() {
            obs[i]
        } else {
            obs[obs.len() - 1]
        };
        i += 1;
        match runner.next_action(paused, cancelled) {
            RunAction::Speak(line) => spoken.push(line),
            RunAction::WaitResume => continue,
            RunAction::Complete => break,
        }
        assert!(i < 1000, "run did not complete");
    }
    spoken
}

#[test]
fn line_shapes_are_exact() {
    assert_eq!(intro_line(3), "Hello! Here are the top 3 threads from Reddit.");
    assert_eq!(unit_line(1, &post("A", "x")), "Thread 1: A. Posted by x.");
    assert_eq!(
        outro_line(3),
        "That's all for now. You have heard the top 3 threads from Reddit. Goodbye!"
    );
}

#[test]
fn three_threads_uninterrupted() {
    let mut r = Runner::new(batch(&[("A", "x"), ("B", "y"), ("C", "z")]));
    let spoken = drive(&mut r, &[]);
    assert_eq!(
        spoken,
        vec![
            String::from("Hello! Here are the top 3 threads from Reddit."),
            String::from("Thread 1: A. Posted by x."),
            String::from("Thread 2: B. Posted by y."),
            String::from("Thread 3: C. Posted by z."),
            String::from(
                "That's all for now. You have heard the top 3 threads from Reddit. Goodbye!"
            ),
        ]
    );
}

#[test]
fn uninterrupted_run_speaks_n_plus_two_lines() {
    for n in 0..6 {
        let items: Vec<(String, String)> =
            (0..n).map(|i| (format!("t{i}"), format!("a{i}"))).collect();
        let refs: Vec<(&str, &str)> =
            items.iter().map(|(t, a)| (t.as_str(), a.as_str())).collect();
        let mut r = Runner::new(batch(&refs));
        let spoken = drive(&mut r, &[]);
        assert_eq!(spoken.len(), n + 2);
    }
}

#[test]
fn empty_batch_speaks_intro_and_outro_only() {
    let mut r = Runner::new(batch(&[]));
    let spoken = drive(&mut r, &[]);
    assert_eq!(
        spoken,
        vec![
            String::from("Hello! Here are the top 0 threads from Reddit."),
            String::from(
                "That's all for now. You have heard the top 0 threads from Reddit. Goodbye!"
            ),
        ]
    );
}

#[test]
fn cancel_between_first_and_second_unit() {
    let mut r = Runner::new(batch(&[("A", "x"), ("B", "y"), ("C", "z")]));
    // Polls: intro, unit 1's checkpoint, then cancellation is visible.
    let spoken = drive(&mut r, &[(false, false), (false, false), (false, true)]);
    assert_eq!(
        spoken,
        vec![
            String::from("Hello! Here are the top 3 threads from Reddit."),
            String::from("Thread 1: A. Posted by x."),
        ]
    );
    assert_eq!(r.current_phase(), RunPhase::Done { cancelled: true });
}

#[test]
fn cancel_before_first_unit_skips_all_titles_and_outro() {
    let mut r = Runner::new(batch(&[("A", "x"), ("B", "y")]));
    let spoken = drive(&mut r, &[(false, false), (false, true)]);
    assert_eq!(spoken, vec![String::from("Hello! Here are the top 2 threads from Reddit.")]);
}

#[test]
fn pause_defers_unit_without_reordering() {
    let mut r = Runner::new(batch(&[("A", "x"), ("B", "y")]));
    // The checkpoint before the first title observes "paused" twice, then
    // the pause is toggled back; the run then proceeds as if never paused.
    let obs = [
        (false, false),
        (true, false),
        (true, false),
        (false, false),
    ];
    let spoken = drive(&mut r, &obs);
    let mut undisturbed = Runner::new(batch(&[("A", "x"), ("B", "y")]));
    let expected = drive(&mut undisturbed, &[]);
    assert_eq!(spoken, expected);
}

#[test]
fn paused_poll_does_not_start_the_unit() {
    let mut r = Runner::new(batch(&[("A", "x")]));
    assert!(matches!(r.next_action(false, false), RunAction::Speak(_))); // intro
    assert_eq!(r.next_action(true, false), RunAction::WaitResume);
    assert_eq!(r.next_action(true, false), RunAction::WaitResume);
    // Still at the first title once resumed.
    match r.next_action(false, false) {
        RunAction::Speak(line) => assert_eq!(line, "Thread 1: A. Posted by x."),
        other => panic!("expected the first title, got {other:?}"),
    }
}

#[test]
fn cancellation_is_checked_between_units_not_before_outro() {
    // Cancellation raised after the last title's checkpoint has passed is
    // no longer observed: the outro is spoken.
    let mut r = Runner::new(batch(&[("A", "x")]));
    let spoken = drive(&mut r, &[(false, false), (false, false), (false, true)]);
    assert_eq!(spoken.len(), 3);
    assert_eq!(
        spoken[2],
        "That's all for now. You have heard the top 1 threads from Reddit. Goodbye!"
    );
    assert_eq!(r.current_phase(), RunPhase::Done { cancelled: false });
}

#[test]
fn failed_fetch_narrates_nothing_and_completes() {
    let mut r = Runner::failed_fetch();
    assert_eq!(r.current_phase(), RunPhase::Done { cancelled: false });
    let spoken = drive(&mut r, &[]);
    assert!(spoken.is_empty());
}
