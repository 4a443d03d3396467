use mlb_api::ids::GameId;
use mlb_api::stream::{PlayEventOutline, PlayOutline, PlayStream, PlayStreamEvent};

fn event(reviews: Vec<bool>) -> PlayEventOutline {
    PlayEventOutline { reviews_in_progress: reviews }
}

fn play(is_complete: bool, events: Vec<PlayEventOutline>, reviews: Vec<bool>) -> PlayOutline {
    PlayOutline { is_complete, events, reviews_in_progress: reviews }
}

use PlayStreamEvent::{
    EndPlay, GameEnd, PlayEvent, PlayEventReviewEnd, PlayEventReviewStart, PlayReviewEnd, PlayReviewStart, StartPlay,
};

#[test]
fn first_poll_gives_every_event_in_order() {
    let plays = vec![
        play(true, vec![event(vec![]), event(vec![false])], vec![]),
        play(false, vec![event(vec![])], vec![true]),
    ];
    let stream = PlayStream::new(GameId(822834));
    assert_eq!(
        stream.poll_events(&plays),
        vec![
            StartPlay { play: 0 },
            PlayEvent { play: 0, event: 0 },
            PlayEvent { play: 0, event: 1 },
            PlayEventReviewStart { play: 0, event: 1, review: 0 },
            PlayEventReviewEnd { play: 0, event: 1, review: 0 },
            EndPlay { play: 0 },
            StartPlay { play: 1 },
            PlayEvent { play: 1, event: 0 },
            PlayReviewStart { play: 1, review: 0 },
        ]
    );
}

#[test]
fn polling_twice_gives_nothing_new() {
    let plays = vec![
        play(true, vec![event(vec![false])], vec![false]),
        play(false, vec![event(vec![true])], vec![true]),
    ];
    let mut stream = PlayStream::new(GameId(1));
    let (first, over) = stream.step(&plays, false, false);
    assert!(!over);
    assert_eq!(first.len(), 11);
    let (second, over) = stream.step(&plays, false, false);
    assert!(!over);
    assert!(second.is_empty());
}

#[test]
fn an_event_review_that_ends_later_is_ended() {
    let mut stream = PlayStream::new(GameId(1));
    let before = vec![play(false, vec![event(vec![true])], vec![])];
    let (events, _) = stream.step(&before, false, false);
    assert_eq!(
        events,
        vec![StartPlay { play: 0 }, PlayEvent { play: 0, event: 0 }, PlayEventReviewStart { play: 0, event: 0, review: 0 }]
    );
    let after = vec![play(true, vec![event(vec![false])], vec![]), play(false, vec![], vec![])];
    let (events, _) = stream.step(&after, false, false);
    assert_eq!(events, vec![PlayEventReviewEnd { play: 0, event: 0, review: 0 }, EndPlay { play: 0 }, StartPlay { play: 1 }]);
    assert_eq!(stream.current_play_idx, 1);
    assert!(stream.in_progress_current_play);
}

#[test]
fn a_review_of_the_last_event_started_later_comes() {
    let mut stream = PlayStream::new(GameId(1));
    let (events, _) = stream.step(&vec![play(false, vec![event(vec![])], vec![])], false, false);
    assert_eq!(events, vec![StartPlay { play: 0 }, PlayEvent { play: 0, event: 0 }]);
    let (events, _) = stream.step(&vec![play(false, vec![event(vec![true])], vec![])], false, false);
    assert_eq!(events, vec![PlayEventReviewStart { play: 0, event: 0, review: 0 }]);
    let (events, _) = stream.step(&vec![play(true, vec![event(vec![false]), event(vec![])], vec![])], false, false);
    assert_eq!(
        events,
        vec![PlayEventReviewEnd { play: 0, event: 0, review: 0 }, PlayEvent { play: 0, event: 1 }, EndPlay { play: 0 }]
    );
}

#[test]
fn the_game_ends_once_it_is_final_with_decisions() {
    let plays = vec![play(true, vec![], vec![])];
    let mut stream = PlayStream::new(GameId(1));
    let (events, over) = stream.step(&plays, true, false);
    assert!(!over);
    assert_eq!(events, vec![StartPlay { play: 0 }, EndPlay { play: 0 }]);
    let (events, over) = stream.step(&plays, true, true);
    assert!(over);
    assert_eq!(events, vec![GameEnd]);
}

#[test]
fn no_plays_no_events() {
    let mut stream = PlayStream::new(GameId(1));
    let (events, over) = stream.step(&vec![], false, false);
    assert!(events.is_empty());
    assert!(!over);
    assert_eq!(stream.current_play_idx, 0);
    assert!(!stream.in_progress_current_play);
}

#[test]
fn a_new_play_after_a_complete_one_comes_whole() {
    let mut stream = PlayStream::new(GameId(1));
    let mut plays = vec![play(true, vec![event(vec![])], vec![])];
    let _ = stream.step(&plays, false, false);
    plays.push(play(false, vec![event(vec![false]), event(vec![])], vec![false, true]));
    let (events, _) = stream.step(&plays, false, false);
    assert_eq!(
        events,
        vec![
            StartPlay { play: 1 },
            PlayEvent { play: 1, event: 0 },
            PlayEventReviewStart { play: 1, event: 0, review: 0 },
            PlayEventReviewEnd { play: 1, event: 0, review: 0 },
            PlayEvent { play: 1, event: 1 },
            PlayReviewStart { play: 1, review: 0 },
            PlayReviewEnd { play: 1, review: 0 },
            PlayReviewStart { play: 1, review: 1 },
        ]
    );
}

#[test]
fn only_complete_plays_are_ended() {
    let plays = vec![
        play(true, vec![event(vec![true])], vec![]),
        play(false, vec![event(vec![])], vec![false]),
        play(true, vec![], vec![true]),
        play(false, vec![], vec![]),
    ];
    let events = PlayStream::new(GameId(1)).poll_events(&plays);
    let ended: Vec<usize> = events
        .iter()
        .filter_map(|e| match e {
            EndPlay { play } => Some(*play),
            _ => None,
        })
        .collect();
    assert_eq!(ended, vec![0, 2]);
    assert!(ended.iter().all(|&p| plays[p].is_complete));
}

#[test]
fn two_polls_in_a_row_share_no_event() {
    let mut stream = PlayStream::new(GameId(1));
    let before = vec![play(false, vec![event(vec![false]), event(vec![false, true])], vec![false, true])];
    let (first, _) = stream.step(&before, false, false);
    let after = vec![
        play(
            true,
            vec![event(vec![false]), event(vec![false, false]), event(vec![false])],
            vec![false, false, true],
        ),
        play(false, vec![event(vec![])], vec![]),
    ];
    let (second, _) = stream.step(&after, false, false);
    assert_eq!(
        second,
        vec![
            PlayEventReviewEnd { play: 0, event: 1, review: 1 },
            PlayEvent { play: 0, event: 2 },
            PlayEventReviewStart { play: 0, event: 2, review: 0 },
            PlayEventReviewEnd { play: 0, event: 2, review: 0 },
            PlayReviewEnd { play: 0, review: 1 },
            PlayReviewStart { play: 0, review: 2 },
            EndPlay { play: 0 },
            StartPlay { play: 1 },
            PlayEvent { play: 1, event: 0 },
        ]
    );
    assert!(second.iter().all(|e| !first.contains(e)));
}

#[test]
fn a_poll_gives_no_event_twice() {
    let plays = vec![
        play(true, vec![event(vec![false, false]), event(vec![true])], vec![false, false]),
        play(false, vec![event(vec![false]), event(vec![])], vec![false, true]),
    ];
    let mut stream = PlayStream::new(GameId(7));
    let (events, _) = stream.step(&plays, false, false);
    assert_eq!(events.len(), 21);
    for (i, a) in events.iter().enumerate() {
        for b in &events[i + 1..] {
            assert_ne!(a, b);
        }
    }
}

#[test]
fn a_run_on_growing_feeds_gives_each_event_once() {
    let feeds = vec![
        vec![play(false, vec![event(vec![])], vec![])],
        vec![play(false, vec![event(vec![true])], vec![true])],
        vec![play(false, vec![event(vec![false]), event(vec![])], vec![false])],
        vec![
            play(true, vec![event(vec![false]), event(vec![false, true])], vec![false, true]),
            play(false, vec![event(vec![])], vec![]),
        ],
        vec![
            play(true, vec![event(vec![false]), event(vec![false, true])], vec![false, true]),
            play(true, vec![event(vec![]), event(vec![false])], vec![]),
        ],
    ];
    let mut stream = PlayStream::new(GameId(3));
    let mut all = Vec::new();
    for (i, feed) in feeds.iter().enumerate() {
        let last = i == feeds.len() - 1;
        let (events, over) = stream.step(feed, last, last);
        all.extend(events);
        assert_eq!(over, last);
    }
    assert_eq!(all.pop(), Some(GameEnd));
    let whole = PlayStream::new(GameId(3)).poll_events(feeds.last().unwrap());
    assert_eq!(all.len(), whole.len());
    for e in &whole {
        assert_eq!(all.iter().filter(|a| *a == e).count(), 1);
    }
    let start_1 = all.iter().position(|e| *e == StartPlay { play: 1 }).unwrap();
    let end_1 = all.iter().position(|e| *e == EndPlay { play: 1 }).unwrap();
    assert!(all.iter().position(|e| *e == PlayEvent { play: 1, event: 0 }).unwrap() > start_1);
    assert!(all.iter().position(|e| *e == PlayEvent { play: 1, event: 1 }).unwrap() < end_1);
}

fn run_all(feeds: &[Vec<PlayOutline>]) -> Vec<PlayStreamEvent> {
    let mut stream = PlayStream::new(GameId(5));
    let mut all = Vec::new();
    for feed in feeds {
        let (events, _) = stream.step(feed, false, false);
        all.extend(events);
    }
    all
}

#[test]
fn starts_and_play_events_come_once_when_earlier_plays_change() {
    let feeds = vec![
        vec![play(true, vec![event(vec![])], vec![])],
        vec![play(true, vec![event(vec![])], vec![false]), play(false, vec![event(vec![])], vec![])],
        vec![play(false, vec![event(vec![])], vec![false]), play(true, vec![event(vec![]), event(vec![])], vec![])],
    ];
    let all = run_all(&feeds);
    assert_eq!(
        all,
        vec![
            StartPlay { play: 0 },
            PlayEvent { play: 0, event: 0 },
            EndPlay { play: 0 },
            StartPlay { play: 1 },
            PlayEvent { play: 1, event: 0 },
            PlayEvent { play: 1, event: 1 },
            EndPlay { play: 1 },
        ]
    );
}

#[test]
fn reviews_come_once_when_completion_changes() {
    let feeds = vec![
        vec![play(false, vec![event(vec![true])], vec![true])],
        vec![play(true, vec![event(vec![false])], vec![false]), play(false, vec![event(vec![])], vec![])],
        vec![play(false, vec![event(vec![false])], vec![false]), play(false, vec![event(vec![true])], vec![])],
        vec![play(false, vec![event(vec![false])], vec![false]), play(true, vec![event(vec![false])], vec![true])],
    ];
    let reviews: Vec<PlayStreamEvent> = run_all(&feeds)
        .into_iter()
        .filter(|e| {
            matches!(
                e,
                PlayReviewStart { .. } | PlayReviewEnd { .. } | PlayEventReviewStart { .. } | PlayEventReviewEnd { .. }
            )
        })
        .collect();
    assert_eq!(
        reviews,
        vec![
            PlayEventReviewStart { play: 0, event: 0, review: 0 },
            PlayReviewStart { play: 0, review: 0 },
            PlayEventReviewEnd { play: 0, event: 0, review: 0 },
            PlayReviewEnd { play: 0, review: 0 },
            PlayEventReviewStart { play: 1, event: 0, review: 0 },
            PlayEventReviewEnd { play: 1, event: 0, review: 0 },
            PlayReviewStart { play: 1, review: 0 },
        ]
    );
}
