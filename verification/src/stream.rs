//! The decisions of a play stream: which events of a live game to hand out after each poll.
//!
//! A [`PlayStream`] polls the live feed of a game over and over. After each poll it hands out
//! the events that happened since the previous one: the start of a play (an at-bat), each play
//! event (pitch, pickoff, ...), the start and end of each replay review, the end of a play, and
//! at last the end of the game. This module decides which events those are, from an outline of
//! the plays; fetching the feed and waiting between polls is left to the caller.

use vstd::prelude::*;
use crate::ids::GameId;

verus! {

/// What the stream reads of a play event: whether each of its replay reviews is in progress.
#[derive(Debug, Clone)]
pub struct PlayEventOutline {
    pub reviews_in_progress: Vec<bool>,
}

/// What the stream reads of a play: whether it is complete, its play events, and whether each of
/// its replay reviews is in progress.
#[derive(Debug, Clone)]
pub struct PlayOutline {
    pub is_complete: bool,
    pub events: Vec<PlayEventOutline>,
    pub reviews_in_progress: Vec<bool>,
}

/// An event of a game, naming plays, play events and reviews by their indices.
#[derive(Debug, PartialEq, Eq, Structural, Copy, Clone)]
pub enum PlayStreamEvent {
    /// Sent at the beginning of a game.
    GameStart,
    StartPlay { play: usize },
    PlayReviewStart { play: usize, review: usize },
    PlayReviewEnd { play: usize, review: usize },
    EndPlay { play: usize },
    PlayEvent { play: usize, event: usize },
    PlayEventReviewStart { play: usize, event: usize, review: usize },
    PlayEventReviewEnd { play: usize, event: usize, review: usize },
    /// Sent once the game is over and its decisions are known.
    GameEnd,
}

/// Where a stream stands in a game: what it has handed out so far.
#[derive(Debug, Clone, Copy)]
pub struct PlayStream {
    pub game_id: GameId,
    pub current_play_idx: usize,
    pub in_progress_current_play: bool,
    pub current_play_review_idx: usize,
    pub in_progress_current_play_review: bool,
    pub current_play_event_idx: usize,
    /// Whether the current play event has been handed out already.
    pub in_progress_current_play_event: bool,
    pub current_play_event_review_idx: usize,
    pub in_progress_current_play_event_review: bool,
}

/// The start of a review, and its end unless it is still in progress.
pub open spec fn review_pair(start: PlayStreamEvent, end: PlayStreamEvent, in_progress: bool) -> Seq<PlayStreamEvent> {
    if in_progress {
        seq![start]
    } else {
        seq![start, end]
    }
}

/// The events of the reviews `lo..hi` of play event `e` of play `p`.
pub open spec fn event_reviews(reviews: Seq<bool>, p: usize, e: usize, lo: int, hi: int) -> Seq<PlayStreamEvent>
    decreases hi - lo,
{
    if hi <= lo {
        Seq::empty()
    } else {
        event_reviews(reviews, p, e, lo, hi - 1) + review_pair(
            PlayStreamEvent::PlayEventReviewStart { play: p, event: e, review: (hi - 1) as usize },
            PlayStreamEvent::PlayEventReviewEnd { play: p, event: e, review: (hi - 1) as usize },
            reviews[hi - 1],
        )
    }
}

/// The events of the reviews `lo..hi` of play `p`.
pub open spec fn play_reviews(reviews: Seq<bool>, p: usize, lo: int, hi: int) -> Seq<PlayStreamEvent>
    decreases hi - lo,
{
    if hi <= lo {
        Seq::empty()
    } else {
        play_reviews(reviews, p, lo, hi - 1) + review_pair(
            PlayStreamEvent::PlayReviewStart { play: p, review: (hi - 1) as usize },
            PlayStreamEvent::PlayReviewEnd { play: p, review: (hi - 1) as usize },
            reviews[hi - 1],
        )
    }
}

/// The events of play event `e` of play `p`, from its start: the event, then its reviews.
pub open spec fn event_full(ev: PlayEventOutline, p: usize, e: usize) -> Seq<PlayStreamEvent> {
    seq![PlayStreamEvent::PlayEvent { play: p, event: e }] + event_reviews(
        ev.reviews_in_progress@,
        p,
        e,
        0,
        ev.reviews_in_progress@.len() as int,
    )
}

/// The events of the play events `lo..hi` of play `p`.
pub open spec fn events_range(evs: Seq<PlayEventOutline>, p: usize, lo: int, hi: int) -> Seq<PlayStreamEvent>
    decreases hi - lo,
{
    if hi <= lo {
        Seq::empty()
    } else {
        events_range(evs, p, lo, hi - 1) + event_full(evs[hi - 1], p, (hi - 1) as usize)
    }
}

/// The end of play `p`, where it is complete.
pub open spec fn play_end(play: PlayOutline, p: usize) -> Seq<PlayStreamEvent> {
    if play.is_complete {
        seq![PlayStreamEvent::EndPlay { play: p }]
    } else {
        Seq::empty()
    }
}

/// The events of play `p` from its start: its start, its play events, its reviews, and its end
/// where it is complete.
pub open spec fn play_full(play: PlayOutline, p: usize) -> Seq<PlayStreamEvent> {
    seq![PlayStreamEvent::StartPlay { play: p }] + events_range(play.events@, p, 0, play.events@.len() as int)
        + play_reviews(play.reviews_in_progress@, p, 0, play.reviews_in_progress@.len() as int)
        + play_end(play, p)
}

/// The events of the plays `lo..hi`, each from its start.
pub open spec fn plays_range(plays: Seq<PlayOutline>, lo: int, hi: int) -> Seq<PlayStreamEvent>
    decreases hi - lo,
{
    if hi <= lo {
        Seq::empty()
    } else {
        plays_range(plays, lo, hi - 1) + play_full(plays[hi - 1], (hi - 1) as usize)
    }
}

/// The events still to come of the review at index `r`, which the stream may have started.
pub open spec fn resumed_review(
    start: PlayStreamEvent,
    end: PlayStreamEvent,
    started: bool,
    in_progress: bool,
) -> Seq<PlayStreamEvent> {
    (if started {
        Seq::empty()
    } else {
        seq![start]
    }) + (if in_progress {
        Seq::empty()
    } else {
        seq![end]
    })
}

/// The events still to come of the current play event `e` of play `p`: the event unless the
/// stream has handed it out already, then the rest of its reviews.
pub open spec fn current_event_rest(st: PlayStream, ev: PlayEventOutline, p: usize, e: usize) -> Seq<PlayStreamEvent> {
    let reviews = ev.reviews_in_progress@;
    let r = st.current_play_event_review_idx as int;
    event_head(st.in_progress_current_play_event, p, e) + if r < reviews.len() {
        resumed_review(
            PlayStreamEvent::PlayEventReviewStart { play: p, event: e, review: r as usize },
            PlayStreamEvent::PlayEventReviewEnd { play: p, event: e, review: r as usize },
            st.in_progress_current_play_event_review,
            reviews[r],
        ) + event_reviews(reviews, p, e, r + 1, reviews.len() as int)
    } else {
        Seq::empty()
    }
}

/// Play event `e` of play `p`, unless it has been handed out already.
pub open spec fn event_head(handed: bool, p: usize, e: usize) -> Seq<PlayStreamEvent> {
    if handed {
        Seq::empty()
    } else {
        seq![PlayStreamEvent::PlayEvent { play: p, event: e }]
    }
}

/// The start of the current play `p`, unless the stream has handed it out already.
pub open spec fn current_play_start(st: PlayStream, p: usize) -> Seq<PlayStreamEvent> {
    if st.in_progress_current_play {
        Seq::empty()
    } else {
        seq![PlayStreamEvent::StartPlay { play: p }]
    }
}

/// The play events still to come of the current play `p`.
pub open spec fn current_play_events(st: PlayStream, play: PlayOutline, p: usize) -> Seq<PlayStreamEvent> {
    let evs = play.events@;
    let e = st.current_play_event_idx as int;
    if e < evs.len() {
        current_event_rest(st, evs[e], p, e as usize) + events_range(evs, p, e + 1, evs.len() as int)
    } else {
        Seq::empty()
    }
}

/// The review events still to come of the current play `p`.
pub open spec fn current_play_reviews(st: PlayStream, play: PlayOutline, p: usize) -> Seq<PlayStreamEvent> {
    let reviews = play.reviews_in_progress@;
    let r = st.current_play_review_idx as int;
    if r < reviews.len() {
        resumed_review(
            PlayStreamEvent::PlayReviewStart { play: p, review: r as usize },
            PlayStreamEvent::PlayReviewEnd { play: p, review: r as usize },
            st.in_progress_current_play_review,
            reviews[r],
        ) + play_reviews(reviews, p, r + 1, reviews.len() as int)
    } else {
        Seq::empty()
    }
}

/// The events still to come of the current play `p`: its start unless handed out already, the
/// rest of its current play event and the later ones, the rest of its reviews, and its end
/// where it is complete.
pub open spec fn current_play_rest(st: PlayStream, play: PlayOutline, p: usize) -> Seq<PlayStreamEvent> {
    current_play_start(st, p) + current_play_events(st, play, p) + current_play_reviews(st, play, p)
        + play_end(play, p)
}

/// The events a poll hands out: the rest of the current play, then every later play from its
/// start.
pub open spec fn poll_spec(st: PlayStream, plays: Seq<PlayOutline>) -> Seq<PlayStreamEvent> {
    let c = st.current_play_idx as int;
    if c < plays.len() {
        current_play_rest(st, plays[c], c as usize) + plays_range(plays, c + 1, plays.len() as int)
    } else {
        Seq::empty()
    }
}

/// Whether the last of a list of review flags says a review is in progress.
pub open spec fn last_in_progress(reviews: Seq<bool>) -> bool {
    reviews.len() > 0 && reviews.last()
}

/// The index of the first review not yet finished: the last one where it is in progress, else
/// the end of the list.
pub open spec fn resume_index(reviews: Seq<bool>) -> int {
    if last_in_progress(reviews) {
        reviews.len() - 1
    } else {
        reviews.len() as int
    }
}

/// Where a stream stands after a poll of `plays`: at the last play where it is still in
/// progress (else past the end); at its last play event, handed out already, so that reviews
/// of that event still come; and at the last review of the play and of that event where it is
/// still in progress, else past them.
pub open spec fn updated(st: PlayStream, plays: Seq<PlayOutline>) -> PlayStream {
    let in_progress = plays.len() > 0 && !plays.last().is_complete;
    let c = if in_progress {
        plays.len() - 1
    } else {
        plays.len() as int
    };
    if 0 <= c < plays.len() {
        let play = plays[c];
        let evs = play.events@;
        let last_event_reviews = if evs.len() > 0 {
            evs.last().reviews_in_progress@
        } else {
            Seq::empty()
        };
        PlayStream {
            game_id: st.game_id,
            current_play_idx: c as usize,
            in_progress_current_play: in_progress,
            current_play_review_idx: resume_index(play.reviews_in_progress@) as usize,
            in_progress_current_play_review: last_in_progress(play.reviews_in_progress@),
            current_play_event_idx: if evs.len() > 0 {
                (evs.len() - 1) as usize
            } else {
                0
            },
            in_progress_current_play_event: evs.len() > 0,
            current_play_event_review_idx: resume_index(last_event_reviews) as usize,
            in_progress_current_play_event_review: last_in_progress(last_event_reviews),
        }
    } else {
        PlayStream {
            game_id: st.game_id,
            current_play_idx: c as usize,
            in_progress_current_play: in_progress,
            current_play_review_idx: 0,
            in_progress_current_play_review: false,
            current_play_event_idx: 0,
            in_progress_current_play_event: false,
            current_play_event_review_idx: 0,
            in_progress_current_play_event_review: false,
        }
    }
}

/// A stream at the start of a game.
pub open spec fn fresh(game_id: GameId) -> PlayStream {
    PlayStream {
        game_id,
        current_play_idx: 0,
        in_progress_current_play: false,
        current_play_review_idx: 0,
        in_progress_current_play_review: false,
        current_play_event_idx: 0,
        in_progress_current_play_event: false,
        current_play_event_review_idx: 0,
        in_progress_current_play_event_review: false,
    }
}


fn push_review_pair(out: &mut Vec<PlayStreamEvent>, start: PlayStreamEvent, end: PlayStreamEvent, in_progress: bool)
    ensures
        final(out)@ == old(out)@ + review_pair(start, end, in_progress),
{
    out.push(start);
    if !in_progress {
        out.push(end);
    }
}

fn push_resumed_review(
    out: &mut Vec<PlayStreamEvent>,
    start: PlayStreamEvent,
    end: PlayStreamEvent,
    started: bool,
    in_progress: bool,
)
    ensures
        final(out)@ == old(out)@ + resumed_review(start, end, started, in_progress),
{
    let ghost before = out@;
    if !started {
        out.push(start);
    }
    if !in_progress {
        out.push(end);
    }
    assert(out@ =~= before + resumed_review(start, end, started, in_progress));
}

fn push_event_reviews(out: &mut Vec<PlayStreamEvent>, reviews: &Vec<bool>, p: usize, e: usize, lo: usize)
    ensures
        final(out)@ == old(out)@ + event_reviews(reviews@, p, e, lo as int, reviews@.len() as int),
{
    let ghost before = out@;
    let n = reviews.len();
    let mut i = lo;
    assert(event_reviews(reviews@, p, e, lo as int, lo as int) =~= Seq::<PlayStreamEvent>::empty());
    while i < n
        invariant
            n == reviews@.len(),
            lo <= i,
            i <= n || i == lo,
            out@ == before + event_reviews(reviews@, p, e, lo as int, i as int),
        decreases n - i,
    {
        push_review_pair(
            out,
            PlayStreamEvent::PlayEventReviewStart { play: p, event: e, review: i },
            PlayStreamEvent::PlayEventReviewEnd { play: p, event: e, review: i },
            reviews[i],
        );
        i = i + 1;
        assert(out@ =~= before + event_reviews(reviews@, p, e, lo as int, i as int));
    }
    if lo > n {
        assert(event_reviews(reviews@, p, e, lo as int, n as int) =~= Seq::<PlayStreamEvent>::empty());
    }
}

fn push_play_reviews(out: &mut Vec<PlayStreamEvent>, reviews: &Vec<bool>, p: usize, lo: usize)
    ensures
        final(out)@ == old(out)@ + play_reviews(reviews@, p, lo as int, reviews@.len() as int),
{
    let ghost before = out@;
    let n = reviews.len();
    let mut i = lo;
    assert(play_reviews(reviews@, p, lo as int, lo as int) =~= Seq::<PlayStreamEvent>::empty());
    while i < n
        invariant
            n == reviews@.len(),
            lo <= i,
            i <= n || i == lo,
            out@ == before + play_reviews(reviews@, p, lo as int, i as int),
        decreases n - i,
    {
        push_review_pair(
            out,
            PlayStreamEvent::PlayReviewStart { play: p, review: i },
            PlayStreamEvent::PlayReviewEnd { play: p, review: i },
            reviews[i],
        );
        i = i + 1;
        assert(out@ =~= before + play_reviews(reviews@, p, lo as int, i as int));
    }
    if lo > n {
        assert(play_reviews(reviews@, p, lo as int, n as int) =~= Seq::<PlayStreamEvent>::empty());
    }
}

fn push_event_full(out: &mut Vec<PlayStreamEvent>, ev: &PlayEventOutline, p: usize, e: usize)
    ensures
        final(out)@ == old(out)@ + event_full(*ev, p, e),
{
    let ghost before = out@;
    out.push(PlayStreamEvent::PlayEvent { play: p, event: e });
    push_event_reviews(out, &ev.reviews_in_progress, p, e, 0);
    assert(out@ =~= before + event_full(*ev, p, e));
}

fn push_events_range(out: &mut Vec<PlayStreamEvent>, evs: &Vec<PlayEventOutline>, p: usize, lo: usize)
    ensures
        final(out)@ == old(out)@ + events_range(evs@, p, lo as int, evs@.len() as int),
{
    let ghost before = out@;
    let n = evs.len();
    let mut i = lo;
    assert(events_range(evs@, p, lo as int, lo as int) =~= Seq::<PlayStreamEvent>::empty());
    while i < n
        invariant
            n == evs@.len(),
            lo <= i,
            i <= n || i == lo,
            out@ == before + events_range(evs@, p, lo as int, i as int),
        decreases n - i,
    {
        push_event_full(out, &evs[i], p, i);
        i = i + 1;
        assert(out@ =~= before + events_range(evs@, p, lo as int, i as int));
    }
    if lo > n {
        assert(events_range(evs@, p, lo as int, n as int) =~= Seq::<PlayStreamEvent>::empty());
    }
}

fn push_play_end(out: &mut Vec<PlayStreamEvent>, play: &PlayOutline, p: usize)
    ensures
        final(out)@ == old(out)@ + play_end(*play, p),
{
    let ghost before = out@;
    if play.is_complete {
        out.push(PlayStreamEvent::EndPlay { play: p });
    }
    assert(out@ =~= before + play_end(*play, p));
}

fn push_play_full(out: &mut Vec<PlayStreamEvent>, play: &PlayOutline, p: usize)
    ensures
        final(out)@ == old(out)@ + play_full(*play, p),
{
    let ghost before = out@;
    out.push(PlayStreamEvent::StartPlay { play: p });
    push_events_range(out, &play.events, p, 0);
    push_play_reviews(out, &play.reviews_in_progress, p, 0);
    push_play_end(out, play, p);
    assert(out@ =~= before + play_full(*play, p));
}

fn push_plays_range(out: &mut Vec<PlayStreamEvent>, plays: &Vec<PlayOutline>, lo: usize)
    ensures
        final(out)@ == old(out)@ + plays_range(plays@, lo as int, plays@.len() as int),
{
    let ghost before = out@;
    let n = plays.len();
    let mut i = lo;
    assert(plays_range(plays@, lo as int, lo as int) =~= Seq::<PlayStreamEvent>::empty());
    while i < n
        invariant
            n == plays@.len(),
            lo <= i,
            i <= n || i == lo,
            out@ == before + plays_range(plays@, lo as int, i as int),
        decreases n - i,
    {
        push_play_full(out, &plays[i], i);
        i = i + 1;
        assert(out@ =~= before + plays_range(plays@, lo as int, i as int));
    }
    if lo > n {
        assert(plays_range(plays@, lo as int, n as int) =~= Seq::<PlayStreamEvent>::empty());
    }
}


impl PlayStream {
    /// A stream for a game, at its start.
    pub fn new(game_id: GameId) -> (res: Self)
        ensures
            res == fresh(game_id),
    {
        PlayStream {
            game_id,
            current_play_idx: 0,
            in_progress_current_play: false,
            current_play_review_idx: 0,
            in_progress_current_play_review: false,
            current_play_event_idx: 0,
            in_progress_current_play_event: false,
            current_play_event_review_idx: 0,
            in_progress_current_play_event_review: false,
        }
    }

    fn push_current_event_rest(&self, out: &mut Vec<PlayStreamEvent>, ev: &PlayEventOutline, p: usize, e: usize)
        ensures
            final(out)@ == old(out)@ + current_event_rest(*self, *ev, p, e),
    {
        let ghost before = out@;
        if !self.in_progress_current_play_event {
            out.push(PlayStreamEvent::PlayEvent { play: p, event: e });
        }
        let r = self.current_play_event_review_idx;
        if r < ev.reviews_in_progress.len() {
            push_resumed_review(
                out,
                PlayStreamEvent::PlayEventReviewStart { play: p, event: e, review: r },
                PlayStreamEvent::PlayEventReviewEnd { play: p, event: e, review: r },
                self.in_progress_current_play_event_review,
                ev.reviews_in_progress[r],
            );
            push_event_reviews(out, &ev.reviews_in_progress, p, e, r + 1);
        }
        assert(out@ =~= before + current_event_rest(*self, *ev, p, e));
    }

    fn push_current_play_events(&self, out: &mut Vec<PlayStreamEvent>, play: &PlayOutline, p: usize)
        ensures
            final(out)@ == old(out)@ + current_play_events(*self, *play, p),
    {
        let ghost before = out@;
        let e = self.current_play_event_idx;
        if e < play.events.len() {
            self.push_current_event_rest(out, &play.events[e], p, e);
            push_events_range(out, &play.events, p, e + 1);
        }
        assert(out@ =~= before + current_play_events(*self, *play, p));
    }

    fn push_current_play_reviews(&self, out: &mut Vec<PlayStreamEvent>, play: &PlayOutline, p: usize)
        ensures
            final(out)@ == old(out)@ + current_play_reviews(*self, *play, p),
    {
        let ghost before = out@;
        let r = self.current_play_review_idx;
        if r < play.reviews_in_progress.len() {
            push_resumed_review(
                out,
                PlayStreamEvent::PlayReviewStart { play: p, review: r },
                PlayStreamEvent::PlayReviewEnd { play: p, review: r },
                self.in_progress_current_play_review,
                play.reviews_in_progress[r],
            );
            push_play_reviews(out, &play.reviews_in_progress, p, r + 1);
        }
        assert(out@ =~= before + current_play_reviews(*self, *play, p));
    }

    fn push_current_play_rest(&self, out: &mut Vec<PlayStreamEvent>, play: &PlayOutline, p: usize)
        ensures
            final(out)@ == old(out)@ + current_play_rest(*self, *play, p),
    {
        let ghost before = out@;
        if !self.in_progress_current_play {
            out.push(PlayStreamEvent::StartPlay { play: p });
        }
        assert(out@ =~= before + current_play_start(*self, p));
        self.push_current_play_events(out, play, p);
        self.push_current_play_reviews(out, play, p);
        push_play_end(out, play, p);
        assert(out@ =~= before + current_play_rest(*self, *play, p));
    }

    /// The events a poll of `plays` hands out: the rest of the current play, then every later
    /// play from its start.
    pub fn poll_events(&self, plays: &Vec<PlayOutline>) -> (res: Vec<PlayStreamEvent>)
        ensures
            res@ == poll_spec(*self, plays@),
    {
        let mut out: Vec<PlayStreamEvent> = Vec::new();
        let c = self.current_play_idx;
        if c < plays.len() {
            self.push_current_play_rest(&mut out, &plays[c], c);
            push_plays_range(&mut out, plays, c + 1);
        }
        assert(out@ =~= poll_spec(*self, plays@));
        out
    }

    /// Moves the stream past everything a poll of `plays` handed out.
    pub fn update_indices(&mut self, plays: &Vec<PlayOutline>)
        ensures
            *final(self) == updated(*old(self), plays@),
    {
        let n = plays.len();
        let in_progress = n > 0 && !plays[n - 1].is_complete;
        let c = if in_progress {
            n - 1
        } else {
            n
        };
        self.in_progress_current_play = in_progress;
        self.current_play_idx = c;
        if c < n {
            let play = &plays[c];
            let rn = play.reviews_in_progress.len();
            let review_in_progress = rn > 0 && play.reviews_in_progress[rn - 1];
            self.in_progress_current_play_review = review_in_progress;
            self.current_play_review_idx = if review_in_progress {
                rn - 1
            } else {
                rn
            };
            let en = play.events.len();
            self.current_play_event_idx = if en > 0 {
                en - 1
            } else {
                0
            };
            self.in_progress_current_play_event = en > 0;
            if en > 0 {
                let reviews = &play.events[en - 1].reviews_in_progress;
                let ern = reviews.len();
                let event_review_in_progress = ern > 0 && reviews[ern - 1];
                self.in_progress_current_play_event_review = event_review_in_progress;
                self.current_play_event_review_idx = if event_review_in_progress {
                    ern - 1
                } else {
                    ern
                };
            } else {
                self.in_progress_current_play_event_review = false;
                self.current_play_event_review_idx = 0;
            }
        } else {
            self.in_progress_current_play_review = false;
            self.current_play_review_idx = 0;
            self.current_play_event_idx = 0;
            self.in_progress_current_play_event = false;
            self.in_progress_current_play_event_review = false;
            self.current_play_event_review_idx = 0;
        }
    }

    /// One poll: the events to hand out, and whether the game is over. Where the game is
    /// finished and its decisions are known, the events end with [`PlayStreamEvent::GameEnd`],
    /// the stream stays where it was and `true` comes back; else the stream moves past the events.
    pub fn step(&mut self, plays: &Vec<PlayOutline>, game_finished: bool, has_decisions: bool) -> (res: (
        Vec<PlayStreamEvent>,
        bool,
    ))
        ensures
            res.1 == (game_finished && has_decisions),
            res.1 ==> res.0@ == poll_spec(*old(self), plays@).push(PlayStreamEvent::GameEnd),
            res.1 ==> *final(self) == *old(self),
            !res.1 ==> res.0@ == poll_spec(*old(self), plays@),
            !res.1 ==> *final(self) == updated(*old(self), plays@),
    {
        let mut events = self.poll_events(plays);
        if game_finished && has_decisions {
            events.push(PlayStreamEvent::GameEnd);
            (events, true)
        } else {
            self.update_indices(plays);
            (events, false)
        }
    }
}


proof fn lemma_event_reviews_front(reviews: Seq<bool>, p: usize, e: usize, lo: int, hi: int)
    requires
        lo < hi,
    ensures
        event_reviews(reviews, p, e, lo, hi) == review_pair(
            PlayStreamEvent::PlayEventReviewStart { play: p, event: e, review: lo as usize },
            PlayStreamEvent::PlayEventReviewEnd { play: p, event: e, review: lo as usize },
            reviews[lo],
        ) + event_reviews(reviews, p, e, lo + 1, hi),
    decreases hi - lo,
{
    if lo + 1 < hi {
        lemma_event_reviews_front(reviews, p, e, lo, hi - 1);
    } else {
        assert(event_reviews(reviews, p, e, lo, lo) =~= Seq::<PlayStreamEvent>::empty());
        assert(event_reviews(reviews, p, e, lo + 1, hi) =~= Seq::<PlayStreamEvent>::empty());
    }
    assert(event_reviews(reviews, p, e, lo, hi) =~= review_pair(
        PlayStreamEvent::PlayEventReviewStart { play: p, event: e, review: lo as usize },
        PlayStreamEvent::PlayEventReviewEnd { play: p, event: e, review: lo as usize },
        reviews[lo],
    ) + event_reviews(reviews, p, e, lo + 1, hi));
}

proof fn lemma_play_reviews_front(reviews: Seq<bool>, p: usize, lo: int, hi: int)
    requires
        lo < hi,
    ensures
        play_reviews(reviews, p, lo, hi) == review_pair(
            PlayStreamEvent::PlayReviewStart { play: p, review: lo as usize },
            PlayStreamEvent::PlayReviewEnd { play: p, review: lo as usize },
            reviews[lo],
        ) + play_reviews(reviews, p, lo + 1, hi),
    decreases hi - lo,
{
    if lo + 1 < hi {
        lemma_play_reviews_front(reviews, p, lo, hi - 1);
    } else {
        assert(play_reviews(reviews, p, lo, lo) =~= Seq::<PlayStreamEvent>::empty());
        assert(play_reviews(reviews, p, lo + 1, hi) =~= Seq::<PlayStreamEvent>::empty());
    }
    assert(play_reviews(reviews, p, lo, hi) =~= review_pair(
        PlayStreamEvent::PlayReviewStart { play: p, review: lo as usize },
        PlayStreamEvent::PlayReviewEnd { play: p, review: lo as usize },
        reviews[lo],
    ) + play_reviews(reviews, p, lo + 1, hi));
}

proof fn lemma_events_range_front(evs: Seq<PlayEventOutline>, p: usize, lo: int, hi: int)
    requires
        lo < hi,
    ensures
        events_range(evs, p, lo, hi) == event_full(evs[lo], p, lo as usize) + events_range(evs, p, lo + 1, hi),
    decreases hi - lo,
{
    if lo + 1 < hi {
        lemma_events_range_front(evs, p, lo, hi - 1);
    } else {
        assert(events_range(evs, p, lo, lo) =~= Seq::<PlayStreamEvent>::empty());
        assert(events_range(evs, p, lo + 1, hi) =~= Seq::<PlayStreamEvent>::empty());
    }
    assert(events_range(evs, p, lo, hi) =~= event_full(evs[lo], p, lo as usize) + events_range(evs, p, lo + 1, hi));
}

proof fn lemma_plays_range_front(plays: Seq<PlayOutline>, lo: int, hi: int)
    requires
        lo < hi,
    ensures
        plays_range(plays, lo, hi) == play_full(plays[lo], lo as usize) + plays_range(plays, lo + 1, hi),
    decreases hi - lo,
{
    if lo + 1 < hi {
        lemma_plays_range_front(plays, lo, hi - 1);
    } else {
        assert(plays_range(plays, lo, lo) =~= Seq::<PlayStreamEvent>::empty());
        assert(plays_range(plays, lo + 1, hi) =~= Seq::<PlayStreamEvent>::empty());
    }
    assert(plays_range(plays, lo, hi) =~= play_full(plays[lo], lo as usize) + plays_range(plays, lo + 1, hi));
}

proof fn lemma_fresh_event(g: GameId, ev: PlayEventOutline, p: usize)
    ensures
        current_event_rest(fresh(g), ev, p, 0) == event_full(ev, p, 0),
{
    let reviews = ev.reviews_in_progress@;
    if 0 < reviews.len() {
        lemma_event_reviews_front(reviews, p, 0, 0, reviews.len() as int);
        assert(current_event_rest(fresh(g), ev, p, 0) =~= event_full(ev, p, 0));
    } else {
        assert(event_reviews(reviews, p, 0, 0, 0) =~= Seq::<PlayStreamEvent>::empty());
        assert(current_event_rest(fresh(g), ev, p, 0) =~= event_full(ev, p, 0));
    }
}

proof fn lemma_fresh_play(g: GameId, play: PlayOutline, p: usize)
    ensures
        current_play_rest(fresh(g), play, p) == play_full(play, p),
{
    let evs = play.events@;
    let reviews = play.reviews_in_progress@;
    if 0 < evs.len() {
        lemma_fresh_event(g, evs[0], p);
        lemma_events_range_front(evs, p, 0, evs.len() as int);
    } else {
        assert(events_range(evs, p, 0, 0) =~= Seq::<PlayStreamEvent>::empty());
    }
    assert(current_play_events(fresh(g), play, p) == events_range(evs, p, 0, evs.len() as int));
    if 0 < reviews.len() {
        lemma_play_reviews_front(reviews, p, 0, reviews.len() as int);
    } else {
        assert(play_reviews(reviews, p, 0, 0) =~= Seq::<PlayStreamEvent>::empty());
    }
    assert(current_play_reviews(fresh(g), play, p) == play_reviews(reviews, p, 0, reviews.len() as int));
    assert(current_play_rest(fresh(g), play, p) =~= play_full(play, p));
}

/// The first poll of a new stream hands out every event of every play, each play from its
/// start, in order.
pub proof fn lemma_fresh_stream_polls_everything(g: GameId, plays: Seq<PlayOutline>)
    ensures
        poll_spec(fresh(g), plays) == plays_range(plays, 0, plays.len() as int),
{
    if plays.len() > 0 {
        lemma_fresh_play(g, plays[0], 0);
        lemma_plays_range_front(plays, 0, plays.len() as int);
    } else {
        assert(plays_range(plays, 0, 0) =~= Seq::<PlayStreamEvent>::empty());
    }
}

/// Polling again with nothing new hands out nothing: once the stream has moved past a poll of
/// `plays`, another poll of the same plays gives no event.
pub proof fn lemma_repoll_is_empty(st: PlayStream, plays: Seq<PlayOutline>)
    requires
        plays.len() <= usize::MAX,
    ensures
        poll_spec(updated(st, plays), plays) =~= Seq::<PlayStreamEvent>::empty(),
{
    let u = updated(st, plays);
    let n = plays.len() as int;
    if n > 0 && !plays.last().is_complete {
        let c = n - 1;
        let play = plays[c];
        let reviews = play.reviews_in_progress@;
        let evs = play.events@;
        vstd::std_specs::vec::axiom_spec_len(&play.events);
        vstd::std_specs::vec::axiom_spec_len(&play.reviews_in_progress);
        assert(u.current_play_idx == c);
        assert(u.in_progress_current_play);
        assert(current_play_start(u, c as usize) =~= Seq::<PlayStreamEvent>::empty());
        assert(current_play_events(u, play, c as usize) =~= Seq::<PlayStreamEvent>::empty()) by {
            if evs.len() > 0 {
                let e = evs.len() - 1;
                let ev = evs[e];
                let rv = ev.reviews_in_progress@;
                vstd::std_specs::vec::axiom_spec_len(&ev.reviews_in_progress);
                assert(u.current_play_event_idx == e);
                assert(u.in_progress_current_play_event);
                if last_in_progress(rv) {
                    assert(u.current_play_event_review_idx == rv.len() - 1);
                    assert(event_reviews(rv, c as usize, e as usize, rv.len() as int, rv.len() as int)
                        =~= Seq::<PlayStreamEvent>::empty());
                } else {
                    assert(u.current_play_event_review_idx == rv.len());
                }
                assert(current_event_rest(u, ev, c as usize, e as usize) =~= Seq::<PlayStreamEvent>::empty());
                assert(events_range(evs, c as usize, e + 1, evs.len() as int) =~= Seq::<PlayStreamEvent>::empty());
            }
        }
        if last_in_progress(reviews) {
            assert(u.current_play_review_idx == reviews.len() - 1);
            assert(u.in_progress_current_play_review);
            assert(play_reviews(reviews, c as usize, reviews.len() as int, reviews.len() as int)
                =~= Seq::<PlayStreamEvent>::empty());
        } else {
            assert(u.current_play_review_idx == reviews.len());
        }
        assert(current_play_reviews(u, play, c as usize) =~= Seq::<PlayStreamEvent>::empty());
        assert(play_end(play, c as usize) =~= Seq::<PlayStreamEvent>::empty());
        assert(plays_range(plays, c + 1, n) =~= Seq::<PlayStreamEvent>::empty());
        assert(poll_spec(u, plays) == current_play_rest(u, play, c as usize) + plays_range(plays, c + 1, n));
    } else {
        assert(u.current_play_idx == n);
    }
}

/// A play that comes after the last play a poll handed out, once that play is complete, is
/// handed out whole by the next poll: its start, its play events and reviews, and its end where
/// it is complete.
pub proof fn lemma_new_play_handed_out_whole(st: PlayStream, plays: Seq<PlayOutline>, next: PlayOutline)
    requires
        plays.len() < usize::MAX,
        plays.len() == 0 || plays.last().is_complete,
    ensures
        poll_spec(updated(st, plays), plays.push(next)) == play_full(next, plays.len() as usize),
{
    let u = updated(st, plays);
    let n = plays.len() as int;
    let all = plays.push(next);
    assert(u.current_play_idx == n);
    assert(all[n] == next);
    lemma_fresh_play(st.game_id, next, n as usize);
    let f = fresh(st.game_id);
    assert(current_play_start(u, n as usize) == current_play_start(f, n as usize));
    assert(current_play_events(u, next, n as usize) == current_play_events(f, next, n as usize)) by {
        if 0 < next.events@.len() {
            assert(current_event_rest(u, next.events@[0], n as usize, 0) == current_event_rest(
                f,
                next.events@[0],
                n as usize,
                0,
            ));
        }
    }
    assert(current_play_reviews(u, next, n as usize) == current_play_reviews(f, next, n as usize));
    assert(current_play_rest(u, next, n as usize) == current_play_rest(f, next, n as usize));
    assert(plays_range(all, n + 1, n + 1) =~= Seq::<PlayStreamEvent>::empty());
    assert(poll_spec(u, all) =~= current_play_rest(u, next, n as usize));
}

/// Whether every event of a list that ends a play names a play of `plays` that is complete.
pub open spec fn ends_only_complete(s: Seq<PlayStreamEvent>, plays: Seq<PlayOutline>) -> bool {
    forall|k: int|
        0 <= k < s.len() ==> (#[trigger] s[k] matches PlayStreamEvent::EndPlay { play } ==> play < plays.len()
            && plays[play as int].is_complete)
}



/// Whether every event of a list satisfies `f`.
pub open spec fn all_events(s: Seq<PlayStreamEvent>, f: spec_fn(PlayStreamEvent) -> bool) -> bool {
    forall|k: int| 0 <= k < s.len() ==> f(#[trigger] s[k])
}

proof fn lemma_all_concat(a: Seq<PlayStreamEvent>, b: Seq<PlayStreamEvent>, f: spec_fn(PlayStreamEvent) -> bool)
    requires
        all_events(a, f),
        all_events(b, f),
    ensures
        all_events(a + b, f),
{
    assert forall|k: int| 0 <= k < (a + b).len() implies f(#[trigger] (a + b)[k]) by {
        if k < a.len() {
            assert((a + b)[k] == a[k]);
        } else {
            assert((a + b)[k] == b[k - a.len()]);
        }
    }
}

proof fn lemma_all_weaken(s: Seq<PlayStreamEvent>, f: spec_fn(PlayStreamEvent) -> bool, g: spec_fn(PlayStreamEvent) -> bool)
    requires
        all_events(s, f),
        forall|x: PlayStreamEvent| #[trigger] f(x) ==> g(x),
    ensures
        all_events(s, g),
{
    assert forall|k: int| 0 <= k < s.len() implies g(#[trigger] s[k]) by {
        assert(f(s[k]));
    }
}

/// The play an event names (`-1` for the start and end of the game).
pub open spec fn play_of(x: PlayStreamEvent) -> int {
    match x {
        PlayStreamEvent::StartPlay { play } => play as int,
        PlayStreamEvent::PlayReviewStart { play, .. } => play as int,
        PlayStreamEvent::PlayReviewEnd { play, .. } => play as int,
        PlayStreamEvent::EndPlay { play } => play as int,
        PlayStreamEvent::PlayEvent { play, .. } => play as int,
        PlayStreamEvent::PlayEventReviewStart { play, .. } => play as int,
        PlayStreamEvent::PlayEventReviewEnd { play, .. } => play as int,
        _ => -1,
    }
}

spec fn event_review_shape(x: PlayStreamEvent, reviews: Seq<bool>, p: usize, e: usize, lo: int, hi: int) -> bool {
    match x {
        PlayStreamEvent::PlayEventReviewStart { play, event, review } => play == p && event == e && lo <= review < hi,
        PlayStreamEvent::PlayEventReviewEnd { play, event, review } => play == p && event == e && lo <= review < hi
            && !reviews[review as int],
        _ => false,
    }
}

spec fn play_review_shape(x: PlayStreamEvent, reviews: Seq<bool>, p: usize, lo: int, hi: int) -> bool {
    match x {
        PlayStreamEvent::PlayReviewStart { play, review } => play == p && lo <= review < hi,
        PlayStreamEvent::PlayReviewEnd { play, review } => play == p && lo <= review < hi && !reviews[review as int],
        _ => false,
    }
}

proof fn lemma_event_reviews_shape(reviews: Seq<bool>, p: usize, e: usize, lo: int, hi: int)
    requires
        0 <= lo,
        hi <= reviews.len(),
        reviews.len() <= usize::MAX,
    ensures
        all_events(event_reviews(reviews, p, e, lo, hi), |x: PlayStreamEvent| event_review_shape(x, reviews, p, e, lo, hi)),
    decreases hi - lo,
{
    let g = |x: PlayStreamEvent| event_review_shape(x, reviews, p, e, lo, hi);
    if hi > lo {
        lemma_event_reviews_shape(reviews, p, e, lo, hi - 1);
        lemma_all_weaken(
            event_reviews(reviews, p, e, lo, hi - 1),
            |x: PlayStreamEvent| event_review_shape(x, reviews, p, e, lo, hi - 1),
            g,
        );
        let r = (hi - 1) as usize;
        let pair = review_pair(
            PlayStreamEvent::PlayEventReviewStart { play: p, event: e, review: r },
            PlayStreamEvent::PlayEventReviewEnd { play: p, event: e, review: r },
            reviews[hi - 1],
        );
        assert(all_events(pair, g));
        lemma_all_concat(event_reviews(reviews, p, e, lo, hi - 1), pair, g);
    } else {
        assert(event_reviews(reviews, p, e, lo, hi) =~= Seq::<PlayStreamEvent>::empty());
    }
}

proof fn lemma_play_reviews_shape(reviews: Seq<bool>, p: usize, lo: int, hi: int)
    requires
        0 <= lo,
        hi <= reviews.len(),
        reviews.len() <= usize::MAX,
    ensures
        all_events(play_reviews(reviews, p, lo, hi), |x: PlayStreamEvent| play_review_shape(x, reviews, p, lo, hi)),
    decreases hi - lo,
{
    let g = |x: PlayStreamEvent| play_review_shape(x, reviews, p, lo, hi);
    if hi > lo {
        lemma_play_reviews_shape(reviews, p, lo, hi - 1);
        lemma_all_weaken(
            play_reviews(reviews, p, lo, hi - 1),
            |x: PlayStreamEvent| play_review_shape(x, reviews, p, lo, hi - 1),
            g,
        );
        let r = (hi - 1) as usize;
        let pair = review_pair(
            PlayStreamEvent::PlayReviewStart { play: p, review: r },
            PlayStreamEvent::PlayReviewEnd { play: p, review: r },
            reviews[hi - 1],
        );
        assert(all_events(pair, g));
        lemma_all_concat(play_reviews(reviews, p, lo, hi - 1), pair, g);
    } else {
        assert(play_reviews(reviews, p, lo, hi) =~= Seq::<PlayStreamEvent>::empty());
    }
}


spec fn events_shape(x: PlayStreamEvent, evs: Seq<PlayEventOutline>, p: usize, lo: int, hi: int) -> bool {
    match x {
        PlayStreamEvent::PlayEvent { play, event } => play == p && lo <= event < hi,
        PlayStreamEvent::PlayEventReviewStart { play, event, review } => play == p && lo <= event < hi && review
            < evs[event as int].reviews_in_progress@.len(),
        PlayStreamEvent::PlayEventReviewEnd { play, event, review } => play == p && lo <= event < hi && review
            < evs[event as int].reviews_in_progress@.len() && !evs[event as int].reviews_in_progress@[review as int],
        _ => false,
    }
}

proof fn lemma_event_rest_shape(evs: Seq<PlayEventOutline>, p: usize, i: int, handed: bool, r: int, started: bool)
    requires
        0 <= i < evs.len(),
        evs.len() <= usize::MAX,
        0 <= r,
    ensures
        ({
            let rv = evs[i].reviews_in_progress@;
            let tail = if r < rv.len() {
                resumed_review(
                    PlayStreamEvent::PlayEventReviewStart { play: p, event: i as usize, review: r as usize },
                    PlayStreamEvent::PlayEventReviewEnd { play: p, event: i as usize, review: r as usize },
                    started,
                    rv[r],
                ) + event_reviews(rv, p, i as usize, r + 1, rv.len() as int)
            } else {
                Seq::empty()
            };
            all_events(
                event_head(handed, p, i as usize) + tail,
                |x: PlayStreamEvent| events_shape(x, evs, p, i, i + 1),
            )
        }),
{
    let rv = evs[i].reviews_in_progress@;
    vstd::std_specs::vec::axiom_spec_len(&evs[i].reviews_in_progress);
    let g = |x: PlayStreamEvent| events_shape(x, evs, p, i, i + 1);
    let head = event_head(handed, p, i as usize);
    assert(all_events(head, g));
    if r < rv.len() {
        let rr = resumed_review(
            PlayStreamEvent::PlayEventReviewStart { play: p, event: i as usize, review: r as usize },
            PlayStreamEvent::PlayEventReviewEnd { play: p, event: i as usize, review: r as usize },
            started,
            rv[r],
        );
        assert(all_events(rr, g));
        lemma_event_reviews_shape(rv, p, i as usize, r + 1, rv.len() as int);
        lemma_all_weaken(
            event_reviews(rv, p, i as usize, r + 1, rv.len() as int),
            |x: PlayStreamEvent| event_review_shape(x, rv, p, i as usize, r + 1, rv.len() as int),
            g,
        );
        lemma_all_concat(rr, event_reviews(rv, p, i as usize, r + 1, rv.len() as int), g);
        lemma_all_concat(head, rr + event_reviews(rv, p, i as usize, r + 1, rv.len() as int), g);
    } else {
        assert(head + Seq::<PlayStreamEvent>::empty() =~= head);
    }
}

proof fn lemma_event_full_shape(evs: Seq<PlayEventOutline>, p: usize, i: int)
    requires
        0 <= i < evs.len(),
        evs.len() <= usize::MAX,
    ensures
        all_events(event_full(evs[i], p, i as usize), |x: PlayStreamEvent| events_shape(x, evs, p, i, i + 1)),
{
    lemma_event_rest_shape(evs, p, i, false, 0, false);
    let rv = evs[i].reviews_in_progress@;
    if 0 < rv.len() {
        lemma_event_reviews_front(rv, p, i as usize, 0, rv.len() as int);
    } else {
        assert(event_reviews(rv, p, i as usize, 0, 0) =~= Seq::<PlayStreamEvent>::empty());
    }
    assert(event_full(evs[i], p, i as usize) =~= seq![PlayStreamEvent::PlayEvent { play: p, event: i as usize }] + (
    if 0 < rv.len() {
        resumed_review(
            PlayStreamEvent::PlayEventReviewStart { play: p, event: i as usize, review: 0 },
            PlayStreamEvent::PlayEventReviewEnd { play: p, event: i as usize, review: 0 },
            false,
            rv[0],
        ) + event_reviews(rv, p, i as usize, 1, rv.len() as int)
    } else {
        Seq::empty()
    }));
}

proof fn lemma_events_range_shape(evs: Seq<PlayEventOutline>, p: usize, lo: int, hi: int)
    requires
        0 <= lo,
        hi <= evs.len(),
        evs.len() <= usize::MAX,
    ensures
        all_events(events_range(evs, p, lo, hi), |x: PlayStreamEvent| events_shape(x, evs, p, lo, hi)),
    decreases hi - lo,
{
    let g = |x: PlayStreamEvent| events_shape(x, evs, p, lo, hi);
    if hi > lo {
        let i = hi - 1;
        lemma_events_range_shape(evs, p, lo, i);
        lemma_all_weaken(events_range(evs, p, lo, i), |x: PlayStreamEvent| events_shape(x, evs, p, lo, i), g);
        lemma_event_full_shape(evs, p, i);
        lemma_all_weaken(
            event_full(evs[i], p, i as usize),
            |x: PlayStreamEvent| events_shape(x, evs, p, i, i + 1),
            g,
        );
        lemma_all_concat(events_range(evs, p, lo, i), event_full(evs[i], p, i as usize), g);
    } else {
        assert(events_range(evs, p, lo, hi) =~= Seq::<PlayStreamEvent>::empty());
    }
}

/// Whether an event lies within a list of plays: it names a play of the list, and a play event
/// and review that the play holds; it ends only reviews that are finished and plays that are
/// complete.
pub open spec fn within_plays(x: PlayStreamEvent, plays: Seq<PlayOutline>) -> bool {
    match x {
        PlayStreamEvent::StartPlay { play } => play < plays.len(),
        PlayStreamEvent::PlayReviewStart { play, review } => play < plays.len() && review
            < plays[play as int].reviews_in_progress@.len(),
        PlayStreamEvent::PlayReviewEnd { play, review } => play < plays.len() && review
            < plays[play as int].reviews_in_progress@.len()
            && !plays[play as int].reviews_in_progress@[review as int],
        PlayStreamEvent::EndPlay { play } => play < plays.len() && plays[play as int].is_complete,
        PlayStreamEvent::PlayEvent { play, event } => play < plays.len() && event < plays[play as int].events@.len(),
        PlayStreamEvent::PlayEventReviewStart { play, event, review } => play < plays.len() && event
            < plays[play as int].events@.len() && review
            < plays[play as int].events@[event as int].reviews_in_progress@.len(),
        PlayStreamEvent::PlayEventReviewEnd { play, event, review } => play < plays.len() && event
            < plays[play as int].events@.len() && review
            < plays[play as int].events@[event as int].reviews_in_progress@.len()
            && !plays[play as int].events@[event as int].reviews_in_progress@[review as int],
        _ => false,
    }
}

spec fn plays_shape(x: PlayStreamEvent, plays: Seq<PlayOutline>, lo: int, hi: int) -> bool {
    lo <= play_of(x) < hi && within_plays(x, plays)
}

proof fn lemma_play_full_shape(plays: Seq<PlayOutline>, i: int)
    requires
        0 <= i < plays.len(),
        plays.len() <= usize::MAX,
    ensures
        all_events(play_full(plays[i], i as usize), |x: PlayStreamEvent| plays_shape(x, plays, i, i + 1)),
{
    let play = plays[i];
    let p = i as usize;
    let evs = play.events@;
    let reviews = play.reviews_in_progress@;
    vstd::std_specs::vec::axiom_spec_len(&play.events);
    vstd::std_specs::vec::axiom_spec_len(&play.reviews_in_progress);
    let g = |x: PlayStreamEvent| plays_shape(x, plays, i, i + 1);
    let head = seq![PlayStreamEvent::StartPlay { play: p }];
    assert(all_events(head, g));
    lemma_events_range_shape(evs, p, 0, evs.len() as int);
    lemma_all_weaken(
        events_range(evs, p, 0, evs.len() as int),
        |x: PlayStreamEvent| events_shape(x, evs, p, 0, evs.len() as int),
        g,
    );
    lemma_play_reviews_shape(reviews, p, 0, reviews.len() as int);
    lemma_all_weaken(
        play_reviews(reviews, p, 0, reviews.len() as int),
        |x: PlayStreamEvent| play_review_shape(x, reviews, p, 0, reviews.len() as int),
        g,
    );
    assert(all_events(play_end(play, p), g));
    lemma_all_concat(head, events_range(evs, p, 0, evs.len() as int), g);
    lemma_all_concat(
        head + events_range(evs, p, 0, evs.len() as int),
        play_reviews(reviews, p, 0, reviews.len() as int),
        g,
    );
    lemma_all_concat(
        head + events_range(evs, p, 0, evs.len() as int) + play_reviews(reviews, p, 0, reviews.len() as int),
        play_end(play, p),
        g,
    );
}

proof fn lemma_plays_range_shape(plays: Seq<PlayOutline>, lo: int, hi: int)
    requires
        0 <= lo,
        hi <= plays.len(),
        plays.len() <= usize::MAX,
    ensures
        all_events(plays_range(plays, lo, hi), |x: PlayStreamEvent| plays_shape(x, plays, lo, hi)),
    decreases hi - lo,
{
    let g = |x: PlayStreamEvent| plays_shape(x, plays, lo, hi);
    if hi > lo {
        let i = hi - 1;
        lemma_plays_range_shape(plays, lo, i);
        lemma_all_weaken(plays_range(plays, lo, i), |x: PlayStreamEvent| plays_shape(x, plays, lo, i), g);
        lemma_play_full_shape(plays, i);
        lemma_all_weaken(play_full(plays[i], i as usize), |x: PlayStreamEvent| plays_shape(x, plays, i, i + 1), g);
        lemma_all_concat(plays_range(plays, lo, i), play_full(plays[i], i as usize), g);
    } else {
        assert(plays_range(plays, lo, hi) =~= Seq::<PlayStreamEvent>::empty());
    }
}


proof fn lemma_current_events_shape(st: PlayStream, play: PlayOutline, p: usize)
    ensures
        all_events(
            current_play_events(st, play, p),
            |x: PlayStreamEvent| events_shape(x, play.events@, p, st.current_play_event_idx as int, play.events@.len() as int),
        ),
{
    let evs = play.events@;
    let e = st.current_play_event_idx as int;
    let n = evs.len() as int;
    vstd::std_specs::vec::axiom_spec_len(&play.events);
    let g = |x: PlayStreamEvent| events_shape(x, evs, p, e, n);
    if e < n {
        lemma_event_rest_shape(
            evs,
            p,
            e,
            st.in_progress_current_play_event,
            st.current_play_event_review_idx as int,
            st.in_progress_current_play_event_review,
        );
        lemma_all_weaken(
            current_event_rest(st, evs[e], p, e as usize),
            |x: PlayStreamEvent| events_shape(x, evs, p, e, e + 1),
            g,
        );
        lemma_events_range_shape(evs, p, e + 1, n);
        lemma_all_weaken(events_range(evs, p, e + 1, n), |x: PlayStreamEvent| events_shape(x, evs, p, e + 1, n), g);
        lemma_all_concat(current_event_rest(st, evs[e], p, e as usize), events_range(evs, p, e + 1, n), g);
    }
}

spec fn resumed_reviews_shape(x: PlayStreamEvent, reviews: Seq<bool>, p: usize, r: int, hi: int, started: bool) -> bool {
    &&& play_review_shape(x, reviews, p, r, hi)
    &&& (started ==> !(x matches PlayStreamEvent::PlayReviewStart { review, .. } && review == r))
}

proof fn lemma_current_reviews_shape(st: PlayStream, play: PlayOutline, p: usize)
    ensures
        all_events(
            current_play_reviews(st, play, p),
            |x: PlayStreamEvent|
                resumed_reviews_shape(
                    x,
                    play.reviews_in_progress@,
                    p,
                    st.current_play_review_idx as int,
                    play.reviews_in_progress@.len() as int,
                    st.in_progress_current_play_review,
                ),
        ),
{
    let reviews = play.reviews_in_progress@;
    let r = st.current_play_review_idx as int;
    let n = reviews.len() as int;
    let started = st.in_progress_current_play_review;
    vstd::std_specs::vec::axiom_spec_len(&play.reviews_in_progress);
    let g = |x: PlayStreamEvent| resumed_reviews_shape(x, reviews, p, r, n, started);
    if r < n {
        let rr = resumed_review(
            PlayStreamEvent::PlayReviewStart { play: p, review: r as usize },
            PlayStreamEvent::PlayReviewEnd { play: p, review: r as usize },
            started,
            reviews[r],
        );
        assert(all_events(rr, g));
        lemma_play_reviews_shape(reviews, p, r + 1, n);
        lemma_all_weaken(play_reviews(reviews, p, r + 1, n), |x: PlayStreamEvent| play_review_shape(x, reviews, p, r + 1, n), g);
        lemma_all_concat(rr, play_reviews(reviews, p, r + 1, n), g);
    }
}

proof fn lemma_current_rest_shape(st: PlayStream, plays: Seq<PlayOutline>, c: int)
    requires
        0 <= c < plays.len(),
        plays.len() <= usize::MAX,
    ensures
        all_events(current_play_rest(st, plays[c], c as usize), |x: PlayStreamEvent| plays_shape(x, plays, c, c + 1)),
{
    let play = plays[c];
    let p = c as usize;
    let g = |x: PlayStreamEvent| plays_shape(x, plays, c, c + 1);
    assert(all_events(current_play_start(st, p), g));
    lemma_current_events_shape(st, play, p);
    lemma_all_weaken(
        current_play_events(st, play, p),
        |x: PlayStreamEvent| events_shape(x, play.events@, p, st.current_play_event_idx as int, play.events@.len() as int),
        g,
    );
    lemma_current_reviews_shape(st, play, p);
    lemma_all_weaken(
        current_play_reviews(st, play, p),
        |x: PlayStreamEvent|
            resumed_reviews_shape(
                x,
                play.reviews_in_progress@,
                p,
                st.current_play_review_idx as int,
                play.reviews_in_progress@.len() as int,
                st.in_progress_current_play_review,
            ),
        g,
    );
    assert(all_events(play_end(play, p), g));
    lemma_all_concat(current_play_start(st, p), current_play_events(st, play, p), g);
    lemma_all_concat(current_play_start(st, p) + current_play_events(st, play, p), current_play_reviews(st, play, p), g);
    lemma_all_concat(
        current_play_start(st, p) + current_play_events(st, play, p) + current_play_reviews(st, play, p),
        play_end(play, p),
        g,
    );
}

/// A poll stays within the plays it was given: every event it hands out names a play from the
/// stream's current one on, and a play event and review that the plays hold; it ends only
/// reviews that are finished and plays that are complete.
pub proof fn lemma_poll_within_plays(st: PlayStream, plays: Seq<PlayOutline>)
    requires
        plays.len() <= usize::MAX,
    ensures
        forall|k: int|
            0 <= k < poll_spec(st, plays).len() ==> within_plays(#[trigger] poll_spec(st, plays)[k], plays)
                && st.current_play_idx <= play_of(poll_spec(st, plays)[k]),
{
    let c = st.current_play_idx as int;
    let n = plays.len() as int;
    let g = |x: PlayStreamEvent| plays_shape(x, plays, c, n);
    if c < n {
        lemma_current_rest_shape(st, plays, c);
        lemma_all_weaken(current_play_rest(st, plays[c], c as usize), |x: PlayStreamEvent| plays_shape(x, plays, c, c + 1), g);
        lemma_plays_range_shape(plays, c + 1, n);
        lemma_all_weaken(plays_range(plays, c + 1, n), |x: PlayStreamEvent| plays_shape(x, plays, c + 1, n), g);
        lemma_all_concat(current_play_rest(st, plays[c], c as usize), plays_range(plays, c + 1, n), g);
        assert forall|k: int| 0 <= k < poll_spec(st, plays).len() implies within_plays(#[trigger] poll_spec(st, plays)[k], plays)
            && st.current_play_idx <= play_of(poll_spec(st, plays)[k]) by {
            assert(g(poll_spec(st, plays)[k]));
        }
    }
}


/// A poll ends only plays that are complete: every [`PlayStreamEvent::EndPlay`] it hands out
/// names a play of the list that is complete.
pub proof fn lemma_poll_ends_only_complete_plays(st: PlayStream, plays: Seq<PlayOutline>)
    requires
        plays.len() <= usize::MAX,
    ensures
        ends_only_complete(poll_spec(st, plays), plays),
{
    lemma_poll_within_plays(st, plays);
    let s = poll_spec(st, plays);
    assert forall|k: int| 0 <= k < s.len() implies (#[trigger] s[k] matches PlayStreamEvent::EndPlay { play } ==> play
        < plays.len() && plays[play as int].is_complete) by {
        assert(within_plays(s[k], plays));
    }
}

/// The play events still to come of a play from event `e` on, where the stream has handed out
/// event `e` already or not, and resumes its reviews at `r`, having started review `r` or not.
spec fn resumed_events_shape(
    x: PlayStreamEvent,
    evs: Seq<PlayEventOutline>,
    p: usize,
    e: int,
    handed: bool,
    r: int,
    started: bool,
) -> bool {
    &&& events_shape(x, evs, p, e, evs.len() as int)
    &&& match x {
        PlayStreamEvent::PlayEvent { event, .. } => event == e ==> !handed,
        PlayStreamEvent::PlayEventReviewStart { event, review, .. } => event == e ==> review >= r && (review == r
            ==> !started),
        PlayStreamEvent::PlayEventReviewEnd { event, review, .. } => event == e ==> review >= r,
        _ => true,
    }
}

proof fn lemma_current_events_resumed(st: PlayStream, play: PlayOutline, p: usize)
    ensures
        all_events(
            current_play_events(st, play, p),
            |x: PlayStreamEvent|
                resumed_events_shape(
                    x,
                    play.events@,
                    p,
                    st.current_play_event_idx as int,
                    st.in_progress_current_play_event,
                    st.current_play_event_review_idx as int,
                    st.in_progress_current_play_event_review,
                ),
        ),
{
    let evs = play.events@;
    let e = st.current_play_event_idx as int;
    let n = evs.len() as int;
    let handed = st.in_progress_current_play_event;
    let r = st.current_play_event_review_idx as int;
    let started = st.in_progress_current_play_event_review;
    vstd::std_specs::vec::axiom_spec_len(&play.events);
    let g = |x: PlayStreamEvent| resumed_events_shape(x, evs, p, e, handed, r, started);
    if e < n {
        let rv = evs[e].reviews_in_progress@;
        vstd::std_specs::vec::axiom_spec_len(&evs[e].reviews_in_progress);
        let head = event_head(handed, p, e as usize);
        assert(all_events(head, g));
        if r < rv.len() {
            let rr = resumed_review(
                PlayStreamEvent::PlayEventReviewStart { play: p, event: e as usize, review: r as usize },
                PlayStreamEvent::PlayEventReviewEnd { play: p, event: e as usize, review: r as usize },
                started,
                rv[r],
            );
            assert(all_events(rr, g));
            lemma_event_reviews_shape(rv, p, e as usize, r + 1, rv.len() as int);
            lemma_all_weaken(
                event_reviews(rv, p, e as usize, r + 1, rv.len() as int),
                |x: PlayStreamEvent| event_review_shape(x, rv, p, e as usize, r + 1, rv.len() as int),
                g,
            );
            lemma_all_concat(rr, event_reviews(rv, p, e as usize, r + 1, rv.len() as int), g);
            lemma_all_concat(head, rr + event_reviews(rv, p, e as usize, r + 1, rv.len() as int), g);
        } else {
            assert(head + Seq::<PlayStreamEvent>::empty() =~= head);
        }
        lemma_events_range_shape(evs, p, e + 1, n);
        lemma_all_weaken(events_range(evs, p, e + 1, n), |x: PlayStreamEvent| events_shape(x, evs, p, e + 1, n), g);
        lemma_all_concat(current_event_rest(st, evs[e], p, e as usize), events_range(evs, p, e + 1, n), g);
    }
}

/// Whether an event can come after a poll of `before`: it names a later play, or it is news of
/// the play that was still in progress then: a later play event, a later review of the play or
/// of its last play event, the end of such a review that was in progress, or the end of the
/// play.
pub open spec fn after_poll(x: PlayStreamEvent, before: Seq<PlayOutline>) -> bool {
    let n = before.len() as int;
    let in_progress = n > 0 && !before.last().is_complete;
    ||| play_of(x) >= n
    ||| in_progress && play_of(x) == n - 1 && match x {
        PlayStreamEvent::PlayReviewStart { review, .. } => review >= before.last().reviews_in_progress@.len(),
        PlayStreamEvent::PlayReviewEnd { review, .. } => review >= before.last().reviews_in_progress@.len()
            || before.last().reviews_in_progress@[review as int],
        PlayStreamEvent::EndPlay { .. } => true,
        PlayStreamEvent::PlayEvent { event, .. } => event >= before.last().events@.len(),
        PlayStreamEvent::PlayEventReviewStart { event, review, .. } => event >= before.last().events@.len() || (
        event == before.last().events@.len() - 1 && review
            >= before.last().events@.last().reviews_in_progress@.len()),
        PlayStreamEvent::PlayEventReviewEnd { event, review, .. } => event >= before.last().events@.len() || (event
            == before.last().events@.len() - 1 && (review >= before.last().events@.last().reviews_in_progress@.len()
            || before.last().events@.last().reviews_in_progress@[review as int])),
        _ => false,
    }
}

/// Once the stream has moved past a poll of `before`, the next poll, whatever plays it is
/// given, hands out only events that come after that poll.
pub proof fn lemma_next_poll_after(st: PlayStream, before: Seq<PlayOutline>, after: Seq<PlayOutline>)
    requires
        before.len() <= usize::MAX,
        after.len() <= usize::MAX,
    ensures
        forall|k: int|
            0 <= k < poll_spec(updated(st, before), after).len() ==> after_poll(
                #[trigger] poll_spec(updated(st, before), after)[k],
                before,
            ),
{
    let u = updated(st, before);
    let n = before.len() as int;
    let m = after.len() as int;
    let in_progress = n > 0 && !before.last().is_complete;
    let c = u.current_play_idx as int;
    assert(c == if in_progress { n - 1 } else { n });
    let g = |x: PlayStreamEvent| after_poll(x, before);
    if c < m {
        lemma_plays_range_shape(after, c + 1, m);
        lemma_all_weaken(plays_range(after, c + 1, m), |x: PlayStreamEvent| plays_shape(x, after, c + 1, m), g);
        let play = after[c];
        let p = c as usize;
        if in_progress {
            let last = before[n - 1];
            assert(before.last() == last);
            vstd::std_specs::vec::axiom_spec_len(&last.events);
            vstd::std_specs::vec::axiom_spec_len(&last.reviews_in_progress);
            assert(u.in_progress_current_play);
            assert(u.current_play_review_idx == resume_index(last.reviews_in_progress@));
            assert(u.in_progress_current_play_review == last_in_progress(last.reviews_in_progress@));
            assert(all_events(current_play_start(u, p), g));
            let le = last.events@.len();
            if le > 0 {
                let lrv = last.events@[le - 1].reviews_in_progress@;
                vstd::std_specs::vec::axiom_spec_len(&last.events@[le - 1].reviews_in_progress);
                assert(last.events@.last() == last.events@[le - 1]);
                assert(u.current_play_event_idx == le - 1);
                assert(u.in_progress_current_play_event);
                assert(u.current_play_event_review_idx == resume_index(lrv));
                assert(u.in_progress_current_play_event_review == last_in_progress(lrv));
            } else {
                assert(u.current_play_event_idx == 0);
                assert(!u.in_progress_current_play_event);
            }
            lemma_current_events_resumed(u, play, p);
            lemma_all_weaken(
                current_play_events(u, play, p),
                |x: PlayStreamEvent|
                    resumed_events_shape(
                        x,
                        play.events@,
                        p,
                        u.current_play_event_idx as int,
                        u.in_progress_current_play_event,
                        u.current_play_event_review_idx as int,
                        u.in_progress_current_play_event_review,
                    ),
                g,
            );
            lemma_current_reviews_shape(u, play, p);
            lemma_all_weaken(
                current_play_reviews(u, play, p),
                |x: PlayStreamEvent|
                    resumed_reviews_shape(
                        x,
                        play.reviews_in_progress@,
                        p,
                        u.current_play_review_idx as int,
                        play.reviews_in_progress@.len() as int,
                        u.in_progress_current_play_review,
                    ),
                g,
            );
            assert(all_events(play_end(play, p), g));
            lemma_all_concat(current_play_start(u, p), current_play_events(u, play, p), g);
            lemma_all_concat(current_play_start(u, p) + current_play_events(u, play, p), current_play_reviews(u, play, p), g);
            lemma_all_concat(
                current_play_start(u, p) + current_play_events(u, play, p) + current_play_reviews(u, play, p),
                play_end(play, p),
                g,
            );
        } else {
            lemma_current_rest_shape(u, after, c);
            lemma_all_weaken(current_play_rest(u, play, p), |x: PlayStreamEvent| plays_shape(x, after, c, c + 1), g);
        }
        lemma_all_concat(current_play_rest(u, play, p), plays_range(after, c + 1, m), g);
        assert forall|k: int| 0 <= k < poll_spec(u, after).len() implies after_poll(#[trigger] poll_spec(u, after)[k], before) by {
            assert(g(poll_spec(u, after)[k]));
        }
    }
}

/// Two polls in a row never hand out the same event: once the stream has moved past a poll of
/// `before`, no event of the next poll, whatever plays it is given, equals an event of the first.
pub proof fn lemma_consecutive_polls_disjoint(st: PlayStream, before: Seq<PlayOutline>, after: Seq<PlayOutline>)
    requires
        before.len() <= usize::MAX,
        after.len() <= usize::MAX,
    ensures
        poll_spec(st, before).disjoint(poll_spec(updated(st, before), after)),
{
    let first = poll_spec(st, before);
    let second = poll_spec(updated(st, before), after);
    lemma_poll_within_plays(st, before);
    lemma_next_poll_after(st, before, after);
    assert forall|i: int, j: int| 0 <= i < first.len() && 0 <= j < second.len() implies first[i] != second[j] by {
        assert(within_plays(first[i], before));
        assert(after_poll(second[j], before));
    }
}


/// The kind of an event: the start of a play, something of its play events, something of its
/// reviews, its end, or the start or end of the game.
spec fn kind_of(x: PlayStreamEvent) -> int {
    match x {
        PlayStreamEvent::StartPlay { .. } => 0,
        PlayStreamEvent::PlayEvent { .. } => 1,
        PlayStreamEvent::PlayEventReviewStart { .. } => 1,
        PlayStreamEvent::PlayEventReviewEnd { .. } => 1,
        PlayStreamEvent::PlayReviewStart { .. } => 2,
        PlayStreamEvent::PlayReviewEnd { .. } => 2,
        PlayStreamEvent::EndPlay { .. } => 3,
        _ => 4,
    }
}

proof fn lemma_concat_no_dup(
    a: Seq<PlayStreamEvent>,
    b: Seq<PlayStreamEvent>,
    f: spec_fn(PlayStreamEvent) -> bool,
    g: spec_fn(PlayStreamEvent) -> bool,
)
    requires
        a.no_duplicates(),
        b.no_duplicates(),
        all_events(a, f),
        all_events(b, g),
        forall|x: PlayStreamEvent| #[trigger] f(x) ==> !g(x),
    ensures
        (a + b).no_duplicates(),
{
    assert forall|i: int, j: int| 0 <= i < a.len() && 0 <= j < b.len() implies a[i] != b[j] by {
        assert(f(a[i]));
        assert(g(b[j]));
    }
    vstd::seq_lib::lemma_no_dup_in_concat(a, b);
}

proof fn lemma_four_kinds_no_dup(a: Seq<PlayStreamEvent>, b: Seq<PlayStreamEvent>, c: Seq<PlayStreamEvent>, d: Seq<PlayStreamEvent>)
    requires
        a.no_duplicates(),
        b.no_duplicates(),
        c.no_duplicates(),
        d.no_duplicates(),
        all_events(a, |x: PlayStreamEvent| kind_of(x) == 0),
        all_events(b, |x: PlayStreamEvent| kind_of(x) == 1),
        all_events(c, |x: PlayStreamEvent| kind_of(x) == 2),
        all_events(d, |x: PlayStreamEvent| kind_of(x) == 3),
    ensures
        (a + b + c + d).no_duplicates(),
{
    let k0 = |x: PlayStreamEvent| kind_of(x) == 0;
    let k1 = |x: PlayStreamEvent| kind_of(x) == 1;
    let k2 = |x: PlayStreamEvent| kind_of(x) == 2;
    let k3 = |x: PlayStreamEvent| kind_of(x) == 3;
    let below2 = |x: PlayStreamEvent| kind_of(x) < 2;
    let below3 = |x: PlayStreamEvent| kind_of(x) < 3;
    lemma_concat_no_dup(a, b, k0, k1);
    lemma_all_weaken(a, k0, below2);
    lemma_all_weaken(b, k1, below2);
    lemma_all_concat(a, b, below2);
    lemma_concat_no_dup(a + b, c, below2, k2);
    lemma_all_weaken(a + b, below2, below3);
    lemma_all_weaken(c, k2, below3);
    lemma_all_concat(a + b, c, below3);
    lemma_concat_no_dup(a + b + c, d, below3, k3);
}

proof fn lemma_event_reviews_no_dup(reviews: Seq<bool>, p: usize, e: usize, lo: int, hi: int)
    requires
        0 <= lo,
        hi <= reviews.len(),
        reviews.len() <= usize::MAX,
    ensures
        event_reviews(reviews, p, e, lo, hi).no_duplicates(),
    decreases hi - lo,
{
    if hi > lo {
        lemma_event_reviews_no_dup(reviews, p, e, lo, hi - 1);
        lemma_event_reviews_shape(reviews, p, e, lo, hi - 1);
        let r = (hi - 1) as usize;
        let pair = review_pair(
            PlayStreamEvent::PlayEventReviewStart { play: p, event: e, review: r },
            PlayStreamEvent::PlayEventReviewEnd { play: p, event: e, review: r },
            reviews[hi - 1],
        );
        let g = |x: PlayStreamEvent| event_review_shape(x, reviews, p, e, hi - 1, hi);
        assert(all_events(pair, g));
        assert(pair.no_duplicates());
        lemma_concat_no_dup(
            event_reviews(reviews, p, e, lo, hi - 1),
            pair,
            |x: PlayStreamEvent| event_review_shape(x, reviews, p, e, lo, hi - 1),
            g,
        );
    } else {
        assert(event_reviews(reviews, p, e, lo, hi) =~= Seq::<PlayStreamEvent>::empty());
    }
}

proof fn lemma_play_reviews_no_dup(reviews: Seq<bool>, p: usize, lo: int, hi: int)
    requires
        0 <= lo,
        hi <= reviews.len(),
        reviews.len() <= usize::MAX,
    ensures
        play_reviews(reviews, p, lo, hi).no_duplicates(),
    decreases hi - lo,
{
    if hi > lo {
        lemma_play_reviews_no_dup(reviews, p, lo, hi - 1);
        lemma_play_reviews_shape(reviews, p, lo, hi - 1);
        let r = (hi - 1) as usize;
        let pair = review_pair(
            PlayStreamEvent::PlayReviewStart { play: p, review: r },
            PlayStreamEvent::PlayReviewEnd { play: p, review: r },
            reviews[hi - 1],
        );
        let g = |x: PlayStreamEvent| play_review_shape(x, reviews, p, hi - 1, hi);
        assert(all_events(pair, g));
        assert(pair.no_duplicates());
        lemma_concat_no_dup(
            play_reviews(reviews, p, lo, hi - 1),
            pair,
            |x: PlayStreamEvent| play_review_shape(x, reviews, p, lo, hi - 1),
            g,
        );
    } else {
        assert(play_reviews(reviews, p, lo, hi) =~= Seq::<PlayStreamEvent>::empty());
    }
}

/// The events of a play event from review `r` on, after the event itself, hold no event twice.
proof fn lemma_event_rest_no_dup(evs: Seq<PlayEventOutline>, p: usize, i: int, handed: bool, r: int, started: bool)
    requires
        0 <= i < evs.len(),
        evs.len() <= usize::MAX,
        0 <= r,
    ensures
        ({
            let rv = evs[i].reviews_in_progress@;
            let tail = if r < rv.len() {
                resumed_review(
                    PlayStreamEvent::PlayEventReviewStart { play: p, event: i as usize, review: r as usize },
                    PlayStreamEvent::PlayEventReviewEnd { play: p, event: i as usize, review: r as usize },
                    started,
                    rv[r],
                ) + event_reviews(rv, p, i as usize, r + 1, rv.len() as int)
            } else {
                Seq::empty()
            };
            (event_head(handed, p, i as usize) + tail).no_duplicates()
        }),
{
    let rv = evs[i].reviews_in_progress@;
    vstd::std_specs::vec::axiom_spec_len(&evs[i].reviews_in_progress);
    let head = event_head(handed, p, i as usize);
    let not_event = |x: PlayStreamEvent| !(x is PlayEvent);
    let is_event = |x: PlayStreamEvent| x is PlayEvent;
    assert(head.no_duplicates());
    assert(all_events(head, is_event));
    if r < rv.len() {
        let rr = resumed_review(
            PlayStreamEvent::PlayEventReviewStart { play: p, event: i as usize, review: r as usize },
            PlayStreamEvent::PlayEventReviewEnd { play: p, event: i as usize, review: r as usize },
            started,
            rv[r],
        );
        let rest = event_reviews(rv, p, i as usize, r + 1, rv.len() as int);
        let at_r = |x: PlayStreamEvent| event_review_shape(x, rv, p, i as usize, r, r + 1);
        let after_r = |x: PlayStreamEvent| event_review_shape(x, rv, p, i as usize, r + 1, rv.len() as int);
        assert(all_events(rr, at_r));
        assert(rr.no_duplicates());
        lemma_event_reviews_shape(rv, p, i as usize, r + 1, rv.len() as int);
        lemma_event_reviews_no_dup(rv, p, i as usize, r + 1, rv.len() as int);
        lemma_concat_no_dup(rr, rest, at_r, after_r);
        lemma_all_weaken(rr, at_r, not_event);
        lemma_all_weaken(rest, after_r, not_event);
        lemma_all_concat(rr, rest, not_event);
        lemma_concat_no_dup(head, rr + rest, is_event, not_event);
    } else {
        assert(head + Seq::<PlayStreamEvent>::empty() =~= head);
    }
}

proof fn lemma_events_range_no_dup(evs: Seq<PlayEventOutline>, p: usize, lo: int, hi: int)
    requires
        0 <= lo,
        hi <= evs.len(),
        evs.len() <= usize::MAX,
    ensures
        events_range(evs, p, lo, hi).no_duplicates(),
    decreases hi - lo,
{
    if hi > lo {
        let i = hi - 1;
        lemma_events_range_no_dup(evs, p, lo, i);
        lemma_events_range_shape(evs, p, lo, i);
        lemma_event_full_shape(evs, p, i);
        lemma_event_rest_no_dup(evs, p, i, false, 0, false);
        let rv = evs[i].reviews_in_progress@;
        if 0 < rv.len() {
            lemma_event_reviews_front(rv, p, i as usize, 0, rv.len() as int);
        } else {
            assert(event_reviews(rv, p, i as usize, 0, 0) =~= Seq::<PlayStreamEvent>::empty());
        }
        assert(event_full(evs[i], p, i as usize) =~= seq![PlayStreamEvent::PlayEvent { play: p, event: i as usize }] + (
        if 0 < rv.len() {
            resumed_review(
                PlayStreamEvent::PlayEventReviewStart { play: p, event: i as usize, review: 0 },
                PlayStreamEvent::PlayEventReviewEnd { play: p, event: i as usize, review: 0 },
                false,
                rv[0],
            ) + event_reviews(rv, p, i as usize, 1, rv.len() as int)
        } else {
            Seq::empty()
        }));
        lemma_concat_no_dup(
            events_range(evs, p, lo, i),
            event_full(evs[i], p, i as usize),
            |x: PlayStreamEvent| events_shape(x, evs, p, lo, i),
            |x: PlayStreamEvent| events_shape(x, evs, p, i, i + 1),
        );
    } else {
        assert(events_range(evs, p, lo, hi) =~= Seq::<PlayStreamEvent>::empty());
    }
}


proof fn lemma_play_full_no_dup(play: PlayOutline, p: usize)
    ensures
        play_full(play, p).no_duplicates(),
{
    let evs = play.events@;
    let reviews = play.reviews_in_progress@;
    vstd::std_specs::vec::axiom_spec_len(&play.events);
    vstd::std_specs::vec::axiom_spec_len(&play.reviews_in_progress);
    let head = seq![PlayStreamEvent::StartPlay { play: p }];
    let evr = events_range(evs, p, 0, evs.len() as int);
    let prv = play_reviews(reviews, p, 0, reviews.len() as int);
    let end = play_end(play, p);
    assert(head.no_duplicates());
    assert(end.no_duplicates());
    assert(all_events(head, |x: PlayStreamEvent| kind_of(x) == 0));
    assert(all_events(end, |x: PlayStreamEvent| kind_of(x) == 3));
    lemma_events_range_no_dup(evs, p, 0, evs.len() as int);
    lemma_events_range_shape(evs, p, 0, evs.len() as int);
    lemma_all_weaken(
        evr,
        |x: PlayStreamEvent| events_shape(x, evs, p, 0, evs.len() as int),
        |x: PlayStreamEvent| kind_of(x) == 1,
    );
    lemma_play_reviews_no_dup(reviews, p, 0, reviews.len() as int);
    lemma_play_reviews_shape(reviews, p, 0, reviews.len() as int);
    lemma_all_weaken(
        prv,
        |x: PlayStreamEvent| play_review_shape(x, reviews, p, 0, reviews.len() as int),
        |x: PlayStreamEvent| kind_of(x) == 2,
    );
    lemma_four_kinds_no_dup(head, evr, prv, end);
}

proof fn lemma_plays_range_no_dup(plays: Seq<PlayOutline>, lo: int, hi: int)
    requires
        0 <= lo,
        hi <= plays.len(),
        plays.len() <= usize::MAX,
    ensures
        plays_range(plays, lo, hi).no_duplicates(),
    decreases hi - lo,
{
    if hi > lo {
        let i = hi - 1;
        lemma_plays_range_no_dup(plays, lo, i);
        lemma_plays_range_shape(plays, lo, i);
        lemma_play_full_shape(plays, i);
        lemma_play_full_no_dup(plays[i], i as usize);
        lemma_concat_no_dup(
            plays_range(plays, lo, i),
            play_full(plays[i], i as usize),
            |x: PlayStreamEvent| plays_shape(x, plays, lo, i),
            |x: PlayStreamEvent| plays_shape(x, plays, i, i + 1),
        );
    } else {
        assert(plays_range(plays, lo, hi) =~= Seq::<PlayStreamEvent>::empty());
    }
}

proof fn lemma_current_events_no_dup(st: PlayStream, play: PlayOutline, p: usize)
    ensures
        current_play_events(st, play, p).no_duplicates(),
{
    let evs = play.events@;
    let e = st.current_play_event_idx as int;
    let n = evs.len() as int;
    vstd::std_specs::vec::axiom_spec_len(&play.events);
    if e < n {
        let r = st.current_play_event_review_idx as int;
        let started = st.in_progress_current_play_event_review;
        let handed = st.in_progress_current_play_event;
        lemma_event_rest_no_dup(evs, p, e, handed, r, started);
        lemma_event_rest_shape(evs, p, e, handed, r, started);
        lemma_events_range_no_dup(evs, p, e + 1, n);
        lemma_events_range_shape(evs, p, e + 1, n);
        lemma_concat_no_dup(
            current_event_rest(st, evs[e], p, e as usize),
            events_range(evs, p, e + 1, n),
            |x: PlayStreamEvent| events_shape(x, evs, p, e, e + 1),
            |x: PlayStreamEvent| events_shape(x, evs, p, e + 1, n),
        );
    }
}

proof fn lemma_current_reviews_no_dup(st: PlayStream, play: PlayOutline, p: usize)
    ensures
        current_play_reviews(st, play, p).no_duplicates(),
{
    let reviews = play.reviews_in_progress@;
    let r = st.current_play_review_idx as int;
    let n = reviews.len() as int;
    vstd::std_specs::vec::axiom_spec_len(&play.reviews_in_progress);
    if r < n {
        let rr = resumed_review(
            PlayStreamEvent::PlayReviewStart { play: p, review: r as usize },
            PlayStreamEvent::PlayReviewEnd { play: p, review: r as usize },
            st.in_progress_current_play_review,
            reviews[r],
        );
        let at_r = |x: PlayStreamEvent| play_review_shape(x, reviews, p, r, r + 1);
        assert(all_events(rr, at_r));
        assert(rr.no_duplicates());
        lemma_play_reviews_no_dup(reviews, p, r + 1, n);
        lemma_play_reviews_shape(reviews, p, r + 1, n);
        lemma_concat_no_dup(
            rr,
            play_reviews(reviews, p, r + 1, n),
            at_r,
            |x: PlayStreamEvent| play_review_shape(x, reviews, p, r + 1, n),
        );
    }
}

proof fn lemma_current_rest_no_dup(st: PlayStream, play: PlayOutline, p: usize)
    ensures
        current_play_rest(st, play, p).no_duplicates(),
{
    let start = current_play_start(st, p);
    let evs = current_play_events(st, play, p);
    let rvs = current_play_reviews(st, play, p);
    let end = play_end(play, p);
    assert(start.no_duplicates());
    assert(end.no_duplicates());
    assert(all_events(start, |x: PlayStreamEvent| kind_of(x) == 0));
    assert(all_events(end, |x: PlayStreamEvent| kind_of(x) == 3));
    lemma_current_events_no_dup(st, play, p);
    lemma_current_events_shape(st, play, p);
    lemma_all_weaken(
        evs,
        |x: PlayStreamEvent| events_shape(x, play.events@, p, st.current_play_event_idx as int, play.events@.len() as int),
        |x: PlayStreamEvent| kind_of(x) == 1,
    );
    lemma_current_reviews_no_dup(st, play, p);
    lemma_current_reviews_shape(st, play, p);
    lemma_all_weaken(
        rvs,
        |x: PlayStreamEvent|
            resumed_reviews_shape(
                x,
                play.reviews_in_progress@,
                p,
                st.current_play_review_idx as int,
                play.reviews_in_progress@.len() as int,
                st.in_progress_current_play_review,
            ),
        |x: PlayStreamEvent| kind_of(x) == 2,
    );
    lemma_four_kinds_no_dup(start, evs, rvs, end);
}

/// A poll never hands out the same event twice.
pub proof fn lemma_poll_no_duplicates(st: PlayStream, plays: Seq<PlayOutline>)
    requires
        plays.len() <= usize::MAX,
    ensures
        poll_spec(st, plays).no_duplicates(),
{
    let c = st.current_play_idx as int;
    let n = plays.len() as int;
    if c < n {
        lemma_current_rest_no_dup(st, plays[c], c as usize);
        lemma_current_rest_shape(st, plays, c);
        lemma_plays_range_no_dup(plays, c + 1, n);
        lemma_plays_range_shape(plays, c + 1, n);
        lemma_concat_no_dup(
            current_play_rest(st, plays[c], c as usize),
            plays_range(plays, c + 1, n),
            |x: PlayStreamEvent| plays_shape(x, plays, c, c + 1),
            |x: PlayStreamEvent| plays_shape(x, plays, c + 1, n),
        );
    } else {
        assert(poll_spec(st, plays) =~= Seq::<PlayStreamEvent>::empty());
    }
}


/// Whether a list holds every event that satisfies `f`.
spec fn covers(s: Seq<PlayStreamEvent>, f: spec_fn(PlayStreamEvent) -> bool) -> bool {
    forall|x: PlayStreamEvent| #[trigger] f(x) ==> s.contains(x)
}

proof fn lemma_covers_concat(
    a: Seq<PlayStreamEvent>,
    b: Seq<PlayStreamEvent>,
    f: spec_fn(PlayStreamEvent) -> bool,
    g: spec_fn(PlayStreamEvent) -> bool,
    h: spec_fn(PlayStreamEvent) -> bool,
)
    requires
        covers(a, f),
        covers(b, g),
        forall|x: PlayStreamEvent| #[trigger] h(x) ==> f(x) || g(x),
    ensures
        covers(a + b, h),
{
    assert forall|x: PlayStreamEvent| #[trigger] h(x) implies (a + b).contains(x) by {
        if f(x) {
            assert(a.contains(x));
            let i = choose|i: int| 0 <= i < a.len() && a[i] == x;
            assert((a + b)[i] == x);
        } else {
            assert(g(x));
            assert(b.contains(x));
            let j = choose|j: int| 0 <= j < b.len() && b[j] == x;
            assert((a + b)[a.len() + j] == x);
        }
    }
}

proof fn lemma_covers_weaken(s: Seq<PlayStreamEvent>, f: spec_fn(PlayStreamEvent) -> bool, g: spec_fn(PlayStreamEvent) -> bool)
    requires
        covers(s, f),
        forall|x: PlayStreamEvent| #[trigger] g(x) ==> f(x),
    ensures
        covers(s, g),
{
    assert forall|x: PlayStreamEvent| #[trigger] g(x) implies s.contains(x) by {
        assert(f(x));
    }
}

proof fn lemma_event_reviews_cover(reviews: Seq<bool>, p: usize, e: usize, lo: int, hi: int)
    requires
        0 <= lo,
        hi <= reviews.len(),
        reviews.len() <= usize::MAX,
    ensures
        covers(event_reviews(reviews, p, e, lo, hi), |x: PlayStreamEvent| event_review_shape(x, reviews, p, e, lo, hi)),
    decreases hi - lo,
{
    let h = |x: PlayStreamEvent| event_review_shape(x, reviews, p, e, lo, hi);
    if hi > lo {
        lemma_event_reviews_cover(reviews, p, e, lo, hi - 1);
        let r = (hi - 1) as usize;
        let pair = review_pair(
            PlayStreamEvent::PlayEventReviewStart { play: p, event: e, review: r },
            PlayStreamEvent::PlayEventReviewEnd { play: p, event: e, review: r },
            reviews[hi - 1],
        );
        let g = |x: PlayStreamEvent| event_review_shape(x, reviews, p, e, hi - 1, hi);
        assert forall|x: PlayStreamEvent| #[trigger] g(x) implies pair.contains(x) by {
            if x is PlayEventReviewStart {
                assert(pair[0] == x);
            } else {
                assert(pair[1] == x);
            }
        }
        lemma_covers_concat(
            event_reviews(reviews, p, e, lo, hi - 1),
            pair,
            |x: PlayStreamEvent| event_review_shape(x, reviews, p, e, lo, hi - 1),
            g,
            h,
        );
    }
}

proof fn lemma_play_reviews_cover(reviews: Seq<bool>, p: usize, lo: int, hi: int)
    requires
        0 <= lo,
        hi <= reviews.len(),
        reviews.len() <= usize::MAX,
    ensures
        covers(play_reviews(reviews, p, lo, hi), |x: PlayStreamEvent| play_review_shape(x, reviews, p, lo, hi)),
    decreases hi - lo,
{
    let h = |x: PlayStreamEvent| play_review_shape(x, reviews, p, lo, hi);
    if hi > lo {
        lemma_play_reviews_cover(reviews, p, lo, hi - 1);
        let r = (hi - 1) as usize;
        let pair = review_pair(
            PlayStreamEvent::PlayReviewStart { play: p, review: r },
            PlayStreamEvent::PlayReviewEnd { play: p, review: r },
            reviews[hi - 1],
        );
        let g = |x: PlayStreamEvent| play_review_shape(x, reviews, p, hi - 1, hi);
        assert forall|x: PlayStreamEvent| #[trigger] g(x) implies pair.contains(x) by {
            if x is PlayReviewStart {
                assert(pair[0] == x);
            } else {
                assert(pair[1] == x);
            }
        }
        lemma_covers_concat(
            play_reviews(reviews, p, lo, hi - 1),
            pair,
            |x: PlayStreamEvent| play_review_shape(x, reviews, p, lo, hi - 1),
            g,
            h,
        );
    }
}

/// The play event an event names (`-1` where it names none).
spec fn event_index(x: PlayStreamEvent) -> int {
    match x {
        PlayStreamEvent::PlayEvent { event, .. } => event as int,
        PlayStreamEvent::PlayEventReviewStart { event, .. } => event as int,
        PlayStreamEvent::PlayEventReviewEnd { event, .. } => event as int,
        _ => -1,
    }
}

proof fn lemma_event_rest_cover(evs: Seq<PlayEventOutline>, p: usize, i: int, handed: bool, r: int, started: bool)
    requires
        0 <= i < evs.len(),
        evs.len() <= usize::MAX,
        0 <= r,
    ensures
        ({
            let rv = evs[i].reviews_in_progress@;
            let tail = if r < rv.len() {
                resumed_review(
                    PlayStreamEvent::PlayEventReviewStart { play: p, event: i as usize, review: r as usize },
                    PlayStreamEvent::PlayEventReviewEnd { play: p, event: i as usize, review: r as usize },
                    started,
                    rv[r],
                ) + event_reviews(rv, p, i as usize, r + 1, rv.len() as int)
            } else {
                Seq::empty()
            };
            covers(
                event_head(handed, p, i as usize) + tail,
                |x: PlayStreamEvent| resumed_events_shape(x, evs, p, i, handed, r, started) && event_index(x) == i,
            )
        }),
{
    let rv = evs[i].reviews_in_progress@;
    vstd::std_specs::vec::axiom_spec_len(&evs[i].reviews_in_progress);
    let head = event_head(handed, p, i as usize);
    let h = |x: PlayStreamEvent| resumed_events_shape(x, evs, p, i, handed, r, started) && event_index(x) == i;
    let is_head = |x: PlayStreamEvent| !handed && x == PlayStreamEvent::PlayEvent { play: p, event: i as usize };
    assert forall|x: PlayStreamEvent| #[trigger] is_head(x) implies head.contains(x) by {
        assert(head[0] == x);
    }
    if r < rv.len() {
        let rr = resumed_review(
            PlayStreamEvent::PlayEventReviewStart { play: p, event: i as usize, review: r as usize },
            PlayStreamEvent::PlayEventReviewEnd { play: p, event: i as usize, review: r as usize },
            started,
            rv[r],
        );
        let at_r = |x: PlayStreamEvent|
            (!started && x == PlayStreamEvent::PlayEventReviewStart { play: p, event: i as usize, review: r as usize })
                || (!rv[r] && x == PlayStreamEvent::PlayEventReviewEnd { play: p, event: i as usize, review: r as usize });
        assert forall|x: PlayStreamEvent| #[trigger] at_r(x) implies rr.contains(x) by {
            if !started && x == (PlayStreamEvent::PlayEventReviewStart { play: p, event: i as usize, review: r as usize }) {
                assert(rr[0] == x);
            } else if started {
                assert(rr[0] == x);
            } else {
                assert(rr[1] == x);
            }
        }
        let rest = event_reviews(rv, p, i as usize, r + 1, rv.len() as int);
        let later = |x: PlayStreamEvent| event_review_shape(x, rv, p, i as usize, r + 1, rv.len() as int);
        lemma_event_reviews_cover(rv, p, i as usize, r + 1, rv.len() as int);
        let reviews_part = |x: PlayStreamEvent| at_r(x) || later(x);
        lemma_covers_concat(rr, rest, at_r, later, reviews_part);
        lemma_covers_concat(head, rr + rest, is_head, reviews_part, h);
    } else {
        assert(head + Seq::<PlayStreamEvent>::empty() =~= head);
        lemma_covers_weaken(head, is_head, h);
    }
}


proof fn lemma_event_full_cover(evs: Seq<PlayEventOutline>, p: usize, i: int)
    requires
        0 <= i < evs.len(),
        evs.len() <= usize::MAX,
    ensures
        covers(event_full(evs[i], p, i as usize), |x: PlayStreamEvent| events_shape(x, evs, p, i, i + 1)),
{
    lemma_event_rest_cover(evs, p, i, false, 0, false);
    let rv = evs[i].reviews_in_progress@;
    if 0 < rv.len() {
        lemma_event_reviews_front(rv, p, i as usize, 0, rv.len() as int);
    } else {
        assert(event_reviews(rv, p, i as usize, 0, 0) =~= Seq::<PlayStreamEvent>::empty());
    }
    assert(event_full(evs[i], p, i as usize) =~= event_head(false, p, i as usize) + (if 0 < rv.len() {
        resumed_review(
            PlayStreamEvent::PlayEventReviewStart { play: p, event: i as usize, review: 0 },
            PlayStreamEvent::PlayEventReviewEnd { play: p, event: i as usize, review: 0 },
            false,
            rv[0],
        ) + event_reviews(rv, p, i as usize, 1, rv.len() as int)
    } else {
        Seq::empty()
    }));
    lemma_covers_weaken(
        event_full(evs[i], p, i as usize),
        |x: PlayStreamEvent| resumed_events_shape(x, evs, p, i, false, 0, false) && event_index(x) == i,
        |x: PlayStreamEvent| events_shape(x, evs, p, i, i + 1),
    );
}

proof fn lemma_events_range_cover(evs: Seq<PlayEventOutline>, p: usize, lo: int, hi: int)
    requires
        0 <= lo,
        hi <= evs.len(),
        evs.len() <= usize::MAX,
    ensures
        covers(events_range(evs, p, lo, hi), |x: PlayStreamEvent| events_shape(x, evs, p, lo, hi)),
    decreases hi - lo,
{
    if hi > lo {
        let i = hi - 1;
        lemma_events_range_cover(evs, p, lo, i);
        lemma_event_full_cover(evs, p, i);
        lemma_covers_concat(
            events_range(evs, p, lo, i),
            event_full(evs[i], p, i as usize),
            |x: PlayStreamEvent| events_shape(x, evs, p, lo, i),
            |x: PlayStreamEvent| events_shape(x, evs, p, i, i + 1),
            |x: PlayStreamEvent| events_shape(x, evs, p, lo, hi),
        );
    }
}

proof fn lemma_play_full_cover(plays: Seq<PlayOutline>, i: int)
    requires
        0 <= i < plays.len(),
        plays.len() <= usize::MAX,
    ensures
        covers(play_full(plays[i], i as usize), |x: PlayStreamEvent| plays_shape(x, plays, i, i + 1)),
{
    let play = plays[i];
    let p = i as usize;
    let evs = play.events@;
    let reviews = play.reviews_in_progress@;
    vstd::std_specs::vec::axiom_spec_len(&play.events);
    vstd::std_specs::vec::axiom_spec_len(&play.reviews_in_progress);
    let head = seq![PlayStreamEvent::StartPlay { play: p }];
    let evr = events_range(evs, p, 0, evs.len() as int);
    let prv = play_reviews(reviews, p, 0, reviews.len() as int);
    let end = play_end(play, p);
    let is_start = |x: PlayStreamEvent| x == PlayStreamEvent::StartPlay { play: p };
    let is_end = |x: PlayStreamEvent| play.is_complete && x == PlayStreamEvent::EndPlay { play: p };
    let ev_part = |x: PlayStreamEvent| events_shape(x, evs, p, 0, evs.len() as int);
    let rv_part = |x: PlayStreamEvent| play_review_shape(x, reviews, p, 0, reviews.len() as int);
    assert forall|x: PlayStreamEvent| #[trigger] is_start(x) implies head.contains(x) by {
        assert(head[0] == x);
    }
    assert forall|x: PlayStreamEvent| #[trigger] is_end(x) implies end.contains(x) by {
        assert(end[0] == x);
    }
    lemma_events_range_cover(evs, p, 0, evs.len() as int);
    lemma_play_reviews_cover(reviews, p, 0, reviews.len() as int);
    let f1 = |x: PlayStreamEvent| is_start(x) || ev_part(x);
    let f2 = |x: PlayStreamEvent| f1(x) || rv_part(x);
    lemma_covers_concat(head, evr, is_start, ev_part, f1);
    lemma_covers_concat(head + evr, prv, f1, rv_part, f2);
    lemma_covers_concat(head + evr + prv, end, f2, is_end, |x: PlayStreamEvent| plays_shape(x, plays, i, i + 1));
}

proof fn lemma_plays_range_cover(plays: Seq<PlayOutline>, lo: int, hi: int)
    requires
        0 <= lo,
        hi <= plays.len(),
        plays.len() <= usize::MAX,
    ensures
        covers(plays_range(plays, lo, hi), |x: PlayStreamEvent| plays_shape(x, plays, lo, hi)),
    decreases hi - lo,
{
    if hi > lo {
        let i = hi - 1;
        lemma_plays_range_cover(plays, lo, i);
        lemma_play_full_cover(plays, i);
        lemma_covers_concat(
            plays_range(plays, lo, i),
            play_full(plays[i], i as usize),
            |x: PlayStreamEvent| plays_shape(x, plays, lo, i),
            |x: PlayStreamEvent| plays_shape(x, plays, i, i + 1),
            |x: PlayStreamEvent| plays_shape(x, plays, lo, hi),
        );
    }
}

proof fn lemma_current_events_cover(st: PlayStream, play: PlayOutline, p: usize)
    ensures
        covers(
            current_play_events(st, play, p),
            |x: PlayStreamEvent|
                resumed_events_shape(
                    x,
                    play.events@,
                    p,
                    st.current_play_event_idx as int,
                    st.in_progress_current_play_event,
                    st.current_play_event_review_idx as int,
                    st.in_progress_current_play_event_review,
                ),
        ),
{
    let evs = play.events@;
    let e = st.current_play_event_idx as int;
    let n = evs.len() as int;
    let handed = st.in_progress_current_play_event;
    let r = st.current_play_event_review_idx as int;
    let started = st.in_progress_current_play_event_review;
    vstd::std_specs::vec::axiom_spec_len(&play.events);
    let h = |x: PlayStreamEvent| resumed_events_shape(x, evs, p, e, handed, r, started);
    if e < n {
        lemma_event_rest_cover(evs, p, e, handed, r, started);
        lemma_events_range_cover(evs, p, e + 1, n);
        lemma_covers_concat(
            current_event_rest(st, evs[e], p, e as usize),
            events_range(evs, p, e + 1, n),
            |x: PlayStreamEvent| resumed_events_shape(x, evs, p, e, handed, r, started) && event_index(x) == e,
            |x: PlayStreamEvent| events_shape(x, evs, p, e + 1, n),
            h,
        );
    }
}

proof fn lemma_current_reviews_cover(st: PlayStream, play: PlayOutline, p: usize)
    ensures
        covers(
            current_play_reviews(st, play, p),
            |x: PlayStreamEvent|
                resumed_reviews_shape(
                    x,
                    play.reviews_in_progress@,
                    p,
                    st.current_play_review_idx as int,
                    play.reviews_in_progress@.len() as int,
                    st.in_progress_current_play_review,
                ),
        ),
{
    let reviews = play.reviews_in_progress@;
    let r = st.current_play_review_idx as int;
    let n = reviews.len() as int;
    let started = st.in_progress_current_play_review;
    vstd::std_specs::vec::axiom_spec_len(&play.reviews_in_progress);
    let h = |x: PlayStreamEvent| resumed_reviews_shape(x, reviews, p, r, n, started);
    if r < n {
        let rr = resumed_review(
            PlayStreamEvent::PlayReviewStart { play: p, review: r as usize },
            PlayStreamEvent::PlayReviewEnd { play: p, review: r as usize },
            started,
            reviews[r],
        );
        let at_r = |x: PlayStreamEvent|
            (!started && x == PlayStreamEvent::PlayReviewStart { play: p, review: r as usize }) || (!reviews[r] && x
                == PlayStreamEvent::PlayReviewEnd { play: p, review: r as usize });
        assert forall|x: PlayStreamEvent| #[trigger] at_r(x) implies rr.contains(x) by {
            if !started && x == (PlayStreamEvent::PlayReviewStart { play: p, review: r as usize }) {
                assert(rr[0] == x);
            } else if started {
                assert(rr[0] == x);
            } else {
                assert(rr[1] == x);
            }
        }
        lemma_play_reviews_cover(reviews, p, r + 1, n);
        lemma_covers_concat(
            rr,
            play_reviews(reviews, p, r + 1, n),
            at_r,
            |x: PlayStreamEvent| play_review_shape(x, reviews, p, r + 1, n),
            h,
        );
    }
}


/// Whether the review flags `new` can follow `old` in a later feed: reviews are only added,
/// and of those already there only the last may change, from in progress to finished.
pub open spec fn reviews_grow(old: Seq<bool>, new: Seq<bool>) -> bool {
    &&& old.len() <= new.len()
    &&& forall|k: int| 0 <= k < old.len() - 1 ==> #[trigger] new[k] == old[k]
    &&& (old.len() > 0 && !old.last()) ==> !new[old.len() - 1]
}

/// Whether two outlines of a play agree on all the stream reads of it.
pub open spec fn same_play(a: PlayOutline, b: PlayOutline) -> bool {
    &&& a.is_complete == b.is_complete
    &&& a.reviews_in_progress@ == b.reviews_in_progress@
    &&& a.events@.len() == b.events@.len()
    &&& forall|k: int|
        0 <= k < a.events@.len() ==> #[trigger] a.events@[k].reviews_in_progress@ == b.events@[k].reviews_in_progress@
}

/// Whether the play events `new` can follow `old` in a later feed: events are only added, and
/// of those already there only the last may get new reviews or see its last review finish.
pub open spec fn events_grow(old: Seq<PlayEventOutline>, new: Seq<PlayEventOutline>) -> bool {
    &&& old.len() <= new.len()
    &&& forall|k: int|
        0 <= k < old.len() - 1 ==> #[trigger] new[k].reviews_in_progress@ == old[k].reviews_in_progress@
    &&& old.len() > 0 ==> reviews_grow(old.last().reviews_in_progress@, new[old.len() - 1].reviews_in_progress@)
}

/// Whether a play can become `new` in a later feed: a complete play stays as it is; a play in
/// progress may get new play events and reviews, and may become complete.
pub open spec fn play_grows(old: PlayOutline, new: PlayOutline) -> bool {
    if old.is_complete {
        same_play(old, new)
    } else {
        events_grow(old.events@, new.events@) && reviews_grow(old.reviews_in_progress@, new.reviews_in_progress@)
    }
}

/// Whether the plays `new` of a live feed can follow the plays `old` of an earlier one: plays
/// are only added, the plays before the last stay as they are, and the last grows as
/// [`play_grows`] says.
pub open spec fn feed_grows(old: Seq<PlayOutline>, new: Seq<PlayOutline>) -> bool {
    &&& old.len() <= new.len()
    &&& forall|p: int| 0 <= p < old.len() - 1 ==> same_play(#[trigger] old[p], new[p])
    &&& old.len() > 0 ==> play_grows(old.last(), new[old.len() - 1])
}

/// Whether two outlines of a play agree on its reviews and those of its play events, and on
/// how many play events it has; whether it is complete may differ.
pub open spec fn same_reviews(a: PlayOutline, b: PlayOutline) -> bool {
    &&& a.reviews_in_progress@ == b.reviews_in_progress@
    &&& a.events@.len() == b.events@.len()
    &&& forall|k: int|
        0 <= k < a.events@.len() ==> #[trigger] a.events@[k].reviews_in_progress@ == b.events@[k].reviews_in_progress@
}

/// Whether the plays `new` of a live feed can follow `old` as far as reviews go: plays are only
/// added; the reviews and play events of the plays before the last, and of a last play that is
/// complete, stay as they are; the last play, while in progress, grows as [`events_grow`] and
/// [`reviews_grow`] say. Whether a play is complete may change in any way.
pub open spec fn reviews_append(old: Seq<PlayOutline>, new: Seq<PlayOutline>) -> bool {
    &&& old.len() <= new.len()
    &&& forall|p: int| 0 <= p < old.len() - 1 ==> same_reviews(#[trigger] old[p], new[p])
    &&& old.len() > 0 ==> if old.last().is_complete {
        same_reviews(old.last(), new[old.len() - 1])
    } else {
        events_grow(old.last().events@, new[old.len() - 1].events@) && reviews_grow(
            old.last().reviews_in_progress@,
            new[old.len() - 1].reviews_in_progress@,
        )
    }
}

/// Whether the plays `new` of a live feed can follow `old` as far as the starts, play events and
/// ends of plays go: plays are only added; play events are only added to the last play while it
/// is in progress, and a last play that is complete stays complete while it is the last.
/// Anything else about the plays may change.
pub open spec fn plays_append(old: Seq<PlayOutline>, new: Seq<PlayOutline>) -> bool {
    &&& old.len() <= new.len()
    &&& forall|p: int| 0 <= p < old.len() - 1 ==> (#[trigger] new[p]).events@.len() == old[p].events@.len()
    &&& old.len() > 0 ==> if old.last().is_complete {
        &&& new[old.len() - 1].events@.len() == old.last().events@.len()
        &&& new.len() == old.len() ==> new[old.len() - 1].is_complete
    } else {
        old.last().events@.len() <= new[old.len() - 1].events@.len()
    }
}

/// Growth as [`feed_grows`] says is growth both as [`reviews_append`] and as [`plays_append`]
/// say.
proof fn lemma_feed_grows_parts(before: Seq<PlayOutline>, after: Seq<PlayOutline>)
    requires
        feed_grows(before, after),
    ensures
        reviews_append(before, after),
        plays_append(before, after),
{
    let n = before.len() as int;
    assert forall|p: int| 0 <= p < n - 1 implies same_reviews(#[trigger] before[p], after[p]) by {
        assert(same_play(before[p], after[p]));
    }
    assert forall|p: int| 0 <= p < n - 1 implies (#[trigger] after[p]).events@.len() == before[p].events@.len() by {
        assert(same_play(before[p], after[p]));
    }
}

/// An event of a play that stays as it is lies within the earlier feed exactly where it lies
/// within the later one.
proof fn lemma_within_same_play(x: PlayStreamEvent, before: Seq<PlayOutline>, after: Seq<PlayOutline>)
    requires
        0 <= play_of(x) < before.len() <= after.len(),
        same_reviews(before[play_of(x)], after[play_of(x)]),
        x is EndPlay ==> before[play_of(x)].is_complete == after[play_of(x)].is_complete,
    ensures
        within_plays(x, before) <==> within_plays(x, after),
{
    let p = play_of(x);
    let a = before[p];
    let b = after[p];
    match x {
        PlayStreamEvent::PlayEventReviewStart { event, .. } => {
            if event < a.events@.len() {
                assert(a.events@[event as int].reviews_in_progress@ == b.events@[event as int].reviews_in_progress@);
            }
        },
        PlayStreamEvent::PlayEventReviewEnd { event, .. } => {
            if event < a.events@.len() {
                assert(a.events@[event as int].reviews_in_progress@ == b.events@[event as int].reviews_in_progress@);
            }
        },
        _ => {},
    }
}

/// What a feed holds stays in every later feed.
proof fn lemma_within_grows(x: PlayStreamEvent, before: Seq<PlayOutline>, after: Seq<PlayOutline>)
    requires
        feed_grows(before, after),
        within_plays(x, before),
    ensures
        within_plays(x, after),
{
    let n = before.len() as int;
    let p = play_of(x);
    assert(0 <= p < n);
    if p < n - 1 {
        assert(same_play(before[p], after[p]));
        lemma_within_same_play(x, before, after);
    } else {
        let a = before[p];
        let b = after[p];
        assert(before.last() == a);
        if a.is_complete {
            lemma_within_same_play(x, before, after);
        } else {
            let ne = a.events@.len() as int;
            match x {
                PlayStreamEvent::PlayEventReviewStart { event, review, .. } => {
                    if event < ne - 1 {
                        assert(b.events@[event as int].reviews_in_progress@ == a.events@[event as int].reviews_in_progress@);
                    } else {
                        assert(a.events@.last() == a.events@[event as int]);
                    }
                },
                PlayStreamEvent::PlayEventReviewEnd { event, review, .. } => {
                    if event < ne - 1 {
                        assert(b.events@[event as int].reviews_in_progress@ == a.events@[event as int].reviews_in_progress@);
                    } else {
                        let old_r = a.events@[event as int].reviews_in_progress@;
                        let new_r = b.events@[event as int].reviews_in_progress@;
                        assert(a.events@.last() == a.events@[event as int]);
                        assert(reviews_grow(old_r, new_r));
                        if review < old_r.len() - 1 {
                            assert(new_r[review as int] == old_r[review as int]);
                        }
                    }
                },
                PlayStreamEvent::PlayReviewEnd { review, .. } => {
                    let old_r = a.reviews_in_progress@;
                    let new_r = b.reviews_in_progress@;
                    if review < old_r.len() - 1 {
                        assert(new_r[review as int] == old_r[review as int]);
                    }
                },
                _ => {},
            }
        }
    }
}


/// The events still to come of the current play `p` of a stream: its start where not handed
/// out, the rest of its play events and reviews, and its end where it is complete.
spec fn rest_shape(x: PlayStreamEvent, st: PlayStream, play: PlayOutline, p: usize) -> bool {
    match x {
        PlayStreamEvent::StartPlay { play: q } => q == p && !st.in_progress_current_play,
        PlayStreamEvent::EndPlay { play: q } => q == p && play.is_complete,
        PlayStreamEvent::PlayReviewStart { .. } | PlayStreamEvent::PlayReviewEnd { .. } => resumed_reviews_shape(
            x,
            play.reviews_in_progress@,
            p,
            st.current_play_review_idx as int,
            play.reviews_in_progress@.len() as int,
            st.in_progress_current_play_review,
        ),
        PlayStreamEvent::PlayEvent { .. }
        | PlayStreamEvent::PlayEventReviewStart { .. }
        | PlayStreamEvent::PlayEventReviewEnd { .. } => resumed_events_shape(
            x,
            play.events@,
            p,
            st.current_play_event_idx as int,
            st.in_progress_current_play_event,
            st.current_play_event_review_idx as int,
            st.in_progress_current_play_event_review,
        ),
        _ => false,
    }
}

proof fn lemma_current_rest_cover(st: PlayStream, play: PlayOutline, p: usize)
    ensures
        covers(current_play_rest(st, play, p), |x: PlayStreamEvent| rest_shape(x, st, play, p)),
{
    let start = current_play_start(st, p);
    let evs = current_play_events(st, play, p);
    let rvs = current_play_reviews(st, play, p);
    let end = play_end(play, p);
    let is_start = |x: PlayStreamEvent| !st.in_progress_current_play && x == PlayStreamEvent::StartPlay { play: p };
    let is_end = |x: PlayStreamEvent| play.is_complete && x == PlayStreamEvent::EndPlay { play: p };
    let ev_part = |x: PlayStreamEvent|
        resumed_events_shape(
            x,
            play.events@,
            p,
            st.current_play_event_idx as int,
            st.in_progress_current_play_event,
            st.current_play_event_review_idx as int,
            st.in_progress_current_play_event_review,
        );
    let rv_part = |x: PlayStreamEvent|
        resumed_reviews_shape(
            x,
            play.reviews_in_progress@,
            p,
            st.current_play_review_idx as int,
            play.reviews_in_progress@.len() as int,
            st.in_progress_current_play_review,
        );
    assert forall|x: PlayStreamEvent| #[trigger] is_start(x) implies start.contains(x) by {
        assert(start[0] == x);
    }
    assert forall|x: PlayStreamEvent| #[trigger] is_end(x) implies end.contains(x) by {
        assert(end[0] == x);
    }
    lemma_current_events_cover(st, play, p);
    lemma_current_reviews_cover(st, play, p);
    let f1 = |x: PlayStreamEvent| is_start(x) || ev_part(x);
    let f2 = |x: PlayStreamEvent| f1(x) || rv_part(x);
    lemma_covers_concat(start, evs, is_start, ev_part, f1);
    lemma_covers_concat(start + evs, rvs, f1, rv_part, f2);
    lemma_covers_concat(start + evs + rvs, end, f2, is_end, |x: PlayStreamEvent| rest_shape(x, st, play, p));
}

/// An event of the play the stream stands at after a poll of `before`, which a later feed
/// holds and `before` did not, is one the stream still has to hand out.
proof fn lemma_new_event_rest_shape(x: PlayStreamEvent, st: PlayStream, before: Seq<PlayOutline>, after: Seq<PlayOutline>)
    requires
        reviews_append(before, after),
        before.len() <= usize::MAX,
        after.len() <= usize::MAX,
        within_plays(x, after),
        !within_plays(x, before),
        play_of(x) == updated(st, before).current_play_idx,
        updated(st, before).current_play_idx < after.len(),
    ensures
        rest_shape(x, updated(st, before), after[play_of(x)], play_of(x) as usize),
{
    let u = updated(st, before);
    let n = before.len() as int;
    let c = play_of(x);
    let in_progress = n > 0 && !before.last().is_complete;
    assert(c == if in_progress { n - 1 } else { n });
    let b = after[c];
    if in_progress {
        let a = before[c];
        assert(before.last() == a);
        vstd::std_specs::vec::axiom_spec_len(&a.events);
        vstd::std_specs::vec::axiom_spec_len(&a.reviews_in_progress);
        let ne = a.events@.len() as int;
        let old_r = a.reviews_in_progress@;
        let new_r = b.reviews_in_progress@;
        assert(u.current_play_review_idx == resume_index(old_r));
        assert(u.in_progress_current_play_review == last_in_progress(old_r));
        if ne > 0 {
            let old_er = a.events@[ne - 1].reviews_in_progress@;
            vstd::std_specs::vec::axiom_spec_len(&a.events@[ne - 1].reviews_in_progress);
            assert(a.events@.last() == a.events@[ne - 1]);
            assert(u.current_play_event_idx == ne - 1);
            assert(u.in_progress_current_play_event);
            assert(u.current_play_event_review_idx == resume_index(old_er));
            assert(u.in_progress_current_play_event_review == last_in_progress(old_er));
        } else {
            assert(u.current_play_event_idx == 0);
            assert(!u.in_progress_current_play_event);
            assert(u.current_play_event_review_idx == 0);
            assert(!u.in_progress_current_play_event_review);
        }
        match x {
            PlayStreamEvent::PlayEventReviewStart { event, review, .. } => {
                if event < ne - 1 {
                    assert(b.events@[event as int].reviews_in_progress@ == a.events@[event as int].reviews_in_progress@);
                }
            },
            PlayStreamEvent::PlayEventReviewEnd { event, review, .. } => {
                if event < ne - 1 {
                    assert(b.events@[event as int].reviews_in_progress@ == a.events@[event as int].reviews_in_progress@);
                } else if event == ne - 1 {
                    let old_er = a.events@[event as int].reviews_in_progress@;
                    let new_er = b.events@[event as int].reviews_in_progress@;
                    if review < old_er.len() - 1 {
                        assert(new_er[review as int] == old_er[review as int]);
                    }
                }
            },
            PlayStreamEvent::PlayReviewEnd { review, .. } => {
                if review < old_r.len() - 1 {
                    assert(new_r[review as int] == old_r[review as int]);
                }
            },
            _ => {},
        }
    } else {
        assert(u.current_play_idx == n);
        assert(!u.in_progress_current_play);
        assert(u.current_play_event_idx == 0);
        assert(!u.in_progress_current_play_event);
        assert(u.current_play_event_review_idx == 0);
        assert(!u.in_progress_current_play_event_review);
        assert(u.current_play_review_idx == 0);
        assert(!u.in_progress_current_play_review);
    }
}


/// Once the stream has moved past a poll of `before`, a poll of a feed whose reviews grew from it
/// hands out every event that the new feed holds and `before` did not, but the end of a play
/// that was behind the last play of `before`.
pub proof fn lemma_next_poll_hands_out_all_news(st: PlayStream, before: Seq<PlayOutline>, after: Seq<PlayOutline>)
    requires
        reviews_append(before, after),
        before.len() <= usize::MAX,
        after.len() <= usize::MAX,
    ensures
        forall|x: PlayStreamEvent|
            within_plays(x, after) && !within_plays(x, before) && (x is EndPlay ==> play_of(x) >= before.len() - 1)
                ==> #[trigger] poll_spec(updated(st, before), after).contains(x),
{
    let u = updated(st, before);
    let n = before.len() as int;
    let m = after.len() as int;
    let c = u.current_play_idx as int;
    let in_progress = n > 0 && !before.last().is_complete;
    assert(c == if in_progress { n - 1 } else { n });
    let target = |x: PlayStreamEvent|
        within_plays(x, after) && !within_plays(x, before) && (x is EndPlay ==> play_of(x) >= n - 1);
    assert forall|x: PlayStreamEvent| #[trigger] target(x) implies play_of(x) >= c by {
        let p = play_of(x);
        if p < c {
            if p < n - 1 {
                assert(same_reviews(before[p], after[p]));
            } else {
                assert(before.last() == before[p]);
            }
            lemma_within_same_play(x, before, after);
        }
    }
    if c < m {
        let play = after[c];
        lemma_current_rest_cover(u, play, c as usize);
        lemma_plays_range_cover(after, c + 1, m);
        let f = |x: PlayStreamEvent| rest_shape(x, u, play, c as usize);
        let g = |x: PlayStreamEvent| plays_shape(x, after, c + 1, m);
        assert forall|x: PlayStreamEvent| #[trigger] target(x) implies f(x) || g(x) by {
            assert(play_of(x) >= c);
            if play_of(x) == c {
                lemma_new_event_rest_shape(x, st, before, after);
            }
        }
        lemma_covers_concat(current_play_rest(u, play, c as usize), plays_range(after, c + 1, m), f, g, target);
        assert forall|x: PlayStreamEvent|
            within_plays(x, after) && !within_plays(x, before) && (x is EndPlay ==> play_of(x) >= n - 1) implies #[trigger] poll_spec(
                u,
                after,
            ).contains(x) by {
            assert(target(x));
        }
    } else {
        assert forall|x: PlayStreamEvent|
            within_plays(x, after) && !within_plays(x, before) && (x is EndPlay ==> play_of(x) >= n - 1) implies #[trigger] poll_spec(
                u,
                after,
            ).contains(x) by {
            assert(target(x));
            assert(play_of(x) >= c);
        }
    }
}

/// Where a stream stands after polling the first `i` feeds of a run, each poll followed by
/// moving past it.
pub open spec fn stream_after(g: GameId, feeds: Seq<Seq<PlayOutline>>, i: int) -> PlayStream
    decreases i,
{
    if i <= 0 {
        fresh(g)
    } else {
        updated(stream_after(g, feeds, i - 1), feeds[i - 1])
    }
}

/// The events that the polls of the first `i` feeds of a run hand out, in order.
pub open spec fn run_events(g: GameId, feeds: Seq<Seq<PlayOutline>>, i: int) -> Seq<PlayStreamEvent>
    decreases i,
{
    if i <= 0 {
        Seq::empty()
    } else {
        run_events(g, feeds, i - 1) + poll_spec(stream_after(g, feeds, i - 1), feeds[i - 1])
    }
}

/// Whether each feed of a run fits in memory and grows from the one before.
pub open spec fn feeds_grow(feeds: Seq<Seq<PlayOutline>>) -> bool {
    &&& forall|i: int| 0 <= i < feeds.len() ==> (#[trigger] feeds[i]).len() <= usize::MAX
    &&& forall|i: int| 0 <= i < feeds.len() - 1 ==> feed_grows(#[trigger] feeds[i], feeds[i + 1])
}

/// The events handed out before a poll, all within the feed `before`, and those of the next
/// poll, all after it, keep each play's start first and end last.
proof fn lemma_run_order_concat(prev: Seq<PlayStreamEvent>, poll: Seq<PlayStreamEvent>, before: Seq<PlayOutline>)
    requires
        starts_and_ends_in_order(prev),
        starts_and_ends_in_order(poll),
        forall|k: int| 0 <= k < prev.len() ==> within_plays(#[trigger] prev[k], before),
        forall|k: int| 0 <= k < poll.len() ==> after_poll(#[trigger] poll[k], before),
    ensures
        starts_and_ends_in_order(prev + poll),
{
    let s = prev + poll;
    let n = prev.len();
    assert forall|i: int, j: int|
        #![trigger s[i], s[j]]
        0 <= i < s.len() && 0 <= j < s.len() && i != j && s[i] is StartPlay && play_of(s[j]) == play_of(s[i]) implies i
            < j by {
        if i < n {
            assert(s[i] == prev[i]);
            if j < n {
                assert(s[j] == prev[j]);
            }
        } else {
            assert(s[i] == poll[i - n]);
            assert(after_poll(poll[i - n], before));
            if j < n {
                assert(s[j] == prev[j]);
                assert(within_plays(prev[j], before));
            } else {
                assert(s[j] == poll[j - n]);
            }
        }
    }
    assert forall|i: int, j: int|
        #![trigger s[i], s[j]]
        0 <= i < s.len() && 0 <= j < s.len() && i != j && s[i] is EndPlay && play_of(s[j]) == play_of(s[i]) implies j
            < i by {
        if i < n {
            assert(s[i] == prev[i]);
            assert(within_plays(prev[i], before));
            if j < n {
                assert(s[j] == prev[j]);
            } else {
                assert(s[j] == poll[j - n]);
                assert(after_poll(poll[j - n], before));
                let p = play_of(prev[i]);
                if p == before.len() - 1 {
                    assert(before.last() == before[p]);
                }
            }
        } else {
            assert(s[i] == poll[i - n]);
            if j >= n {
                assert(s[j] == poll[j - n]);
            }
        }
    }
}

proof fn lemma_run_events_step(g: GameId, feeds: Seq<Seq<PlayOutline>>, i: int)
    requires
        1 <= i <= feeds.len(),
        feeds_grow(feeds),
    ensures
        run_events(g, feeds, i).no_duplicates(),
        forall|x: PlayStreamEvent| #[trigger] run_events(g, feeds, i).contains(x) <==> within_plays(x, feeds[i - 1]),
        starts_and_ends_in_order(run_events(g, feeds, i)),
    decreases i,
{
    let f = feeds[i - 1];
    assert(f.len() <= usize::MAX);
    let st = stream_after(g, feeds, i - 1);
    let poll = poll_spec(st, f);
    let prev = run_events(g, feeds, i - 1);
    assert(run_events(g, feeds, i) == prev + poll);
    lemma_poll_no_duplicates(st, f);
    lemma_poll_within_plays(st, f);
    lemma_poll_order(st, f);
    if i == 1 {
        assert(prev =~= Seq::<PlayStreamEvent>::empty());
        assert(prev + poll =~= poll);
        assert(st == fresh(g));
        lemma_fresh_stream_polls_everything(g, f);
        lemma_plays_range_cover(f, 0, f.len() as int);
        assert(run_events(g, feeds, i) == poll);
        assert(poll == plays_range(f, 0, f.len() as int));
        assert forall|x: PlayStreamEvent| #[trigger] run_events(g, feeds, i).contains(x) <==> within_plays(x, f) by {
            if within_plays(x, f) {
                let shape = |y: PlayStreamEvent| plays_shape(y, f, 0, f.len() as int);
                assert(shape(x));
                assert(covers(plays_range(f, 0, f.len() as int), shape));
                assert(plays_range(f, 0, f.len() as int).contains(x));
            }
            if poll.contains(x) {
                let k = choose|k: int| 0 <= k < poll.len() && poll[k] == x;
                assert(within_plays(poll[k], f));
            }
        }
    } else {
        let before = feeds[i - 2];
        assert(before.len() <= usize::MAX);
        assert(feed_grows(before, f));
        lemma_run_events_step(g, feeds, i - 1);
        let st0 = stream_after(g, feeds, i - 2);
        assert(st == updated(st0, before));
        lemma_next_poll_after(st0, before, f);
        lemma_feed_grows_parts(before, f);
        lemma_next_poll_hands_out_all_news(st0, before, f);
        assert forall|a: int, b: int| 0 <= a < prev.len() && 0 <= b < poll.len() implies prev[a] != poll[b] by {
            assert(prev.contains(prev[a]));
            assert(within_plays(prev[a], before));
            assert(after_poll(poll[b], before));
        }
        vstd::seq_lib::lemma_no_dup_in_concat(prev, poll);
        assert forall|k: int| 0 <= k < prev.len() implies within_plays(#[trigger] prev[k], before) by {
            assert(prev.contains(prev[k]));
        }
        lemma_run_order_concat(prev, poll, before);
        assert forall|x: PlayStreamEvent| #[trigger] run_events(g, feeds, i).contains(x) <==> within_plays(x, f) by {
            if (prev + poll).contains(x) {
                let k = choose|k: int| 0 <= k < (prev + poll).len() && (prev + poll)[k] == x;
                if k < prev.len() {
                    assert(prev[k] == x);
                    assert(prev.contains(x));
                    lemma_within_grows(x, before, f);
                } else {
                    assert(poll[k - prev.len()] == x);
                    assert(within_plays(poll[k - prev.len()], f));
                }
            }
            if within_plays(x, f) {
                if within_plays(x, before) {
                    assert(prev.contains(x));
                    let k = choose|k: int| 0 <= k < prev.len() && prev[k] == x;
                    assert((prev + poll)[k] == x);
                } else {
                    if x is EndPlay && play_of(x) < before.len() - 1 {
                        assert(same_play(before[play_of(x)], f[play_of(x)]));
                        lemma_within_same_play(x, before, f);
                    }
                    assert(poll.contains(x));
                    let k = choose|k: int| 0 <= k < poll.len() && poll[k] == x;
                    assert((prev + poll)[prev.len() + k] == x);
                }
            }
        }
    }
}

/// Over a whole run of polls on feeds that grow as [`feed_grows`] says (the plays behind the
/// last, and a complete last play, stay entirely as they are), the stream hands out each event
/// of the last feed exactly once, and nothing else: each play is started once, each play event and
/// each review start is handed out once, each review end once where the review is finished,
/// and each play ended once where it is complete. Each play's start comes before its other
/// events, and its end after them.
pub proof fn lemma_run_hands_out_each_event_once(g: GameId, feeds: Seq<Seq<PlayOutline>>)
    requires
        feeds.len() > 0,
        feeds_grow(feeds),
    ensures
        run_events(g, feeds, feeds.len() as int).no_duplicates(),
        starts_and_ends_in_order(run_events(g, feeds, feeds.len() as int)),
        forall|x: PlayStreamEvent|
            #[trigger] run_events(g, feeds, feeds.len() as int).contains(x) <==> within_plays(x, feeds.last()),
{
    lemma_run_events_step(g, feeds, feeds.len() as int);
}


/// Whether, in a list of events, the start of each play comes before every other event of that
/// play, and the end of each play after every other event of it.
pub open spec fn starts_and_ends_in_order(s: Seq<PlayStreamEvent>) -> bool {
    &&& forall|a: int, b: int|
        #![trigger s[a], s[b]]
        0 <= a < s.len() && 0 <= b < s.len() && a != b && s[a] is StartPlay && play_of(s[b]) == play_of(s[a]) ==> a < b
    &&& forall|a: int, b: int|
        #![trigger s[a], s[b]]
        0 <= a < s.len() && 0 <= b < s.len() && a != b && s[a] is EndPlay && play_of(s[b]) == play_of(s[a]) ==> b < a
}

proof fn lemma_four_kinds_order(a: Seq<PlayStreamEvent>, b: Seq<PlayStreamEvent>, c: Seq<PlayStreamEvent>, d: Seq<PlayStreamEvent>)
    requires
        a.len() <= 1,
        d.len() <= 1,
        all_events(a, |x: PlayStreamEvent| kind_of(x) == 0),
        all_events(b, |x: PlayStreamEvent| kind_of(x) == 1),
        all_events(c, |x: PlayStreamEvent| kind_of(x) == 2),
        all_events(d, |x: PlayStreamEvent| kind_of(x) == 3),
    ensures
        starts_and_ends_in_order(a + b + c + d),
{
    let s = a + b + c + d;
    assert forall|k: int| 0 <= k < s.len() implies (k < a.len() <==> kind_of(s[k]) == 0) && (k >= a.len() + b.len()
        + c.len() <==> kind_of(s[k]) == 3) by {
        if k < a.len() {
            assert(s[k] == a[k]);
        } else if k < a.len() + b.len() {
            assert(s[k] == b[k - a.len()]);
        } else if k < a.len() + b.len() + c.len() {
            assert(s[k] == c[k - a.len() - b.len()]);
        } else {
            assert(s[k] == d[k - a.len() - b.len() - c.len()]);
        }
    }
}

proof fn lemma_order_concat(a: Seq<PlayStreamEvent>, b: Seq<PlayStreamEvent>)
    requires
        starts_and_ends_in_order(a),
        starts_and_ends_in_order(b),
        forall|i: int, j: int|
            #![trigger a[i], b[j]]
            0 <= i < a.len() && 0 <= j < b.len() ==> play_of(a[i]) != play_of(b[j]),
    ensures
        starts_and_ends_in_order(a + b),
{
    let s = a + b;
    assert forall|i: int, j: int|
        #![trigger s[i], s[j]]
        0 <= i < s.len() && 0 <= j < s.len() && i != j && play_of(s[i]) == play_of(s[j]) implies (i < a.len()
            <==> j < a.len()) by {
        if i < a.len() && j >= a.len() {
            assert(s[i] == a[i]);
            assert(s[j] == b[j - a.len()]);
        }
        if j < a.len() && i >= a.len() {
            assert(s[j] == a[j]);
            assert(s[i] == b[i - a.len()]);
        }
    }
    assert forall|i: int, j: int|
        #![trigger s[i], s[j]]
        0 <= i < s.len() && 0 <= j < s.len() && i != j && s[i] is StartPlay && play_of(s[j]) == play_of(s[i]) implies i
            < j by {
        if i < a.len() {
            assert(s[i] == a[i]);
            if j < a.len() {
                assert(s[j] == a[j]);
            }
        } else {
            assert(s[i] == b[i - a.len()]);
            assert(s[j] == b[j - a.len()]);
        }
    }
    assert forall|i: int, j: int|
        #![trigger s[i], s[j]]
        0 <= i < s.len() && 0 <= j < s.len() && i != j && s[i] is EndPlay && play_of(s[j]) == play_of(s[i]) implies j
            < i by {
        if i < a.len() {
            assert(s[i] == a[i]);
            assert(s[j] == a[j]);
        } else {
            assert(s[i] == b[i - a.len()]);
            if j >= a.len() {
                assert(s[j] == b[j - a.len()]);
            }
        }
    }
}

proof fn lemma_play_full_order(play: PlayOutline, p: usize)
    ensures
        starts_and_ends_in_order(play_full(play, p)),
{
    let evs = play.events@;
    let reviews = play.reviews_in_progress@;
    vstd::std_specs::vec::axiom_spec_len(&play.events);
    vstd::std_specs::vec::axiom_spec_len(&play.reviews_in_progress);
    let head = seq![PlayStreamEvent::StartPlay { play: p }];
    let evr = events_range(evs, p, 0, evs.len() as int);
    let prv = play_reviews(reviews, p, 0, reviews.len() as int);
    let end = play_end(play, p);
    assert(all_events(head, |x: PlayStreamEvent| kind_of(x) == 0));
    assert(all_events(end, |x: PlayStreamEvent| kind_of(x) == 3));
    lemma_events_range_shape(evs, p, 0, evs.len() as int);
    lemma_all_weaken(
        evr,
        |x: PlayStreamEvent| events_shape(x, evs, p, 0, evs.len() as int),
        |x: PlayStreamEvent| kind_of(x) == 1,
    );
    lemma_play_reviews_shape(reviews, p, 0, reviews.len() as int);
    lemma_all_weaken(
        prv,
        |x: PlayStreamEvent| play_review_shape(x, reviews, p, 0, reviews.len() as int),
        |x: PlayStreamEvent| kind_of(x) == 2,
    );
    lemma_four_kinds_order(head, evr, prv, end);
}

proof fn lemma_plays_range_order(plays: Seq<PlayOutline>, lo: int, hi: int)
    requires
        0 <= lo,
        hi <= plays.len(),
        plays.len() <= usize::MAX,
    ensures
        starts_and_ends_in_order(plays_range(plays, lo, hi)),
    decreases hi - lo,
{
    if hi > lo {
        let i = hi - 1;
        lemma_plays_range_order(plays, lo, i);
        lemma_play_full_order(plays[i], i as usize);
        lemma_plays_range_shape(plays, lo, i);
        lemma_play_full_shape(plays, i);
        let a = plays_range(plays, lo, i);
        let b = play_full(plays[i], i as usize);
        assert forall|x: int, y: int| #![trigger a[x], b[y]] 0 <= x < a.len() && 0 <= y < b.len() implies play_of(a[x])
            != play_of(b[y]) by {
            assert(plays_shape(a[x], plays, lo, i));
            assert(plays_shape(b[y], plays, i, i + 1));
        }
        lemma_order_concat(a, b);
    } else {
        assert(plays_range(plays, lo, hi) =~= Seq::<PlayStreamEvent>::empty());
    }
}

proof fn lemma_current_rest_order(st: PlayStream, play: PlayOutline, p: usize)
    ensures
        starts_and_ends_in_order(current_play_rest(st, play, p)),
{
    let start = current_play_start(st, p);
    let evs = current_play_events(st, play, p);
    let rvs = current_play_reviews(st, play, p);
    let end = play_end(play, p);
    assert(all_events(start, |x: PlayStreamEvent| kind_of(x) == 0));
    assert(all_events(end, |x: PlayStreamEvent| kind_of(x) == 3));
    lemma_current_events_shape(st, play, p);
    lemma_all_weaken(
        evs,
        |x: PlayStreamEvent| events_shape(x, play.events@, p, st.current_play_event_idx as int, play.events@.len() as int),
        |x: PlayStreamEvent| kind_of(x) == 1,
    );
    lemma_current_reviews_shape(st, play, p);
    lemma_all_weaken(
        rvs,
        |x: PlayStreamEvent|
            resumed_reviews_shape(
                x,
                play.reviews_in_progress@,
                p,
                st.current_play_review_idx as int,
                play.reviews_in_progress@.len() as int,
                st.in_progress_current_play_review,
            ),
        |x: PlayStreamEvent| kind_of(x) == 2,
    );
    lemma_four_kinds_order(start, evs, rvs, end);
}

/// Within a poll, each play's start comes before its other events, and its end after them.
proof fn lemma_poll_order(st: PlayStream, plays: Seq<PlayOutline>)
    requires
        plays.len() <= usize::MAX,
    ensures
        starts_and_ends_in_order(poll_spec(st, plays)),
{
    let c = st.current_play_idx as int;
    let n = plays.len() as int;
    if c < n {
        let a = current_play_rest(st, plays[c], c as usize);
        let b = plays_range(plays, c + 1, n);
        lemma_current_rest_order(st, plays[c], c as usize);
        lemma_plays_range_order(plays, c + 1, n);
        lemma_current_rest_shape(st, plays, c);
        lemma_plays_range_shape(plays, c + 1, n);
        assert forall|x: int, y: int| #![trigger a[x], b[y]] 0 <= x < a.len() && 0 <= y < b.len() implies play_of(a[x])
            != play_of(b[y]) by {
            assert(plays_shape(a[x], plays, c, c + 1));
            assert(plays_shape(b[y], plays, c + 1, n));
        }
        lemma_order_concat(a, b);
    } else {
        assert(poll_spec(st, plays) =~= Seq::<PlayStreamEvent>::empty());
    }
}


/// What a poll from stream `st` hands out: events of the current play still to come, or events
/// of a later play.
spec fn poll_shape(x: PlayStreamEvent, st: PlayStream, plays: Seq<PlayOutline>) -> bool {
    let c = st.current_play_idx as int;
    ||| (play_of(x) == c && rest_shape(x, st, plays[c], c as usize))
    ||| plays_shape(x, plays, c + 1, plays.len() as int)
}

proof fn lemma_poll_exact_shape(st: PlayStream, plays: Seq<PlayOutline>)
    requires
        plays.len() <= usize::MAX,
    ensures
        all_events(poll_spec(st, plays), |x: PlayStreamEvent| poll_shape(x, st, plays)),
{
    let c = st.current_play_idx as int;
    let n = plays.len() as int;
    let g = |x: PlayStreamEvent| poll_shape(x, st, plays);
    if c < n {
        let play = plays[c];
        let p = c as usize;
        let start = current_play_start(st, p);
        let evs = current_play_events(st, play, p);
        let rvs = current_play_reviews(st, play, p);
        let end = play_end(play, p);
        assert(all_events(start, g));
        assert(all_events(end, g));
        lemma_current_events_resumed(st, play, p);
        lemma_all_weaken(
            evs,
            |x: PlayStreamEvent|
                resumed_events_shape(
                    x,
                    play.events@,
                    p,
                    st.current_play_event_idx as int,
                    st.in_progress_current_play_event,
                    st.current_play_event_review_idx as int,
                    st.in_progress_current_play_event_review,
                ),
            g,
        );
        lemma_current_reviews_shape(st, play, p);
        lemma_all_weaken(
            rvs,
            |x: PlayStreamEvent|
                resumed_reviews_shape(
                    x,
                    play.reviews_in_progress@,
                    p,
                    st.current_play_review_idx as int,
                    play.reviews_in_progress@.len() as int,
                    st.in_progress_current_play_review,
                ),
            g,
        );
        lemma_all_concat(start, evs, g);
        lemma_all_concat(start + evs, rvs, g);
        lemma_all_concat(start + evs + rvs, end, g);
        lemma_plays_range_shape(plays, c + 1, n);
        lemma_all_weaken(plays_range(plays, c + 1, n), |x: PlayStreamEvent| plays_shape(x, plays, c + 1, n), g);
        lemma_all_concat(current_play_rest(st, play, p), plays_range(plays, c + 1, n), g);
    } else {
        assert(poll_spec(st, plays) =~= Seq::<PlayStreamEvent>::empty());
    }
}


/// Whether an event starts or ends a review.
pub open spec fn is_review_event(x: PlayStreamEvent) -> bool {
    ||| x is PlayReviewStart
    ||| x is PlayReviewEnd
    ||| x is PlayEventReviewStart
    ||| x is PlayEventReviewEnd
}

/// Where the reviews of a feed grow as [`reviews_append`] says, what the feed holds, other than
/// the end of a play, stays in the later feed.
proof fn lemma_within_grows_but_ends(x: PlayStreamEvent, before: Seq<PlayOutline>, after: Seq<PlayOutline>)
    requires
        reviews_append(before, after),
        within_plays(x, before),
        !(x is EndPlay),
    ensures
        within_plays(x, after),
{
    let n = before.len() as int;
    let p = play_of(x);
    assert(0 <= p < n);
    if p < n - 1 {
        assert(same_reviews(before[p], after[p]));
        lemma_within_same_play(x, before, after);
    } else {
        let a = before[p];
        let b = after[p];
        assert(before.last() == a);
        if a.is_complete {
            lemma_within_same_play(x, before, after);
        } else {
            let ne = a.events@.len() as int;
            match x {
                PlayStreamEvent::PlayEventReviewStart { event, review, .. } => {
                    if event < ne - 1 {
                        assert(b.events@[event as int].reviews_in_progress@ == a.events@[event as int].reviews_in_progress@);
                    } else {
                        assert(a.events@.last() == a.events@[event as int]);
                    }
                },
                PlayStreamEvent::PlayEventReviewEnd { event, review, .. } => {
                    if event < ne - 1 {
                        assert(b.events@[event as int].reviews_in_progress@ == a.events@[event as int].reviews_in_progress@);
                    } else {
                        let old_r = a.events@[event as int].reviews_in_progress@;
                        let new_r = b.events@[event as int].reviews_in_progress@;
                        assert(a.events@.last() == a.events@[event as int]);
                        assert(reviews_grow(old_r, new_r));
                        if review < old_r.len() - 1 {
                            assert(new_r[review as int] == old_r[review as int]);
                        }
                    }
                },
                PlayStreamEvent::PlayReviewEnd { review, .. } => {
                    let old_r = a.reviews_in_progress@;
                    let new_r = b.reviews_in_progress@;
                    if review < old_r.len() - 1 {
                        assert(new_r[review as int] == old_r[review as int]);
                    }
                },
                _ => {},
            }
        }
    }
}

/// Whether each feed of a run fits in memory and its reviews grow from the feed before, as
/// [`reviews_append`] says.
pub open spec fn feeds_reviews_append(feeds: Seq<Seq<PlayOutline>>) -> bool {
    &&& forall|i: int| 0 <= i < feeds.len() ==> (#[trigger] feeds[i]).len() <= usize::MAX
    &&& forall|i: int| 0 <= i < feeds.len() - 1 ==> reviews_append(#[trigger] feeds[i], feeds[i + 1])
}

proof fn lemma_run_reviews_step(g: GameId, feeds: Seq<Seq<PlayOutline>>, i: int)
    requires
        1 <= i <= feeds.len(),
        feeds_reviews_append(feeds),
    ensures
        forall|x: PlayStreamEvent|
            is_review_event(x) ==> (#[trigger] run_events(g, feeds, i).contains(x) <==> within_plays(x, feeds[i - 1])),
        forall|a: int, b: int|
            #![trigger run_events(g, feeds, i)[a], run_events(g, feeds, i)[b]]
            0 <= a < run_events(g, feeds, i).len() && 0 <= b < run_events(g, feeds, i).len() && a != b
                && is_review_event(run_events(g, feeds, i)[a]) ==> run_events(g, feeds, i)[a] != run_events(g, feeds, i)[b],
    decreases i,
{
    let f = feeds[i - 1];
    assert(f.len() <= usize::MAX);
    let st = stream_after(g, feeds, i - 1);
    let poll = poll_spec(st, f);
    let prev = run_events(g, feeds, i - 1);
    let run = run_events(g, feeds, i);
    assert(run == prev + poll);
    lemma_poll_no_duplicates(st, f);
    lemma_poll_within_plays(st, f);
    if i == 1 {
        assert(prev =~= Seq::<PlayStreamEvent>::empty());
        assert(st == fresh(g));
        lemma_fresh_stream_polls_everything(g, f);
        lemma_plays_range_cover(f, 0, f.len() as int);
        assert(run == poll);
        assert forall|x: PlayStreamEvent| is_review_event(x) implies (#[trigger] run.contains(x) <==> within_plays(x, f)) by {
            if within_plays(x, f) {
                let shape = |y: PlayStreamEvent| plays_shape(y, f, 0, f.len() as int);
                assert(shape(x));
                assert(plays_range(f, 0, f.len() as int).contains(x));
            }
            if poll.contains(x) {
                let k = choose|k: int| 0 <= k < poll.len() && poll[k] == x;
                assert(within_plays(poll[k], f));
            }
        }
    } else {
        let before = feeds[i - 2];
        assert(before.len() <= usize::MAX);
        assert(reviews_append(before, f));
        lemma_run_reviews_step(g, feeds, i - 1);
        let st0 = stream_after(g, feeds, i - 2);
        assert(st == updated(st0, before));
        lemma_next_poll_after(st0, before, f);
        lemma_next_poll_hands_out_all_news(st0, before, f);
        assert forall|a: int, b: int|
            #![trigger run[a], run[b]]
            0 <= a < run.len() && 0 <= b < run.len() && a != b && is_review_event(run[a]) implies run[a] != run[b] by {
            let n = prev.len();
            if a < n && b < n {
                assert(run[a] == prev[a] && run[b] == prev[b]);
            } else if a >= n && b >= n {
                assert(run[a] == poll[a - n] && run[b] == poll[b - n]);
            } else {
                let (k, l) = if a < n { (a, b - n) } else { (b, a - n) };
                assert(run[a] == prev[a] || run[a] == poll[a - n]);
                assert(prev.contains(prev[k]));
                if prev[k] == poll[l] {
                    assert(is_review_event(prev[k]));
                    assert(within_plays(prev[k], before));
                    assert(after_poll(poll[l], before));
                }
            }
        }
        assert forall|x: PlayStreamEvent| is_review_event(x) implies (#[trigger] run.contains(x) <==> within_plays(x, f)) by {
            if run.contains(x) {
                let k = choose|k: int| 0 <= k < run.len() && run[k] == x;
                if k < prev.len() {
                    assert(prev[k] == x);
                    assert(prev.contains(x));
                    lemma_within_grows_but_ends(x, before, f);
                } else {
                    assert(poll[k - prev.len()] == x);
                    assert(within_plays(poll[k - prev.len()], f));
                }
            }
            if within_plays(x, f) {
                if within_plays(x, before) {
                    assert(prev.contains(x));
                    let k = choose|k: int| 0 <= k < prev.len() && prev[k] == x;
                    assert(run[k] == x);
                } else {
                    assert(poll.contains(x));
                    let k = choose|k: int| 0 <= k < poll.len() && poll[k] == x;
                    assert(run[prev.len() + k] == x);
                }
            }
        }
    }
}

/// Over a run of polls on feeds whose reviews grow as [`reviews_append`] says (whether a play is
/// complete may change in any way), the stream starts each review the last feed holds exactly
/// once, and ends it exactly once where it is finished; it starts or ends no other review.
pub proof fn lemma_run_hands_out_each_review_once(g: GameId, feeds: Seq<Seq<PlayOutline>>)
    requires
        feeds.len() > 0,
        feeds_reviews_append(feeds),
    ensures
        forall|x: PlayStreamEvent|
            is_review_event(x) ==> (#[trigger] run_events(g, feeds, feeds.len() as int).contains(x) <==> within_plays(
                x,
                feeds.last(),
            )),
        forall|a: int, b: int|
            #![trigger run_events(g, feeds, feeds.len() as int)[a], run_events(g, feeds, feeds.len() as int)[b]]
            0 <= a < run_events(g, feeds, feeds.len() as int).len() && 0 <= b < run_events(
                g,
                feeds,
                feeds.len() as int,
            ).len() && a != b && is_review_event(run_events(g, feeds, feeds.len() as int)[a])
                ==> run_events(g, feeds, feeds.len() as int)[a] != run_events(g, feeds, feeds.len() as int)[b],
{
    lemma_run_reviews_step(g, feeds, feeds.len() as int);
}


/// Whether an event is one that a run hands out at most once whatever happens to the plays
/// behind the last: the start of a play, a play event, or the end of a play.
pub open spec fn is_play_step(x: PlayStreamEvent) -> bool {
    ||| x is StartPlay
    ||| x is PlayEvent
    ||| x is EndPlay
}

/// Whether each feed of a run fits in memory and grows from the feed before as
/// [`plays_append`] says.
pub open spec fn feeds_append(feeds: Seq<Seq<PlayOutline>>) -> bool {
    &&& forall|i: int| 0 <= i < feeds.len() ==> (#[trigger] feeds[i]).len() <= usize::MAX
    &&& forall|i: int| 0 <= i < feeds.len() - 1 ==> plays_append(#[trigger] feeds[i], feeds[i + 1])
}

/// Events handed out before a poll, of plays below `n` and ending only plays below `c`, and the
/// events of the poll, of plays from `c` on and starting only plays from `n` on, keep each
/// play's start first and end last.
proof fn lemma_order_concat_plays(prev: Seq<PlayStreamEvent>, poll: Seq<PlayStreamEvent>, n: int, c: int)
    requires
        starts_and_ends_in_order(prev),
        starts_and_ends_in_order(poll),
        forall|k: int| 0 <= k < prev.len() ==> play_of(#[trigger] prev[k]) < n,
        forall|k: int| 0 <= k < prev.len() ==> (#[trigger] prev[k] is EndPlay ==> play_of(prev[k]) < c),
        forall|k: int| 0 <= k < poll.len() ==> play_of(#[trigger] poll[k]) >= c,
        forall|k: int| 0 <= k < poll.len() ==> (#[trigger] poll[k] is StartPlay ==> play_of(poll[k]) >= n),
    ensures
        starts_and_ends_in_order(prev + poll),
{
    let s = prev + poll;
    let np = prev.len();
    assert forall|i: int, j: int|
        #![trigger s[i], s[j]]
        0 <= i < s.len() && 0 <= j < s.len() && i != j && s[i] is StartPlay && play_of(s[j]) == play_of(s[i]) implies i
            < j by {
        if i < np {
            assert(s[i] == prev[i]);
            if j < np {
                assert(s[j] == prev[j]);
            }
        } else {
            assert(s[i] == poll[i - np]);
            if j < np {
                assert(s[j] == prev[j]);
            } else {
                assert(s[j] == poll[j - np]);
            }
        }
    }
    assert forall|i: int, j: int|
        #![trigger s[i], s[j]]
        0 <= i < s.len() && 0 <= j < s.len() && i != j && s[i] is EndPlay && play_of(s[j]) == play_of(s[i]) implies j
            < i by {
        if i < np {
            assert(s[i] == prev[i]);
            if j < np {
                assert(s[j] == prev[j]);
            } else {
                assert(s[j] == poll[j - np]);
            }
        } else {
            assert(s[i] == poll[i - np]);
            if j >= np {
                assert(s[j] == poll[j - np]);
            }
        }
    }
}


/// What a poll hands out once the stream has moved past a poll of `before`, for a feed that
/// grew from it as [`plays_append`] says: events from the play the stream stands at on, starts
/// only of new plays, and only new play events; all new starts and play events; and the stream
/// does not move back.
proof fn lemma_plays_poll_facts(st0: PlayStream, before: Seq<PlayOutline>, f: Seq<PlayOutline>)
    requires
        plays_append(before, f),
        before.len() <= usize::MAX,
        f.len() <= usize::MAX,
    ensures
        ({
            let stp = updated(st0, before);
            let poll = poll_spec(stp, f);
            let c = stp.current_play_idx as int;
            let n = before.len() as int;
            &&& forall|k: int|
                0 <= k < poll.len() ==> play_of(#[trigger] poll[k]) >= c && (poll[k] is StartPlay ==> play_of(poll[k])
                    >= n) && (poll[k] matches PlayStreamEvent::PlayEvent { play, event } ==> (play < n ==> event
                    >= before[play as int].events@.len()))
            &&& forall|x: PlayStreamEvent|
                (x is StartPlay || x is PlayEvent) && within_plays(x, f) && !within_plays(x, before)
                    ==> #[trigger] poll.contains(x)
            &&& c <= updated(stp, f).current_play_idx
            &&& c <= n
        }),
{
    let stp = updated(st0, before);
    let poll = poll_spec(stp, f);
    let n = before.len() as int;
    let m = f.len() as int;
    let c = stp.current_play_idx as int;
    let in_prog = n > 0 && !before.last().is_complete;
    assert(c == if in_prog { n - 1 } else { n });
    assert(stp.in_progress_current_play == in_prog);
    if in_prog {
        let last = before[n - 1];
        assert(before.last() == last);
        vstd::std_specs::vec::axiom_spec_len(&last.events);
        if last.events@.len() > 0 {
            assert(stp.current_play_event_idx == last.events@.len() - 1);
            assert(stp.in_progress_current_play_event);
        } else {
            assert(stp.current_play_event_idx == 0);
            assert(!stp.in_progress_current_play_event);
        }
    } else {
        assert(stp.current_play_event_idx == 0);
        assert(!stp.in_progress_current_play_event);
    }
    lemma_poll_exact_shape(stp, f);
    assert forall|k: int| 0 <= k < poll.len() implies play_of(#[trigger] poll[k]) >= c && (poll[k] is StartPlay
        ==> play_of(poll[k]) >= n) && (poll[k] matches PlayStreamEvent::PlayEvent { play, event } ==> (play < n
        ==> event >= before[play as int].events@.len())) by {
        assert(poll_shape(poll[k], stp, f));
    }
    let st = updated(stp, f);
    assert(c <= st.current_play_idx) by {
        if m == n && n > 0 && before.last().is_complete {
            assert(f.last() == f[n - 1]);
        }
    }
    if c < m {
        lemma_current_rest_cover(stp, f[c], c as usize);
        lemma_plays_range_cover(f, c + 1, m);
    }
    assert forall|x: PlayStreamEvent|
        (x is StartPlay || x is PlayEvent) && within_plays(x, f) && !within_plays(x, before) implies #[trigger] poll.contains(
        x,
    ) by {
        let p = play_of(x);
        assert(c <= p < m) by {
            if p < n - 1 {
                assert(f[p].events@.len() == before[p].events@.len());
            } else if p == n - 1 {
                assert(before.last() == before[p]);
            }
        }
        let rest = current_play_rest(stp, f[c], c as usize);
        let later = plays_range(f, c + 1, m);
        assert(poll == rest + later);
        if p == c {
            let shape = |y: PlayStreamEvent| rest_shape(y, stp, f[c], c as usize);
            if p == n - 1 {
                assert(before.last() == before[p]);
            }
            assert(shape(x));
            assert(rest.contains(x));
            let k = choose|k: int| 0 <= k < rest.len() && rest[k] == x;
            assert(poll[k] == x);
        } else {
            let shape = |y: PlayStreamEvent| plays_shape(y, f, c + 1, m);
            assert(shape(x));
            assert(later.contains(x));
            let k = choose|k: int| 0 <= k < later.len() && later[k] == x;
            assert(poll[rest.len() + k] == x);
        }
    }
}


/// An end handed out by a poll names a play that the stream is past once it has moved past the
/// poll.
proof fn lemma_poll_ends_behind(st: PlayStream, f: Seq<PlayOutline>)
    requires
        f.len() <= usize::MAX,
    ensures
        forall|k: int|
            0 <= k < poll_spec(st, f).len() ==> (#[trigger] poll_spec(st, f)[k] is EndPlay ==> play_of(
                poll_spec(st, f)[k],
            ) < updated(st, f).current_play_idx),
{
    let poll = poll_spec(st, f);
    let m = f.len() as int;
    lemma_poll_within_plays(st, f);
    let in_prog_new = m > 0 && !f.last().is_complete;
    assert(updated(st, f).current_play_idx == if in_prog_new { m - 1 } else { m });
    assert forall|k: int| 0 <= k < poll.len() implies (#[trigger] poll[k] is EndPlay ==> play_of(poll[k]) < updated(
        st,
        f,
    ).current_play_idx) by {
        assert(within_plays(poll[k], f));
        if play_of(poll[k]) == m - 1 {
            assert(f.last() == f[m - 1]);
        }
    }
}

proof fn lemma_run_plays_step(g: GameId, feeds: Seq<Seq<PlayOutline>>, i: int)
    requires
        1 <= i <= feeds.len(),
        feeds_append(feeds),
    ensures
        forall|x: PlayStreamEvent|
            (x is StartPlay || x is PlayEvent) ==> (#[trigger] run_events(g, feeds, i).contains(x) <==> within_plays(
                x,
                feeds[i - 1],
            )),
        forall|a: int, b: int|
            #![trigger run_events(g, feeds, i)[a], run_events(g, feeds, i)[b]]
            0 <= a < run_events(g, feeds, i).len() && 0 <= b < run_events(g, feeds, i).len() && a != b
                && is_play_step(run_events(g, feeds, i)[a]) ==> run_events(g, feeds, i)[a] != run_events(g, feeds, i)[b],
        forall|k: int|
            0 <= k < run_events(g, feeds, i).len() ==> (#[trigger] run_events(g, feeds, i)[k] is EndPlay ==> play_of(
                run_events(g, feeds, i)[k],
            ) < stream_after(g, feeds, i).current_play_idx),
        forall|k: int|
            0 <= k < run_events(g, feeds, i).len() ==> 0 <= play_of(#[trigger] run_events(g, feeds, i)[k])
                < feeds[i - 1].len(),
        starts_and_ends_in_order(run_events(g, feeds, i)),
    decreases i,
{
    let f = feeds[i - 1];
    let m = f.len() as int;
    assert(f.len() <= usize::MAX);
    let stp = stream_after(g, feeds, i - 1);
    let poll = poll_spec(stp, f);
    let prev = run_events(g, feeds, i - 1);
    let run = run_events(g, feeds, i);
    let st = stream_after(g, feeds, i);
    assert(run == prev + poll);
    assert(st == updated(stp, f));
    lemma_poll_no_duplicates(stp, f);
    lemma_poll_within_plays(stp, f);
    lemma_poll_order(stp, f);
    lemma_poll_ends_behind(stp, f);
    if i == 1 {
        assert(prev =~= Seq::<PlayStreamEvent>::empty());
        assert(stp == fresh(g));
        assert(run == poll);
        lemma_fresh_stream_polls_everything(g, f);
        lemma_plays_range_cover(f, 0, m);
        assert forall|x: PlayStreamEvent| (x is StartPlay || x is PlayEvent) implies (#[trigger] run.contains(x)
            <==> within_plays(x, f)) by {
            if within_plays(x, f) {
                let shape = |y: PlayStreamEvent| plays_shape(y, f, 0, m);
                assert(shape(x));
                assert(plays_range(f, 0, m).contains(x));
            }
            if poll.contains(x) {
                let k = choose|k: int| 0 <= k < poll.len() && poll[k] == x;
                assert(within_plays(poll[k], f));
            }
        }
        assert forall|k: int| 0 <= k < run.len() implies 0 <= play_of(#[trigger] run[k]) < m by {
            assert(within_plays(poll[k], f));
        }
    } else {
        let before = feeds[i - 2];
        let n = before.len() as int;
        assert(before.len() <= usize::MAX);
        assert(plays_append(before, f));
        lemma_run_plays_step(g, feeds, i - 1);
        let st0 = stream_after(g, feeds, i - 2);
        assert(stp == updated(st0, before));
        let c = stp.current_play_idx as int;
        lemma_plays_poll_facts(st0, before, f);
        assert forall|a: int, b: int|
            #![trigger run[a], run[b]]
            0 <= a < run.len() && 0 <= b < run.len() && a != b && is_play_step(run[a]) implies run[a] != run[b] by {
            let np = prev.len();
            if a < np && b < np {
                assert(run[a] == prev[a] && run[b] == prev[b]);
            } else if a >= np && b >= np {
                assert(run[a] == poll[a - np] && run[b] == poll[b - np]);
            } else {
                let (k, l) = if a < np { (a, b - np) } else { (b, a - np) };
                assert(run[a] == prev[a] || run[a] == poll[a - np]);
                if prev[k] == poll[l] {
                    assert(is_play_step(prev[k]));
                    assert(play_of(poll[l]) >= c);
                    if !(prev[k] is EndPlay) {
                        assert(prev.contains(prev[k]));
                        assert(within_plays(prev[k], before));
                    }
                }
            }
        }
        assert forall|k: int| 0 <= k < prev.len() implies (#[trigger] prev[k] is EndPlay ==> play_of(prev[k]) < c) by {}
        assert forall|k: int| 0 <= k < prev.len() implies play_of(#[trigger] prev[k]) < n by {}
        lemma_order_concat_plays(prev, poll, n, c);
        assert forall|k: int| 0 <= k < run.len() implies 0 <= play_of(#[trigger] run[k]) < m && (run[k] is EndPlay
            ==> play_of(run[k]) < st.current_play_idx) by {
            if k < prev.len() {
                assert(run[k] == prev[k]);
            } else {
                assert(run[k] == poll[k - prev.len()]);
                assert(within_plays(poll[k - prev.len()], f));
            }
        }
        assert forall|x: PlayStreamEvent| (x is StartPlay || x is PlayEvent) implies (#[trigger] run.contains(x)
            <==> within_plays(x, f)) by {
            if run.contains(x) {
                let k = choose|k: int| 0 <= k < run.len() && run[k] == x;
                if k < prev.len() {
                    assert(prev[k] == x);
                    assert(prev.contains(x));
                    assert(within_plays(x, before));
                    let p = play_of(x);
                    if p < n - 1 {
                        assert(f[p].events@.len() == before[p].events@.len());
                    } else {
                        assert(before.last() == before[p]);
                    }
                } else {
                    assert(poll[k - prev.len()] == x);
                    assert(within_plays(poll[k - prev.len()], f));
                }
            }
            if within_plays(x, f) {
                if within_plays(x, before) {
                    assert(prev.contains(x));
                    let k = choose|k: int| 0 <= k < prev.len() && prev[k] == x;
                    assert(run[k] == x);
                } else {
                    assert(poll.contains(x));
                    let k = choose|k: int| 0 <= k < poll.len() && poll[k] == x;
                    assert(run[prev.len() + k] == x);
                }
            }
        }
    }
}


/// Over a run of polls on feeds that grow as [`plays_append`] says (plays are only added, play
/// events only to the play in progress, and a complete last play stays complete while it is the
/// last; anything else about the plays may change), the stream starts each play of the last feed
/// exactly once and hands out each of its play events exactly once, and starts no other play
/// and hands out no other play event. It ends each play at most once, and only plays of the last
/// feed. Each play's start comes before its other events, and its end after them.
pub proof fn lemma_run_hands_out_each_play_step_once(g: GameId, feeds: Seq<Seq<PlayOutline>>)
    requires
        feeds.len() > 0,
        feeds_append(feeds),
    ensures
        forall|x: PlayStreamEvent|
            (x is StartPlay || x is PlayEvent) ==> (#[trigger] run_events(g, feeds, feeds.len() as int).contains(x)
                <==> within_plays(x, feeds.last())),
        forall|a: int, b: int|
            #![trigger run_events(g, feeds, feeds.len() as int)[a], run_events(g, feeds, feeds.len() as int)[b]]
            0 <= a < run_events(g, feeds, feeds.len() as int).len() && 0 <= b < run_events(
                g,
                feeds,
                feeds.len() as int,
            ).len() && a != b && is_play_step(run_events(g, feeds, feeds.len() as int)[a])
                ==> run_events(g, feeds, feeds.len() as int)[a] != run_events(g, feeds, feeds.len() as int)[b],
        forall|k: int|
            0 <= k < run_events(g, feeds, feeds.len() as int).len() ==> 0 <= play_of(
                #[trigger] run_events(g, feeds, feeds.len() as int)[k],
            ) < feeds.last().len(),
        starts_and_ends_in_order(run_events(g, feeds, feeds.len() as int)),
{
    lemma_run_plays_step(g, feeds, feeds.len() as int);
}

} // verus!
