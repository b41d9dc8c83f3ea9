//! The caller's side of supervision: how the events of the supervisors change
//! the games of the catalog, and which games are polled, supervised or killed.

use vstd::prelude::*;

use crate::games::{Game, GameView};
use crate::supervisor::{Event, EventView};

verus! {

/// The slot that an event speaks of.
pub open spec fn slot_of(e: EventView) -> usize {
    match e {
        EventView::Ready(slot) => slot,
        EventView::GotLogs(slot, _) => slot,
        EventView::ProcessEnded(slot) => slot,
    }
}

/// The game after an event of its supervisor. `Ready` hands over the control
/// channel, `GotLogs` adds to the log, and `ProcessEnded` takes the channel
/// back and marks the game as not running.
pub open spec fn after_event(g: GameView, e: EventView) -> GameView {
    match e {
        EventView::Ready(_) => GameView { attached: true, ..g },
        EventView::GotLogs(_, text) => GameView { current_log: g.current_log + text, ..g },
        EventView::ProcessEnded(_) => GameView { attached: false, is_running: false, ..g },
    }
}

/// The game after a launch whose process could not be spawned: it is not
/// marked as running, nothing is left to spawn for it, and no control
/// channel is held.
pub open spec fn after_failed_launch(g: GameView) -> GameView {
    GameView { is_running: false, cmd_to_run: None, attached: false, ..g }
}

/// The views of the games of a catalog.
pub open spec fn game_views(games: Seq<Game>) -> Seq<GameView> {
    Seq::new(games.len(), |i: int| games[i]@)
}

/// The catalog after an event: the game in the event's slot takes it, the
/// others are untouched. An event for a slot that the catalog does not have
/// changes nothing.
pub open spec fn after_dispatch(games: Seq<GameView>, e: EventView) -> Seq<GameView> {
    if slot_of(e) < games.len() {
        games.update(slot_of(e) as int, after_event(games[slot_of(e) as int], e))
    } else {
        games
    }
}

/// The game is to be polled: it runs and its control channel is held.
pub open spec fn is_polled(g: GameView) -> bool {
    g.is_running && g.attached
}

/// The slots below `n` whose games satisfy `wanted`, in rising order.
pub open spec fn slots_where(
    games: Seq<GameView>,
    wanted: spec_fn(GameView) -> bool,
    n: int,
) -> Seq<usize>
    decreases n,
{
    if n <= 0 {
        Seq::empty()
    } else if n <= games.len() && wanted(games[n - 1]) {
        slots_where(games, wanted, n - 1).push((n - 1) as usize)
    } else {
        slots_where(games, wanted, n - 1)
    }
}

impl Game {
    /// Empties the log, as is done before each launch.
    pub fn clear_log(&mut self)
        ensures
            final(self)@ == (GameView { current_log: Seq::empty(), ..old(self)@ }),
    {
        self.current_log = String::new();
    }

    /// Takes the launch back after its process could not be spawned.
    pub fn launch_failed(&mut self)
        ensures
            final(self)@ == after_failed_launch(old(self)@),
    {
        self.is_running = false;
        self.cmd_to_run = None;
        self.attached = false;
    }

    /// Takes an event of the game's supervisor.
    pub fn on_event(&mut self, event: Event)
        ensures
            final(self)@ == after_event(old(self)@, event@),
    {
        match event {
            Event::Ready(_) => {
                self.attached = true;
            },
            Event::GotLogs(_, text) => {
                self.current_log.append(text.as_str());
            },
            Event::ProcessEnded(_) => {
                self.attached = false;
                self.is_running = false;
            },
        }
    }
}

/// Hands an event to the game in its slot. Says whether the catalog has
/// that slot.
pub fn dispatch(games: &mut Vec<Game>, event: Event) -> (known: bool)
    ensures
        known == (slot_of(event@) < old(games)@.len()),
        final(games)@.len() == old(games)@.len(),
        game_views(final(games)@) == after_dispatch(game_views(old(games)@), event@),
{
    let slot = match &event {
        Event::Ready(slot) => *slot,
        Event::GotLogs(slot, _) => *slot,
        Event::ProcessEnded(slot) => *slot,
    };
    if slot < games.len() {
        let ghost before = game_views(games@);
        let mut game = games.remove(slot);
        game.on_event(event);
        games.insert(slot, game);
        assert(game_views(games@) =~= after_dispatch(before, event@));
        true
    } else {
        false
    }
}

/// Takes the launch of the game in the slot back, after its supervisor could
/// not spawn the process: the supervisor has stopped without an event, and
/// the game is not marked as running. Says whether the catalog has that
/// slot; the games of the other slots are untouched.
pub fn launch_failed(games: &mut Vec<Game>, slot: usize) -> (known: bool)
    ensures
        known == (slot < old(games)@.len()),
        final(games)@.len() == old(games)@.len(),
        known ==> game_views(final(games)@) == game_views(old(games)@).update(
            slot as int,
            after_failed_launch(game_views(old(games)@)[slot as int]),
        ),
        !known ==> game_views(final(games)@) == game_views(old(games)@),
{
    if slot < games.len() {
        let ghost before = game_views(games@);
        let mut game = games.remove(slot);
        game.launch_failed();
        games.insert(slot, game);
        assert(game_views(games@) =~= before.update(
            slot as int,
            after_failed_launch(before[slot as int]),
        ));
        true
    } else {
        false
    }
}

/// The slots to send `ReadInput` to at a tick: those of the games that run
/// and whose control channel is held.
pub fn poll_targets(games: &Vec<Game>) -> (r: Vec<usize>)
    ensures
        r@ == slots_where(game_views(games@), |g: GameView| is_polled(g), games@.len() as int),
{
    let ghost views = game_views(games@);
    let mut out: Vec<usize> = Vec::new();
    let mut i: usize = 0;
    while i < games.len()
        invariant
            views == game_views(games@),
            i <= games@.len(),
            out@ == slots_where(views, |g: GameView| is_polled(g), i as int),
        decreases games@.len() - i,
    {
        if games[i].is_running && games[i].attached {
            out.push(i);
        }
        i += 1;
    }
    out
}

/// The slots that need a supervisor: those of the games that are marked as
/// running.
pub fn supervised_slots(games: &Vec<Game>) -> (r: Vec<usize>)
    ensures
        r@ == slots_where(game_views(games@), |g: GameView| g.is_running, games@.len() as int),
{
    let ghost views = game_views(games@);
    let mut out: Vec<usize> = Vec::new();
    let mut i: usize = 0;
    while i < games.len()
        invariant
            views == game_views(games@),
            i <= games@.len(),
            out@ == slots_where(views, |g: GameView| g.is_running, i as int),
        decreases games@.len() - i,
    {
        if games[i].is_running {
            out.push(i);
        }
        i += 1;
    }
    out
}

/// The slot to send `Terminate` to when the selected game is to be killed:
/// the selected one, if its control channel is held.
pub fn terminate_target(games: &Vec<Game>, selected: Option<usize>) -> (r: Option<usize>)
    ensures
        r == (match selected {
            Some(i) => if i < games@.len() && games@[i as int].attached {
                Some(i)
            } else {
                None
            },
            None => None,
        }),
{
    match selected {
        Some(i) => {
            if i < games.len() && games[i].attached {
                Some(i)
            } else {
                None
            }
        },
        None => None,
    }
}

/// Each slot is listed at most once, and in rising order: no slot gets two
/// supervisors, and none is polled twice at a tick.
pub proof fn lemma_slots_rise(games: Seq<GameView>, wanted: spec_fn(GameView) -> bool, n: int)
    requires
        n <= games.len() <= usize::MAX,
    ensures
        forall|i: int, j: int|
            0 <= i < j < slots_where(games, wanted, n).len() ==> slots_where(games, wanted, n)[i]
                < slots_where(games, wanted, n)[j],
        forall|i: int|
            0 <= i < slots_where(games, wanted, n).len() ==> slots_where(games, wanted, n)[i] < n
                && wanted(games[slots_where(games, wanted, n)[i] as int]),
    decreases n,
{
    if n > 0 {
        lemma_slots_rise(games, wanted, n - 1);
        let s = slots_where(games, wanted, n);
        let t = slots_where(games, wanted, n - 1);
        assert forall|i: int| 0 <= i < s.len() implies s[i] < n && wanted(games[s[i] as int]) by {
            if i < t.len() {
                assert(s[i] == t[i]);
            }
        }
        assert forall|i: int, j: int| 0 <= i < j < s.len() implies s[i] < s[j] by {
            if j < t.len() {
                assert(s[i] == t[i] && s[j] == t[j]);
            } else {
                assert(s[i] == t[i]);
            }
        }
    }
}

/// Every slot whose game satisfies `wanted` is listed.
pub proof fn lemma_slots_complete(
    games: Seq<GameView>,
    wanted: spec_fn(GameView) -> bool,
    n: int,
    k: int,
)
    requires
        0 <= k < n <= games.len() <= usize::MAX,
        wanted(games[k]),
    ensures
        slots_where(games, wanted, n).contains(k as usize),
    decreases n,
{
    let s = slots_where(games, wanted, n);
    if k == n - 1 {
        assert(s[s.len() - 1] == k as usize);
    } else {
        lemma_slots_complete(games, wanted, n - 1, k);
        let t = slots_where(games, wanted, n - 1);
        let i = choose|i: int| 0 <= i < t.len() && t[i] == k as usize;
        assert(s[i] == k as usize);
    }
}

/// The control channel of a slot is held only between `Ready` and
/// `ProcessEnded`: after `ProcessEnded` the game neither runs nor is its
/// channel held, so it is neither polled nor supervised, whatever was the
/// case before.
pub proof fn lemma_ended_slot_is_idle(g: GameView, slot: usize)
    ensures
        !after_event(g, EventView::ProcessEnded(slot)).attached,
        !after_event(g, EventView::ProcessEnded(slot)).is_running,
        !is_polled(after_event(g, EventView::ProcessEnded(slot))),
{
}

/// An event touches the game of its own slot only.
pub proof fn lemma_dispatch_is_local(games: Seq<GameView>, e: EventView, i: int)
    requires
        0 <= i < games.len(),
        i != slot_of(e),
    ensures
        after_dispatch(games, e).len() == games.len(),
        after_dispatch(games, e)[i] == games[i],
{
}

/// Output is never lost between supervisor and log: the log after `GotLogs`
/// is the log before with the text at its end.
pub proof fn lemma_logs_accumulate(g: GameView, slot: usize, text: Seq<char>)
    ensures
        after_event(g, EventView::GotLogs(slot, text)).current_log == g.current_log + text,
        after_event(g, EventView::GotLogs(slot, text)).is_running == g.is_running,
        after_event(g, EventView::GotLogs(slot, text)).attached == g.attached,
{
}

/// Only launched games are polled: a game that is polled after an event was
/// marked as running before it.
pub proof fn lemma_polled_games_run(g: GameView, e: EventView)
    requires
        is_polled(after_event(g, e)),
    ensures
        g.is_running,
        !(e is ProcessEnded),
{
}

/// A launch whose process cannot be spawned leaves no trace: whatever the
/// launch had prepared, the game is afterwards neither marked as running nor
/// polled, and it has nothing to spawn, so that it gets no supervisor.
pub proof fn lemma_failed_launch_is_idle(g: GameView, prepared: Option<crate::command::CommandView>)
    ensures
        !after_failed_launch(GameView { is_running: true, cmd_to_run: prepared, ..g }).is_running,
        !is_polled(after_failed_launch(GameView { is_running: true, cmd_to_run: prepared, ..g })),
        after_failed_launch(
            GameView { is_running: true, cmd_to_run: prepared, ..g },
        ).cmd_to_run is None,
        !g.is_running && g.cmd_to_run is None && !g.attached ==> after_failed_launch(
            GameView { is_running: true, cmd_to_run: prepared, ..g },
        ) == g,
{
}

/// After a failed launch the slot is in neither list: it is not supervised
/// and not polled.
pub proof fn lemma_failed_slot_is_not_listed(games: Seq<GameView>, slot: int, n: int)
    requires
        0 <= slot < games.len() <= usize::MAX,
        0 <= n <= games.len(),
    ensures
        !slots_where(
            games.update(slot, after_failed_launch(games[slot])),
            |g: GameView| g.is_running,
            n,
        ).contains(slot as usize),
        !slots_where(
            games.update(slot, after_failed_launch(games[slot])),
            |g: GameView| is_polled(g),
            n,
        ).contains(slot as usize),
{
    let after = games.update(slot, after_failed_launch(games[slot]));
    lemma_slots_rise(after, |g: GameView| g.is_running, n);
    lemma_slots_rise(after, |g: GameView| is_polled(g), n);
    let running = slots_where(after, |g: GameView| g.is_running, n);
    let polled = slots_where(after, |g: GameView| is_polled(g), n);
    if running.contains(slot as usize) {
        let i = choose|i: int| 0 <= i < running.len() && running[i] == slot as usize;
        assert((|g: GameView| g.is_running)(after[running[i] as int]));
    }
    if polled.contains(slot as usize) {
        let i = choose|i: int| 0 <= i < polled.len() && polled[i] == slot as usize;
        assert((|g: GameView| is_polled(g))(after[polled[i] as int]));
    }
}

} // verus!
