//! The orders of the catalog.

use vstd::prelude::*;

use crate::bridge::game_views;
use crate::games::{Game, GameView};
use crate::order::{text_before, text_lt};
use crate::text::{to_upper, uppercased};

verus! {

/// The orders in which the catalog can be shown.
#[derive(Debug, Clone, Copy, PartialEq, Eq, Structural)]
pub enum Sorts {
    /// By name, without regard to case.
    Name,
    /// By year of release, games without one last.
    ReleaseDate,
}

/// The year that a game is sorted by: its year of release, or the largest
/// number where that is unknown.
pub open spec fn year_key(year: Option<isize>) -> int {
    match year {
        Some(y) => y as int,
        None => isize::MAX as int,
    }
}

/// Whether a game with the first name and year comes before one with the
/// second, in the given order.
pub open spec fn comes_first(
    order: Sorts,
    name: Seq<char>,
    year: Option<isize>,
    other_name: Seq<char>,
    other_year: Option<isize>,
) -> bool {
    match order {
        Sorts::Name => text_lt(name, other_name),
        Sorts::ReleaseDate => year_key(year) < year_key(other_year),
    }
}

/// Whether the first game comes before the second in the given order. Names
/// are compared in upper case.
pub open spec fn goes_before(order: Sorts, a: GameView, b: GameView) -> bool {
    comes_first(order, uppercased(a.name), a.release_year, uppercased(b.name), b.release_year)
}

impl Sorts {
    /// Whether a game with the first name and year comes before one with
    /// the second. The names are compared as they are given.
    pub fn compare_keys(
        &self,
        name: &str,
        year: Option<isize>,
        other_name: &str,
        other_year: Option<isize>,
    ) -> (r: bool)
        ensures
            r == comes_first(*self, name@, year, other_name@, other_year),
    {
        match self {
            Sorts::Name => text_before(name, other_name),
            Sorts::ReleaseDate => {
                let a = match year {
                    Some(y) => y,
                    None => isize::MAX,
                };
                let b = match other_year {
                    Some(y) => y,
                    None => isize::MAX,
                };
                a < b
            },
        }
    }

    /// Whether the first game comes before the second.
    pub fn precedes(&self, a: &Game, b: &Game) -> (r: bool)
        ensures
            r == goes_before(*self, a@, b@),
    {
        let x = to_upper(a.name.as_str());
        let y = to_upper(b.name.as_str());
        self.compare_keys(x.as_str(), a.release_year, y.as_str(), b.release_year)
    }
}

/// No game comes before itself, and of two games at most one comes before
/// the other.
pub proof fn lemma_order_is_strict(order: Sorts, a: GameView, b: GameView)
    ensures
        !goes_before(order, a, a),
        !(goes_before(order, a, b) && goes_before(order, b, a)),
{
    crate::order::lemma_text_lt_irreflexive(uppercased(a.name), 0);
    if goes_before(order, a, b) && goes_before(order, b, a) && order == Sorts::Name {
        crate::order::lemma_text_lt_transitive(
            uppercased(a.name),
            uppercased(b.name),
            uppercased(a.name),
        );
    }
}

/// The order is transitive.
pub proof fn lemma_order_is_transitive(order: Sorts, a: GameView, b: GameView, c: GameView)
    requires
        goes_before(order, a, b),
        goes_before(order, b, c),
    ensures
        goes_before(order, a, c),
{
    if order == Sorts::Name {
        crate::order::lemma_text_lt_transitive(
            uppercased(a.name),
            uppercased(b.name),
            uppercased(c.name),
        );
    }
}

/// Where neither the first game goes before the second nor the second
/// before the third, the first does not go before the third.
pub proof fn lemma_order_keeps_ties(order: Sorts, a: GameView, b: GameView, c: GameView)
    requires
        !goes_before(order, a, b),
        !goes_before(order, b, c),
    ensures
        !goes_before(order, a, c),
{
    if order == Sorts::Name && goes_before(order, a, c) {
        let x = uppercased(a.name);
        let y = uppercased(b.name);
        let z = uppercased(c.name);
        crate::order::lemma_text_lt_total(x, y);
        if text_lt(y, x) {
            crate::order::lemma_text_lt_transitive(y, x, z);
        }
    }
}

/// No game of the catalog goes before one that stands before it.
pub open spec fn is_sorted(order: Sorts, games: Seq<GameView>) -> bool {
    forall|i: int, j: int| 0 <= i < j < games.len() ==> !goes_before(order, games[j], games[i])
}

/// The first `n` games are in order.
pub open spec fn sorted_up_to(order: Sorts, games: Seq<GameView>, n: int) -> bool {
    forall|i: int, j: int| 0 <= i < j < n ==> !goes_before(order, games[j], games[i])
}

/// Puts the catalog in order and follows one game through it.
fn sort_following(games: &mut Vec<Game>, key: Sorts, selected: Option<usize>) -> (r: Option<usize>)
    requires
        selected is Some ==> selected.unwrap() < old(games)@.len(),
    ensures
        is_sorted(key, game_views(final(games)@)),
        game_views(final(games)@).to_multiset() == game_views(old(games)@).to_multiset(),
        final(games)@.len() == old(games)@.len(),
        selected is Some <==> r is Some,
        selected is Some ==> r.unwrap() < final(games)@.len() && game_views(
            final(games)@,
        )[r.unwrap() as int] == game_views(old(games)@)[selected.unwrap() as int],
{
    let ghost start = game_views(games@);
    let n = games.len();
    let mut place = selected;
    let mut i: usize = 0;
    while i < n
        invariant
            n == games@.len(),
            n == start.len(),
            i <= n,
            sorted_up_to(key, game_views(games@), i as int),
            game_views(games@).to_multiset() == start.to_multiset(),
            selected is Some <==> place is Some,
            selected is Some ==> selected.unwrap() < n && place.unwrap() < n && game_views(
                games@,
            )[place.unwrap() as int] == start[selected.unwrap() as int],
        decreases n - i,
    {
        let ghost s = game_views(games@);
        let g = games.remove(i);
        let ghost t = game_views(games@);
        proof {
            assert(t =~= s.remove(i as int));
            vstd::seq_lib::to_multiset_remove(s, i as int);
        }
        let mut k: usize = i;
        while k > 0 && key.precedes(&g, &games[k - 1])
            invariant
                k <= i,
                i < n,
                games@.len() == n - 1,
                t == game_views(games@),
                forall|m: int| k <= m < i ==> goes_before(key, g@, #[trigger] t[m]),
            decreases k,
        {
            k -= 1;
        }
        let ghost gv = g@;
        games.insert(k, g);
        let ghost u = game_views(games@);
        proof {
            assert(u =~= t.insert(k as int, gv));
            vstd::seq_lib::to_multiset_insert(t, k as int, gv);
            s.to_multiset_ensures();
            assert(s.to_multiset().count(s[i as int]) > 0);
            assert(u.to_multiset() =~= s.to_multiset());
            assert forall|a: int, b: int| 0 <= a < b < i + 1 implies !goes_before(
                key,
                u[b],
                u[a],
            ) by {
                if a == k {
                    assert(u[b] == t[b - 1]);
                    assert(goes_before(key, gv, t[b - 1]));
                    lemma_order_is_strict(key, gv, t[b - 1]);
                } else if b == k {
                    assert(u[a] == t[a] && t[a] == s[a]);
                    assert(!goes_before(key, gv, t[k - 1]));
                    if a < k - 1 {
                        assert(t[k - 1] == s[k - 1]);
                        assert(!goes_before(key, s[k - 1], s[a]));
                        lemma_order_keeps_ties(key, gv, t[k - 1], t[a]);
                    }
                } else {
                    let x = if a < k {
                        a
                    } else {
                        a - 1
                    };
                    let y = if b < k {
                        b
                    } else {
                        b - 1
                    };
                    assert(u[a] == t[x] && u[b] == t[y]);
                    assert(t[x] == s[x] && t[y] == s[y]);
                    assert(!goes_before(key, s[y], s[x]));
                }
            }
        }
        match place {
            Some(p) => {
                let q = if p == i {
                    k
                } else if k <= p && p < i {
                    p + 1
                } else {
                    p
                };
                proof {
                    if p == i {
                        assert(u[q as int] == gv);
                    } else if k <= p && p < i {
                        assert(u[q as int] == t[p as int] && t[p as int] == s[p as int]);
                    } else if p < k {
                        assert(u[q as int] == t[p as int] && t[p as int] == s[p as int]);
                    } else {
                        assert(u[q as int] == t[p - 1] && t[p - 1] == s[p as int]);
                    }
                }
                place = Some(q);
            },
            None => {},
        }
        i += 1;
    }
    place
}

/// Puts the catalog in the given order: the same games, and none before
/// one that goes before it.
pub fn sort_none_selected(games: &mut Vec<Game>, key: Sorts)
    ensures
        is_sorted(key, game_views(final(games)@)),
        game_views(final(games)@).to_multiset() == game_views(old(games)@).to_multiset(),
        final(games)@.len() == old(games)@.len(),
{
    let _ = sort_following(games, key, None);
}

/// Puts the catalog in the given order and says where the selected game
/// stands afterwards: the game at the position that is returned is the one
/// that was selected.
pub fn sort(games: &mut Vec<Game>, key: Sorts, selected: usize) -> (r: usize)
    requires
        selected < old(games)@.len(),
    ensures
        is_sorted(key, game_views(final(games)@)),
        game_views(final(games)@).to_multiset() == game_views(old(games)@).to_multiset(),
        final(games)@.len() == old(games)@.len(),
        r < final(games)@.len(),
        game_views(final(games)@)[r as int] == game_views(old(games)@)[selected as int],
{
    sort_following(games, key, Some(selected)).unwrap()
}

} // verus!
