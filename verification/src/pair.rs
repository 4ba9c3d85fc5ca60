//! A generic two-slot container holding one value for each side of a game.

use vstd::prelude::*;

verus! {

/// Which side of a game a value belongs to.
#[derive(Debug, Clone, Copy, PartialEq, Eq, Structural)]
pub enum TeamPosition {
    Home,
    Away,
}

/// Exactly two values, tagged home and away. There is no ordering beyond the
/// tags; every operation that walks both sides does so home first, away
/// second.
#[derive(Debug, Clone, Copy)]
pub struct TeamPair<T> {
    pub home: T,
    pub away: T,
}

impl<T> TeamPair<T> {
    /// Apply `func` to both sides independently, preserving the tags.
    pub fn map<M, F: Fn(T) -> M>(self, func: F) -> (r: TeamPair<M>)
        requires
            call_requires(func, (self.home,)),
            call_requires(func, (self.away,)),
        ensures
            call_ensures(func, (self.home,), r.home),
            call_ensures(func, (self.away,), r.away),
    {
        TeamPair { home: func(self.home), away: func(self.away) }
    }

    /// Apply a fallible `func` to both sides and keep the pair only when both
    /// sides succeed; the first failure (home before away) discards the rest.
    pub fn and_then<A, F: Fn(T) -> Option<A>>(self, func: F) -> (r: Option<TeamPair<A>>)
        requires
            call_requires(func, (self.home,)),
            call_requires(func, (self.away,)),
        ensures
            match r {
                Some(pair) => call_ensures(func, (self.home,), Some(pair.home))
                    && call_ensures(func, (self.away,), Some(pair.away)),
                None => call_ensures(func, (self.home,), None::<A>)
                    || (exists|h: A| call_ensures(func, (self.home,), Some(h)))
                        && call_ensures(func, (self.away,), None::<A>),
            },
    {
        let home = func(self.home);
        let away = func(self.away);
        let r = TeamPair { home, away }.transpose();
        proof {
            if r.is_some() {
                assert(home == Some(r.unwrap().home));
                assert(away == Some(r.unwrap().away));
            } else if home.is_some() {
                assert(home == Some(home.unwrap()));
                assert(call_ensures(func, (self.home,), Some(home.unwrap())));
            }
        }
        r
    }

    /// Apply `func` to each side paired with a reference to the other side,
    /// home first.
    pub fn map_both<M, F: Fn(&T, &T) -> M>(&self, func: F) -> (r: TeamPair<M>)
        requires
            call_requires(func, (&self.home, &self.away)),
            call_requires(func, (&self.away, &self.home)),
        ensures
            call_ensures(func, (&self.home, &self.away), r.home),
            call_ensures(func, (&self.away, &self.home), r.away),
    {
        TeamPair { home: func(&self.home, &self.away), away: func(&self.away, &self.home) }
    }

    /// Apply `func` to each side together with its tag.
    pub fn map_pos<M, F: Fn(T, TeamPosition) -> M>(self, func: F) -> (r: TeamPair<M>)
        requires
            call_requires(func, (self.home, TeamPosition::Home)),
            call_requires(func, (self.away, TeamPosition::Away)),
        ensures
            call_ensures(func, (self.home, TeamPosition::Home), r.home),
            call_ensures(func, (self.away, TeamPosition::Away), r.away),
    {
        TeamPair {
            home: func(self.home, TeamPosition::Home),
            away: func(self.away, TeamPosition::Away),
        }
    }

    /// Apply `func` to each side, a reference to the other side, and the tag
    /// of the first: the "self versus opponent" view, computed symmetrically
    /// for both sides in one pass.
    pub fn map_both_pos<M, F: Fn(&T, &T, TeamPosition) -> M>(&self, func: F) -> (r: TeamPair<M>)
        requires
            call_requires(func, (&self.home, &self.away, TeamPosition::Home)),
            call_requires(func, (&self.away, &self.home, TeamPosition::Away)),
        ensures
            call_ensures(func, (&self.home, &self.away, TeamPosition::Home), r.home),
            call_ensures(func, (&self.away, &self.home, TeamPosition::Away), r.away),
    {
        TeamPair {
            home: func(&self.home, &self.away, TeamPosition::Home),
            away: func(&self.away, &self.home, TeamPosition::Away),
        }
    }

    /// View both sides by reference.
    pub fn as_ref(&self) -> (r: TeamPair<&T>)
        ensures
            r.home == &self.home,
            r.away == &self.away,
    {
        TeamPair { home: &self.home, away: &self.away }
    }

    /// Combine two pairs slot-wise.
    pub fn zip<B>(self, other: TeamPair<B>) -> (r: TeamPair<(T, B)>)
        ensures
            r.home == (self.home, other.home),
            r.away == (self.away, other.away),
    {
        TeamPair { home: (self.home, other.home), away: (self.away, other.away) }
    }

    /// Both sides as a vector, home first.
    pub fn into_vec(self) -> (r: Vec<T>)
        ensures
            r@ == seq![self.home, self.away],
    {
        let mut v: Vec<T> = Vec::new();
        v.push(self.home);
        v.push(self.away);
        proof {
            assert(v@ =~= seq![self.home, self.away]);
        }
        v
    }
}

impl<T> TeamPair<Option<T>> {
    /// Keep the pair only when both sides are present: `Some` exactly when
    /// both `home` and `away` are `Some`; partial data is discarded.
    pub fn transpose(self) -> (r: Option<TeamPair<T>>)
        ensures
            r.is_some() <==> self.home.is_some() && self.away.is_some(),
            r.is_some() ==> r.unwrap().home == self.home.unwrap()
                && r.unwrap().away == self.away.unwrap(),
    {
        match (self.home, self.away) {
            (Some(home), Some(away)) => Some(TeamPair { home, away }),
            _ => None,
        }
    }
}

impl<T, E> TeamPair<Result<T, E>> {
    /// Keep the pair only when both sides are `Ok`; otherwise return the
    /// first error, home before away.
    pub fn transpose(self) -> (r: Result<TeamPair<T>, E>)
        ensures
            match r {
                Ok(pair) => self.home == Ok::<T, E>(pair.home) && self.away == Ok::<T, E>(pair.away),
                Err(e) => self.home == Err::<T, E>(e)
                    || (self.home.is_ok() && self.away == Err::<T, E>(e)),
            },
    {
        match self.home {
            Ok(home) => match self.away {
                Ok(away) => Ok(TeamPair { home, away }),
                Err(e) => Err(e),
            },
            Err(e) => Err(e),
        }
    }
}

} // verus!
