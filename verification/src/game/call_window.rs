use vstd::prelude::*;

use crate::game::enums::{next_seat, Action, Seat, Tile};
use crate::utils::errors::Error;
use crate::utils::models::MeldFlags;

verus! {

/// Whether `f` authorizes the call `a`.
pub open spec fn flag_allows(f: MeldFlags, a: Action) -> bool {
    match a {
        Action::RON => f.ron,
        Action::KAN => f.kan,
        Action::PON => f.pon,
        Action::CHI => f.chi,
        _ => false,
    }
}

/// Whether `f` authorizes any call at all; only such seats are waited for.
pub open spec fn any_flag(f: MeldFlags) -> bool {
    f.ron || f.kan || f.pon || f.chi
}

/// Resolution priority: ron beats kan beats pon beats chi.
pub open spec fn call_priority(a: Action) -> int {
    match a {
        Action::RON => 4,
        Action::KAN => 3,
        Action::PON => 2,
        Action::CHI => 1,
        _ => 0,
    }
}

/// The flags one seat is offered: the discarder is offered nothing, and chi
/// survives only for the seat immediately after the discarder.
pub open spec fn masked_offer(d: Seat, s: Seat, o: Option<MeldFlags>) -> Option<MeldFlags> {
    if s == d {
        None
    } else {
        match o {
            None => None,
            Some(f) => Some((MeldFlags { chi: f.chi && s == next_seat(d), ..f })),
        }
    }
}

/// A validated claim is within the claimant's offer.
pub open spec fn claim_ok(w: CallWindow, c: (Seat, Action)) -> bool {
    &&& c.0 != w.discarder
    &&& w.offer(c.0) matches Some(f) && flag_allows(f, c.1)
    &&& call_priority(c.1) >= 1
}

/// There is a claim for call `a`.
pub open spec fn has_call(claims: Seq<(Seat, Action)>, a: Action) -> bool {
    exists|i: int| 0 <= i < claims.len() && claims[i].1 == a
}

/// The seats that claimed ron, in the order the claims arrived.
pub open spec fn ron_seats(claims: Seq<(Seat, Action)>) -> Seq<Seat>
    decreases claims.len(),
{
    if claims.len() == 0 {
        Seq::empty()
    } else if claims.last().1 == Action::RON {
        ron_seats(claims.drop_last()).push(claims.last().0)
    } else {
        ron_seats(claims.drop_last())
    }
}

/// Some seat claimed ron exactly when the ron list is nonempty.
pub proof fn lemma_ron_seats_nonempty(claims: Seq<(Seat, Action)>)
    ensures
        ron_seats(claims).len() > 0 <==> has_call(claims, Action::RON),
    decreases claims.len(),
{
    if claims.len() > 0 {
        let pre = claims.drop_last();
        lemma_ron_seats_nonempty(pre);
        if claims.last().1 == Action::RON {
            assert(claims[claims.len() - 1].1 == Action::RON);
        } else {
            if has_call(claims, Action::RON) {
                let x = choose|x: int| 0 <= x < claims.len() && claims[x].1 == Action::RON;
                assert(pre[x] == claims[x]);
                assert(has_call(pre, Action::RON));
            }
            if has_call(pre, Action::RON) {
                let x = choose|x: int| 0 <= x < pre.len() && pre[x].1 == Action::RON;
                assert(claims[x] == pre[x]);
                assert(has_call(claims, Action::RON));
            }
        }
    }
}

/// One discard's arbitration state: who discarded what, the flags offered
/// to each seat, the validated claims in arrival order, and which seats
/// have answered (or been pruned).
#[derive(Debug)]
pub struct CallWindow {
    pub discarder: Seat,
    pub tile: Tile,
    pub offer_east: Option<MeldFlags>,
    pub offer_north: Option<MeldFlags>,
    pub offer_west: Option<MeldFlags>,
    pub offer_south: Option<MeldFlags>,
    pub claims: Vec<(Seat, Action)>,
    pub answered_east: bool,
    pub answered_north: bool,
    pub answered_west: bool,
    pub answered_south: bool,
}

impl CallWindow {
    /// The flags offered to `s`.
    pub open spec fn offer(&self, s: Seat) -> Option<MeldFlags> {
        match s {
            Seat::East => self.offer_east,
            Seat::North => self.offer_north,
            Seat::West => self.offer_west,
            Seat::South => self.offer_south,
        }
    }

    /// Whether `s` has answered (claimed, passed, or been pruned).
    pub open spec fn answered(&self, s: Seat) -> bool {
        match s {
            Seat::East => self.answered_east,
            Seat::North => self.answered_north,
            Seat::West => self.answered_west,
            Seat::South => self.answered_south,
        }
    }

    /// Well-formedness: the discarder holds no offer, chi is offered only to
    /// the seat after the discarder, every recorded claim is within its
    /// seat's offer, each claiming seat has answered, and no seat claims
    /// twice.
    pub open spec fn wf(&self) -> bool {
        &&& self.offer(self.discarder) is None
        &&& forall|s: Seat| (#[trigger] self.offer(s)) matches Some(f) && f.chi ==> s == next_seat(
            self.discarder,
        )
        &&& forall|i: int|
            0 <= i < self.claims@.len() ==> claim_ok(*self, #[trigger] self.claims@[i])
        &&& forall|i: int| 0 <= i < self.claims@.len() ==> self.answered(#[trigger] self.claims@[i].0)
        &&& forall|i: int, j: int|
            0 <= i < j < self.claims@.len() ==> (#[trigger] self.claims@[i]).0 != (
            #[trigger] self.claims@[j]).0
    }

    /// Opens the window on a discard, sanitizing the oracle's raw flags:
    /// nothing for the discarder, and chi only for the next seat in
    /// rotation.
    pub fn open(
        discarder: Seat,
        tile: Tile,
        east: Option<MeldFlags>,
        north: Option<MeldFlags>,
        west: Option<MeldFlags>,
        south: Option<MeldFlags>,
    ) -> (w: CallWindow)
        ensures
            w.wf(),
            w.discarder == discarder,
            w.tile == tile,
            w.offer(Seat::East) == masked_offer(discarder, Seat::East, east),
            w.offer(Seat::North) == masked_offer(discarder, Seat::North, north),
            w.offer(Seat::West) == masked_offer(discarder, Seat::West, west),
            w.offer(Seat::South) == masked_offer(discarder, Seat::South, south),
            w.claims@.len() == 0,
            forall|s: Seat| !(#[trigger] w.answered(s)),
    {
        let w = CallWindow {
            discarder,
            tile,
            offer_east: Self::mask_one(discarder, Seat::East, east),
            offer_north: Self::mask_one(discarder, Seat::North, north),
            offer_west: Self::mask_one(discarder, Seat::West, west),
            offer_south: Self::mask_one(discarder, Seat::South, south),
            claims: Vec::new(),
            answered_east: false,
            answered_north: false,
            answered_west: false,
            answered_south: false,
        };
        proof {
            assert forall|s: Seat| (#[trigger] w.offer(s)) matches Some(f) && f.chi implies s
                == next_seat(w.discarder) by {
                assert(w.offer(s) == masked_offer(
                    discarder,
                    s,
                    match s {
                        Seat::East => east,
                        Seat::North => north,
                        Seat::West => west,
                        Seat::South => south,
                    },
                ));
            }
        }
        w
    }

    /// The executable form of `masked_offer`.
    fn mask_one(d: Seat, s: Seat, o: Option<MeldFlags>) -> (r: Option<MeldFlags>)
        ensures
            r == masked_offer(d, s, o),
    {
        if s == d {
            return None;
        }
        match o {
            None => None,
            Some(f) => Some(
                MeldFlags { chi: f.chi && s == d.next(), pid: f.pid, ron: f.ron, pon: f.pon, kan: f.kan },
            ),
        }
    }

    fn set_answered(&mut self, seat: Seat)
        ensures
            final(self).answered(seat),
            forall|s2: Seat| s2 != seat ==> final(self).answered(s2) == old(self).answered(s2),
            final(self).discarder == old(self).discarder,
            final(self).tile == old(self).tile,
            final(self).claims == old(self).claims,
            forall|s2: Seat| final(self).offer(s2) == old(self).offer(s2),
    {
        match seat {
            Seat::East => {
                self.answered_east = true;
            },
            Seat::North => {
                self.answered_north = true;
            },
            Seat::West => {
                self.answered_west = true;
            },
            Seat::South => {
                self.answered_south = true;
            },
        }
    }

    /// Records one seat's call. An out-of-window seat, a repeated answer or
    /// an unauthorized claim is refused; an unauthorized claim from an
    /// offered seat additionally counts as that seat passing.
    pub fn submit(&mut self, seat: Seat, action: Action) -> (r: Result<(), Error>)
        requires
            old(self).wf(),
        ensures
            final(self).wf(),
            final(self).discarder == old(self).discarder,
            final(self).tile == old(self).tile,
            forall|s2: Seat| final(self).offer(s2) == old(self).offer(s2),
            old(self).offer(seat) is None ==> r == Err::<(), Error>(Error::GameActionFailed)
                && *final(self) == *old(self),
            old(self).answered(seat) ==> r == Err::<(), Error>(Error::GameActionFailed) && *final(self) == *old(self),
            old(self).offer(seat) matches Some(f) ==> !old(self).answered(seat) ==> {
                if flag_allows(f, action) {
                    &&& r is Ok
                    &&& final(self).claims@ == old(self).claims@.push((seat, action))
                    &&& final(self).answered(seat)
                    &&& forall|s2: Seat|
                        s2 != seat ==> final(self).answered(s2) == old(self).answered(s2)
                } else {
                    &&& r == Err::<(), Error>(Error::GameActionFailed)
                    &&& final(self).claims@ == old(self).claims@
                    &&& final(self).answered(seat)
                    &&& forall|s2: Seat|
                        s2 != seat ==> final(self).answered(s2) == old(self).answered(s2)
                }
            },
    {
        let offered = match self.get_offer(seat) {
            None => {
                return Err(Error::GameActionFailed);
            },
            Some(f) => f,
        };
        if self.get_answered(seat) {
            return Err(Error::GameActionFailed);
        }
        let allowed = match action {
            Action::RON => offered.ron,
            Action::KAN => offered.kan,
            Action::PON => offered.pon,
            Action::CHI => offered.chi,
            _ => false,
        };
        if !allowed {
            self.set_answered(seat);
            return Err(Error::GameActionFailed);
        }
        let ghost pre = *self;
        self.claims.push((seat, action));
        self.set_answered(seat);
        proof {
            assert(self.claims@ == pre.claims@.push((seat, action)));
            assert(self.offer(self.discarder) is None);
            assert(seat != self.discarder);
            assert forall|s: Seat| (#[trigger] self.offer(s)) matches Some(f) && f.chi implies s
                == next_seat(self.discarder) by {
                assert(self.offer(s) == pre.offer(s));
            }
            assert forall|i: int| 0 <= i < self.claims@.len() implies claim_ok(
                *self,
                #[trigger] self.claims@[i],
            ) by {
                if i < pre.claims@.len() {
                    assert(claim_ok(pre, pre.claims@[i]));
                    assert(self.offer(pre.claims@[i].0) == pre.offer(pre.claims@[i].0));
                } else {
                    assert(self.claims@[i] == (seat, action));
                    assert(self.offer(seat) == pre.offer(seat));
                }
            }
            assert forall|i: int, j: int| 0 <= i < j < self.claims@.len() implies (
            #[trigger] self.claims@[i]).0 != (#[trigger] self.claims@[j]).0 by {
                if j == self.claims@.len() - 1 {
                    assert(pre.answered(pre.claims@[i].0));
                }
            }
        }
        Ok(())
    }

    /// Reads one seat's offer.
    pub fn get_offer(&self, seat: Seat) -> (r: Option<MeldFlags>)
        ensures
            r == self.offer(seat),
    {
        match seat {
            Seat::East => self.offer_east,
            Seat::North => self.offer_north,
            Seat::West => self.offer_west,
            Seat::South => self.offer_south,
        }
    }

    /// Reads whether one seat has answered.
    pub fn get_answered(&self, seat: Seat) -> (r: bool)
        ensures
            r == self.answered(seat),
    {
        match seat {
            Seat::East => self.answered_east,
            Seat::North => self.answered_north,
            Seat::West => self.answered_west,
            Seat::South => self.answered_south,
        }
    }

    /// Marks a seat as answered without a claim; how a disconnected seat is
    /// taken out of the wait.
    pub fn prune(&mut self, seat: Seat)
        requires
            old(self).wf(),
        ensures
            final(self).wf(),
            final(self).answered(seat),
            forall|s2: Seat| s2 != seat ==> final(self).answered(s2) == old(self).answered(s2),
            final(self).discarder == old(self).discarder,
            final(self).tile == old(self).tile,
            final(self).claims == old(self).claims,
            forall|s2: Seat| final(self).offer(s2) == old(self).offer(s2),
    {
        let ghost pre = *self;
        self.set_answered(seat);
        proof {
            assert forall|i: int| 0 <= i < self.claims@.len() implies claim_ok(
                *self,
                #[trigger] self.claims@[i],
            ) by {
                assert(claim_ok(pre, pre.claims@[i]));
            }
        }
    }

    fn seat_done(offer: &Option<MeldFlags>, answered: bool) -> (r: bool)
        ensures
            r == ((*offer matches Some(f) && any_flag(f)) ==> answered),
    {
        match offer {
            None => true,
            Some(f) => !(f.ron || f.kan || f.pon || f.chi) || answered,
        }
    }

    /// Whether every seat that was offered any call has answered; the
    /// moment this turns true the window may resolve early.
    pub fn all_eligible_answered(&self) -> (r: bool)
        ensures
            r == forall|s: Seat|
                ((#[trigger] self.offer(s)) matches Some(f) && any_flag(f)) ==> self.answered(s),
    {
        let e = Self::seat_done(&self.offer_east, self.answered_east);
        let n = Self::seat_done(&self.offer_north, self.answered_north);
        let w = Self::seat_done(&self.offer_west, self.answered_west);
        let s = Self::seat_done(&self.offer_south, self.answered_south);
        let ok = e && n && w && s;
        proof {
            if ok {
                assert forall|s2: Seat|
                    ((#[trigger] self.offer(s2)) matches Some(f) && any_flag(f)) implies self
                    .answered(s2) by {
                    match s2 {
                        Seat::East => {},
                        Seat::North => {},
                        Seat::West => {},
                        Seat::South => {},
                    }
                }
            } else if !e {
                assert(!(((self.offer(Seat::East)) matches Some(f) && any_flag(f))
                    ==> self.answered(Seat::East)));
            } else if !n {
                assert(!(((self.offer(Seat::North)) matches Some(f) && any_flag(f))
                    ==> self.answered(Seat::North)));
            } else if !w {
                assert(!(((self.offer(Seat::West)) matches Some(f) && any_flag(f))
                    ==> self.answered(Seat::West)));
            } else {
                assert(!(((self.offer(Seat::South)) matches Some(f) && any_flag(f))
                    ==> self.answered(Seat::South)));
            }
        }
        ok
    }
}

/// The outcome of one call window: nobody called, every ron claimant wins
/// together, or a single seat wins a meld call.
#[derive(Debug)]
pub enum Resolution {
    NoCall,
    Ron(Vec<Seat>),
    Meld(Seat, Action),
}

/// What `resolve` promises: nobody called exactly when there are no claims;
/// any ron claim makes every ron claimant win together; otherwise the
/// highest-priority call wins, ties broken by arrival order.
pub open spec fn resolution_matches(claims: Seq<(Seat, Action)>, r: Resolution) -> bool {
    match r {
        Resolution::NoCall => claims.len() == 0,
        Resolution::Ron(v) => has_call(claims, Action::RON) && v@ == ron_seats(claims),
        Resolution::Meld(s, a) => {
            &&& claims.len() > 0
            &&& !has_call(claims, Action::RON)
            &&& a == if has_call(claims, Action::KAN) {
                Action::KAN
            } else if has_call(claims, Action::PON) {
                Action::PON
            } else {
                Action::CHI
            }
            &&& exists|i: int|
                0 <= i < claims.len() && claims[i] == (s, a) && (forall|j: int|
                    0 <= j < i ==> claims[j].1 != a)
        },
    }
}

/// At most one match-winning call resolves per discard: two outcomes that
/// both satisfy `resolution_matches` on the same claims name the same
/// winner (a ron outcome is a single simultaneous terminal event).
pub proof fn lemma_resolution_unique(claims: Seq<(Seat, Action)>, r1: Resolution, r2: Resolution)
    requires
        resolution_matches(claims, r1),
        resolution_matches(claims, r2),
    ensures
        match (r1, r2) {
            (Resolution::NoCall, Resolution::NoCall) => true,
            (Resolution::Ron(v1), Resolution::Ron(v2)) => v1@ == v2@,
            (Resolution::Meld(s1, a1), Resolution::Meld(s2, a2)) => s1 == s2 && a1 == a2,
            _ => false,
        },
{
    match (r1, r2) {
        (Resolution::NoCall, Resolution::NoCall) => {},
        (Resolution::Ron(v1), Resolution::Ron(v2)) => {},
        (Resolution::Meld(s1, a1), Resolution::Meld(s2, a2)) => {
            let i1 = choose|i: int|
                0 <= i < claims.len() && claims[i] == (s1, a1) && (forall|j: int|
                    0 <= j < i ==> claims[j].1 != a1);
            let i2 = choose|i: int|
                0 <= i < claims.len() && claims[i] == (s2, a2) && (forall|j: int|
                    0 <= j < i ==> claims[j].1 != a2);
            assert(a1 == a2);
            assert(i1 == i2);
        },
        _ => {},
    }
}

/// Picks the window's outcome by the fixed priority ron, kan, pon, chi,
/// ties broken by arrival order. Reads the window; the match manager
/// applies the outcome.
#[verifier::rlimit(60)]
pub fn resolve(w: &CallWindow) -> (r: Resolution)
    requires
        w.wf(),
    ensures
        resolution_matches(w.claims@, r),
{
    let n = w.claims.len();
    let mut rons: Vec<Seat> = Vec::new();
    let mut kan: Option<Seat> = None;
    let mut pon: Option<Seat> = None;
    let mut chi: Option<Seat> = None;
    let ghost mut kan_i: int = 0;
    let ghost mut pon_i: int = 0;
    let ghost mut chi_i: int = 0;
    proof {
        assert forall|j: int| 0 <= j < n implies call_priority(
            (#[trigger] w.claims@[j]).1,
        ) >= 1 by {
            assert(claim_ok(*w, w.claims@[j]));
        }
    }
    let mut i: usize = 0;
    while i < n
        invariant
            n == w.claims@.len(),
            i <= n,
            forall|j: int| 0 <= j < n ==> call_priority((#[trigger] w.claims@[j]).1) >= 1,
            rons@ == ron_seats(w.claims@.subrange(0, i as int)),
            kan matches Some(s) ==> 0 <= kan_i < i && w.claims@[kan_i] == (s, Action::KAN) && (
            forall|j: int| 0 <= j < kan_i ==> w.claims@[j].1 != Action::KAN),
            kan is None ==> forall|j: int| 0 <= j < i ==> w.claims@[j].1 != Action::KAN,
            pon matches Some(s) ==> 0 <= pon_i < i && w.claims@[pon_i] == (s, Action::PON) && (
            forall|j: int| 0 <= j < pon_i ==> w.claims@[j].1 != Action::PON),
            pon is None ==> forall|j: int| 0 <= j < i ==> w.claims@[j].1 != Action::PON,
            chi matches Some(s) ==> 0 <= chi_i < i && w.claims@[chi_i] == (s, Action::CHI) && (
            forall|j: int| 0 <= j < chi_i ==> w.claims@[j].1 != Action::CHI),
            chi is None ==> forall|j: int| 0 <= j < i ==> w.claims@[j].1 != Action::CHI,
        decreases n - i,
    {
        let ghost prefix = w.claims@.subrange(0, i as int);
        let (seat, action) = w.claims[i];
        match action {
            Action::RON => {
                rons.push(seat);
            },
            Action::KAN => {
                if kan.is_none() {
                    kan = Some(seat);
                    proof {
                        kan_i = i as int;
                    }
                }
            },
            Action::PON => {
                if pon.is_none() {
                    pon = Some(seat);
                    proof {
                        pon_i = i as int;
                    }
                }
            },
            Action::CHI => {
                if chi.is_none() {
                    chi = Some(seat);
                    proof {
                        chi_i = i as int;
                    }
                }
            },
            _ => {
                proof {
                    assert(call_priority(w.claims@[i as int].1) >= 1);
                    assert(false);
                }
            },
        }
        proof {
            let step = prefix.push(w.claims@[i as int]);
            assert(w.claims@.subrange(0, i + 1) =~= step);
            assert(step.drop_last() =~= prefix);
            assert(step.last() == w.claims@[i as int]);
            assert(rons@ == ron_seats(w.claims@.subrange(0, i + 1)));
        }
        i = i + 1;
    }
    proof {
        assert(w.claims@.subrange(0, n as int) =~= w.claims@);
    }
    if rons.len() > 0 {
        proof {
            lemma_ron_seats_nonempty(w.claims@);
        }
        return Resolution::Ron(rons);
    }
    proof {
        lemma_ron_seats_nonempty(w.claims@);
        assert(!has_call(w.claims@, Action::RON));
    }
    if let Some(s) = kan {
        return Resolution::Meld(s, Action::KAN);
    }
    if let Some(s) = pon {
        return Resolution::Meld(s, Action::PON);
    }
    if let Some(s) = chi {
        return Resolution::Meld(s, Action::CHI);
    }
    proof {
        if w.claims@.len() > 0 {
            assert(claim_ok(*w, w.claims@[0]));
            assert(call_priority(w.claims@[0].1) >= 1);
            assert(false);
        }
    }
    Resolution::NoCall
}


/// Chi eligibility: a well-formed window offers chi only to the seat
/// immediately after the discarder in the rotation.
pub proof fn lemma_chi_eligibility(w: CallWindow, s: Seat)
    requires
        w.wf(),
        w.offer(s) matches Some(f) && f.chi,
    ensures
        s == next_seat(w.discarder),
{
}
} // verus!

