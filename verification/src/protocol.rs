//! The protocol algebra: protocols as data, their duals, and the laws of duality.
//!
//! A [`Shape`] is the mathematical description of what one participant may do
//! next on a channel. A [`Protocol`] is the same description as a run-time value,
//! so that two declared local views can be compared while a program runs.

use vstd::prelude::*;

verus! {

/// What one participant may do next, and after that.
///
/// Messages are named by an integer label. `Tau` is an internal step that the
/// peer does not see.
pub enum Shape {
    Terminate,
    Send(int, Box<Shape>),
    Receive(int, Box<Shape>),
    Offer(Seq<Shape>),
    Choose(Seq<Shape>),
    Tau(Box<Shape>),
}

impl Shape {
    /// The protocol that the peer has to follow: every send faces a receive and
    /// every offer a choice. An internal step has no counterpart and is its own
    /// dual; a peer's view is taken from the reduced protocol.
    pub open spec fn dual(self) -> Shape
        decreases self,
    {
        match self {
            Shape::Terminate => Shape::Terminate,
            Shape::Send(m, c) => Shape::Receive(m, Box::new(c.dual())),
            Shape::Receive(m, c) => Shape::Send(m, Box::new(c.dual())),
            Shape::Offer(alts) => Shape::Choose(
                Seq::new(
                    alts.len(),
                    |i: int|
                        if 0 <= i < alts.len() {
                            alts[i].dual()
                        } else {
                            Shape::Terminate
                        },
                ),
            ),
            Shape::Choose(alts) => Shape::Offer(
                Seq::new(
                    alts.len(),
                    |i: int|
                        if 0 <= i < alts.len() {
                            alts[i].dual()
                        } else {
                            Shape::Terminate
                        },
                ),
            ),
            Shape::Tau(c) => Shape::Tau(c),
        }
    }

    /// The protocol without its leading internal steps.
    pub open spec fn reduced(self) -> Shape
        decreases self,
    {
        match self {
            Shape::Tau(c) => c.reduced(),
            _ => self,
        }
    }

    /// Whether the protocol can be built by the construction rules: every offer
    /// and every choice has at least two alternatives, each of them constructible.
    pub open spec fn constructible(self) -> bool
        decreases self,
    {
        match self {
            Shape::Terminate => true,
            Shape::Send(_, c) => c.constructible(),
            Shape::Receive(_, c) => c.constructible(),
            Shape::Offer(alts) => alts.len() >= 2 && forall|i: int|
                0 <= i < alts.len() ==> (#[trigger] alts[i]).constructible(),
            Shape::Choose(alts) => alts.len() >= 2 && forall|i: int|
                0 <= i < alts.len() ==> (#[trigger] alts[i]).constructible(),
            Shape::Tau(c) => c.constructible(),
        }
    }
}

/// Duality is an involution: the dual of the dual is the protocol itself.
pub proof fn lemma_dual_involutive(p: Shape)
    ensures
        p.dual().dual() == p,
    decreases p,
{
    match p {
        Shape::Terminate => {},
        Shape::Send(_, c) => {
            lemma_dual_involutive(*c);
        },
        Shape::Receive(_, c) => {
            lemma_dual_involutive(*c);
        },
        Shape::Offer(alts) => {
            let back = p.dual().dual()->Offer_0;
            assert forall|i: int| 0 <= i < alts.len() implies back[i] == alts[i] by {
                lemma_dual_involutive(alts[i]);
            }
            assert(back =~= alts);
        },
        Shape::Choose(alts) => {
            let back = p.dual().dual()->Choose_0;
            assert forall|i: int| 0 <= i < alts.len() implies back[i] == alts[i] by {
                lemma_dual_involutive(alts[i]);
            }
            assert(back =~= alts);
        },
        Shape::Tau(_) => {},
    }
}

/// The dual of an offer is the choice among the duals of its alternatives, in the
/// same order, and the dual of a choice is the offer of the duals.
pub proof fn lemma_dual_of_branching(alts: Seq<Shape>)
    ensures
        Shape::Offer(alts).dual() == Shape::Choose(alts.map_values(|a: Shape| a.dual())),
        Shape::Choose(alts).dual() == Shape::Offer(alts.map_values(|a: Shape| a.dual())),
{
    let mapped = alts.map_values(|a: Shape| a.dual());
    assert(Shape::Offer(alts).dual()->Choose_0 =~= mapped);
    assert(Shape::Choose(alts).dual()->Offer_0 =~= mapped);
}

/// Whichever alternative of a branching is taken, the two sides go on in states
/// that are each other's dual: the peer's view of the alternative at a place is
/// the dual of the alternative at that place.
pub proof fn lemma_alternatives_stay_dual(alts: Seq<Shape>, i: int)
    requires
        0 <= i < alts.len(),
    ensures
        Shape::Choose(alts).dual() is Offer,
        Shape::Choose(alts).dual()->Offer_0.len() == alts.len(),
        Shape::Choose(alts).dual()->Offer_0[i] == alts[i].dual(),
        Shape::Offer(alts).dual() is Choose,
        Shape::Offer(alts).dual()->Choose_0.len() == alts.len(),
        Shape::Offer(alts).dual()->Choose_0[i] == alts[i].dual(),
{
}

/// Two protocols are each other's dual as soon as one is the dual of the other.
pub proof fn lemma_dual_symmetric(p: Shape, q: Shape)
    ensures
        (p.dual() == q) == (q.dual() == p),
{
    lemma_dual_involutive(p);
    lemma_dual_involutive(q);
}

/// The dual of a constructible protocol is constructible.
pub proof fn lemma_dual_constructible(p: Shape)
    requires
        p.constructible(),
    ensures
        p.dual().constructible(),
    decreases p,
{
    match p {
        Shape::Terminate => {},
        Shape::Send(_, c) => {
            lemma_dual_constructible(*c);
        },
        Shape::Receive(_, c) => {
            lemma_dual_constructible(*c);
        },
        Shape::Offer(alts) => {
            let duals = p.dual()->Choose_0;
            assert forall|i: int| 0 <= i < duals.len() implies (#[trigger] duals[i]).constructible() by {
                assert(alts[i].constructible());
                lemma_dual_constructible(alts[i]);
            }
        },
        Shape::Choose(alts) => {
            let duals = p.dual()->Offer_0;
            assert forall|i: int| 0 <= i < duals.len() implies (#[trigger] duals[i]).constructible() by {
                assert(alts[i].constructible());
                lemma_dual_constructible(alts[i]);
            }
        },
        Shape::Tau(_) => {},
    }
}

/// A protocol as a run-time value. Its view is its [`Shape`].
#[derive(Debug, PartialEq, Eq)]
pub enum Protocol {
    Terminate,
    Send(u32, Box<Protocol>),
    Receive(u32, Box<Protocol>),
    Offer(Vec<Protocol>),
    Choose(Vec<Protocol>),
    Tau(Box<Protocol>),
}

impl Protocol {
    /// The shape that this value describes.
    pub open spec fn shape(&self) -> Shape
        decreases self,
    {
        match self {
            Protocol::Terminate => Shape::Terminate,
            Protocol::Send(m, c) => Shape::Send(*m as int, Box::new(c.shape())),
            Protocol::Receive(m, c) => Shape::Receive(*m as int, Box::new(c.shape())),
            Protocol::Offer(alts) => Shape::Offer(
                Seq::new(
                    alts@.len(),
                    |i: int|
                        if 0 <= i < alts@.len() {
                            alts@[i].shape()
                        } else {
                            Shape::Terminate
                        },
                ),
            ),
            Protocol::Choose(alts) => Shape::Choose(
                Seq::new(
                    alts@.len(),
                    |i: int|
                        if 0 <= i < alts@.len() {
                            alts@[i].shape()
                        } else {
                            Shape::Terminate
                        },
                ),
            ),
            Protocol::Tau(c) => Shape::Tau(Box::new(c.shape())),
        }
    }
}

/// The shapes of the protocols of a list, in order.
pub open spec fn shapes(alts: Seq<Protocol>) -> Seq<Shape> {
    Seq::new(alts.len(), |i: int| alts[i].shape())
}

/// The shape of a branching is the branching of the shapes of its alternatives.
pub proof fn lemma_branching_shape(alts: Vec<Protocol>)
    ensures
        Protocol::Offer(alts).shape() == Shape::Offer(shapes(alts@)),
        Protocol::Choose(alts).shape() == Shape::Choose(shapes(alts@)),
{
    assert(Protocol::Offer(alts).shape()->Offer_0 =~= shapes(alts@));
    assert(Protocol::Choose(alts).shape()->Choose_0 =~= shapes(alts@));
}

impl Protocol {
    /// A copy of this protocol.
    pub fn duplicate(&self) -> (copy: Protocol)
        ensures
            copy@ == self@,
        decreases self, 1int,
    {
        match self {
            Protocol::Terminate => Protocol::Terminate,
            Protocol::Send(m, c) => Protocol::Send(*m, Box::new(c.duplicate())),
            Protocol::Receive(m, c) => Protocol::Receive(*m, Box::new(c.duplicate())),
            Protocol::Offer(alts) => {
                let copies = Self::duplicate_each(alts);
                proof {
                    lemma_branching_shape(*alts);
                    lemma_branching_shape(copies);
                    assert(shapes(copies@) =~= shapes(alts@));
                }
                Protocol::Offer(copies)
            },
            Protocol::Choose(alts) => {
                let copies = Self::duplicate_each(alts);
                proof {
                    lemma_branching_shape(*alts);
                    lemma_branching_shape(copies);
                    assert(shapes(copies@) =~= shapes(alts@));
                }
                Protocol::Choose(copies)
            },
            Protocol::Tau(c) => Protocol::Tau(Box::new(c.duplicate())),
        }
    }

    fn duplicate_each(alts: &Vec<Protocol>) -> (copies: Vec<Protocol>)
        ensures
            copies.len() == alts.len(),
            forall|j: int| 0 <= j < alts.len() ==> (#[trigger] copies@[j])@ == alts@[j]@,
        decreases alts, 0int,
    {
        let mut copies: Vec<Protocol> = Vec::new();
        let mut i: usize = 0;
        while i < alts.len()
            invariant
                i <= alts.len(),
                copies.len() == i,
                forall|j: int| 0 <= j < i ==> (#[trigger] copies@[j])@ == alts@[j]@,
            decreases alts.len() - i,
        {
            copies.push(alts[i].duplicate());
            i += 1;
        }
        copies
    }

    /// The protocol that the peer has to follow.
    pub fn dual(&self) -> (d: Protocol)
        ensures
            d@ == self@.dual(),
        decreases self, 1int,
    {
        match self {
            Protocol::Terminate => Protocol::Terminate,
            Protocol::Send(m, c) => Protocol::Receive(*m, Box::new(c.dual())),
            Protocol::Receive(m, c) => Protocol::Send(*m, Box::new(c.dual())),
            Protocol::Offer(alts) => {
                let duals = Self::dual_each(alts);
                proof {
                    lemma_branching_shape(*alts);
                    lemma_branching_shape(duals);
                    assert(shapes(duals@) =~= self@.dual()->Choose_0);
                }
                Protocol::Choose(duals)
            },
            Protocol::Choose(alts) => {
                let duals = Self::dual_each(alts);
                proof {
                    lemma_branching_shape(*alts);
                    lemma_branching_shape(duals);
                    assert(shapes(duals@) =~= self@.dual()->Offer_0);
                }
                Protocol::Offer(duals)
            },
            Protocol::Tau(c) => Protocol::Tau(Box::new(c.duplicate())),
        }
    }

    fn dual_each(alts: &Vec<Protocol>) -> (duals: Vec<Protocol>)
        ensures
            duals.len() == alts.len(),
            forall|j: int| 0 <= j < alts.len() ==> (#[trigger] duals@[j])@ == alts@[j]@.dual(),
        decreases alts, 0int,
    {
        let mut duals: Vec<Protocol> = Vec::new();
        let mut i: usize = 0;
        while i < alts.len()
            invariant
                i <= alts.len(),
                duals.len() == i,
                forall|j: int| 0 <= j < i ==> (#[trigger] duals@[j])@ == alts@[j]@.dual(),
            decreases alts.len() - i,
        {
            duals.push(alts[i].dual());
            i += 1;
        }
        duals
    }

    /// Whether the two protocols are the same, step for step.
    pub fn same_shape(&self, other: &Protocol) -> (same: bool)
        ensures
            same == (self@ == other@),
        decreases self, 1int,
    {
        match (self, other) {
            (Protocol::Terminate, Protocol::Terminate) => true,
            (Protocol::Send(m, c), Protocol::Send(n, d)) => *m == *n && c.same_shape(d),
            (Protocol::Receive(m, c), Protocol::Receive(n, d)) => *m == *n && c.same_shape(d),
            (Protocol::Offer(alts), Protocol::Offer(others)) => {
                let same = Self::same_each(alts, others);
                proof {
                    lemma_branching_shape(*alts);
                    lemma_branching_shape(*others);
                    if same {
                        assert(shapes(alts@) =~= shapes(others@));
                    } else if alts.len() == others.len() {
                        let j = choose|j: int| 0 <= j < alts.len() && alts@[j]@ != others@[j]@;
                        assert(shapes(alts@)[j] != shapes(others@)[j]);
                    } else {
                        assert(shapes(alts@).len() != shapes(others@).len());
                    }
                }
                same
            },
            (Protocol::Choose(alts), Protocol::Choose(others)) => {
                let same = Self::same_each(alts, others);
                proof {
                    lemma_branching_shape(*alts);
                    lemma_branching_shape(*others);
                    if same {
                        assert(shapes(alts@) =~= shapes(others@));
                    } else if alts.len() == others.len() {
                        let j = choose|j: int| 0 <= j < alts.len() && alts@[j]@ != others@[j]@;
                        assert(shapes(alts@)[j] != shapes(others@)[j]);
                    } else {
                        assert(shapes(alts@).len() != shapes(others@).len());
                    }
                }
                same
            },
            (Protocol::Tau(c), Protocol::Tau(d)) => c.same_shape(d),
            _ => false,
        }
    }

    fn same_each(alts: &Vec<Protocol>, others: &Vec<Protocol>) -> (same: bool)
        ensures
            same == (alts.len() == others.len() && forall|j: int|
                0 <= j < alts.len() ==> alts@[j]@ == others@[j]@),
        decreases alts, 0int,
    {
        if alts.len() != others.len() {
            return false;
        }
        let mut i: usize = 0;
        while i < alts.len()
            invariant
                i <= alts.len(),
                alts.len() == others.len(),
                forall|j: int| 0 <= j < i ==> alts@[j]@ == others@[j]@,
            decreases alts.len() - i,
        {
            if !alts[i].same_shape(&others[i]) {
                return false;
            }
            i += 1;
        }
        true
    }

    /// Whether `other` is what the peer of this protocol has to follow.
    pub fn is_dual_of(&self, other: &Protocol) -> (dual: bool)
        ensures
            dual == (self@.dual() == other@),
            dual == (other@.dual() == self@),
    {
        proof {
            lemma_dual_symmetric(self@, other@);
        }
        self.dual().same_shape(other)
    }

    /// Whether the protocol can be built by the construction rules.
    pub fn is_constructible(&self) -> (ok: bool)
        ensures
            ok == self@.constructible(),
        decreases self, 1int,
    {
        match self {
            Protocol::Terminate => true,
            Protocol::Send(_, c) => c.is_constructible(),
            Protocol::Receive(_, c) => c.is_constructible(),
            Protocol::Offer(alts) => {
                proof {
                    lemma_branching_shape(*alts);
                }
                let ok = alts.len() >= 2 && Self::each_constructible(alts);
                proof {
                    let s = shapes(alts@);
                    if ok {
                        assert forall|j: int| 0 <= j < s.len() implies (#[trigger] s[j]).constructible() by {
                            assert(alts@[j]@.constructible());
                        }
                    } else if alts.len() >= 2 {
                        let j = choose|j: int| 0 <= j < alts.len() && !alts@[j]@.constructible();
                        assert(!s[j].constructible());
                    }
                }
                ok
            },
            Protocol::Choose(alts) => {
                proof {
                    lemma_branching_shape(*alts);
                }
                let ok = alts.len() >= 2 && Self::each_constructible(alts);
                proof {
                    let s = shapes(alts@);
                    if ok {
                        assert forall|j: int| 0 <= j < s.len() implies (#[trigger] s[j]).constructible() by {
                            assert(alts@[j]@.constructible());
                        }
                    } else if alts.len() >= 2 {
                        let j = choose|j: int| 0 <= j < alts.len() && !alts@[j]@.constructible();
                        assert(!s[j].constructible());
                    }
                }
                ok
            },
            Protocol::Tau(c) => c.is_constructible(),
        }
    }

    fn each_constructible(alts: &Vec<Protocol>) -> (ok: bool)
        ensures
            ok == (forall|j: int| 0 <= j < alts.len() ==> alts@[j]@.constructible()),
        decreases alts, 0int,
    {
        let mut i: usize = 0;
        while i < alts.len()
            invariant
                i <= alts.len(),
                forall|j: int| 0 <= j < i ==> alts@[j]@.constructible(),
            decreases alts.len() - i,
        {
            if !alts[i].is_constructible() {
                return false;
            }
            i += 1;
        }
        true
    }

    /// The protocol without its leading internal steps.
    pub fn reduced(&self) -> (r: &Protocol)
        ensures
            r@ == self@.reduced(),
        decreases self,
    {
        match self {
            Protocol::Tau(c) => c.reduced(),
            _ => self,
        }
    }
}

impl View for Protocol {
    type V = Shape;

    open spec fn view(&self) -> Shape {
        self.shape()
    }
}

} // verus!
