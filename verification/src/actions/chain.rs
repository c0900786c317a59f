//! The way of an action through the domains that may own it.
//!
//! An action is offered to one domain after the other. A domain that does not
//! own it hands it on, and the last one leaves it unhandled.
use vstd::prelude::*;

verus! {

/// The domains, in the order in which they are asked.
#[derive(Debug, Clone, Copy, PartialEq, Eq, Structural)]
pub enum Domain {
    Resolution,
    Layers,
    Masks,
    Biomes,
    WorldRules,
    Scenarios,
    Settings,
    Tools,
}

/// What a domain made of an action.
#[derive(Debug, Clone, Copy, PartialEq, Eq, Structural)]
pub struct Verdict {
    /// The action is of the domain and has been applied.
    pub owned: bool,
    /// Once the domain has been asked, the batch is told to go on with the next
    /// action. An order given earlier for the same action still stands.
    pub skip: bool,
}

/// Where an action goes after a domain.
#[derive(Debug, Clone, Copy, PartialEq, Eq, Structural)]
pub enum ChainStep {
    /// The batch goes on with the next action.
    Done,
    Offer(Domain),
    /// No domain owns the action; the log is told.
    Unhandled,
}

/// All domains in order.
pub open spec fn domains() -> Seq<Domain> {
    seq![
        Domain::Resolution,
        Domain::Layers,
        Domain::Masks,
        Domain::Biomes,
        Domain::WorldRules,
        Domain::Scenarios,
        Domain::Settings,
        Domain::Tools,
    ]
}

impl Domain {
    /// The place of the domain in the order.
    pub open spec fn rank(self) -> int {
        match self {
            Domain::Resolution => 0,
            Domain::Layers => 1,
            Domain::Masks => 2,
            Domain::Biomes => 3,
            Domain::WorldRules => 4,
            Domain::Scenarios => 5,
            Domain::Settings => 6,
            Domain::Tools => 7,
        }
    }

    /// The step after this domain's verdict. Resolution is asked before a batch
    /// can be told to skip.
    pub open spec fn step(self, verdict: Verdict) -> ChainStep {
        if verdict.owned {
            ChainStep::Done
        } else if self == Domain::Tools {
            ChainStep::Unhandled
        } else if verdict.skip && self != Domain::Resolution {
            ChainStep::Done
        } else {
            ChainStep::Offer(domains()[self.rank() + 1])
        }
    }

    /// The domains that an action meets from this one on.
    pub open spec fn met(self, verdicts: spec_fn(Domain) -> Verdict) -> Seq<Domain>
        decreases 8 - self.rank(),
    {
        match self.step(verdicts(self)) {
            ChainStep::Offer(next) => if next.rank() == self.rank() + 1 {
                seq![self] + next.met(verdicts)
            } else {
                seq![self]
            },
            _ => seq![self],
        }
    }

    pub fn after(self, verdict: Verdict) -> (r: ChainStep)
        ensures
            r == self.step(verdict),
    {
        if verdict.owned {
            return ChainStep::Done;
        }
        match self {
            Domain::Tools => ChainStep::Unhandled,
            Domain::Resolution => ChainStep::Offer(Domain::Layers),
            _ => if verdict.skip {
                ChainStep::Done
            } else {
                ChainStep::Offer(
                    match self {
                        Domain::Layers => Domain::Masks,
                        Domain::Masks => Domain::Biomes,
                        Domain::Biomes => Domain::WorldRules,
                        Domain::WorldRules => Domain::Scenarios,
                        Domain::Scenarios => Domain::Settings,
                        _ => Domain::Tools,
                    },
                )
            },
        }
    }
}

/// A domain that does not own an action hands it to the next one: an action is
/// met by the domains up to its owner, each once and in order, and by no domain
/// after it.
pub proof fn an_action_reaches_its_owner(owner: Domain, verdicts: spec_fn(Domain) -> Verdict)
    requires
        verdicts(owner).owned,
        forall|d: Domain|
            d.rank() < owner.rank() ==> !(#[trigger] verdicts(d)).owned && !verdicts(d).skip,
    ensures
        Domain::Resolution.met(verdicts) == domains().take(owner.rank() + 1),
{
    met_up_to(owner, verdicts, 0);
    assert(domains().subrange(0, owner.rank() + 1) =~= domains().take(owner.rank() + 1));
}

proof fn met_up_to(owner: Domain, verdicts: spec_fn(Domain) -> Verdict, from: int)
    requires
        verdicts(owner).owned,
        forall|d: Domain|
            d.rank() < owner.rank() ==> !(#[trigger] verdicts(d)).owned && !verdicts(d).skip,
        0 <= from <= owner.rank(),
    ensures
        domains()[from].met(verdicts) == domains().subrange(from, owner.rank() + 1),
    decreases owner.rank() - from,
{
    let d = domains()[from];
    assert(d.rank() == from);
    if from == owner.rank() {
        assert(d == owner);
        assert(domains().subrange(from, from + 1) =~= seq![d]);
    } else {
        assert(domains()[from + 1].rank() == from + 1);
        assert(!verdicts(d).owned && !verdicts(d).skip);
        met_up_to(owner, verdicts, from + 1);
        assert(domains().subrange(from, owner.rank() + 1) =~= seq![d] + domains().subrange(
            from + 1,
            owner.rank() + 1,
        ));
    }
}

/// An action that nobody owns is met by every domain, each once and in order,
/// and ends unhandled.
pub proof fn an_unowned_action_meets_every_domain(verdicts: spec_fn(Domain) -> Verdict)
    requires
        forall|d: Domain| !(#[trigger] verdicts(d)).owned && !verdicts(d).skip,
    ensures
        Domain::Resolution.met(verdicts) == domains(),
        Domain::Tools.step(verdicts(Domain::Tools)) == ChainStep::Unhandled,
        forall|d: Domain| d != Domain::Tools ==> !(#[trigger] d.step(verdicts(d)) is Unhandled),
{
    met_to_the_end(verdicts, 0);
    assert(domains().subrange(0, 8) =~= domains());
}

proof fn met_to_the_end(verdicts: spec_fn(Domain) -> Verdict, from: int)
    requires
        forall|d: Domain| !(#[trigger] verdicts(d)).owned && !verdicts(d).skip,
        0 <= from < 8,
    ensures
        domains()[from].met(verdicts) == domains().subrange(from, 8),
    decreases 8 - from,
{
    let d = domains()[from];
    assert(d.rank() == from);
    assert(!verdicts(d).owned && !verdicts(d).skip);
    if from == 7 {
        assert(domains().subrange(7, 8) =~= seq![d]);
    } else {
        assert(domains()[from + 1].rank() == from + 1);
        met_to_the_end(verdicts, from + 1);
        assert(domains().subrange(from, 8) =~= seq![d] + domains().subrange(from + 1, 8));
    }
}

/// An owned action goes no further. One that is not owned goes from resolution to the
/// layers, the masks, the biomes, the world rules, the scenarios, the settings and the
/// tools, which leave it unhandled; a batch that is told to skip keeps it from the next
/// domain, but for resolution.
pub proof fn actions_go_from_domain_to_domain(domain: Domain, verdict: Verdict, step: ChainStep)
    requires
        call_ensures(Domain::after, (domain, verdict), step),
    ensures
        verdict.owned ==> step is Done,
        !verdict.owned && domain is Resolution ==> step == ChainStep::Offer(Domain::Layers),
        !verdict.owned && domain is Tools ==> step is Unhandled,
        !verdict.owned && verdict.skip && !(domain is Resolution) && !(domain is Tools) ==> step
            is Done,
        !verdict.owned && !verdict.skip ==> {
            &&& domain is Layers ==> step == ChainStep::Offer(Domain::Masks)
            &&& domain is Masks ==> step == ChainStep::Offer(Domain::Biomes)
            &&& domain is Biomes ==> step == ChainStep::Offer(Domain::WorldRules)
            &&& domain is WorldRules ==> step == ChainStep::Offer(Domain::Scenarios)
            &&& domain is Scenarios ==> step == ChainStep::Offer(Domain::Settings)
            &&& domain is Settings ==> step == ChainStep::Offer(Domain::Tools)
        },
{
}

} // verus!
