//! Rules that decide by their addresses which packets enter the stack.
use crate::addr::IpAddr;
use vstd::prelude::*;

verus! {

/// Whether an address stands for a single host: it is not the broadcast address,
/// not a multicast address and not the unspecified address.
pub open spec fn is_single_host(addr: IpAddr) -> bool {
    match addr {
        IpAddr::V4(o) => {
            &&& o@ != seq![255u8, 255u8, 255u8, 255u8]
            &&& !(224 <= o@[0] <= 239)
            &&& o@ != seq![0u8, 0u8, 0u8, 0u8]
        },
        IpAddr::V6(o) => {
            &&& o@[0] != 255
            &&& exists|i: int| 0 <= i < 16 && o@[i] != 0
        },
    }
}

/// Whether an address stands for a single host.
pub fn single_host(addr: &IpAddr) -> (single: bool)
    ensures
        single == is_single_host(*addr),
{
    match addr {
        IpAddr::V4(o) => {
            let broadcast = o[0] == 255 && o[1] == 255 && o[2] == 255 && o[3] == 255;
            let multicast = 224 <= o[0] && o[0] <= 239;
            let unspecified = o[0] == 0 && o[1] == 0 && o[2] == 0 && o[3] == 0;
            proof {
                if broadcast {
                    assert(o@ =~= seq![255u8, 255u8, 255u8, 255u8]);
                }
                if unspecified {
                    assert(o@ =~= seq![0u8, 0u8, 0u8, 0u8]);
                }
            }
            !broadcast && !multicast && !unspecified
        },
        IpAddr::V6(o) => {
            let mut i: usize = 0;
            while i < 16 && o[i] == 0
                invariant
                    i <= 16,
                    forall|j: int| 0 <= j < i ==> o@[j] == 0,
                decreases 16 - i,
            {
                i += 1;
            }
            o[0] != 255 && i < 16
        },
    }
}

/// A rule on the source and the destination of a packet.
pub enum IpFilter<F> {
    /// Both ends are single hosts.
    NonBroadcast,
    /// The function answers `true`.
    Custom(F),
}

impl<F: Fn(&IpAddr, &IpAddr) -> bool> IpFilter<F> {
    /// Whether the rule can be asked about every pair of addresses.
    pub open spec fn total(self) -> bool {
        self matches IpFilter::Custom(function) ==> forall|src: &IpAddr, dst: &IpAddr|
            call_requires(function, (src, dst))
    }

    /// Whether the rule can answer `allowed` for a packet from `src` to `dst`. A
    /// function need not answer alike twice.
    pub open spec fn may_answer(self, src: IpAddr, dst: IpAddr, allowed: bool) -> bool {
        match self {
            IpFilter::NonBroadcast => allowed == (is_single_host(src) && is_single_host(dst)),
            IpFilter::Custom(function) => call_ensures(function, (&src, &dst), allowed),
        }
    }

    /// Whether the rule allows a packet from `src` to `dst`.
    pub fn check(&self, src: &IpAddr, dst: &IpAddr) -> (allowed: bool)
        requires
            self.total(),
        ensures
            self.may_answer(*src, *dst, allowed),
    {
        match self {
            IpFilter::NonBroadcast => single_host(src) && single_host(dst),
            IpFilter::Custom(function) => function(src, dst),
        }
    }
}

/// Rules that all have to allow a packet.
pub struct IpFilters<F: Fn(&IpAddr, &IpAddr) -> bool> {
    filters: Vec<IpFilter<F>>,
}

/// Whether rules, asked in order, can answer `allowed` together: all of them allow
/// the packet, or those before some rule do and that rule does not.
pub open spec fn rules_may_answer<F: Fn(&IpAddr, &IpAddr) -> bool>(
    rules: Seq<IpFilter<F>>,
    src: IpAddr,
    dst: IpAddr,
    allowed: bool,
) -> bool {
    if allowed {
        forall|i: int| 0 <= i < rules.len() ==> (#[trigger] rules[i]).may_answer(src, dst, true)
    } else {
        exists|k: int|
            0 <= k < rules.len() && (#[trigger] rules[k]).may_answer(src, dst, false) && forall|
                i: int,
            |
                0 <= i < k ==> (#[trigger] rules[i]).may_answer(src, dst, true)
    }
}

impl<F: Fn(&IpAddr, &IpAddr) -> bool> IpFilters<F> {
    /// Every rule can be asked about every pair of addresses.
    #[verifier::type_invariant]
    spec fn total(self) -> bool {
        forall|i: int| 0 <= i < self.filters@.len() ==> (#[trigger] self.filters@[i]).total()
    }

    /// The rules, in the order in which they are asked.
    pub closed spec fn rules(self) -> Seq<IpFilter<F>> {
        self.filters@
    }

    /// Creates a filter of the given rules.
    pub fn new(filters: Vec<IpFilter<F>>) -> (all: IpFilters<F>)
        requires
            forall|i: int| 0 <= i < filters@.len() ==> (#[trigger] filters@[i]).total(),
        ensures
            all.rules() == filters@,
    {
        IpFilters { filters }
    }

    /// Creates the filter that lets packets between single hosts pass.
    pub fn with_non_broadcast() -> (all: IpFilters<F>)
        ensures
            all.rules() == seq![IpFilter::<F>::NonBroadcast],
    {
        let mut filters: Vec<IpFilter<F>> = Vec::new();
        filters.push(IpFilter::NonBroadcast);
        IpFilters { filters }
    }

    /// Adds a rule, to be asked last.
    pub fn add(&mut self, filter: IpFilter<F>)
        requires
            filter.total(),
        ensures
            final(self).rules() == old(self).rules().push(filter),
    {
        proof {
            use_type_invariant(&*self);
        }
        let mut filters: Vec<IpFilter<F>> = Vec::new();
        std::mem::swap(&mut self.filters, &mut filters);
        filters.push(filter);
        self.filters = filters;
    }

    /// Adds a function as a rule, to be asked last.
    pub fn add_fn(&mut self, filter: F)
        requires
            forall|src: &IpAddr, dst: &IpAddr| call_requires(filter, (src, dst)),
        ensures
            final(self).rules() == old(self).rules().push(IpFilter::Custom(filter)),
    {
        self.add(IpFilter::Custom(filter));
    }

    /// Whether all rules allow a packet from `src` to `dst`. They are asked in
    /// order, up to the first that does not.
    pub fn is_allowed(&self, src: &IpAddr, dst: &IpAddr) -> (allowed: bool)
        ensures
            rules_may_answer(self.rules(), *src, *dst, allowed),
    {
        proof {
            use_type_invariant(self);
        }
        let mut i: usize = 0;
        while i < self.filters.len()
            invariant
                i <= self.filters@.len(),
                self.total(),
                forall|j: int|
                    0 <= j < i ==> (#[trigger] self.filters@[j]).may_answer(*src, *dst, true),
            decreases self.filters.len() - i,
        {
            if !self.filters[i].check(src, dst) {
                assert(self.filters@[i as int].may_answer(*src, *dst, false));
                return false;
            }
            i += 1;
        }
        true
    }
}

/// A filter made of the single-host rule alone allows exactly the packets between
/// single hosts.
pub proof fn law_non_broadcast_is_decisive<F: Fn(&IpAddr, &IpAddr) -> bool>(
    src: IpAddr,
    dst: IpAddr,
    allowed: bool,
)
    ensures
        rules_may_answer(seq![IpFilter::<F>::NonBroadcast], src, dst, allowed) <==> allowed == (
        is_single_host(src) && is_single_host(dst)),
{
    let rules = seq![IpFilter::<F>::NonBroadcast];
    assert(rules[0].may_answer(src, dst, is_single_host(src) && is_single_host(dst)));
}

/// A filter without rules allows every packet.
pub proof fn law_no_rules_allow_everything<F: Fn(&IpAddr, &IpAddr) -> bool>(
    src: IpAddr,
    dst: IpAddr,
    allowed: bool,
)
    ensures
        rules_may_answer(Seq::<IpFilter<F>>::empty(), src, dst, allowed) <==> allowed,
{
}

/// Adding a rule can only make a filter stricter: where the longer list can allow a
/// packet, the shorter one can, and so can the new rule.
pub proof fn law_more_rules_allow_less<F: Fn(&IpAddr, &IpAddr) -> bool>(
    rules: Seq<IpFilter<F>>,
    rule: IpFilter<F>,
    src: IpAddr,
    dst: IpAddr,
)
    requires
        rules_may_answer(rules.push(rule), src, dst, true),
    ensures
        rules_may_answer(rules, src, dst, true),
        rule.may_answer(src, dst, true),
{
    let longer = rules.push(rule);
    assert(longer[rules.len() as int] == rule);
    assert forall|i: int| 0 <= i < rules.len() implies (#[trigger] rules[i]).may_answer(
        src,
        dst,
        true,
    ) by {
        assert(longer[i] == rules[i]);
    }
}

} // verus!
