//! Laws on the rules that packets are held against.
use crate::addr::IpAddr;
use crate::filter::{is_single_host, rules_may_answer, single_host, IpFilter, IpFilters};
use vstd::prelude::*;

verus! {

/// Whether an address stands for one host: it is neither all ones nor all zeros, and
/// no multicast address.
pub open spec fn is_one_host(addr: IpAddr) -> bool {
    match addr {
        IpAddr::V4(o) => {
            &&& exists|i: int| 0 <= i < 4 && #[trigger] o@[i] != 255
            &&& exists|i: int| 0 <= i < 4 && #[trigger] o@[i] != 0
            &&& o@[0] < 224 || o@[0] > 239
        },
        IpAddr::V6(o) => {
            &&& exists|i: int| 0 <= i < 16 && #[trigger] o@[i] != 0
            &&& o@[0] < 255
        },
    }
}

/// Whether a rule is sure to allow a packet.
pub open spec fn surely_allows<F: Fn(&IpAddr, &IpAddr) -> bool>(
    rule: IpFilter<F>,
    src: IpAddr,
    dst: IpAddr,
) -> bool {
    match rule {
        IpFilter::NonBroadcast => is_one_host(src) && is_one_host(dst),
        IpFilter::Custom(function) => !call_ensures(function, (&src, &dst), false),
    }
}

/// Whether a rule is sure to refuse a packet.
pub open spec fn surely_refuses<F: Fn(&IpAddr, &IpAddr) -> bool>(
    rule: IpFilter<F>,
    src: IpAddr,
    dst: IpAddr,
) -> bool {
    match rule {
        IpFilter::NonBroadcast => !is_one_host(src) || !is_one_host(dst),
        IpFilter::Custom(function) => !call_ensures(function, (&src, &dst), true),
    }
}

/// The addresses that stand for one host are told apart from the others.
pub proof fn law_hosts_are_told_apart(addr: IpAddr, single: bool)
    requires
        call_ensures(single_host, (&addr,), single),
    ensures
        single <==> is_one_host(addr),
{
    lemma_hosts(addr);
}

/// The predicate of the filter on single hosts, in terms of octets.
proof fn lemma_hosts(addr: IpAddr)
    ensures
        is_single_host(addr) <==> is_one_host(addr),
{
    match addr {
        IpAddr::V4(o) => {
            if forall|i: int| 0 <= i < 4 ==> #[trigger] o@[i] == 255 {
                assert(o@ =~= seq![255u8, 255u8, 255u8, 255u8]);
            }
            if forall|i: int| 0 <= i < 4 ==> #[trigger] o@[i] == 0 {
                assert(o@ =~= seq![0u8, 0u8, 0u8, 0u8]);
            }
            if o@ == seq![255u8, 255u8, 255u8, 255u8] {
                assert(forall|i: int| 0 <= i < 4 ==> #[trigger] o@[i] == 255);
            }
            if o@ == seq![0u8, 0u8, 0u8, 0u8] {
                assert(forall|i: int| 0 <= i < 4 ==> #[trigger] o@[i] == 0);
            }
        },
        IpAddr::V6(_) => {},
    }
}

/// A rule answers as it has to: the rule on hosts by the addresses, a function by
/// what it says of the source and the destination, in that order.
pub proof fn law_rule_answers<F: Fn(&IpAddr, &IpAddr) -> bool>(
    rule: IpFilter<F>,
    src: IpAddr,
    dst: IpAddr,
    allowed: bool,
)
    requires
        call_ensures(IpFilter::<F>::check, (&rule, &src, &dst), allowed),
    ensures
        rule is NonBroadcast ==> (allowed <==> is_one_host(src) && is_one_host(dst)),
        rule matches IpFilter::Custom(function) ==> call_ensures(function, (&src, &dst), allowed),
        surely_allows(rule, src, dst) ==> allowed,
        surely_refuses(rule, src, dst) ==> !allowed,
{
    lemma_hosts(src);
    lemma_hosts(dst);
}

/// A packet passes where every rule is sure to allow it, and does not where one is
/// sure to refuse it. Where it passes, no rule was sure to refuse it; where it does
/// not, some rule was not sure to allow it.
pub proof fn law_all_rules_decide<F: Fn(&IpAddr, &IpAddr) -> bool>(
    filters: IpFilters<F>,
    src: IpAddr,
    dst: IpAddr,
    allowed: bool,
)
    requires
        call_ensures(IpFilters::<F>::is_allowed, (&filters, &src, &dst), allowed),
    ensures
        allowed ==> forall|i: int|
            0 <= i < filters.rules().len() ==> !surely_refuses(
                #[trigger] filters.rules()[i],
                src,
                dst,
            ),
        !allowed ==> exists|i: int|
            0 <= i < filters.rules().len() && !surely_allows(
                #[trigger] filters.rules()[i],
                src,
                dst,
            ),
{
    lemma_hosts(src);
    lemma_hosts(dst);
    lemma_rules_decide(filters.rules(), src, dst, allowed);
}

/// What the answer of rules together says of the rules.
pub proof fn lemma_rules_decide<F: Fn(&IpAddr, &IpAddr) -> bool>(
    rules: Seq<IpFilter<F>>,
    src: IpAddr,
    dst: IpAddr,
    allowed: bool,
)
    requires
        rules_may_answer(rules, src, dst, allowed),
    ensures
        allowed ==> forall|i: int|
            0 <= i < rules.len() ==> !surely_refuses(#[trigger] rules[i], src, dst),
        !allowed ==> exists|i: int|
            0 <= i < rules.len() && !surely_allows(#[trigger] rules[i], src, dst),
{
    lemma_hosts(src);
    lemma_hosts(dst);
    if allowed {
        assert forall|i: int| 0 <= i < rules.len() implies !surely_refuses(
            #[trigger] rules[i],
            src,
            dst,
        ) by {
            assert(rules[i].may_answer(src, dst, true));
        }
    } else {
        let k = choose|k: int|
            0 <= k < rules.len() && (#[trigger] rules[k]).may_answer(src, dst, false);
        assert(rules[k].may_answer(src, dst, false));
        assert(!surely_allows(rules[k], src, dst));
    }
}

/// The rules of the default filter let exactly the packets between single hosts
/// pass.
pub proof fn law_default_rules_pass_hosts<F: Fn(&IpAddr, &IpAddr) -> bool>(
    filters: IpFilters<F>,
    src: IpAddr,
    dst: IpAddr,
    allowed: bool,
)
    requires
        call_ensures(IpFilters::<F>::with_non_broadcast, (), filters),
        call_ensures(IpFilters::<F>::is_allowed, (&filters, &src, &dst), allowed),
    ensures
        allowed <==> is_one_host(src) && is_one_host(dst),
{
    law_all_rules_decide(filters, src, dst, allowed);
    assert(filters.rules()[0] is NonBroadcast);
    lemma_hosts(src);
    lemma_hosts(dst);
}

/// A filter that is made of rules, or is given one more, has exactly those, in the
/// order in which they came.
pub proof fn law_rules_are_kept<F: Fn(&IpAddr, &IpAddr) -> bool>(
    rules: Vec<IpFilter<F>>,
    made: IpFilters<F>,
    grown: &mut IpFilters<F>,
    rule: IpFilter<F>,
    grown_by_function: &mut IpFilters<F>,
    function: F,
)
    requires
        call_ensures(IpFilters::<F>::new, (rules,), made),
        call_ensures(IpFilters::<F>::add, (grown, rule), ()),
        call_ensures(IpFilters::<F>::add_fn, (grown_by_function, function), ()),
    ensures
        made.rules() == rules@,
        final(grown).rules().drop_last() == old(grown).rules(),
        final(grown).rules().last() == rule,
        final(grown_by_function).rules().drop_last() == old(grown_by_function).rules(),
        final(grown_by_function).rules().last() == IpFilter::Custom(function),
{
    assert(final(grown).rules().drop_last() =~= old(grown).rules());
    assert(final(grown_by_function).rules().drop_last() =~= old(grown_by_function).rules());
}

} // verus!
