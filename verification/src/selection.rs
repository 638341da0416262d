//! Which ports a command applies to, given the identifiers it was called
//! with.

use crate::port::{port_views, PortPoe, PortPoeView};
use vstd::prelude::*;

verus! {

/// The strings of a vector, each as its sequence of characters.
pub open spec fn texts(strings: Seq<String>) -> Seq<Seq<char>> {
    strings.map_values(|string: String| string@)
}

/// Whether the identifiers ask for every port: `all`, alone.
pub open spec fn means_all(port_ids: Seq<Seq<char>>) -> bool {
    port_ids.len() == 1 && port_ids[0] == "all"@
}

/// The ports whose identifier is among `port_ids`, in the order of `ports`.
/// An identifier that no port has selects nothing.
pub open spec fn listed(ports: Seq<PortPoeView>, port_ids: Seq<Seq<char>>) -> Seq<PortPoeView> {
    ports.filter(|port: PortPoeView| port_ids.contains(port.port_id))
}

/// The ports that a command applies to: all of them where the identifiers
/// ask for all, those listed otherwise.
pub open spec fn selected(ports: Seq<PortPoeView>, port_ids: Seq<Seq<char>>) -> Seq<PortPoeView> {
    if means_all(port_ids) {
        ports
    } else {
        listed(ports, port_ids)
    }
}

/// Whether the identifiers ask for every port.
pub fn is_all(port_ids: &Vec<String>) -> (all: bool)
    ensures
        all == means_all(texts(port_ids@)),
{
    if port_ids.len() != 1 {
        return false;
    }
    let marker = "all".to_owned();
    port_ids[0] == marker
}

/// Whether `port_id` is among the identifiers.
pub fn contains_id(port_ids: &Vec<String>, port_id: &String) -> (found: bool)
    ensures
        found == texts(port_ids@).contains(port_id@),
{
    let mut at: usize = 0;
    while at < port_ids.len()
        invariant
            at <= port_ids.len(),
            forall|i: int| 0 <= i < at ==> texts(port_ids@)[i] != port_id@,
        decreases port_ids.len() - at,
    {
        if port_ids[at] == *port_id {
            assert(texts(port_ids@)[at as int] == port_id@);
            return true;
        }
        at += 1;
    }
    false
}

/// Keeps the ports whose identifier is among `port_ids`.
pub fn filter(ports: &Vec<PortPoe>, port_ids: &Vec<String>) -> (kept: Vec<PortPoe>)
    ensures
        port_views(kept@) == listed(port_views(ports@), texts(port_ids@)),
{
    let ghost all = port_views(ports@);
    let ghost ids = texts(port_ids@);
    let mut kept: Vec<PortPoe> = Vec::new();
    let mut at: usize = 0;
    proof {
        reveal(Seq::filter);
        assert(all.take(0) =~= Seq::<PortPoeView>::empty());
        assert(port_views(kept@) =~= listed(all.take(0), ids));
    }
    while at < ports.len()
        invariant
            at <= ports.len(),
            all == port_views(ports@),
            ids == texts(port_ids@),
            port_views(kept@) == listed(all.take(at as int), ids),
        decreases ports.len() - at,
    {
        let keep = contains_id(port_ids, &ports[at].port_id);
        let ghost before = kept@;
        if keep {
            kept.push(ports[at].clone());
        }
        proof {
            reveal(Seq::filter);
            let next = all.take(at + 1);
            assert(next.drop_last() =~= all.take(at as int));
            assert(next.last() == ports@[at as int]@);
            if keep {
                assert(port_views(kept@) =~= port_views(before).push(ports@[at as int]@));
            }
        }
        at += 1;
    }
    assert(all.take(at as int) =~= all);
    kept
}

/// The ports that a command applies to, out of those that the switch has.
pub fn select(ports: Vec<PortPoe>, port_ids: &Vec<String>) -> (chosen: Vec<PortPoe>)
    ensures
        port_views(chosen@) == selected(port_views(ports@), texts(port_ids@)),
{
    if is_all(port_ids) {
        ports
    } else {
        filter(&ports, port_ids)
    }
}

/// Asking for all ports selects every port, in the switch's order.
pub proof fn lemma_all_selects_everything(ports: Seq<PortPoeView>)
    ensures
        selected(ports, seq!["all"@]) == ports,
{
}

/// A listed selection holds exactly the ports whose identifier was asked
/// for: no other port, and every port that was.
pub proof fn lemma_listed_is_exact(ports: Seq<PortPoeView>, port_ids: Seq<Seq<char>>)
    ensures
        forall|i: int|
            0 <= i < listed(ports, port_ids).len() ==> port_ids.contains(
                (#[trigger] listed(ports, port_ids)[i]).port_id,
            ) && ports.contains(listed(ports, port_ids)[i]),
        forall|i: int|
            0 <= i < ports.len() && port_ids.contains(ports[i].port_id) ==> listed(
                ports,
                port_ids,
            ).contains(#[trigger] ports[i]),
        listed(ports, port_ids).len() <= ports.len(),
{
    broadcast use vstd::seq_lib::group_filter_ensures;

    let keep = |port: PortPoeView| port_ids.contains(port.port_id);
    assert forall|i: int| 0 <= i < listed(ports, port_ids).len() implies ports.contains(
        #[trigger] listed(ports, port_ids)[i],
    ) by {
        ports.lemma_filter_contains_rev(keep, listed(ports, port_ids)[i]);
    }
}

} // verus!
