//! Serial port names: their order, the set that is shown to the user, and the
//! watcher that reports when ports appear or vanish.

use vstd::prelude::*;
use vstd::multiset::Multiset;
use vstd::relations::*;
use vstd::seq_lib::*;
use vstd::string::*;
use vstd::utf8::*;

use crate::event::{event_view, Event, UiCommand};

verus! {

/// Lexicographic "less or equal" on byte strings; a proper prefix comes first.
pub open spec fn bytes_le(a: Seq<u8>, b: Seq<u8>) -> bool
    decreases a.len(),
{
    if a.len() == 0 {
        true
    } else if b.len() == 0 {
        false
    } else if a[0] != b[0] {
        a[0] < b[0]
    } else {
        bytes_le(a.drop_first(), b.drop_first())
    }
}

/// The order of port names: byte-wise on their UTF-8 encoding, which is how
/// `String` values compare.
pub open spec fn port_le(a: Seq<char>, b: Seq<char>) -> bool {
    bytes_le(encode_utf8(a), encode_utf8(b))
}

/// `port_le` as a relation value, for the sequence library.
pub open spec fn port_order() -> spec_fn(Seq<char>, Seq<char>) -> bool {
    |a: Seq<char>, b: Seq<char>| port_le(a, b)
}

/// The one port name that is never offered: the on-board UART that Linux always lists.
pub open spec fn unusable_port() -> Seq<char> {
    "/dev/ttyS0"@
}

/// `true` for every name but the unusable one.
pub open spec fn usable() -> spec_fn(Seq<char>) -> bool {
    |name: Seq<char>| name != unusable_port()
}

/// What is offered to the user out of an enumeration: the usable names, sorted.
pub open spec fn port_set(found: Seq<Seq<char>>) -> Seq<Seq<char>> {
    found.filter(usable()).sort_by(port_order())
}

proof fn lemma_bytes_le_refl(a: Seq<u8>)
    ensures
        bytes_le(a, a),
    decreases a.len(),
{
    if a.len() > 0 {
        lemma_bytes_le_refl(a.drop_first());
    }
}

proof fn lemma_bytes_le_total(a: Seq<u8>, b: Seq<u8>)
    ensures
        bytes_le(a, b) || bytes_le(b, a),
    decreases a.len(),
{
    if a.len() > 0 && b.len() > 0 && a[0] == b[0] {
        lemma_bytes_le_total(a.drop_first(), b.drop_first());
    }
}

proof fn lemma_bytes_le_antisym(a: Seq<u8>, b: Seq<u8>)
    requires
        bytes_le(a, b),
        bytes_le(b, a),
    ensures
        a == b,
    decreases a.len(),
{
    if a.len() == 0 {
        assert(a =~= b);
    } else {
        lemma_bytes_le_antisym(a.drop_first(), b.drop_first());
        assert(a =~= seq![a[0]] + a.drop_first());
        assert(b =~= seq![b[0]] + b.drop_first());
    }
}

proof fn lemma_bytes_le_trans(a: Seq<u8>, b: Seq<u8>, c: Seq<u8>)
    requires
        bytes_le(a, b),
        bytes_le(b, c),
    ensures
        bytes_le(a, c),
    decreases a.len(),
{
    if a.len() > 0 && a[0] == b[0] && b[0] == c[0] {
        lemma_bytes_le_trans(a.drop_first(), b.drop_first(), c.drop_first());
    }
}

/// Port names are totally ordered: any two compare, and two names that
/// compare both ways are the same name.
pub proof fn lemma_port_order_total()
    ensures
        total_ordering(port_order()),
{
    let r = port_order();
    assert forall|x: Seq<char>| #[trigger] r(x, x) by {
        lemma_bytes_le_refl(encode_utf8(x));
    }
    assert forall|x: Seq<char>, y: Seq<char>| #[trigger] r(x, y) && #[trigger] r(y, x) implies x
        == y by {
        lemma_bytes_le_antisym(encode_utf8(x), encode_utf8(y));
        encode_utf8_decode_utf8(x);
        encode_utf8_decode_utf8(y);
    }
    assert forall|x: Seq<char>, y: Seq<char>, z: Seq<char>| #[trigger]
        r(x, y) && #[trigger] r(y, z) implies r(x, z) by {
        lemma_bytes_le_trans(encode_utf8(x), encode_utf8(y), encode_utf8(z));
    }
    assert forall|x: Seq<char>, y: Seq<char>| #[trigger] r(x, y) || #[trigger] r(y, x) by {
        lemma_bytes_le_total(encode_utf8(x), encode_utf8(y));
    }
}

/// Among the usable names that were found, each name is there as often as it
/// was found; the unusable name is not there.
proof fn lemma_usable_count(found: Seq<Seq<char>>, name: Seq<char>)
    ensures
        found.filter(usable()).to_multiset().count(name) == if name == unusable_port() {
            0
        } else {
            found.to_multiset().count(name)
        },
    decreases found.len(),
{
    broadcast use group_to_multiset_ensures;

    if found.len() == 0 {
        assert(found.filter(usable()) =~= Seq::<Seq<char>>::empty());
        assert(found.to_multiset().len() == 0);
        assert(found.filter(usable()).to_multiset().len() == 0);
    } else {
        let front = found.drop_last();
        lemma_usable_count(front, name);
        assert(found =~= front.push(found.last()));
        to_multiset_build(front, found.last());
        reveal_with_fuel(Seq::filter, 2);
        if usable()(found.last()) {
            assert(found.filter(usable()) =~= front.filter(usable()).push(found.last()));
            to_multiset_build(front.filter(usable()), found.last());
        } else {
            assert(found.filter(usable()) =~= front.filter(usable()));
        }
    }
}

/// The port set is sorted. It holds each usable name as often as it was
/// found, and never the unusable one.
pub proof fn lemma_port_set(found: Seq<Seq<char>>)
    ensures
        sorted_by(port_set(found), port_order()),
        !port_set(found).contains(unusable_port()),
        forall|name: Seq<char>|
            name != unusable_port() ==> #[trigger] port_set(found).to_multiset().count(name)
                == found.to_multiset().count(name),
        port_set(found).len() <= found.len(),
{
    broadcast use group_to_multiset_ensures;

    lemma_port_order_total();
    let kept = found.filter(usable());
    kept.lemma_sort_by_ensures(port_order());
    assert forall|name: Seq<char>| name != unusable_port() implies #[trigger] port_set(
        found,
    ).to_multiset().count(name) == found.to_multiset().count(name) by {
        lemma_usable_count(found, name);
    }
    lemma_usable_count(found, unusable_port());
    found.lemma_filter_len(usable());
    assert(port_set(found).len() == port_set(found).to_multiset().len());
    assert(kept.len() == kept.to_multiset().len());
}

/// The port set is the only sorted list that holds each usable name as
/// often as it was found.
pub proof fn lemma_port_set_unique(found: Seq<Seq<char>>, ports: Seq<Seq<char>>)
    requires
        sorted_by(ports, port_order()),
        ports.to_multiset() == found.filter(usable()).to_multiset(),
    ensures
        port_set(found) == ports,
{
    lemma_port_order_total();
    found.filter(usable()).lemma_sort_by_ensures(port_order());
    lemma_sorted_unique(port_set(found), ports, port_order());
}

/// The port set does not depend on the order in which the ports were found.
pub proof fn lemma_port_set_ignores_order(one: Seq<Seq<char>>, other: Seq<Seq<char>>)
    requires
        one.to_multiset() == other.to_multiset(),
    ensures
        port_set(one) == port_set(other),
{
    lemma_port_order_total();
    let a = one.filter(usable());
    let b = other.filter(usable());
    a.lemma_sort_by_ensures(port_order());
    b.lemma_sort_by_ensures(port_order());
    assert forall|name: Seq<char>| a.to_multiset().count(name) == b.to_multiset().count(
        name,
    ) by {
        lemma_usable_count(one, name);
        lemma_usable_count(other, name);
    }
    assert(a.to_multiset() =~= b.to_multiset());
    lemma_sorted_unique(port_set(one), port_set(other), port_order());
}

/// Compares two port names as `String` does: byte by byte.
pub fn port_name_le(a: &String, b: &String) -> (le: bool)
    ensures
        le == port_le(a@, b@),
{
    let x = a.as_str().as_bytes();
    let y = b.as_str().as_bytes();
    let mut i: usize = 0;
    proof {
        assert(x@.skip(0) =~= x@);
        assert(y@.skip(0) =~= y@);
    }
    loop
        invariant
            x@ == encode_utf8(a@),
            y@ == encode_utf8(b@),
            0 <= i <= x@.len(),
            i <= y@.len(),
            bytes_le(x@, y@) == bytes_le(x@.skip(i as int), y@.skip(i as int)),
        decreases x@.len() - i,
    {
        if i == x.len() {
            return true;
        }
        if i == y.len() {
            return false;
        }
        if x[i] != y[i] {
            return x[i] < y[i];
        }
        proof {
            assert(x@.skip(i as int).drop_first() =~= x@.skip(i as int + 1));
            assert(y@.skip(i as int).drop_first() =~= y@.skip(i as int + 1));
        }
        i = i + 1;
    }
}

/// Puts `name` into the sorted list `ports` at its place.
fn insert_port(ports: &mut Vec<String>, name: String)
    requires
        sorted_by(old(ports).deep_view(), port_order()),
    ensures
        sorted_by(final(ports).deep_view(), port_order()),
        final(ports).deep_view().to_multiset() == old(ports).deep_view().to_multiset().insert(
            name@,
        ),
{
    let mut at: usize = 0;
    while at < ports.len() && port_name_le(&ports[at], &name)
        invariant
            *ports == *old(ports),
            0 <= at <= ports.len(),
            forall|k: int| 0 <= k < at ==> port_le(#[trigger] ports@[k]@, name@),
        decreases ports.len() - at,
    {
        at = at + 1;
    }
    let ghost before = ports.deep_view();
    ports.insert(at, name);
    proof {
        let after = ports.deep_view();
        assert(after =~= before.insert(at as int, name@));
        to_multiset_insert(before, at as int, name@);
        lemma_port_order_total();
        assert forall|i: int, j: int| 0 <= i < j < after.len() implies #[trigger] port_order()(
            after[i],
            after[j],
        ) by {
            if j < at {
                assert(port_order()(before[i], before[j]));
            } else if j == at {
                assert(port_le(before[i], name@));
            } else if i == at {
                // name <= before[at] <= before[j - 1]
                assert(!port_le(before[at as int], name@));
                assert(port_order()(before[at as int], name@) || port_order()(
                    name@,
                    before[at as int],
                ));
                if j - 1 > at {
                    assert(port_order()(before[at as int], before[j - 1]));
                    assert(port_order()(name@, before[at as int]) && port_order()(
                        before[at as int],
                        before[j - 1],
                    ) ==> port_order()(name@, before[j - 1]));
                }
            } else if i < at {
                assert(port_order()(before[i], before[j - 1]));
            } else {
                assert(port_order()(before[i - 1], before[j - 1]));
            }
        }
    }
}

/// Sorts port names.
pub fn sort_ports(found: Vec<String>) -> (ports: Vec<String>)
    ensures
        ports.deep_view() == found.deep_view().sort_by(port_order()),
{
    let mut rest = found;
    let mut ports: Vec<String> = Vec::new();
    let ghost wanted = found.deep_view();
    proof {
        broadcast use group_to_multiset_ensures;

        assert(ports.deep_view() =~= Seq::<Seq<char>>::empty());
        assert(ports.deep_view().to_multiset() =~= Multiset::<Seq<char>>::empty());
        assert(ports.deep_view().to_multiset().add(rest.deep_view().to_multiset())
            =~= wanted.to_multiset());
    }
    while rest.len() > 0
        invariant
            sorted_by(ports.deep_view(), port_order()),
            ports.deep_view().to_multiset().add(rest.deep_view().to_multiset())
                == wanted.to_multiset(),
        decreases rest.len(),
    {
        let ghost before = rest.deep_view();
        let ghost kept = ports.deep_view().to_multiset();
        let popped = rest.pop();
        let name = popped.unwrap();
        proof {
            assert(rest.deep_view() =~= before.drop_last());
            assert(before =~= before.drop_last().push(name@));
            to_multiset_build(before.drop_last(), name@);
        }
        insert_port(&mut ports, name);
        proof {
            assert(ports.deep_view().to_multiset().add(rest.deep_view().to_multiset()) =~= kept.add(
                before.to_multiset(),
            ));
        }
    }
    proof {
        broadcast use group_to_multiset_ensures;

        assert(rest.deep_view() =~= Seq::<Seq<char>>::empty());
        assert(rest.deep_view().to_multiset() =~= Multiset::<Seq<char>>::empty());
        assert(ports.deep_view().to_multiset() =~= wanted.to_multiset());
        lemma_port_order_total();
        wanted.lemma_sort_by_ensures(port_order());
        lemma_sorted_unique(ports.deep_view(), wanted.sort_by(port_order()), port_order());
    }
    ports
}

/// Leaves out the unusable port, and keeps the others in their order.
pub fn usable_ports(found: &Vec<String>) -> (ports: Vec<String>)
    ensures
        ports.deep_view() == found.deep_view().filter(usable()),
{
    let unusable = String::from_str("/dev/ttyS0");
    let mut ports: Vec<String> = Vec::new();
    let mut i: usize = 0;
    proof {
        assert(found.deep_view().take(0) =~= Seq::<Seq<char>>::empty());
        assert(ports.deep_view() =~= found.deep_view().take(0).filter(usable()));
    }
    while i < found.len()
        invariant
            i <= found.len(),
            unusable@ == unusable_port(),
            ports.deep_view() == found.deep_view().take(i as int).filter(usable()),
        decreases found.len() - i,
    {
        let ghost kept = ports.deep_view();
        let ghost seen = found.deep_view().take(i as int);
        proof {
            let next = found.deep_view().take(i as int + 1);
            assert(next.drop_last() =~= seen);
            assert(next.last() == found@[i as int]@);
            reveal_with_fuel(Seq::filter, 2);
        }
        if found[i] != unusable {
            ports.push(found[i].clone());
            proof {
                assert(usable()(found@[i as int]@));
                assert(ports.deep_view() =~= kept.push(found@[i as int]@));
            }
        } else {
            proof {
                assert(!usable()(found@[i as int]@));
            }
        }
        i = i + 1;
    }
    proof {
        assert(found.deep_view().take(i as int) =~= found.deep_view());
    }
    ports
}

/// The ports to offer, out of what an enumeration found: the unusable port
/// is left out and the rest is sorted.
pub fn get_ports(found: Vec<String>) -> (ports: Vec<String>)
    ensures
        ports.deep_view() == port_set(found.deep_view()),
{
    sort_ports(usable_ports(&found))
}

/// The event that carries a fresh snapshot of the ports.
pub fn ports_changed(found: Vec<String>) -> (event: UiCommand)
    ensures
        event@ == Event::PortsChanged(port_set(found.deep_view())),
{
    UiCommand::UpdatePorts(get_ports(found))
}

/// The time between two scans for ports, in milliseconds.
pub const PORT_SCAN_INTERVAL_MS: u64 = 100;

/// Watches the serial ports come and go. It is handed one enumeration per
/// tick and keeps of the previous one only how many ports it offered.
///
/// The watcher reports and nothing else: a port that vanishes never takes the
/// connection down by itself.
#[derive(Debug)]
pub struct PortWatcher {
    previous: Option<usize>,
}

/// What a tick of the watcher does: the number of ports that it keeps, and
/// the event that it emits, if any. The first tick always reports; a later
/// one reports when the number of ports differs from that of the tick before,
/// and not when only the names differ.
pub open spec fn watch(previous: Option<nat>, found: Seq<Seq<char>>) -> (Option<nat>, Option<Event>) {
    let ports = port_set(found);
    let changed = match previous {
        None => true,
        Some(count) => count != ports.len(),
    };
    (
        Some(ports.len()),
        if changed {
            Some(Event::PortsChanged(ports))
        } else {
            None
        },
    )
}

impl PortWatcher {
    /// The number of ports that the previous tick offered; `None` before the first tick.
    pub closed spec fn previous(&self) -> Option<nat> {
        match self.previous {
            None => None,
            Some(count) => Some(count as nat),
        }
    }

    /// A watcher that has not seen an enumeration yet.
    pub fn new() -> (watcher: PortWatcher)
        ensures
            watcher.previous() == None::<nat>,
    {
        PortWatcher { previous: None }
    }

    /// One tick: takes what the enumeration found and says what to emit.
    pub fn tick(&mut self, found: Vec<String>) -> (event: Option<UiCommand>)
        ensures
            final(self).previous() == watch(old(self).previous(), found.deep_view()).0,
            event_view(event) == watch(old(self).previous(), found.deep_view()).1,
    {
        let ports = get_ports(found);
        let count = ports.len();
        let changed = match self.previous {
            None => true,
            Some(previous) => previous != count,
        };
        self.previous = Some(count);
        if changed {
            Some(UiCommand::UpdatePorts(ports))
        } else {
            None
        }
    }
}

/// After any tick, a tick that finds the same ports, in whatever order,
/// emits nothing; and a tick that finds another number of usable ports
/// emits exactly the new port set.
pub proof fn lemma_watch_next(
    previous: Option<nat>,
    one: Seq<Seq<char>>,
    other: Seq<Seq<char>>,
)
    ensures
        one.to_multiset() == other.to_multiset() ==> watch(watch(previous, one).0, other).1
            == None::<Event>,
        port_set(one).len() != port_set(other).len() ==> watch(watch(previous, one).0, other).1
            == Some(Event::PortsChanged(port_set(other))),
{
    if one.to_multiset() == other.to_multiset() {
        lemma_port_set_ignores_order(one, other);
    }
}

} // verus!
