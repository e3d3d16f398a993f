//! The addresses under which phones on the local network reach this machine.

use crate::listing::ascending;
use crate::listing::sorted_distinct;
use crate::listing::text_less;
use crate::text::begins_with;
use crate::text::decimal;
use crate::text::starts_with;
use crate::text::texts;
use vstd::prelude::*;

verus! {

/// One address of a network interface.
pub struct InterfaceAddress {
    /// Whether the address is an IPv4 address.
    pub ipv4: bool,
    /// Whether the address is a loopback address.
    pub loopback: bool,
    /// The address as text.
    pub address: String,
}

/// The dotted form of an IPv4 address.
pub open spec fn ipv4_text(a: u8, b: u8, c: u8, d: u8) -> Seq<char> {
    decimal(a as nat) + seq!['.'] + decimal(b as nat) + seq!['.'] + decimal(c as nat) + seq!['.']
        + decimal(d as nat)
}

/// Whether `text` is an IPv4 address in dotted form.
pub open spec fn is_ipv4_text(text: Seq<char>) -> bool {
    exists|a: u8, b: u8, c: u8, d: u8| text == #[trigger] ipv4_text(a, b, c, d)
}

/// Whether phones can use an address: an IPv4 address that is not a loopback
/// address, nor one of the benchmarking or link-local ranges that virtual
/// adapters hand out.
pub open spec fn usable(found: InterfaceAddress) -> bool {
    found.ipv4 && !found.loopback && !begins_with(found.address@, "198.18."@) && !begins_with(
        found.address@,
        "169.254."@,
    )
}

/// Whether `found` holds a usable address whose text is `text`.
pub open spec fn offers(found: Seq<InterfaceAddress>, text: Seq<char>) -> bool {
    exists|i: int| 0 <= i < found.len() && usable(#[trigger] found[i]) && found[i].address@ == text
}

/// What every interface listing shows of an address: an IPv4 address is
/// written in dotted form, and it is a loopback address exactly if its first
/// number is 127.
pub open spec fn described(found: InterfaceAddress) -> bool {
    found.ipv4 ==> exists|a: u8, b: u8, c: u8, d: u8|
        found.address@ == #[trigger] ipv4_text(a, b, c, d) && found.loopback == (a == 127)
}

/// Lists the addresses of the machine's network interfaces with
/// `local_ip_address::list_afinet_netifas`; `None` if that call fails.
///
/// Which addresses there are is the machine's affair. Of each IPv4 address the
/// contract says that its text is the dotted form which the standard library
/// prints, and that it is a loopback address exactly within 127.0.0.0/8.
#[verifier::external_body]
fn interface_addresses() -> (found: Option<Vec<InterfaceAddress>>)
    ensures
        found matches Some(list) ==> forall|i: int|
            0 <= i < list@.len() ==> described(#[trigger] list@[i]),
{
    let list = local_ip_address::list_afinet_netifas().ok()?;
    Some(
        list.into_iter().map(
            |(_, ip)| InterfaceAddress {
                ipv4: ip.is_ipv4(),
                loopback: ip.is_loopback(),
                address: ip.to_string(),
            },
        ).collect(),
    )
}

/// Whether phones can use an address.
fn is_usable(found: &InterfaceAddress) -> (yes: bool)
    ensures
        yes == usable(*found),
{
    found.ipv4 && !found.loopback && !starts_with(found.address.as_str(), "198.18.")
        && !starts_with(found.address.as_str(), "169.254.")
}

/// The usable addresses of an interface listing, in order and each once.
pub fn select_lan_ips(found: &Vec<InterfaceAddress>) -> (ips: Vec<String>)
    ensures
        ascending(texts(ips@)),
        forall|text: Seq<char>| texts(ips@).contains(text) <==> #[trigger] offers(found@, text),
{
    let mut usable_texts: Vec<String> = Vec::new();
    let ghost mut earlier = Seq::<InterfaceAddress>::empty();
    let mut i: usize = 0;
    while i < found.len()
        invariant
            i <= found@.len(),
            earlier == found@.take(i as int),
            forall|text: Seq<char>|
                texts(usable_texts@).contains(text) <==> #[trigger] offers(earlier, text),
        decreases found@.len() - i,
    {
        let ghost before = texts(usable_texts@);
        let ghost later = found@.take(i + 1);
        let yes = is_usable(&found[i]);
        if yes {
            usable_texts.push(found[i].address.clone());
        }
        proof {
            let after = texts(usable_texts@);
            let own = found@[i as int].address@;
            assert(later[i as int] == found@[i as int]);
            assert(after =~= if yes { before.push(own) } else { before });
            assert forall|text: Seq<char>| after.contains(text) <==> #[trigger] offers(
                later,
                text,
            ) by {
                if offers(earlier, text) {
                    let k = choose|k: int|
                        0 <= k < earlier.len() && usable(#[trigger] earlier[k])
                            && earlier[k].address@ == text;
                    assert(later[k] == earlier[k]);
                    let l = choose|l: int| 0 <= l < before.len() && before[l] == text;
                    assert(after[l] == text);
                }
                if after.contains(text) {
                    let l = choose|l: int| 0 <= l < after.len() && after[l] == text;
                    if l < before.len() {
                        assert(before[l] == text);
                    }
                }
                if offers(later, text) {
                    let k = choose|k: int|
                        0 <= k < later.len() && usable(#[trigger] later[k]) && later[k].address@
                            == text;
                    if k < i {
                        assert(earlier[k] == later[k]);
                    } else {
                        assert(after[before.len() as int] == text);
                    }
                }
            }
            earlier = later;
        }
        i = i + 1;
    }
    assert(found@.take(found@.len() as int) == found@);
    let ips = sorted_distinct(usable_texts);
    proof {
        assert forall|text: Seq<char>| texts(ips@).contains(text) <==> #[trigger] offers(
            found@,
            text,
        ) by {}
    }
    ips
}

/// Whether `ips` are the usable addresses of a listing, in order and each once;
/// none without a listing.
pub open spec fn selects(ips: Seq<Seq<char>>, listing: Option<Vec<InterfaceAddress>>) -> bool {
    match listing {
        Some(found) => {
            &&& ascending(ips)
            &&& forall|text: Seq<char>| ips.contains(text) <==> #[trigger] offers(found@, text)
        },
        None => ips.len() == 0,
    }
}

/// The usable addresses of an interface listing; none if there is no listing.
pub fn lan_ips_of(listing: Option<Vec<InterfaceAddress>>) -> (ips: Vec<String>)
    ensures
        selects(texts(ips@), listing),
        match listing {
            Some(found) => {
                &&& ascending(texts(ips@))
                &&& forall|text: Seq<char>|
                    texts(ips@).contains(text) <==> #[trigger] offers(found@, text)
            },
            None => ips@.len() == 0,
        },
{
    match listing {
        None => Vec::new(),
        Some(found) => select_lan_ips(&found),
    }
}

/// Whether `ips` can be a machine's addresses on the local network: dotted IPv4
/// addresses in order, each once, and none of the ranges that are left out.
pub open spec fn are_lan_addresses(ips: Seq<Seq<char>>) -> bool {
    &&& ascending(ips)
    &&& forall|i: int|
        0 <= i < ips.len() ==> {
            &&& is_ipv4_text(#[trigger] ips[i])
            &&& !begins_with(ips[i], "127."@)
            &&& !begins_with(ips[i], "198.18."@)
            &&& !begins_with(ips[i], "169.254."@)
        }
}

/// Whether `listing` is what the machine gave when its interfaces were listed.
pub closed spec fn machine_gave(listing: Option<Vec<InterfaceAddress>>) -> bool {
    call_ensures(interface_addresses, (), listing)
}

/// Whether `ips` are the usable addresses of a listing that the machine gave.
pub open spec fn are_machine_addresses(ips: Seq<Seq<char>>) -> bool {
    exists|listing: Option<Vec<InterfaceAddress>>| #[trigger]
        machine_gave(listing) && selects(ips, listing)
}

/// The machine's addresses on the local network, in order and each once; none
/// if they cannot be listed.
///
/// Which addresses there are, and whether they can be listed, is the machine's
/// affair; [`lan_ips_of`] says what is made of each listing.
pub fn get_lan_ips() -> (ips: Vec<String>)
    ensures
        are_lan_addresses(texts(ips@)),
        are_machine_addresses(texts(ips@)),
        forall|i: int| 0 <= i < ips@.len() ==> is_ipv4_text((#[trigger] ips@[i])@),
{
    let listing = interface_addresses();
    let ghost shown = listing;
    let ips = lan_ips_of(listing);
    proof {
        assert(machine_gave(shown));
        if let Some(found) = shown {
            assert forall|i: int| 0 <= i < texts(ips@).len() implies {
                &&& is_ipv4_text(#[trigger] texts(ips@)[i])
                &&& !begins_with(texts(ips@)[i], "127."@)
                &&& !begins_with(texts(ips@)[i], "198.18."@)
                &&& !begins_with(texts(ips@)[i], "169.254."@)
            } by {
                let text = texts(ips@)[i];
                assert(texts(ips@).contains(text));
                assert(offers(found@, text));
                let k = choose|k: int|
                    0 <= k < found@.len() && usable(#[trigger] found@[k]) && found@[k].address@
                        == text;
                assert(described(found@[k]));
                let (a, b, c, d) = choose|a: u8, b: u8, c: u8, d: u8|
                    text == #[trigger] ipv4_text(a, b, c, d) && (found@[k].loopback == (a == 127));
                lemma_first_number(a, b, c, d);
            }
        }
        assert forall|i: int| 0 <= i < ips@.len() implies is_ipv4_text((#[trigger] ips@[i])@) by {
            assert(texts(ips@)[i] == ips@[i]@);
        }
    }
    ips
}

/// Only addresses whose first number is 127 begin with `127.`.
proof fn lemma_first_number(a: u8, b: u8, c: u8, d: u8)
    ensures
        begins_with(ipv4_text(a, b, c, d), "127."@) ==> a == 127,
{
    reveal_strlit("127.");
    reveal_with_fuel(decimal, 4);
    let text = ipv4_text(a, b, c, d);
    let first = decimal(a as nat);
    assert(text.take(first.len() as int) =~= first);
    assert(text[first.len() as int] == '.');
    if begins_with(text, "127."@) {
        let head = text.take(4);
        assert(head == "127."@);
        assert(head[0] == '1' && head[1] == '2' && head[2] == '7' && head[3] == '.');
        assert(text[0] == '1' && text[1] == '2' && text[2] == '7' && text[3] == '.');
        if a < 10 {
            assert(text[1] == '.');
        } else if a < 100 {
            assert(text[2] == '.');
        } else {
            assert(first.len() == 3);
            assert(first[0] == text[0] && first[1] == text[1] && first[2] == text[2]);
            assert(first[0] == crate::text::digit_char((a / 100) as nat));
            assert(first[1] == crate::text::digit_char((a / 10 % 10) as nat));
            assert(first[2] == crate::text::digit_char((a % 10) as nat));
        }
    }
}

/// Phones can use an address exactly if it is an IPv4 address that is not a
/// loopback address, and its text continues neither `198.18.` nor `169.254.`.
pub proof fn usable_address_is_reachable(found: InterfaceAddress)
    ensures
        usable(found) <==> {
            &&& found.ipv4
            &&& !found.loopback
            &&& !exists|rest: Seq<char>| found.address@ == #[trigger] ("198.18."@ + rest)
            &&& !exists|rest: Seq<char>| found.address@ == #[trigger] ("169.254."@ + rest)
        },
{
    crate::text::beginning_leaves_a_rest(found.address@, "198.18."@);
    crate::text::beginning_leaves_a_rest(found.address@, "169.254."@);
}

/// Every usable address of a listing is selected.
pub proof fn usable_addresses_are_selected(
    ips: Seq<Seq<char>>,
    listing: Option<Vec<InterfaceAddress>>,
    i: int,
)
    requires
        selects(ips, listing),
        listing is Some,
        0 <= i < listing->0@.len(),
        usable(listing->0@[i]),
    ensures
        exists|k: int| 0 <= k < ips.len() && #[trigger] ips[k] == listing->0@[i].address@,
{
    let text = listing->0@[i].address@;
    assert(offers(listing->0@, text));
    assert(ips.contains(text));
}

/// Nothing but usable addresses of a listing is selected.
pub proof fn selected_addresses_are_usable(
    ips: Seq<Seq<char>>,
    listing: Option<Vec<InterfaceAddress>>,
    k: int,
)
    requires
        selects(ips, listing),
        0 <= k < ips.len(),
    ensures
        listing is Some,
        exists|i: int|
            0 <= i < listing->0@.len() && usable(#[trigger] listing->0@[i])
                && listing->0@[i].address@ == ips[k],
{
    assert(ips.contains(ips[k]));
    assert(offers(listing->0@, ips[k]));
}

/// Nothing is selected without a listing, and nothing twice; what is selected
/// stands in the order of texts.
pub proof fn selected_addresses_are_in_order(
    ips: Seq<Seq<char>>,
    listing: Option<Vec<InterfaceAddress>>,
    k: int,
    l: int,
)
    requires
        selects(ips, listing),
    ensures
        listing is None ==> ips.len() == 0,
        0 <= k < l < ips.len() ==> ips[k] != ips[l] && exists|at: int| #[trigger]
            crate::listing::parts_at(ips[k], ips[l], at),
{
    if 0 <= k < l < ips.len() {
        assert(text_less(ips[k], ips[l]));
        crate::listing::text_order_is_lexicographic(ips[k], ips[l]);
        let at = choose|at: int| #[trigger] crate::listing::parts_at(ips[k], ips[l], at);
        if ips[k] == ips[l] {
            assert(at < ips[l].len());
        }
    }
}

/// What the machine gives as IPv4 addresses are dotted addresses, and the loopback
/// ones are those whose first number is 127.
pub proof fn machine_listing_is_described(listing: Option<Vec<InterfaceAddress>>, i: int)
    requires
        machine_gave(listing),
        listing is Some,
        0 <= i < listing->0@.len(),
        listing->0@[i].ipv4,
    ensures
        exists|a: u8, b: u8, c: u8, d: u8|
            listing->0@[i].address@ == #[trigger] ipv4_text(a, b, c, d) && listing->0@[i].loopback
                == (a == 127),
{
    assert(call_ensures(interface_addresses, (), listing));
    assert(described(listing->0@[i]));
}

/// The addresses that phones use are the selection of a listing that the machine
/// gave.
pub proof fn machine_addresses_come_from_listing(ips: Seq<Seq<char>>)
    requires
        are_machine_addresses(ips),
    ensures
        exists|listing: Option<Vec<InterfaceAddress>>| #[trigger]
            machine_gave(listing) && selects(ips, listing),
{
}

/// The dotted form of an address is its four numbers in decimal, with dots between
/// them.
pub proof fn dotted_address_is_four_numbers(a: u8, b: u8, c: u8, d: u8)
    ensures
        exists|p: Seq<char>, q: Seq<char>, r: Seq<char>, s: Seq<char>|
            {
                &&& ipv4_text(a, b, c, d) == #[trigger] (p + seq!['.'] + q + seq!['.'] + r + seq![
                    '.',
                ] + s)
                &&& crate::text::number_of(p) == a
                &&& crate::text::number_of(q) == b
                &&& crate::text::number_of(r) == c
                &&& crate::text::number_of(s) == d
            },
{
    crate::text::decimal_reads_back(a as nat);
    crate::text::decimal_reads_back(b as nat);
    crate::text::decimal_reads_back(c as nat);
    crate::text::decimal_reads_back(d as nat);
    assert(ipv4_text(a, b, c, d) == decimal(a as nat) + seq!['.'] + decimal(b as nat) + seq!['.']
        + decimal(c as nat) + seq!['.'] + decimal(d as nat));
}

} // verus!
