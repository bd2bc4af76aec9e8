//! The node's channels: how they are shown, what they can send, and when they are ready.

use vstd::prelude::*;

use crate::amount;
use crate::scid;
use crate::text;

verus! {

/// How long to wait for channels to become usable, in nanoseconds.
pub const CHANNEL_USABLE_TIMEOUT_NS: u128 = 10_000_000_000;

/// A channel as the node describes it.
#[derive(Clone, PartialEq, Eq, Debug)]
pub struct ChannelDetails {
    pub channel_id: [u8; 32],
    pub counterparty_node_id: String,
    pub short_channel_id: Option<u64>,
    pub inbound_capacity_msat: u64,
    pub outbound_capacity_msat: u64,
    pub is_channel_ready: bool,
    pub is_usable: bool,
    pub is_announced: bool,
}

/// A channel as the caller sees it.
#[derive(Clone, PartialEq, Eq, Debug)]
pub struct NodeChannel {
    pub channel_id: String,
    pub counterparty_node_id: String,
    pub short_channel_id: Option<String>,
    pub inbound_capacity_msat: i64,
    pub outbound_capacity_msat: i64,
    pub is_channel_ready: bool,
    pub is_usable: bool,
    pub is_public: bool,
}

pub struct NodeChannelView {
    pub channel_id: Seq<char>,
    pub counterparty_node_id: Seq<char>,
    pub short_channel_id: Option<Seq<char>>,
    pub inbound_capacity_msat: int,
    pub outbound_capacity_msat: int,
    pub is_channel_ready: bool,
    pub is_usable: bool,
    pub is_public: bool,
}

impl View for NodeChannel {
    type V = NodeChannelView;

    open spec fn view(&self) -> NodeChannelView {
        NodeChannelView {
            channel_id: self.channel_id@,
            counterparty_node_id: self.counterparty_node_id@,
            short_channel_id: match self.short_channel_id {
                Some(short_channel_id) => Some(short_channel_id@),
                None => None,
            },
            inbound_capacity_msat: self.inbound_capacity_msat as int,
            outbound_capacity_msat: self.outbound_capacity_msat as int,
            is_channel_ready: self.is_channel_ready,
            is_usable: self.is_usable,
            is_public: self.is_public,
        }
    }
}

/// How a channel is shown.
pub open spec fn shown_channel(details: ChannelDetails) -> NodeChannelView {
    NodeChannelView {
        channel_id: text::hex(details.channel_id@),
        counterparty_node_id: details.counterparty_node_id@,
        short_channel_id: match details.short_channel_id {
            Some(scid) => Some(scid::scid_text(scid)),
            None => None,
        },
        inbound_capacity_msat: amount::clamped(details.inbound_capacity_msat as int),
        outbound_capacity_msat: amount::clamped(details.outbound_capacity_msat as int),
        is_channel_ready: details.is_channel_ready,
        is_usable: details.is_usable,
        is_public: details.is_announced,
    }
}

/// What all channels together can send, in millisatoshi.
pub open spec fn total_outbound(channels: Seq<ChannelDetails>) -> nat
    decreases channels.len(),
{
    if channels.len() == 0 {
        0
    } else {
        total_outbound(channels.drop_last()) + channels.last().outbound_capacity_msat as nat
    }
}

/// What the usable channels together can send, in millisatoshi.
pub open spec fn usable_outbound(channels: Seq<ChannelDetails>) -> nat
    decreases channels.len(),
{
    if channels.len() == 0 {
        0
    } else {
        usable_outbound(channels.drop_last()) + if channels.last().is_usable {
            channels.last().outbound_capacity_msat as nat
        } else {
            0
        }
    }
}

/// Whether there are channels and every one of them is usable.
pub open spec fn all_usable(channels: Seq<ChannelDetails>) -> bool {
    channels.len() > 0 && forall|i: int| 0 <= i < channels.len() ==> (#[trigger] channels[i]).is_usable
}

fn node_channel(details: &ChannelDetails) -> (res: NodeChannel)
    ensures
        res@ == shown_channel(*details),
{
    NodeChannel {
        channel_id: text::bytes_to_hex(&details.channel_id),
        counterparty_node_id: details.counterparty_node_id.clone(),
        short_channel_id: match details.short_channel_id {
            Some(scid) => Some(scid::scid_to_string(scid)),
            None => None,
        },
        inbound_capacity_msat: amount::u64_to_i64(details.inbound_capacity_msat),
        outbound_capacity_msat: amount::u64_to_i64(details.outbound_capacity_msat),
        is_channel_ready: details.is_channel_ready,
        is_usable: details.is_usable,
        is_public: details.is_announced,
    }
}

/// Shows the channels, in the order in which the node lists them.
pub fn list_channels(channels: &Vec<ChannelDetails>) -> (res: Vec<NodeChannel>)
    ensures
        res.len() == channels.len(),
        forall|i: int| 0 <= i < channels.len() ==> (#[trigger] res[i])@ == shown_channel(channels[i]),
{
    let mut res: Vec<NodeChannel> = Vec::new();
    let mut i: usize = 0;
    while i < channels.len()
        invariant
            i <= channels.len(),
            res.len() == i,
            forall|j: int| 0 <= j < i ==> (#[trigger] res[j])@ == shown_channel(channels[j]),
        decreases channels.len() - i,
    {
        res.push(node_channel(&channels[i]));
        i += 1;
    }
    res
}

/// The balance in whole satoshi: what all channels together can send. A total that does not fit
/// in 64 bits counts as the largest number that does.
pub fn get_balance(channels: &Vec<ChannelDetails>) -> (res: i64)
    ensures
        total_outbound(channels@) <= u64::MAX ==> res == total_outbound(channels@) as int / 1_000,
        total_outbound(channels@) > u64::MAX ==> res == u64::MAX as int / 1_000,
{
    let mut total: u64 = 0;
    let mut i: usize = 0;
    assert(channels@.take(0) =~= Seq::<ChannelDetails>::empty());
    while i < channels.len()
        invariant
            i <= channels.len(),
            total == if total_outbound(channels@.take(i as int)) <= u64::MAX {
                total_outbound(channels@.take(i as int)) as int
            } else {
                u64::MAX as int
            },
        decreases channels.len() - i,
    {
        total = total.saturating_add(channels[i].outbound_capacity_msat);
        proof {
            assert(channels@.take(i + 1).drop_last() =~= channels@.take(i as int));
        }
        i += 1;
    }
    assert(channels@.take(i as int) =~= channels@);
    amount::u64_to_i64(total / 1_000)
}

/// Whether what the usable channels together can send fits in 64 bits.
pub fn usable_capacity_fits(channels: &Vec<ChannelDetails>) -> (res: bool)
    ensures
        res <==> usable_outbound(channels@) <= u64::MAX,
{
    let mut total: u64 = 0;
    let mut i: usize = 0;
    assert(channels@.take(0) =~= Seq::<ChannelDetails>::empty());
    while i < channels.len()
        invariant
            i <= channels.len(),
            total == usable_outbound(channels@.take(i as int)),
        decreases channels.len() - i,
    {
        proof {
            assert(channels@.take(i + 1).drop_last() =~= channels@.take(i as int));
            lemma_usable_of_prefix(channels@, i + 1);
        }
        if channels[i].is_usable {
            match total.checked_add(channels[i].outbound_capacity_msat) {
                Some(sum) => {
                    total = sum;
                },
                None => {
                    return false;
                },
            }
        }
        i += 1;
    }
    assert(channels@.take(i as int) =~= channels@);
    true
}

/// What the usable channels together can send, in millisatoshi.
pub fn usable_outbound_capacity_msat(channels: &Vec<ChannelDetails>) -> (res: u64)
    requires
        usable_outbound(channels@) <= u64::MAX,
    ensures
        res == usable_outbound(channels@),
{
    let mut total: u64 = 0;
    let mut i: usize = 0;
    assert(channels@.take(0) =~= Seq::<ChannelDetails>::empty());
    while i < channels.len()
        invariant
            i <= channels.len(),
            usable_outbound(channels@) <= u64::MAX,
            total == usable_outbound(channels@.take(i as int)),
        decreases channels.len() - i,
    {
        proof {
            assert(channels@.take(i + 1).drop_last() =~= channels@.take(i as int));
            lemma_usable_of_prefix(channels@, i + 1);
        }
        if channels[i].is_usable {
            total = total + channels[i].outbound_capacity_msat;
        }
        i += 1;
    }
    assert(channels@.take(i as int) =~= channels@);
    total
}

/// What to do while channels become usable.
#[derive(Clone, Copy, PartialEq, Eq, Debug, Structural)]
pub enum ChannelWait {
    /// Every channel is usable.
    Ready,
    /// Some are not, but the time is up.
    TimedOut,
    /// Look again after a pause.
    Sleep,
}

/// Whether to go on waiting: until every channel is usable, and no longer than the time allows.
pub open spec fn channel_wait(channels: Seq<ChannelDetails>, elapsed_ns: u128) -> ChannelWait {
    if all_usable(channels) {
        ChannelWait::Ready
    } else if elapsed_ns >= CHANNEL_USABLE_TIMEOUT_NS {
        ChannelWait::TimedOut
    } else {
        ChannelWait::Sleep
    }
}

/// Decides whether to go on waiting, from the channels as they are and the nanoseconds that
/// have passed since the wait began.
pub fn wait_for_usable_channels(channels: &Vec<ChannelDetails>, elapsed_ns: u128) -> (res:
    ChannelWait)
    ensures
        res == channel_wait(channels@, elapsed_ns),
{
    let mut usable: bool = channels.len() > 0;
    let mut i: usize = 0;
    while i < channels.len()
        invariant
            i <= channels.len(),
            usable <==> (channels.len() > 0 && forall|j: int|
                0 <= j < i ==> (#[trigger] channels[j]).is_usable),
        decreases channels.len() - i,
    {
        if !channels[i].is_usable {
            usable = false;
        }
        i += 1;
    }
    if usable {
        ChannelWait::Ready
    } else if elapsed_ns >= CHANNEL_USABLE_TIMEOUT_NS {
        ChannelWait::TimedOut
    } else {
        ChannelWait::Sleep
    }
}

proof fn lemma_usable_of_prefix(channels: Seq<ChannelDetails>, n: int)
    requires
        0 <= n <= channels.len(),
    ensures
        usable_outbound(channels.take(n)) <= usable_outbound(channels),
    decreases channels.len() - n,
{
    if n < channels.len() {
        lemma_usable_of_prefix(channels, n + 1);
        assert(channels.take(n + 1).drop_last() =~= channels.take(n));
    } else {
        assert(channels.take(n) =~= channels);
    }
}

/// What can be spent at once is never more than the balance stands for, and once every channel
/// is usable it is all of it.
pub proof fn law_usable_is_part_of_the_total(channels: Seq<ChannelDetails>)
    ensures
        usable_outbound(channels) <= total_outbound(channels),
        all_usable(channels) ==> usable_outbound(channels) == total_outbound(channels),
    decreases channels.len(),
{
    if channels.len() > 0 {
        let rest = channels.drop_last();
        law_usable_is_part_of_the_total(rest);
        if all_usable(channels) {
            assert forall|i: int| 0 <= i < rest.len() implies (#[trigger] rest[i]).is_usable by {
                assert(channels[i] == rest[i]);
            }
            assert(channels[channels.len() - 1].is_usable);
        }
    }
}

/// A look at the channels: how the node lists them, and the nanoseconds since the wait began.
pub type Listing = (Vec<ChannelDetails>, u128);

/// At which look the wait ends, and how: not yet while every look says to go on.
pub open spec fn wait_end(listings: Seq<Listing>) -> Option<(nat, ChannelWait)>
    decreases listings.len(),
{
    if listings.len() == 0 {
        None
    } else {
        match channel_wait(listings[0].0@, listings[0].1) {
            ChannelWait::Sleep => match wait_end(listings.drop_first()) {
                Some((n, wait)) => Some((n + 1, wait)),
                None => None,
            },
            wait => Some((0, wait)),
        }
    }
}

/// Whether a look finds every channel usable, or comes when the time is up.
pub open spec fn ends_the_wait(listing: Listing) -> bool {
    all_usable(listing.0@) || listing.1 >= CHANNEL_USABLE_TIMEOUT_NS
}

/// The wait ends at the first look that finds every channel usable or comes when the time is up,
/// as ready where the channels are usable, even late, and as timed out otherwise.
pub proof fn law_the_wait_ends_at_the_first_look_that_ends_it(listings: Seq<Listing>)
    ensures
        wait_end(listings) is None <==> forall|i: int|
            0 <= i < listings.len() ==> !ends_the_wait(#[trigger] listings[i]),
        wait_end(listings) matches Some((n, wait)) ==> {
            &&& n < listings.len()
            &&& ends_the_wait(listings[n as int])
            &&& forall|i: int| 0 <= i < n ==> !ends_the_wait(#[trigger] listings[i])
            &&& wait == if all_usable(listings[n as int].0@) {
                ChannelWait::Ready
            } else {
                ChannelWait::TimedOut
            }
        },
    decreases listings.len(),
{
    if listings.len() > 0 && !ends_the_wait(listings[0]) {
        let rest = listings.drop_first();
        law_the_wait_ends_at_the_first_look_that_ends_it(rest);
        match wait_end(rest) {
            Some((n, _)) => {
                assert(listings[n as int + 1] == rest[n as int]);
                assert forall|i: int| 0 <= i < n + 1 implies !ends_the_wait(
                    #[trigger] listings[i],
                ) by {
                    if i > 0 {
                        assert(rest[i - 1] == listings[i]);
                    }
                }
            },
            None => {
                assert forall|i: int| 0 <= i < listings.len() implies !ends_the_wait(
                    #[trigger] listings[i],
                ) by {
                    if i > 0 {
                        assert(rest[i - 1] == listings[i]);
                    }
                }
            },
        }
    }
}

/// The total is the sum of what each channel can send, each counted once: it is nothing without
/// channels, what a channel can send where there is one, and the sum of both totals where two
/// lists are put together.
pub proof fn law_the_total_counts_each_channel_once(
    first: Seq<ChannelDetails>,
    second: Seq<ChannelDetails>,
    channel: ChannelDetails,
)
    ensures
        total_outbound(Seq::empty()) == 0,
        total_outbound(seq![channel]) == channel.outbound_capacity_msat,
        total_outbound(first + second) == total_outbound(first) + total_outbound(second),
    decreases second.len(),
{
    assert(seq![channel].drop_last() =~= Seq::<ChannelDetails>::empty());
    assert(total_outbound(Seq::<ChannelDetails>::empty()) == 0);
    if second.len() == 0 {
        assert(first + second =~= first);
    } else {
        law_the_total_counts_each_channel_once(first, second.drop_last(), channel);
        assert((first + second).drop_last() =~= first + second.drop_last());
        assert((first + second).last() == second.last());
    }
}

/// The total depends on nothing but what each channel can send: channels that can send the same
/// have the same total, whether they are usable, ready, announced or not.
pub proof fn law_the_total_depends_on_capacities_alone(
    channels: Seq<ChannelDetails>,
    others: Seq<ChannelDetails>,
)
    requires
        channels.len() == others.len(),
        forall|i: int|
            0 <= i < channels.len() ==> (#[trigger] channels[i]).outbound_capacity_msat
                == others[i].outbound_capacity_msat,
    ensures
        total_outbound(channels) == total_outbound(others),
    decreases channels.len(),
{
    if channels.len() > 0 {
        let rest = channels.drop_last();
        let other_rest = others.drop_last();
        assert forall|i: int| 0 <= i < rest.len() implies (#[trigger] rest[i]).outbound_capacity_msat
            == other_rest[i].outbound_capacity_msat by {
            assert(rest[i] == channels[i]);
        }
        law_the_total_depends_on_capacities_alone(rest, other_rest);
        assert(channels[channels.len() - 1].outbound_capacity_msat == others[channels.len()
            - 1].outbound_capacity_msat);
    }
}

/// What can be sent at once is the sum of what each usable channel can send, each counted once:
/// a channel alone counts for what it can send where it is usable, and for nothing otherwise.
pub proof fn law_usable_capacity_counts_each_usable_channel_once(
    first: Seq<ChannelDetails>,
    second: Seq<ChannelDetails>,
    channel: ChannelDetails,
)
    ensures
        usable_outbound(Seq::empty()) == 0,
        channel.is_usable ==> usable_outbound(seq![channel]) == channel.outbound_capacity_msat,
        !channel.is_usable ==> usable_outbound(seq![channel]) == 0,
        usable_outbound(first + second) == usable_outbound(first) + usable_outbound(second),
    decreases second.len(),
{
    assert(seq![channel].drop_last() =~= Seq::<ChannelDetails>::empty());
    assert(usable_outbound(Seq::<ChannelDetails>::empty()) == 0);
    if second.len() == 0 {
        assert(first + second =~= first);
    } else {
        law_usable_capacity_counts_each_usable_channel_once(first, second.drop_last(), channel);
        assert((first + second).drop_last() =~= first + second.drop_last());
        assert((first + second).last() == second.last());
    }
}

/// What can be sent at once depends on nothing but which channels are usable and what they can
/// send.
pub proof fn law_usable_capacity_depends_on_usable_capacities_alone(
    channels: Seq<ChannelDetails>,
    others: Seq<ChannelDetails>,
)
    requires
        channels.len() == others.len(),
        forall|i: int|
            0 <= i < channels.len() ==> (#[trigger] channels[i]).is_usable == others[i].is_usable
                && (channels[i].is_usable ==> channels[i].outbound_capacity_msat
                == others[i].outbound_capacity_msat),
    ensures
        usable_outbound(channels) == usable_outbound(others),
    decreases channels.len(),
{
    if channels.len() > 0 {
        let rest = channels.drop_last();
        let other_rest = others.drop_last();
        assert forall|i: int| 0 <= i < rest.len() implies (#[trigger] rest[i]).is_usable
            == other_rest[i].is_usable && (rest[i].is_usable ==> rest[i].outbound_capacity_msat
            == other_rest[i].outbound_capacity_msat) by {
            assert(rest[i] == channels[i]);
        }
        law_usable_capacity_depends_on_usable_capacities_alone(rest, other_rest);
        assert(channels[channels.len() - 1].is_usable == others[channels.len() - 1].is_usable);
    }
}

/// The channels are all usable exactly where there is one and none of them is unusable, whatever
/// they can send.
pub proof fn law_one_unusable_channel_is_enough(channels: Seq<ChannelDetails>)
    ensures
        !all_usable(channels) <==> (channels.len() == 0 || exists|i: int|
            0 <= i < channels.len() && !(#[trigger] channels[i]).is_usable),
{
}

/// The wait for channels lasts ten seconds at most, and ends at once when all are usable.
pub proof fn law_the_wait_lasts_ten_seconds(channels: Seq<ChannelDetails>, elapsed_ns: u128)
    ensures
        channel_wait(channels, elapsed_ns) is Ready <==> all_usable(channels),
        channel_wait(channels, elapsed_ns) is TimedOut <==> !all_usable(channels) && elapsed_ns
            >= 10 * 1_000_000_000,
{
}

/// A channel is shown with its own id, peer, place in the chain and capacities, to the
/// millisatoshi where a signed number can hold them, and each of its states under its own name.
pub proof fn law_a_channel_is_shown_as_it_is(details: ChannelDetails)
    ensures
        ({
            let shown = shown_channel(details);
            &&& shown.channel_id == text::hex(details.channel_id@)
            &&& shown.counterparty_node_id == details.counterparty_node_id@
            &&& shown.short_channel_id is Some <==> details.short_channel_id is Some
            &&& details.short_channel_id matches Some(scid) ==> shown.short_channel_id->0
                == scid::scid_text(scid)
            &&& shown.inbound_capacity_msat == if details.inbound_capacity_msat
                <= 0x7fff_ffff_ffff_ffff {
                details.inbound_capacity_msat as int
            } else {
                0x7fff_ffff_ffff_ffff
            }
            &&& shown.outbound_capacity_msat == if details.outbound_capacity_msat
                <= 0x7fff_ffff_ffff_ffff {
                details.outbound_capacity_msat as int
            } else {
                0x7fff_ffff_ffff_ffff
            }
            &&& shown.is_channel_ready == details.is_channel_ready
            &&& shown.is_usable == details.is_usable
            &&& shown.is_public == details.is_announced
        }),
{
}

/// Shown channels are seen as they are.
pub proof fn law_shown_channels_are_seen_as_they_are(channel: NodeChannel)
    ensures
        channel@.channel_id == channel.channel_id@,
        channel@.counterparty_node_id == channel.counterparty_node_id@,
        channel@.short_channel_id is Some <==> channel.short_channel_id is Some,
        channel.short_channel_id matches Some(scid) ==> channel@.short_channel_id->0 == scid@,
        channel@.inbound_capacity_msat == channel.inbound_capacity_msat,
        channel@.outbound_capacity_msat == channel.outbound_capacity_msat,
        channel@.is_channel_ready == channel.is_channel_ready,
        channel@.is_usable == channel.is_usable,
        channel@.is_public == channel.is_public,
{
}

} // verus!
