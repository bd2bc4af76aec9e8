use lightning_js::channel::{
    get_balance, list_channels, usable_capacity_fits, usable_outbound_capacity_msat,
    wait_for_usable_channels, ChannelDetails, ChannelWait, NodeChannel, CHANNEL_USABLE_TIMEOUT_NS,
};

fn channel(outbound_capacity_msat: u64, is_usable: bool) -> ChannelDetails {
    ChannelDetails {
        channel_id: [0x5c; 32],
        counterparty_node_id: "02aa".to_string(),
        short_channel_id: Some((840_000 << 40) | (7 << 16) | 1),
        inbound_capacity_msat: u64::MAX,
        outbound_capacity_msat,
        is_channel_ready: true,
        is_usable,
        is_announced: false,
    }
}

#[test]
fn channels_are_shown_in_order() {
    let mut pending = channel(5, false);
    pending.short_channel_id = None;
    pending.inbound_capacity_msat = 9;
    pending.is_channel_ready = false;
    pending.is_announced = true;
    let shown = list_channels(&vec![channel(1_000, true), pending]);
    assert_eq!(
        shown,
        vec![
            NodeChannel {
                channel_id: "5c".repeat(32),
                counterparty_node_id: "02aa".to_string(),
                short_channel_id: Some("840000x7x1".to_string()),
                inbound_capacity_msat: i64::MAX,
                outbound_capacity_msat: 1_000,
                is_channel_ready: true,
                is_usable: true,
                is_public: false,
            },
            NodeChannel {
                channel_id: "5c".repeat(32),
                counterparty_node_id: "02aa".to_string(),
                short_channel_id: None,
                inbound_capacity_msat: 9,
                outbound_capacity_msat: 5,
                is_channel_ready: false,
                is_usable: false,
                is_public: true,
            },
        ]
    );
    assert_eq!(list_channels(&vec![]), vec![]);
}

#[test]
fn the_balance_counts_every_channel_in_whole_satoshi() {
    assert_eq!(get_balance(&vec![]), 0);
    assert_eq!(get_balance(&vec![channel(999, true)]), 0);
    assert_eq!(get_balance(&vec![channel(1_500, true), channel(600, false)]), 2);
}

#[test]
fn a_balance_that_is_too_large_is_cut_off() {
    let channels = vec![channel(u64::MAX, true), channel(u64::MAX, true)];
    assert_eq!(get_balance(&channels), 18_446_744_073_709_551);
}

#[test]
fn only_usable_channels_can_send() {
    let channels = vec![channel(1_000, true), channel(500, false), channel(30, true)];
    assert!(usable_capacity_fits(&channels));
    assert_eq!(usable_outbound_capacity_msat(&channels), 1_030);
    assert_eq!(usable_outbound_capacity_msat(&vec![]), 0);
}

#[test]
fn once_all_channels_are_usable_everything_can_be_sent() {
    let channels = vec![channel(1_000, true), channel(2_000, true)];
    assert_eq!(wait_for_usable_channels(&channels, 0), ChannelWait::Ready);
    assert_eq!(usable_outbound_capacity_msat(&channels) / 1_000, get_balance(&channels) as u64);
}

#[test]
fn a_capacity_that_does_not_fit_is_noticed() {
    assert!(!usable_capacity_fits(&vec![channel(u64::MAX, true), channel(1, true)]));
    assert!(usable_capacity_fits(&vec![channel(u64::MAX, true), channel(1, false)]));
    assert!(usable_capacity_fits(&vec![channel(u64::MAX, true)]));
}

#[test]
fn the_wait_ends_when_all_channels_are_usable_or_the_time_is_up() {
    let some = vec![channel(1, true), channel(1, false)];
    assert_eq!(wait_for_usable_channels(&some, 0), ChannelWait::Sleep);
    assert_eq!(
        wait_for_usable_channels(&some, CHANNEL_USABLE_TIMEOUT_NS - 1),
        ChannelWait::Sleep
    );
    assert_eq!(wait_for_usable_channels(&some, 10_000_000_000), ChannelWait::TimedOut);
    let all = vec![channel(1, true)];
    assert_eq!(wait_for_usable_channels(&all, 10_000_000_000), ChannelWait::Ready);
}

#[test]
fn without_channels_the_wait_lasts_until_the_time_is_up() {
    assert_eq!(wait_for_usable_channels(&vec![], 0), ChannelWait::Sleep);
    assert_eq!(wait_for_usable_channels(&vec![], 10_000_000_000), ChannelWait::TimedOut);
}

#[test]
fn the_wait_ends_at_the_first_look_that_ends_it() {
    let waiting = || vec![channel(1, true), channel(1, false)];
    let ready = || vec![channel(1, true), channel(1, true)];
    let looks = [
        (waiting(), 0),
        (vec![], 5_000_000_000),
        (ready(), 9_000_000_000),
        (waiting(), 11_000_000_000),
    ];
    let end = looks
        .iter()
        .map(|(channels, elapsed_ns)| wait_for_usable_channels(channels, *elapsed_ns))
        .position(|wait| wait != ChannelWait::Sleep);
    assert_eq!(end, Some(2));
    // Channels that become usable only when the time is up are found ready all the same.
    assert_eq!(wait_for_usable_channels(&ready(), 12_000_000_000), ChannelWait::Ready);
}
