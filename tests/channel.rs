use rs_udp::channel::{Channel, ChannelError};
use rs_udp::interest::ChannelInterest;

const ALL: [Channel; 6] =
    [Channel::Ehz, Channel::Ehn, Channel::Ehe, Channel::Enz, Channel::Enn, Channel::Ene];

#[test]
fn index_round_trip() {
    assert_eq!(Channel::max(), 6);
    for (i, c) in ALL.iter().enumerate() {
        assert_eq!(usize::from(*c), i);
        assert_eq!(c.index(), i);
        assert_eq!(Channel::try_from(i).expect("index"), *c);
    }
    assert_eq!(Channel::try_from(6usize).err(), Some(ChannelError::NoSuchChannel));
}

#[test]
fn names() {
    let names = ["EHZ", "EHN", "EHE", "ENZ", "ENN", "ENE"];
    for (n, c) in names.iter().zip(ALL.iter()) {
        assert_eq!(Channel::try_from(*n).expect("name"), *c);
    }
    for bad in ["ehz", "EH", "EHZZ", "", "EZZ", "XHZ"] {
        assert_eq!(Channel::try_from(bad).err(), Some(ChannelError::NoSuchChannel));
    }
}

#[test]
fn interest_starts_with_everything() {
    let mut i = ChannelInterest::new();
    for c in ALL {
        assert!(i.is_interested(c));
    }
    i.subscribe(Channel::Enn);
    for c in ALL {
        assert_eq!(i.is_interested(c), c == Channel::Enn);
    }
    i.subscribe(Channel::Ehz);
    i.subscribe(Channel::Ehz);
    for c in ALL {
        assert_eq!(i.is_interested(c), c == Channel::Enn || c == Channel::Ehz);
    }
}
