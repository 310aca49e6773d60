use std::str::FromStr;

use rs_udp::channel::{Channel, ChannelError};
use rs_udp::overrides::{
    split_once_char, FlowDumpError, FlowTiedPath, SeismometerOverrideError, SeismometerTiedPath,
};

#[test]
fn mod_test_one() {
    SeismometerTiedPath::from_str("shake4d=EHZ:/tmp/test").expect("works");
}

#[test]
fn tied_path_fields() {
    let t = SeismometerTiedPath::from_str("shake4d=ENE:/tmp/a:b=c").expect("works");
    assert_eq!(t.seismometer_name, "shake4d");
    assert_eq!(t.channel, Channel::Ene);
    assert_eq!(t.path, "/tmp/a:b=c");
}

#[test]
fn tied_path_errors() {
    assert_eq!(
        SeismometerTiedPath::from_str("shake4d:EHZ").err(),
        Some(SeismometerOverrideError::MissingPathSeparator)
    );
    assert_eq!(
        SeismometerTiedPath::from_str("shake4d=EHZ").err(),
        Some(SeismometerOverrideError::MissingChannelSeparator)
    );
    assert_eq!(
        SeismometerTiedPath::from_str("shake4d=ehz:/tmp/x").err(),
        Some(SeismometerOverrideError::UnknownChannel(ChannelError::NoSuchChannel))
    );
}

#[test]
fn flow_tied_path() {
    let f = FlowTiedPath::from_str("quake=/tmp/dump=1").expect("works");
    assert_eq!(f.flow_name, "quake");
    assert_eq!(f.path, "/tmp/dump=1");
    assert_eq!(FlowTiedPath::from_str("quake").err(), Some(FlowDumpError::MissingPathSeparator));
    let f = FlowTiedPath::from_str("=").expect("empty parts");
    assert_eq!(f.flow_name, "");
    assert_eq!(f.path, "");
}

#[test]
fn split_at_first_separator() {
    assert_eq!(split_once_char("a=b=c", '='), Some(("a", "b=c")));
    assert_eq!(split_once_char("ä=ö", '='), Some(("ä", "ö")));
    assert_eq!(split_once_char("abc", '='), None);
    assert_eq!(split_once_char("", '='), None);
}
