use bluetooth_rust::{
    passkey_step, BluetoothCommand, BluetoothUuid, BridgeError, PairingStatus, PasskeyEvent,
    PasskeyStep, ResponseToPasskey, SocketCache,
};

#[test]
fn bond_states_map_to_pairing_status() {
    assert_eq!(PairingStatus::from_bond_state(10), PairingStatus::NotPaired);
    assert_eq!(PairingStatus::from_bond_state(11), PairingStatus::Pairing);
    assert_eq!(PairingStatus::from_bond_state(12), PairingStatus::Paired);
    assert_eq!(PairingStatus::from_bond_state(13), PairingStatus::Unknown);
    assert_eq!(PairingStatus::from_bond_state(-1), PairingStatus::Unknown);
}

#[test]
fn uuid_text_forms() {
    assert_eq!(BluetoothUuid::SPP.as_str(), "00001101-0000-1000-8000-00805F9B34FB");
    assert_eq!(BluetoothUuid::AndroidAuto.as_str(), "4de17a00-52cb-11e6-bdf4-0800200c9a66");
    assert_eq!(BluetoothUuid::Base.as_str(), "00000000-0000-1000-8000-00805f9b34fb");
    assert_eq!(BluetoothUuid::Unknown("abc".to_string()).as_str(), "abc");
}

#[test]
fn uuid_parse_named_and_unknown() {
    assert_eq!(
        BluetoothUuid::parse("0000110b-0000-1000-8000-00805f9b34fb"),
        BluetoothUuid::A2dpSink
    );
    assert_eq!(
        <BluetoothUuid as std::str::FromStr>::from_str("00001116-0000-1000-8000-00805f9b34fb"),
        Ok(BluetoothUuid::NetworkingNap)
    );
    // letter case matters
    assert_eq!(
        BluetoothUuid::parse("00001101-0000-1000-8000-00805f9b34fb"),
        BluetoothUuid::Unknown("00001101-0000-1000-8000-00805f9b34fb".to_string())
    );
}

#[test]
fn uuid_round_trip_for_named() {
    let all = [
        BluetoothUuid::AndroidAuto,
        BluetoothUuid::SPP,
        BluetoothUuid::A2dpSource,
        BluetoothUuid::A2dpSink,
        BluetoothUuid::Base,
        BluetoothUuid::HspHs,
        BluetoothUuid::HspAg,
        BluetoothUuid::HfpAg,
        BluetoothUuid::HfpHs,
        BluetoothUuid::ObexOpp,
        BluetoothUuid::ObexFtp,
        BluetoothUuid::ObexMas,
        BluetoothUuid::ObexMns,
        BluetoothUuid::ObexPse,
        BluetoothUuid::ObexSync,
        BluetoothUuid::AvrcpRemote,
        BluetoothUuid::NetworkingNap,
    ];
    for u in all.iter() {
        assert_eq!(&BluetoothUuid::parse(u.as_str()), u);
    }
}

#[test]
fn socket_cache_builds_once_per_key() {
    let mut cache: SocketCache<u32> = SocketCache::new();
    assert_eq!(cache.find("spp", true), None);
    let i = cache.insert_built("spp", true, Ok(7)).unwrap();
    assert_eq!(i, 0);
    assert_eq!(cache.find("spp", true), Some(0));
    assert_eq!(cache.find("spp", false), None);
    let j = cache.insert_built("spp", false, Ok(8)).unwrap();
    assert_eq!(j, 1);
    *cache.get_mut(0) += 1;
    assert_eq!(*cache.get_mut(0), 8);
    assert_eq!(*cache.get_mut(1), 8);
    assert_eq!(cache.len(), 2);
}

#[test]
fn socket_cache_failed_build_is_not_cached() {
    let mut cache: SocketCache<u32> = SocketCache::new();
    let r = cache.insert_built("obex", true, Err(BridgeError::other("no socket")));
    match r {
        Err(BridgeError::Other(m)) => assert_eq!(m, "no socket"),
        _ => panic!("expected the build error"),
    }
    assert_eq!(cache.len(), 0);
    assert_eq!(cache.find("obex", true), None);
}

#[test]
fn passkey_answers() {
    assert_eq!(passkey_step(PasskeyEvent::Reply(ResponseToPasskey::Yes)), PasskeyStep::Accept);
    assert_eq!(passkey_step(PasskeyEvent::Reply(ResponseToPasskey::No)), PasskeyStep::Reject);
    assert_eq!(passkey_step(PasskeyEvent::Reply(ResponseToPasskey::Cancel)), PasskeyStep::Cancel);
    assert_eq!(passkey_step(PasskeyEvent::Reply(ResponseToPasskey::Waiting)), PasskeyStep::Wait);
    assert_eq!(passkey_step(PasskeyEvent::ChannelClosed), PasskeyStep::Wait);
    assert_eq!(passkey_step(PasskeyEvent::TimedOut), PasskeyStep::Cancel);
    assert_eq!(passkey_step(PasskeyEvent::Cancelled), PasskeyStep::Cancel);
}

#[test]
fn commands_are_distinct() {
    assert_ne!(BluetoothCommand::DetectAdapters, BluetoothCommand::QueryNumAdapters);
}
