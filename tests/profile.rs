use bluetooth_rust::{
    socket_settings_plan, BluetoothCommand, BluetoothL2capProfileSettings, BluetoothResponse,
    BluetoothRfcommProfileSettings, SocketSetting,
};

fn settings(uuid: &str) -> BluetoothRfcommProfileSettings {
    BluetoothRfcommProfileSettings {
        uuid: uuid.to_string(),
        name: None,
        service_uuid: None,
        channel: None,
        psm: None,
        authenticate: None,
        authorize: None,
        auto_connect: None,
        sdp_record: None,
        sdp_version: None,
        sdp_features: None,
    }
}

#[test]
fn plan_with_only_uuid() {
    let plan = socket_settings_plan(&settings("00001101-0000-1000-8000-00805F9B34FB"));
    assert_eq!(plan.len(), 1);
    match &plan[0] {
        SocketSetting::RfcommUuid(u) => assert_eq!(u, "00001101-0000-1000-8000-00805F9B34FB"),
        other => panic!("unexpected {:?}", other),
    }
}

#[test]
fn plan_with_all_settings_in_order() {
    let mut s = settings("abc");
    s.authenticate = Some(true);
    s.psm = Some(0x25);
    s.name = Some("serial".to_string());
    s.channel = Some(3);
    s.authorize = Some(false);
    let plan = socket_settings_plan(&s);
    assert_eq!(plan.len(), 4);
    assert!(matches!(plan[0], SocketSetting::AuthenticationRequired(true)));
    assert!(matches!(plan[1], SocketSetting::L2capPsm(0x25)));
    match &plan[2] {
        SocketSetting::RfcommServiceName(n) => assert_eq!(n, "serial"),
        other => panic!("unexpected {:?}", other),
    }
    match &plan[3] {
        SocketSetting::RfcommUuid(u) => assert_eq!(u, "abc"),
        other => panic!("unexpected {:?}", other),
    }
}

#[test]
fn plan_skips_missing_settings() {
    let mut s = settings("u");
    s.psm = Some(7);
    let plan = socket_settings_plan(&s);
    assert_eq!(plan.len(), 2);
    assert!(matches!(plan[0], SocketSetting::L2capPsm(7)));
}

#[test]
fn command_responses() {
    assert_eq!(
        BluetoothCommand::QueryNumAdapters.response(2),
        Some(BluetoothResponse::Adapters(2))
    );
    assert_eq!(BluetoothCommand::DetectAdapters.response(2), None);
}

#[test]
fn l2cap_settings_clone() {
    let s = BluetoothL2capProfileSettings {
        uuid: "x".to_string(),
        name: Some("n".to_string()),
        service_uuid: None,
        channel: Some(1),
        psm: None,
        authenticate: Some(true),
        authorize: None,
        auto_connect: None,
        sdp_record: None,
        sdp_version: None,
        sdp_features: None,
    };
    let t = s.clone();
    assert_eq!(t.uuid, "x");
    assert_eq!(t.channel, Some(1));
}
