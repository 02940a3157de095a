use vstd::prelude::*;

use crate::types::BluetoothRfcommProfileSettings;

verus! {

/// One setter call on the platform's socket-settings builder.
#[derive(Debug)]
pub enum SocketSetting {
    /// Whether connections must be authenticated.
    AuthenticationRequired(bool),
    /// The L2CAP protocol/service multiplexer to listen on.
    L2capPsm(u16),
    /// The service name published for the RFCOMM channel.
    RfcommServiceName(String),
    /// The service uuid, in text form, of the RFCOMM channel.
    RfcommUuid(String),
}

/// The mathematical value of a [`SocketSetting`].
pub ghost enum SettingView {
    AuthenticationRequired(bool),
    L2capPsm(u16),
    RfcommServiceName(Seq<char>),
    RfcommUuid(Seq<char>),
}

impl View for SocketSetting {
    type V = SettingView;

    open spec fn view(&self) -> SettingView {
        match self {
            SocketSetting::AuthenticationRequired(b) => SettingView::AuthenticationRequired(*b),
            SocketSetting::L2capPsm(p) => SettingView::L2capPsm(*p),
            SocketSetting::RfcommServiceName(n) => SettingView::RfcommServiceName(n@),
            SocketSetting::RfcommUuid(u) => SettingView::RfcommUuid(u@),
        }
    }
}

/// The setter calls for a profile's settings, in order: authentication,
/// PSM and service name where they are given, then the service uuid.
pub open spec fn settings_plan_of(s: BluetoothRfcommProfileSettings) -> Seq<SettingView> {
    (match s.authenticate {
        Some(b) => seq![SettingView::AuthenticationRequired(b)],
        None => Seq::empty(),
    }) + (match s.psm {
        Some(p) => seq![SettingView::L2capPsm(p)],
        None => Seq::empty(),
    }) + (match s.name {
        Some(n) => seq![SettingView::RfcommServiceName(n@)],
        None => Seq::empty(),
    }) + seq![SettingView::RfcommUuid(s.uuid@)]
}

pub open spec fn views_of(v: Seq<SocketSetting>) -> Seq<SettingView> {
    Seq::new(v.len(), |i: int| v[i]@)
}

/// The builder calls that register an RFCOMM listening socket with these
/// settings. Settings the platform builder has no setter for are not used.
pub fn socket_settings_plan(s: &BluetoothRfcommProfileSettings) -> (plan: Vec<SocketSetting>)
    ensures
        views_of(plan@) == settings_plan_of(*s),
{
    let mut plan: Vec<SocketSetting> = Vec::new();
    let ghost a: Seq<SettingView> = match s.authenticate {
        Some(b) => seq![SettingView::AuthenticationRequired(b)],
        None => Seq::empty(),
    };
    let ghost p: Seq<SettingView> = match s.psm {
        Some(x) => seq![SettingView::L2capPsm(x)],
        None => Seq::empty(),
    };
    let ghost n: Seq<SettingView> = match &s.name {
        Some(x) => seq![SettingView::RfcommServiceName(x@)],
        None => Seq::empty(),
    };
    if let Some(b) = s.authenticate {
        plan.push(SocketSetting::AuthenticationRequired(b));
    }
    assert(views_of(plan@) =~= a);
    if let Some(x) = s.psm {
        plan.push(SocketSetting::L2capPsm(x));
    }
    assert(views_of(plan@) =~= a + p);
    match &s.name {
        Some(x) => {
            plan.push(SocketSetting::RfcommServiceName(x.clone()));
        },
        None => {},
    }
    assert(views_of(plan@) =~= a + p + n);
    plan.push(SocketSetting::RfcommUuid(s.uuid.clone()));
    assert(views_of(plan@) =~= a + p + n + seq![SettingView::RfcommUuid(s.uuid@)]);
    plan
}

} // verus!
