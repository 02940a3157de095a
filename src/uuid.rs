use vstd::prelude::*;

use crate::text::same_text;

verus! {

/// The uuid of a bluetooth service.
#[derive(Clone, Debug, PartialEq, Eq)]
pub enum BluetoothUuid {
    /// Android Auto
    AndroidAuto,
    /// Serial port profile
    SPP,
    /// A2DP source
    A2dpSource,
    /// A2DP sink
    A2dpSink,
    /// The base bluetooth uuid
    Base,
    /// Headset profile, headset
    HspHs,
    /// Headset profile, audio gateway
    HspAg,
    /// Hands-free profile, audio gateway
    HfpAg,
    /// Hands-free profile, hands-free unit
    HfpHs,
    /// OBEX object push
    ObexOpp,
    /// OBEX file transfer
    ObexFtp,
    /// OBEX message access server
    ObexMas,
    /// OBEX message notification server
    ObexMns,
    /// OBEX phonebook server
    ObexPse,
    /// OBEX synchronization
    ObexSync,
    /// AVRCP remote control
    AvrcpRemote,
    /// Networking access point
    NetworkingNap,
    /// Any other uuid, in its text form.
    Unknown(String),
}

/// The text form of a uuid.
pub open spec fn uuid_text(u: &BluetoothUuid) -> Seq<char> {
    match u {
        BluetoothUuid::SPP => "00001101-0000-1000-8000-00805F9B34FB"@,
        BluetoothUuid::A2dpSource => "0000110a-0000-1000-8000-00805f9b34fb"@,
        BluetoothUuid::HfpHs => "0000111e-0000-1000-8000-00805f9b34fb"@,
        BluetoothUuid::ObexOpp => "00001105-0000-1000-8000-00805f9b34fb"@,
        BluetoothUuid::ObexFtp => "00001106-0000-1000-8000-00805f9b34fb"@,
        BluetoothUuid::ObexSync => "00001104-0000-1000-8000-00805f9b34fb"@,
        BluetoothUuid::A2dpSink => "0000110b-0000-1000-8000-00805f9b34fb"@,
        BluetoothUuid::AvrcpRemote => "0000110e-0000-1000-8000-00805f9b34fb"@,
        BluetoothUuid::ObexPse => "0000112f-0000-1000-8000-00805f9b34fb"@,
        BluetoothUuid::HfpAg => "0000111f-0000-1000-8000-00805f9b34fb"@,
        BluetoothUuid::ObexMas => "00001132-0000-1000-8000-00805f9b34fb"@,
        BluetoothUuid::ObexMns => "00001133-0000-1000-8000-00805f9b34fb"@,
        BluetoothUuid::Base => "00000000-0000-1000-8000-00805f9b34fb"@,
        BluetoothUuid::NetworkingNap => "00001116-0000-1000-8000-00805f9b34fb"@,
        BluetoothUuid::HspHs => "00001108-0000-1000-8000-00805f9b34fb"@,
        BluetoothUuid::HspAg => "00001112-0000-1000-8000-00805f9b34fb"@,
        BluetoothUuid::AndroidAuto => "4de17a00-52cb-11e6-bdf4-0800200c9a66"@,
        BluetoothUuid::Unknown(s) => s@,
    }
}

/// Whether `t` is the text form of one of the named uuids.
pub open spec fn is_named_uuid_text(t: Seq<char>) -> bool {
    ||| t == "00001101-0000-1000-8000-00805F9B34FB"@
    ||| t == "0000110a-0000-1000-8000-00805f9b34fb"@
    ||| t == "0000111e-0000-1000-8000-00805f9b34fb"@
    ||| t == "00001105-0000-1000-8000-00805f9b34fb"@
    ||| t == "00001106-0000-1000-8000-00805f9b34fb"@
    ||| t == "00001104-0000-1000-8000-00805f9b34fb"@
    ||| t == "0000110b-0000-1000-8000-00805f9b34fb"@
    ||| t == "0000110e-0000-1000-8000-00805f9b34fb"@
    ||| t == "0000112f-0000-1000-8000-00805f9b34fb"@
    ||| t == "0000111f-0000-1000-8000-00805f9b34fb"@
    ||| t == "00001132-0000-1000-8000-00805f9b34fb"@
    ||| t == "00001133-0000-1000-8000-00805f9b34fb"@
    ||| t == "00000000-0000-1000-8000-00805f9b34fb"@
    ||| t == "00001116-0000-1000-8000-00805f9b34fb"@
    ||| t == "00001108-0000-1000-8000-00805f9b34fb"@
    ||| t == "00001112-0000-1000-8000-00805f9b34fb"@
    ||| t == "4de17a00-52cb-11e6-bdf4-0800200c9a66"@
}

impl BluetoothUuid {
    /// The text form of this uuid.
    pub fn as_str(&self) -> (s: &str)
        ensures
            s@ == uuid_text(self),
    {
        match self {
            BluetoothUuid::SPP => "00001101-0000-1000-8000-00805F9B34FB",
            BluetoothUuid::A2dpSource => "0000110a-0000-1000-8000-00805f9b34fb",
            BluetoothUuid::HfpHs => "0000111e-0000-1000-8000-00805f9b34fb",
            BluetoothUuid::ObexOpp => "00001105-0000-1000-8000-00805f9b34fb",
            BluetoothUuid::ObexFtp => "00001106-0000-1000-8000-00805f9b34fb",
            BluetoothUuid::ObexSync => "00001104-0000-1000-8000-00805f9b34fb",
            BluetoothUuid::A2dpSink => "0000110b-0000-1000-8000-00805f9b34fb",
            BluetoothUuid::AvrcpRemote => "0000110e-0000-1000-8000-00805f9b34fb",
            BluetoothUuid::ObexPse => "0000112f-0000-1000-8000-00805f9b34fb",
            BluetoothUuid::HfpAg => "0000111f-0000-1000-8000-00805f9b34fb",
            BluetoothUuid::ObexMas => "00001132-0000-1000-8000-00805f9b34fb",
            BluetoothUuid::ObexMns => "00001133-0000-1000-8000-00805f9b34fb",
            BluetoothUuid::Base => "00000000-0000-1000-8000-00805f9b34fb",
            BluetoothUuid::NetworkingNap => "00001116-0000-1000-8000-00805f9b34fb",
            BluetoothUuid::HspHs => "00001108-0000-1000-8000-00805f9b34fb",
            BluetoothUuid::HspAg => "00001112-0000-1000-8000-00805f9b34fb",
            BluetoothUuid::AndroidAuto => "4de17a00-52cb-11e6-bdf4-0800200c9a66",
            BluetoothUuid::Unknown(s) => s.as_str(),
        }
    }

    /// The uuid whose text form is `s`: a named one where `s` is exactly its
    /// text (letter case included), else `Unknown` holding `s`.
    pub fn parse(s: &str) -> (u: BluetoothUuid)
        ensures
            uuid_text(&u) == s@,
            u is Unknown <==> !is_named_uuid_text(s@),
    {
        if same_text(s, "00001101-0000-1000-8000-00805F9B34FB") {
            BluetoothUuid::SPP
        } else if same_text(s, "0000110a-0000-1000-8000-00805f9b34fb") {
            BluetoothUuid::A2dpSource
        } else if same_text(s, "0000111e-0000-1000-8000-00805f9b34fb") {
            BluetoothUuid::HfpHs
        } else if same_text(s, "00001105-0000-1000-8000-00805f9b34fb") {
            BluetoothUuid::ObexOpp
        } else if same_text(s, "00001106-0000-1000-8000-00805f9b34fb") {
            BluetoothUuid::ObexFtp
        } else if same_text(s, "00001104-0000-1000-8000-00805f9b34fb") {
            BluetoothUuid::ObexSync
        } else if same_text(s, "0000110b-0000-1000-8000-00805f9b34fb") {
            BluetoothUuid::A2dpSink
        } else if same_text(s, "0000110e-0000-1000-8000-00805f9b34fb") {
            BluetoothUuid::AvrcpRemote
        } else if same_text(s, "0000112f-0000-1000-8000-00805f9b34fb") {
            BluetoothUuid::ObexPse
        } else if same_text(s, "0000111f-0000-1000-8000-00805f9b34fb") {
            BluetoothUuid::HfpAg
        } else if same_text(s, "00001132-0000-1000-8000-00805f9b34fb") {
            BluetoothUuid::ObexMas
        } else if same_text(s, "00001133-0000-1000-8000-00805f9b34fb") {
            BluetoothUuid::ObexMns
        } else if same_text(s, "00000000-0000-1000-8000-00805f9b34fb") {
            BluetoothUuid::Base
        } else if same_text(s, "00001116-0000-1000-8000-00805f9b34fb") {
            BluetoothUuid::NetworkingNap
        } else if same_text(s, "00001108-0000-1000-8000-00805f9b34fb") {
            BluetoothUuid::HspHs
        } else if same_text(s, "00001112-0000-1000-8000-00805f9b34fb") {
            BluetoothUuid::HspAg
        } else if same_text(s, "4de17a00-52cb-11e6-bdf4-0800200c9a66") {
            BluetoothUuid::AndroidAuto
        } else {
            BluetoothUuid::Unknown(s.to_owned())
        }
    }
}

impl std::str::FromStr for BluetoothUuid {
    type Err = ();

    fn from_str(s: &str) -> Result<BluetoothUuid, ()> {
        Ok(BluetoothUuid::parse(s))
    }
}


/// The named uuid whose text has the characters `c0`, `c6` and `c7` at
/// positions 0, 6 and 7: these three tell the named texts apart.
spec fn named_by_key(c0: char, c6: char, c7: char) -> BluetoothUuid {
    if c0 == '4' {
        BluetoothUuid::AndroidAuto
    } else if c0 == '0' && c6 == '0' && c7 == '1' {
        BluetoothUuid::SPP
    } else if c0 == '0' && c6 == '0' && c7 == 'a' {
        BluetoothUuid::A2dpSource
    } else if c0 == '0' && c6 == '1' && c7 == 'e' {
        BluetoothUuid::HfpHs
    } else if c0 == '0' && c6 == '0' && c7 == '5' {
        BluetoothUuid::ObexOpp
    } else if c0 == '0' && c6 == '0' && c7 == '6' {
        BluetoothUuid::ObexFtp
    } else if c0 == '0' && c6 == '0' && c7 == '4' {
        BluetoothUuid::ObexSync
    } else if c0 == '0' && c6 == '0' && c7 == 'b' {
        BluetoothUuid::A2dpSink
    } else if c0 == '0' && c6 == '0' && c7 == 'e' {
        BluetoothUuid::AvrcpRemote
    } else if c0 == '0' && c6 == '2' && c7 == 'f' {
        BluetoothUuid::ObexPse
    } else if c0 == '0' && c6 == '1' && c7 == 'f' {
        BluetoothUuid::HfpAg
    } else if c0 == '0' && c6 == '3' && c7 == '2' {
        BluetoothUuid::ObexMas
    } else if c0 == '0' && c6 == '3' && c7 == '3' {
        BluetoothUuid::ObexMns
    } else if c0 == '0' && c6 == '0' && c7 == '0' {
        BluetoothUuid::Base
    } else if c0 == '0' && c6 == '1' && c7 == '6' {
        BluetoothUuid::NetworkingNap
    } else if c0 == '0' && c6 == '0' && c7 == '8' {
        BluetoothUuid::HspHs
    } else if c0 == '0' && c6 == '1' && c7 == '2' {
        BluetoothUuid::HspAg
    } else {
        BluetoothUuid::Base
    }
}

proof fn lemma_key_names_uuid(u: BluetoothUuid)
    requires
        !(u is Unknown),
    ensures
        is_named_uuid_text(uuid_text(&u)),
        uuid_text(&u).len() > 7,
        named_by_key(uuid_text(&u)[0], uuid_text(&u)[6], uuid_text(&u)[7]) == u,
{
    reveal_strlit("00001101-0000-1000-8000-00805F9B34FB");
    reveal_strlit("0000110a-0000-1000-8000-00805f9b34fb");
    reveal_strlit("0000111e-0000-1000-8000-00805f9b34fb");
    reveal_strlit("00001105-0000-1000-8000-00805f9b34fb");
    reveal_strlit("00001106-0000-1000-8000-00805f9b34fb");
    reveal_strlit("00001104-0000-1000-8000-00805f9b34fb");
    reveal_strlit("0000110b-0000-1000-8000-00805f9b34fb");
    reveal_strlit("0000110e-0000-1000-8000-00805f9b34fb");
    reveal_strlit("0000112f-0000-1000-8000-00805f9b34fb");
    reveal_strlit("0000111f-0000-1000-8000-00805f9b34fb");
    reveal_strlit("00001132-0000-1000-8000-00805f9b34fb");
    reveal_strlit("00001133-0000-1000-8000-00805f9b34fb");
    reveal_strlit("00000000-0000-1000-8000-00805f9b34fb");
    reveal_strlit("00001116-0000-1000-8000-00805f9b34fb");
    reveal_strlit("00001108-0000-1000-8000-00805f9b34fb");
    reveal_strlit("00001112-0000-1000-8000-00805f9b34fb");
    reveal_strlit("4de17a00-52cb-11e6-bdf4-0800200c9a66");
    match u {
        BluetoothUuid::SPP => {},
        BluetoothUuid::A2dpSource => {},
        BluetoothUuid::HfpHs => {},
        BluetoothUuid::ObexOpp => {},
        BluetoothUuid::ObexFtp => {},
        BluetoothUuid::ObexSync => {},
        BluetoothUuid::A2dpSink => {},
        BluetoothUuid::AvrcpRemote => {},
        BluetoothUuid::ObexPse => {},
        BluetoothUuid::HfpAg => {},
        BluetoothUuid::ObexMas => {},
        BluetoothUuid::ObexMns => {},
        BluetoothUuid::Base => {},
        BluetoothUuid::NetworkingNap => {},
        BluetoothUuid::HspHs => {},
        BluetoothUuid::HspAg => {},
        BluetoothUuid::AndroidAuto => {},
        BluetoothUuid::Unknown(_) => {},
    }
}

/// Parsing the text form of a named uuid gives that uuid back: the text of
/// a named uuid is a named text, and no two named uuids share a text.
pub proof fn lemma_named_uuid_round_trip(u: BluetoothUuid, r: BluetoothUuid)
    requires
        !(u is Unknown),
        !(r is Unknown),
        uuid_text(&r) == uuid_text(&u),
    ensures
        is_named_uuid_text(uuid_text(&u)),
        r == u,
{
    lemma_key_names_uuid(u);
    lemma_key_names_uuid(r);
}

} // verus!
