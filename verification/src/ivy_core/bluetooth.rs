//! How a device advertises itself over Bluetooth, and the commands that its radio takes.

use trouble_host::advertise;
use vstd::prelude::*;
use vstd::utf8::encode_utf8;

use crate::device::DeviceMetadata;

verus! {

/// The short id of the service, 0000ca7e-0000-1000-8000-00805f9b34fb, low byte first.
pub const RAW_SERVICE_UUID: [u8; 2] = [0x7e, 0xca];

/// The device can be found by anyone who looks.
pub const LE_GENERAL_DISCOVERABLE: u8 = 0b00000010;

/// The device has no classic Bluetooth.
pub const BR_EDR_NOT_SUPPORTED: u8 = 0b00000100;

/// The most bytes that one value of the service can have.
pub const MAX_MTU: usize = 256;

/// The room that an advertisement has, in bytes.
pub const ADVERTISEMENT_SIZE: usize = 31;

/// The random address of the device.
pub const ADDRESS: [u8; 6] = [22, 111, 251, 222, 45, 55];

/// One piece of an advertisement.
pub enum AdStructure<'a> {
    /// What the device can do.
    Flags(u8),
    /// The short ids of its services, low byte first.
    ServiceUuids16(&'a [[u8; 2]]),
    /// Its name.
    CompleteLocalName(&'a [u8]),
    /// Whatever its maker wants to say.
    ManufacturerSpecificData { company_identifier: u16, payload: &'a [u8] },
}

/// Short ids, one after the other.
pub open spec fn uuid_bytes(uuids: Seq<[u8; 2]>) -> Seq<u8>
    decreases uuids.len(),
{
    if uuids.len() == 0 {
        seq![]
    } else {
        uuids.first()@ + uuid_bytes(uuids.drop_first())
    }
}

impl<'a> AdStructure<'a> {
    /// The octet that says what the piece is.
    pub open spec fn tag(self) -> u8 {
        match self {
            AdStructure::Flags(_) => 0x01u8,
            AdStructure::ServiceUuids16(_) => 0x02u8,
            AdStructure::CompleteLocalName(_) => 0x09u8,
            AdStructure::ManufacturerSpecificData { .. } => 0xffu8,
        }
    }

    /// The content of the piece.
    pub open spec fn content(self) -> Seq<u8> {
        match self {
            AdStructure::Flags(flags) => seq![flags],
            AdStructure::ServiceUuids16(uuids) => uuid_bytes(uuids@),
            AdStructure::CompleteLocalName(name) => name@,
            AdStructure::ManufacturerSpecificData { company_identifier, payload } => seq![
                (company_identifier % 256) as u8,
                (company_identifier / 256) as u8,
            ] + payload@,
        }
    }

    /// The bytes of the piece: how many octets follow, the tag, and the content.
    pub open spec fn bytes(self) -> Seq<u8> {
        seq![(self.content().len() + 1) as u8, self.tag()] + self.content()
    }
}

/// The bytes of some pieces, one after the other.
pub open spec fn ad_bytes(structures: Seq<AdStructure>) -> Seq<u8>
    decreases structures.len(),
{
    if structures.len() == 0 {
        seq![]
    } else {
        structures.first().bytes() + ad_bytes(structures.drop_first())
    }
}

/// What someone reads out of an advertisement: the tag and the content of each piece.
pub open spec fn scan(bytes: Seq<u8>) -> Seq<(u8, Seq<u8>)>
    decreases bytes.len(),
{
    if bytes.len() == 0 || bytes[0] == 0 || bytes.len() <= bytes[0] {
        seq![]
    } else {
        let end = bytes[0] + 1;
        seq![(bytes[1], bytes.subrange(2, end))] + scan(bytes.skip(end))
    }
}

/// Who reads an advertisement gets the pieces that were put into it, in order, as long as the size
/// of each piece can be said in one octet.
pub proof fn scan_reads_pieces(structures: Seq<AdStructure>)
    requires
        forall|i: int| 0 <= i < structures.len() ==> (#[trigger] structures[i]).content().len() < 255,
    ensures
        scan(ad_bytes(structures)) == structures.map_values(
            |structure: AdStructure| (structure.tag(), structure.content()),
        ),
    decreases structures.len(),
{
    let pieces = structures.map_values(
        |structure: AdStructure| (structure.tag(), structure.content()),
    );
    if structures.len() == 0 {
        assert(pieces =~= seq![]);
    } else {
        let first = structures.first();
        let rest = structures.drop_first();
        let bytes = ad_bytes(structures);
        let end = first.content().len() + 1int;
        assert forall|i: int| 0 <= i < rest.len() implies (#[trigger] rest[i]).content().len() < 255 by {
            assert(rest[i] == structures[i + 1]);
        }
        scan_reads_pieces(rest);
        assert(structures[0].content().len() < 255);
        assert(bytes[0] == end);
        assert(bytes.subrange(2, end + 1) =~= first.content());
        assert(bytes.skip(end + 1) =~= ad_bytes(rest));
        assert(pieces =~= seq![(first.tag(), first.content())] + rest.map_values(
            |structure: AdStructure| (structure.tag(), structure.content()),
        ));
    }
}

/// Calls `AdStructure::encode_slice` of `trouble_host`. Believed of it: it succeeds exactly where
/// the bytes of the pieces fit, then says how many they are, puts them at the start of `dest` and
/// leaves what follows as it was. Of what `dest` holds after a failure nothing is believed.
#[verifier::external_body]
fn encode_slice(structures: &[AdStructure], dest: &mut [u8; ADVERTISEMENT_SIZE]) -> (len: Option<usize>)
    ensures
        len is Some <==> ad_bytes(structures@).len() <= ADVERTISEMENT_SIZE,
        len matches Some(len) ==> {
            &&& len == ad_bytes(structures@).len()
            &&& final(dest)@ == ad_bytes(structures@) + old(dest)@.skip(len as int)
        },
{
    let converted: Vec<advertise::AdStructure> = structures.iter().map(|structure| match *structure {
        AdStructure::Flags(flags) => advertise::AdStructure::Flags(flags),
        AdStructure::ServiceUuids16(uuids) => advertise::AdStructure::ServiceUuids16(uuids),
        AdStructure::CompleteLocalName(name) => advertise::AdStructure::CompleteLocalName(name),
        AdStructure::ManufacturerSpecificData { company_identifier, payload } => {
            advertise::AdStructure::ManufacturerSpecificData { company_identifier, payload }
        },
    }).collect();
    advertise::AdStructure::encode_slice(&converted, &mut dest[..]).ok()
}

/// What a device sends out to be found: the first `len` bytes of `advertiser_data`.
#[derive(Clone, Copy)]
pub struct Advertisiment {
    pub advertiser_data: [u8; ADVERTISEMENT_SIZE],
    pub len: usize,
}

impl Advertisiment {
    /// The bytes that are sent out are there, and the others are zero.
    pub open spec fn inv(self) -> bool {
        &&& self.len <= ADVERTISEMENT_SIZE
        &&& forall|i: int|
            self.len <= i < ADVERTISEMENT_SIZE ==> #[trigger] self.advertiser_data@[i] == 0
    }

    /// The bytes that are sent out.
    pub open spec fn sent(self) -> Seq<u8> {
        self.advertiser_data@.take(self.len as int)
    }
}

/// The advertisement of a device: its flags, its service, its name, and what its maker says of it.
pub open spec fn device_ad(name: Seq<u8>, company_identifier: u16, device_info: Seq<u8>) -> Seq<u8> {
    seq![2u8, 0x01u8, 6u8] + seq![3u8, 0x02u8, 0x7eu8, 0xcau8] + seq![
        (name.len() + 1) as u8,
        0x09u8,
    ] + name + seq![
        (device_info.len() + 3) as u8,
        0xffu8,
        (company_identifier % 256) as u8,
        (company_identifier / 256) as u8,
    ] + device_info
}

/// Who reads the advertisement of a device finds four pieces: that anyone can find the device and that
/// it has no classic Bluetooth, the id of its service, all bytes of its name, and the company, low byte
/// first, followed by all that its maker says of it. Besides the name and what the maker says, the
/// pieces take thirteen bytes.
pub proof fn scan_reads_the_device(name: Seq<u8>, company_identifier: u16, device_info: Seq<u8>)
    requires
        name.len() < 255,
        device_info.len() < 253,
    ensures
        ({
            let pieces = scan(device_ad(name, company_identifier, device_info));
            let maker = pieces[3].1;
            &&& pieces.len() == 4
            &&& pieces[0] == (0x01u8, seq![0b00000110u8])
            &&& pieces[1] == (0x02u8, seq![0x7eu8, 0xcau8])
            &&& pieces[2] == (0x09u8, name)
            &&& pieces[3].0 == 0xffu8
            &&& maker.len() == device_info.len() + 2
            &&& maker[0] + 256 * maker[1] == company_identifier
            &&& maker.skip(2) == device_info
        }),
        device_ad(name, company_identifier, device_info).len() == 13 + name.len()
            + device_info.len(),
{
    let low = (company_identifier % 256) as u8;
    let high = (company_identifier / 256) as u8;
    let ad = device_ad(name, company_identifier, device_info);
    let name_end = name.len() + 2int;
    let maker_end = device_info.len() + 4int;
    let second = ad.skip(3);
    let third = second.skip(4);
    let fourth = third.skip(name_end);
    let maker = seq![low, high] + device_info;
    assert(ad.subrange(2, 3) =~= seq![6u8]);
    assert(second.subrange(2, 4) =~= seq![0x7eu8, 0xcau8]);
    assert(third.subrange(2, name_end) =~= name);
    assert(fourth.subrange(2, maker_end) =~= maker);
    assert(fourth.skip(maker_end) =~= seq![]);
    assert(scan(seq![]) == Seq::<(u8, Seq<u8>)>::empty());
    assert(scan(fourth) =~= seq![(0xffu8, maker)]);
    assert(scan(third) =~= seq![(0x09u8, name), (0xffu8, maker)]);
    assert(scan(second) =~= seq![
        (0x02u8, seq![0x7eu8, 0xcau8]),
        (0x09u8, name),
        (0xffu8, maker),
    ]);
    assert(scan(ad) =~= seq![
        (0x01u8, seq![6u8]),
        (0x02u8, seq![0x7eu8, 0xcau8]),
        (0x09u8, name),
        (0xffu8, maker),
    ]);
    assert(maker.skip(2) =~= device_info);
}

/// The radio of a device. `C` is its controller, `T` the kind of the device and `I` its id.
pub struct BluetoothModule<'m, C, T, I> {
    controller: Option<C>,
    device_meta: &'m DeviceMetadata<T, I>,
}

/// What the radio is asked to do.
#[derive(Clone, Copy, PartialEq, Eq, Structural)]
pub enum BluetoothHandleTraitCommand {
    StartAdvertising,
    StopAdvertising,
}

/// What the radio does next.
#[derive(Clone, Copy, PartialEq, Eq, Structural)]
pub enum BluetoothAction {
    /// Acknowledge the command.
    Ack,
    /// Look for a command again.
    Continue,
}

/// What the radio does with a command, or where there is none. Every command is acknowledged.
pub fn handle_command(command: Option<BluetoothHandleTraitCommand>) -> (action: BluetoothAction)
    ensures
        action == match command {
            Some(_) => BluetoothAction::Ack,
            None => BluetoothAction::Continue,
        },
{
    match command {
        Some(BluetoothHandleTraitCommand::StartAdvertising) => BluetoothAction::Ack,
        Some(BluetoothHandleTraitCommand::StopAdvertising) => BluetoothAction::Ack,
        None => BluetoothAction::Continue,
    }
}

impl<'m, C, T, I> BluetoothModule<'m, C, T, I> {
    /// The controller, until it is taken.
    pub closed spec fn controller_of(self) -> Option<C> {
        self.controller
    }

    /// What the device knows of itself.
    pub closed spec fn meta_of(self) -> DeviceMetadata<T, I> {
        *self.device_meta
    }

    /// The advertisement of the device.
    pub open spec fn ad_of(self, company_identifier: u16, device_info: Seq<u8>) -> Seq<u8> {
        device_ad(encode_utf8(self.meta_of().persistent.name@), company_identifier, device_info)
    }

    pub fn new(controller: C, device_meta: &'m DeviceMetadata<T, I>) -> (module: BluetoothModule<
        'm,
        C,
        T,
        I,
    >)
        ensures
            module.controller_of() == Some(controller),
            module.meta_of() == *device_meta,
    {
        BluetoothModule { controller: Some(controller), device_meta }
    }

    /// Takes the controller, which can be done once.
    pub fn take_controller(&mut self) -> (controller: C)
        requires
            old(self).controller_of() is Some,
        ensures
            old(self).controller_of() == Some(controller),
            final(self).controller_of() is None,
            final(self).meta_of() == old(self).meta_of(),
    {
        self.controller.take().unwrap()
    }

    /// What the device knows of itself.
    pub fn device_meta(&self) -> (meta: &'m DeviceMetadata<T, I>)
        ensures
            *meta == self.meta_of(),
    {
        self.device_meta
    }

    /// Puts together the advertisement of the device. `device_info` is what its maker says of it.
    pub fn advertisement(&self, company_identifier: u16, device_info: &[u8]) -> (ad: Advertisiment)
        requires
            self.ad_of(company_identifier, device_info@).len() <= ADVERTISEMENT_SIZE,
        ensures
            ad.inv(),
            ad.sent() == self.ad_of(company_identifier, device_info@),
    {
        self.checked_advertisement(company_identifier, device_info).unwrap()
    }

    /// Puts together the advertisement of the device, where it fits.
    pub fn checked_advertisement(&self, company_identifier: u16, device_info: &[u8]) -> (ad: Option<
        Advertisiment,
    >)
        ensures
            ad is Some <==> self.ad_of(company_identifier, device_info@).len()
                <= ADVERTISEMENT_SIZE,
            ad matches Some(ad) ==> {
                &&& ad.inv()
                &&& ad.sent() == self.ad_of(company_identifier, device_info@)
            },
            ad is Some <==> encode_utf8(self.meta_of().persistent.name@).len() + device_info@.len()
                <= 18,
            ad matches Some(ad) ==> {
                let pieces = scan(ad.advertiser_data@.take(ad.len as int));
                &&& pieces.len() == 4
                &&& pieces[2].1 == encode_utf8(self.meta_of().persistent.name@)
                &&& pieces[3].1.len() == device_info@.len() + 2
                &&& pieces[3].1.skip(2) == device_info@
            },
    {
        let name = self.device_meta.persistent.name.as_bytes();
        let mut advertiser_data = [0u8; ADVERTISEMENT_SIZE];
        let uuids = [RAW_SERVICE_UUID];
        let structures = [
            AdStructure::Flags(LE_GENERAL_DISCOVERABLE | BR_EDR_NOT_SUPPORTED),
            AdStructure::ServiceUuids16(vstd::array::array_as_slice(&uuids)),
            AdStructure::CompleteLocalName(name),
            AdStructure::ManufacturerSpecificData { company_identifier, payload: device_info },
        ];
        proof {
            assert(LE_GENERAL_DISCOVERABLE | BR_EDR_NOT_SUPPORTED == 6u8) by (bit_vector);
            reveal_with_fuel(ad_bytes, 5);
            reveal_with_fuel(uuid_bytes, 2);
            let s = structures@;
            assert(s.drop_first().drop_first().drop_first().drop_first() =~= seq![]);
            assert(uuids@.drop_first() =~= seq![]);
            assert(uuid_bytes(uuids@) =~= seq![0x7eu8, 0xcau8]);
            assert(s[0].bytes() =~= seq![2u8, 0x01u8, 6u8]);
            assert(s[1].bytes() =~= seq![3u8, 0x02u8, 0x7eu8, 0xcau8]);
            assert(s[2].bytes() =~= seq![(name@.len() + 1) as u8, 0x09u8] + name@);
            assert(s[3].bytes() =~= seq![
                (device_info@.len() + 3) as u8,
                0xffu8,
                (company_identifier % 256) as u8,
                (company_identifier / 256) as u8,
            ] + device_info@);
            assert(ad_bytes(s) =~= s[0].bytes() + s[1].bytes() + s[2].bytes() + s[3].bytes());
            assert(ad_bytes(s) =~= device_ad(name@, company_identifier, device_info@));
        }
        match encode_slice(vstd::array::array_as_slice(&structures), &mut advertiser_data) {
            Some(len) => {
                let ad = Advertisiment { advertiser_data, len };
                assert(ad.sent() =~= device_ad(name@, company_identifier, device_info@));
                proof {
                    scan_reads_the_device(name@, company_identifier, device_info@);
                }
                Some(ad)
            },
            None => None,
        }
    }
}

} // verus!
