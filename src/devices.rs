use vstd::prelude::*;

verus! {

/// USB identification of a serial port that sits on a USB device.
pub struct UsbPortDetails {
    pub vid: u16,
    pub pid: u16,
    pub serial_number: Option<String>,
    pub manufacturer: Option<String>,
    pub product: Option<String>,
}

/// A serial port as enumerated: its name, and USB details when it has them.
pub struct PortEntry {
    pub port_name: String,
    pub usb: Option<UsbPortDetails>,
}

/// A serial port as listed to clients.
pub struct SerialDeviceInfo {
    pub port_name: String,
    pub vid: Option<u16>,
    pub pid: Option<u16>,
    pub serial_number: Option<String>,
    pub manufacturer: Option<String>,
    pub product: Option<String>,
}

/// The listing of one port: USB details are carried over; a port without
/// them has none of the optional fields.
pub open spec fn describe_model(entry: PortEntry) -> SerialDeviceInfo {
    match entry.usb {
        Some(u) => SerialDeviceInfo {
            port_name: entry.port_name,
            vid: Some(u.vid),
            pid: Some(u.pid),
            serial_number: u.serial_number,
            manufacturer: u.manufacturer,
            product: u.product,
        },
        None => SerialDeviceInfo {
            port_name: entry.port_name,
            vid: None,
            pid: None,
            serial_number: None,
            manufacturer: None,
            product: None,
        },
    }
}

impl SerialDeviceInfo {
    pub fn describe(entry: PortEntry) -> (r: SerialDeviceInfo)
        ensures
            r == describe_model(entry),
    {
        match entry.usb {
            Some(u) => SerialDeviceInfo {
                port_name: entry.port_name,
                vid: Some(u.vid),
                pid: Some(u.pid),
                serial_number: u.serial_number,
                manufacturer: u.manufacturer,
                product: u.product,
            },
            None => SerialDeviceInfo {
                port_name: entry.port_name,
                vid: None,
                pid: None,
                serial_number: None,
                manufacturer: None,
                product: None,
            },
        }
    }
}

/// The listing of all enumerated ports, in enumeration order; an enumeration
/// that failed (`None`) lists nothing.
pub fn list_serial_devices(ports: Option<Vec<PortEntry>>) -> (r: Vec<SerialDeviceInfo>)
    ensures
        ports.is_none() ==> r@.len() == 0,
        ports.is_some() ==> r@ == ports.unwrap()@.map_values(|e: PortEntry| describe_model(e)),
{
    let mut ports = match ports {
        Some(p) => p,
        None => return Vec::new(),
    };
    let ghost all = ports@;
    let mut out: Vec<SerialDeviceInfo> = Vec::new();
    while ports.len() > 0
        invariant
            out@.len() + ports@.len() == all.len(),
            ports@ == all.subrange(out@.len() as int, all.len() as int),
            out@ == all.take(out@.len() as int).map_values(|e: PortEntry| describe_model(e)),
        decreases ports@.len(),
    {
        let entry = ports.remove(0);
        let ghost k: int = out@.len() as int;
        out.push(SerialDeviceInfo::describe(entry));
        assert(all.take(k + 1) =~= all.take(k).push(all[k]));
        assert(out@ =~= all.take(out@.len() as int).map_values(|e: PortEntry| describe_model(e)));
        assert(ports@ =~= all.subrange(out@.len() as int, all.len() as int));
    }
    assert(all.take(all.len() as int) =~= all);
    out
}

/// A command for the serial peer, as clients send it.
pub struct SerialMessage {
    pub port_path: String,
    pub message: String,
}

impl SerialMessage {
    pub fn new(port_path: String, message: String) -> (r: SerialMessage)
        ensures
            r.port_path == port_path,
            r.message == message,
    {
        SerialMessage { port_path, message }
    }
}

/// Identifiers read from a USB device's descriptor.
#[derive(Clone, Copy, Debug, PartialEq, Eq, Structural)]
pub struct UsbIds {
    pub vendor_id: u16,
    pub product_id: u16,
}

/// A USB device as enumerated; `ids` is `None` when its descriptor could not
/// be read.
#[derive(Clone, Copy, Debug, PartialEq, Eq, Structural)]
pub struct UsbDeviceEntry {
    pub ids: Option<UsbIds>,
    pub bus_number: u8,
    pub address: u8,
}

/// A USB device as listed to clients.
#[derive(Clone, Copy, Debug, PartialEq, Eq, Structural)]
pub struct UsbDeviceInfo {
    pub vendor_id: u16,
    pub product_id: u16,
    pub bus_number: u8,
    pub address: u8,
}

/// The listing of enumerated USB devices, in order, leaving out those whose
/// descriptor could not be read.
pub open spec fn usb_listing_model(entries: Seq<UsbDeviceEntry>) -> Seq<UsbDeviceInfo>
    decreases entries.len(),
{
    if entries.len() == 0 {
        Seq::empty()
    } else {
        let rest = usb_listing_model(entries.drop_last());
        let e = entries.last();
        match e.ids {
            Some(ids) => rest.push(
                UsbDeviceInfo {
                    vendor_id: ids.vendor_id,
                    product_id: ids.product_id,
                    bus_number: e.bus_number,
                    address: e.address,
                },
            ),
            None => rest,
        }
    }
}

pub fn list_usb_devices(entries: &Vec<UsbDeviceEntry>) -> (r: Vec<UsbDeviceInfo>)
    ensures
        r@ == usb_listing_model(entries@),
{
    let mut out: Vec<UsbDeviceInfo> = Vec::new();
    let mut i: usize = 0;
    while i < entries.len()
        invariant
            i <= entries@.len(),
            out@ == usb_listing_model(entries@.take(i as int)),
        decreases entries@.len() - i,
    {
        let e = entries[i];
        assert(entries@.take(i + 1).drop_last() =~= entries@.take(i as int));
        match e.ids {
            Some(ids) => {
                out.push(
                    UsbDeviceInfo {
                        vendor_id: ids.vendor_id,
                        product_id: ids.product_id,
                        bus_number: e.bus_number,
                        address: e.address,
                    },
                );
            },
            None => {},
        }
        i = i + 1;
    }
    assert(entries@.take(entries@.len() as int) =~= entries@);
    out
}

} // verus!
