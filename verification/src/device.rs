use vstd::prelude::*;

verus! {

/// Data about one device of an account. The service tags each record with
/// the device's kind; kinds this crate has not mapped fold into `Other`.
#[derive(Debug, Clone, PartialEq, Eq)]
pub enum DeviceData {
    /// A security camera.
    CocoaCamera { id: usize, location_id: String, description: String },
    /// A doorbell.
    DoorbellGrahamCracker { id: usize, location_id: String, description: String },
    /// An alarm base station.
    BaseStationV1 { id: usize, location_id: String, description: String },
    /// A device kind yet to be mapped by the crate.
    Other,
}

/// A device enabled in an account.
#[derive(Debug, Clone, PartialEq, Eq)]
pub struct Device {
    pub data: DeviceData,
}

impl Device {
    /// Wrap one device record.
    pub fn new(data: DeviceData) -> (r: Device)
        ensures
            r.data == data,
    {
        Device { data }
    }
}

/// The device listing as the endpoint groups it: one list per family.
#[derive(Debug, Clone, PartialEq, Eq)]
pub struct DeviceListing {
    pub doorbots: Vec<DeviceData>,
    pub authorized_doorbots: Vec<DeviceData>,
    pub chimes: Vec<DeviceData>,
    pub stickup_cams: Vec<DeviceData>,
    pub base_stations: Vec<DeviceData>,
    pub beams: Vec<DeviceData>,
    pub beams_bridges: Vec<DeviceData>,
    pub other: Vec<DeviceData>,
}

impl DeviceListing {
    /// Every record of the listing in one sequence, families in the order
    /// the endpoint groups them.
    pub open spec fn spec_flattened(self) -> Seq<DeviceData> {
        self.doorbots@ + self.authorized_doorbots@ + self.chimes@ + self.stickup_cams@
            + self.base_stations@ + self.beams@ + self.beams_bridges@ + self.other@
    }
}

/// Flatten a device listing into the single list of records the caller
/// sees, keeping the endpoint's grouping order.
pub fn collect_device_data(listing: DeviceListing) -> (r: Vec<DeviceData>)
    ensures
        r@ == listing.spec_flattened(),
{
    let DeviceListing {
        mut doorbots,
        mut authorized_doorbots,
        mut chimes,
        mut stickup_cams,
        mut base_stations,
        mut beams,
        mut beams_bridges,
        mut other,
    } = listing;
    doorbots.append(&mut authorized_doorbots);
    doorbots.append(&mut chimes);
    doorbots.append(&mut stickup_cams);
    doorbots.append(&mut base_stations);
    doorbots.append(&mut beams);
    doorbots.append(&mut beams_bridges);
    doorbots.append(&mut other);
    doorbots
}

/// Wrap a list of device records into the devices the caller receives, in
/// order.
pub fn devices_from_data(data: Vec<DeviceData>) -> (r: Vec<Device>)
    ensures
        r@.len() == data@.len(),
        forall|i: int| 0 <= i < data@.len() ==> r@[i].data == data@[i],
{
    let ghost all = data@;
    let mut rest = data;
    let mut r: Vec<Device> = Vec::new();
    while rest.len() > 0
        invariant
            r@.len() + rest@.len() == all.len(),
            rest@ == all.skip(r@.len() as int),
            forall|i: int| 0 <= i < r@.len() ==> r@[i].data == all[i],
        decreases rest.len(),
    {
        let d = rest.remove(0);
        proof {
            assert(all.skip(r@.len() as int).drop_first() =~= all.skip(r@.len() as int + 1));
        }
        r.push(Device { data: d });
    }
    r
}

} // verus!
