use vstd::prelude::*;

verus! {

/// The fixed set of attribute names a record can hold.
#[derive(Clone, Copy, Debug, PartialEq, Eq, Structural)]
pub enum AttrKey {
    Gpu,
    Vram,
    Motherboard,
    Manufacturer,
    SerialNumber,
    Cpu,
    Frequency,
    Ram,
    Disk,
    DiskSerial,
    Os,
    OsVersion,
    OsBuild,
    Hostname,
    Bios,
    BiosManufacturer,
    BiosSerial,
    Id,
}

/// Number of distinct attribute keys.
pub const KEY_COUNT: usize = 18;

/// The name under which a key is rendered.
pub open spec fn key_name(k: AttrKey) -> Seq<char> {
    match k {
        AttrKey::Gpu => "GPU"@,
        AttrKey::Vram => "VRAM"@,
        AttrKey::Motherboard => "Motherboard"@,
        AttrKey::Manufacturer => "Manufacturer"@,
        AttrKey::SerialNumber => "SerialNumber"@,
        AttrKey::Cpu => "CPU"@,
        AttrKey::Frequency => "Frequency"@,
        AttrKey::Ram => "RAM"@,
        AttrKey::Disk => "Disk"@,
        AttrKey::DiskSerial => "DiskSerial"@,
        AttrKey::Os => "OS"@,
        AttrKey::OsVersion => "OSVersion"@,
        AttrKey::OsBuild => "OSBuild"@,
        AttrKey::Hostname => "Hostname"@,
        AttrKey::Bios => "BIOS"@,
        AttrKey::BiosManufacturer => "BIOSManufacturer"@,
        AttrKey::BiosSerial => "BIOSSerial"@,
        AttrKey::Id => "ID"@,
    }
}

/// Position of a key in the rendering order.
pub open spec fn key_index(k: AttrKey) -> nat {
    match k {
        AttrKey::Gpu => 0,
        AttrKey::Vram => 1,
        AttrKey::Motherboard => 2,
        AttrKey::Manufacturer => 3,
        AttrKey::SerialNumber => 4,
        AttrKey::Cpu => 5,
        AttrKey::Frequency => 6,
        AttrKey::Ram => 7,
        AttrKey::Disk => 8,
        AttrKey::DiskSerial => 9,
        AttrKey::Os => 10,
        AttrKey::OsVersion => 11,
        AttrKey::OsBuild => 12,
        AttrKey::Hostname => 13,
        AttrKey::Bios => 14,
        AttrKey::BiosManufacturer => 15,
        AttrKey::BiosSerial => 16,
        AttrKey::Id => 17,
    }
}

/// The key at a position of the rendering order.
pub open spec fn key_at(i: nat) -> AttrKey {
    if i == 0 { AttrKey::Gpu }
    else if i == 1 { AttrKey::Vram }
    else if i == 2 { AttrKey::Motherboard }
    else if i == 3 { AttrKey::Manufacturer }
    else if i == 4 { AttrKey::SerialNumber }
    else if i == 5 { AttrKey::Cpu }
    else if i == 6 { AttrKey::Frequency }
    else if i == 7 { AttrKey::Ram }
    else if i == 8 { AttrKey::Disk }
    else if i == 9 { AttrKey::DiskSerial }
    else if i == 10 { AttrKey::Os }
    else if i == 11 { AttrKey::OsVersion }
    else if i == 12 { AttrKey::OsBuild }
    else if i == 13 { AttrKey::Hostname }
    else if i == 14 { AttrKey::Bios }
    else if i == 15 { AttrKey::BiosManufacturer }
    else if i == 16 { AttrKey::BiosSerial }
    else { AttrKey::Id }
}

impl AttrKey {
    /// The rendered name of this key.
    pub fn name(&self) -> (r: &'static str)
        ensures
            r@ == key_name(*self),
    {
        match self {
            AttrKey::Gpu => "GPU",
            AttrKey::Vram => "VRAM",
            AttrKey::Motherboard => "Motherboard",
            AttrKey::Manufacturer => "Manufacturer",
            AttrKey::SerialNumber => "SerialNumber",
            AttrKey::Cpu => "CPU",
            AttrKey::Frequency => "Frequency",
            AttrKey::Ram => "RAM",
            AttrKey::Disk => "Disk",
            AttrKey::DiskSerial => "DiskSerial",
            AttrKey::Os => "OS",
            AttrKey::OsVersion => "OSVersion",
            AttrKey::OsBuild => "OSBuild",
            AttrKey::Hostname => "Hostname",
            AttrKey::Bios => "BIOS",
            AttrKey::BiosManufacturer => "BIOSManufacturer",
            AttrKey::BiosSerial => "BIOSSerial",
            AttrKey::Id => "ID",
        }
    }

    /// The key at position `i` of the rendering order.
    pub fn at(i: usize) -> (r: AttrKey)
        requires
            i < KEY_COUNT,
        ensures
            r == key_at(i as nat),
            key_index(r) == i,
    {
        if i == 0 {
            AttrKey::Gpu
        } else if i == 1 {
            AttrKey::Vram
        } else if i == 2 {
            AttrKey::Motherboard
        } else if i == 3 {
            AttrKey::Manufacturer
        } else if i == 4 {
            AttrKey::SerialNumber
        } else if i == 5 {
            AttrKey::Cpu
        } else if i == 6 {
            AttrKey::Frequency
        } else if i == 7 {
            AttrKey::Ram
        } else if i == 8 {
            AttrKey::Disk
        } else if i == 9 {
            AttrKey::DiskSerial
        } else if i == 10 {
            AttrKey::Os
        } else if i == 11 {
            AttrKey::OsVersion
        } else if i == 12 {
            AttrKey::OsBuild
        } else if i == 13 {
            AttrKey::Hostname
        } else if i == 14 {
            AttrKey::Bios
        } else if i == 15 {
            AttrKey::BiosManufacturer
        } else if i == 16 {
            AttrKey::BiosSerial
        } else {
            AttrKey::Id
        }
    }
}

/// One collection's result: at most one value per attribute key.
pub struct AttributeRecord {
    gpu: Option<String>,
    vram: Option<String>,
    motherboard: Option<String>,
    manufacturer: Option<String>,
    serial_number: Option<String>,
    cpu: Option<String>,
    frequency: Option<String>,
    ram: Option<String>,
    disk: Option<String>,
    disk_serial: Option<String>,
    os: Option<String>,
    os_version: Option<String>,
    os_build: Option<String>,
    hostname: Option<String>,
    bios: Option<String>,
    bios_manufacturer: Option<String>,
    bios_serial: Option<String>,
    id: Option<String>,
}

/// The value of an optional string, as a sequence of characters.
pub open spec fn opt_view(o: Option<String>) -> Option<Seq<char>> {
    match o {
        Some(s) => Some(s@),
        None => None,
    }
}

impl AttributeRecord {
    pub closed spec fn slot(&self, k: AttrKey) -> Option<Seq<char>> {
        match k {
            AttrKey::Gpu => opt_view(self.gpu),
            AttrKey::Vram => opt_view(self.vram),
            AttrKey::Motherboard => opt_view(self.motherboard),
            AttrKey::Manufacturer => opt_view(self.manufacturer),
            AttrKey::SerialNumber => opt_view(self.serial_number),
            AttrKey::Cpu => opt_view(self.cpu),
            AttrKey::Frequency => opt_view(self.frequency),
            AttrKey::Ram => opt_view(self.ram),
            AttrKey::Disk => opt_view(self.disk),
            AttrKey::DiskSerial => opt_view(self.disk_serial),
            AttrKey::Os => opt_view(self.os),
            AttrKey::OsVersion => opt_view(self.os_version),
            AttrKey::OsBuild => opt_view(self.os_build),
            AttrKey::Hostname => opt_view(self.hostname),
            AttrKey::Bios => opt_view(self.bios),
            AttrKey::BiosManufacturer => opt_view(self.bios_manufacturer),
            AttrKey::BiosSerial => opt_view(self.bios_serial),
            AttrKey::Id => opt_view(self.id),
        }
    }
}

impl View for AttributeRecord {
    type V = Map<AttrKey, Seq<char>>;

    closed spec fn view(&self) -> Map<AttrKey, Seq<char>> {
        Map::new(|k: AttrKey| self.slot(k) is Some, |k: AttrKey| self.slot(k).unwrap())
    }
}

impl AttributeRecord {
    /// A record with no attributes.
    pub fn new() -> (r: AttributeRecord)
        ensures
            r@ == Map::<AttrKey, Seq<char>>::empty(),
    {
        let r = AttributeRecord {
            gpu: None,
            vram: None,
            motherboard: None,
            manufacturer: None,
            serial_number: None,
            cpu: None,
            frequency: None,
            ram: None,
            disk: None,
            disk_serial: None,
            os: None,
            os_version: None,
            os_build: None,
            hostname: None,
            bios: None,
            bios_manufacturer: None,
            bios_serial: None,
            id: None,
        };
        assert(r@ =~= Map::<AttrKey, Seq<char>>::empty());
        r
    }

    /// Sets the value of `k`, replacing any earlier one.
    pub fn insert(&mut self, k: AttrKey, v: String)
        ensures
            final(self)@ == old(self)@.insert(k, v@),
    {
        let ghost v_view = v@;
        match k {
            AttrKey::Gpu => self.gpu = Some(v),
            AttrKey::Vram => self.vram = Some(v),
            AttrKey::Motherboard => self.motherboard = Some(v),
            AttrKey::Manufacturer => self.manufacturer = Some(v),
            AttrKey::SerialNumber => self.serial_number = Some(v),
            AttrKey::Cpu => self.cpu = Some(v),
            AttrKey::Frequency => self.frequency = Some(v),
            AttrKey::Ram => self.ram = Some(v),
            AttrKey::Disk => self.disk = Some(v),
            AttrKey::DiskSerial => self.disk_serial = Some(v),
            AttrKey::Os => self.os = Some(v),
            AttrKey::OsVersion => self.os_version = Some(v),
            AttrKey::OsBuild => self.os_build = Some(v),
            AttrKey::Hostname => self.hostname = Some(v),
            AttrKey::Bios => self.bios = Some(v),
            AttrKey::BiosManufacturer => self.bios_manufacturer = Some(v),
            AttrKey::BiosSerial => self.bios_serial = Some(v),
            AttrKey::Id => self.id = Some(v),
        }
        assert(self@ =~= old(self)@.insert(k, v_view));
    }

    /// The value held for `k`, if any.
    pub fn get(&self, k: AttrKey) -> (r: Option<&String>)
        ensures
            match r {
                Some(s) => self@.contains_key(k) && self@[k] == s@,
                None => !self@.contains_key(k),
            },
    {
        match k {
            AttrKey::Gpu => self.gpu.as_ref(),
            AttrKey::Vram => self.vram.as_ref(),
            AttrKey::Motherboard => self.motherboard.as_ref(),
            AttrKey::Manufacturer => self.manufacturer.as_ref(),
            AttrKey::SerialNumber => self.serial_number.as_ref(),
            AttrKey::Cpu => self.cpu.as_ref(),
            AttrKey::Frequency => self.frequency.as_ref(),
            AttrKey::Ram => self.ram.as_ref(),
            AttrKey::Disk => self.disk.as_ref(),
            AttrKey::DiskSerial => self.disk_serial.as_ref(),
            AttrKey::Os => self.os.as_ref(),
            AttrKey::OsVersion => self.os_version.as_ref(),
            AttrKey::OsBuild => self.os_build.as_ref(),
            AttrKey::Hostname => self.hostname.as_ref(),
            AttrKey::Bios => self.bios.as_ref(),
            AttrKey::BiosManufacturer => self.bios_manufacturer.as_ref(),
            AttrKey::BiosSerial => self.bios_serial.as_ref(),
            AttrKey::Id => self.id.as_ref(),
        }
    }
}

/// The line for `k` in a rendered record: `"key: value"` and a newline, or
/// nothing when the key is absent.
pub open spec fn line(m: Map<AttrKey, Seq<char>>, k: AttrKey) -> Seq<char> {
    if m.contains_key(k) {
        key_name(k) + ": "@ + m[k] + "\n"@
    } else {
        Seq::empty()
    }
}

/// The lines of the first `i` keys in rendering order.
pub open spec fn rendered_prefix(m: Map<AttrKey, Seq<char>>, i: nat) -> Seq<char>
    decreases i,
{
    if i == 0 {
        Seq::empty()
    } else {
        rendered_prefix(m, (i - 1) as nat) + line(m, key_at((i - 1) as nat))
    }
}

/// A whole record rendered as one line per present key.
pub open spec fn rendered(m: Map<AttrKey, Seq<char>>) -> Seq<char> {
    rendered_prefix(m, KEY_COUNT as nat)
}

impl AttributeRecord {
    /// Renders the record as `"key: value"` lines, one per present key.
    pub fn render(&self) -> (r: String)
        ensures
            r@ == rendered(self@),
    {
        let mut out = String::new();
        let mut i: usize = 0;
        while i < KEY_COUNT
            invariant
                i <= KEY_COUNT,
                out@ == rendered_prefix(self@, i as nat),
            decreases KEY_COUNT - i,
        {
            let k = AttrKey::at(i);
            match self.get(k) {
                Some(v) => {
                    out.append(k.name());
                    out.append(": ");
                    out.append(v.as_str());
                    out.append("\n");
                },
                None => {},
            }
            i = i + 1;
        }
        out
    }
}

} // verus!
