use vstd::prelude::*;
use crate::decimal::{dec, decimal};
use crate::record::{AttrKey, AttributeRecord};

verus! {

/// One row of the video-controller category.
pub struct VideoController {
    pub name: String,
    pub adapter_ram: u64,
}

/// One row of the baseboard category.
pub struct BaseBoard {
    pub manufacturer: String,
    pub product: String,
    pub serial_number: String,
}

/// One row of the physical-memory category: one installed module.
pub struct PhysicalMemory {
    pub capacity: u64,
}

/// One row of the disk-drive category.
pub struct DiskDrive {
    pub model: String,
    pub serial_number: String,
}

/// One row of the BIOS category.
pub struct Bios {
    pub manufacturer: String,
    pub version: String,
    pub serial_number: String,
}

/// One logical CPU as the system-stats probe reports it.
pub struct Cpu {
    pub brand: String,
    pub frequency: u64,
}

/// What the system-stats probe reported; each OS field may be unavailable.
pub struct SystemStats {
    pub cpus: Vec<Cpu>,
    pub name: Option<String>,
    pub kernel_version: Option<String>,
    pub os_version: Option<String>,
    pub host_name: Option<String>,
}

/// A single category query that failed outright.
#[derive(Clone, Debug, PartialEq, Eq)]
pub struct QueryError {
    pub message: String,
}

/// The outcome of each inventory category query, once the service is connected.
pub struct Inventory {
    pub video_controllers: Result<Vec<VideoController>, QueryError>,
    pub base_boards: Result<Vec<BaseBoard>, QueryError>,
    pub physical_memory: Result<Vec<PhysicalMemory>, QueryError>,
    pub disk_drives: Result<Vec<DiskDrive>, QueryError>,
    pub bios: Result<Vec<Bios>, QueryError>,
}

/// The row a category contributes: the first one of a successful query.
pub open spec fn first_row<T>(rows: Result<Vec<T>, QueryError>) -> Option<T> {
    match rows {
        Ok(v) => if v@.len() > 0 { Some(v@[0]) } else { None },
        Err(_) => None,
    }
}

/// Sum of the capacities of all memory modules.
pub open spec fn capacity_sum(rows: Seq<PhysicalMemory>) -> nat
    decreases rows.len(),
{
    if rows.len() == 0 {
        0
    } else {
        capacity_sum(rows.drop_last()) + rows.last().capacity as nat
    }
}

/// The placeholder for an OS field the probe could not supply.
pub open spec fn or_unknown(o: Option<String>) -> Seq<char> {
    match o {
        Some(s) => s@,
        None => "unknown"@,
    }
}

pub open spec fn with_video(m: Map<AttrKey, Seq<char>>, rows: Result<Vec<VideoController>, QueryError>) -> Map<AttrKey, Seq<char>> {
    match first_row(rows) {
        Some(g) => m.insert(AttrKey::Gpu, g.name@).insert(AttrKey::Vram, dec(g.adapter_ram as nat)),
        None => m,
    }
}

pub open spec fn with_board(m: Map<AttrKey, Seq<char>>, rows: Result<Vec<BaseBoard>, QueryError>) -> Map<AttrKey, Seq<char>> {
    match first_row(rows) {
        Some(b) => m.insert(AttrKey::Motherboard, b.product@)
            .insert(AttrKey::Manufacturer, b.manufacturer@)
            .insert(AttrKey::SerialNumber, b.serial_number@),
        None => m,
    }
}

pub open spec fn with_cpu(m: Map<AttrKey, Seq<char>>, cpus: Seq<Cpu>) -> Map<AttrKey, Seq<char>> {
    if cpus.len() > 0 {
        m.insert(AttrKey::Cpu, cpus[0].brand@).insert(AttrKey::Frequency, dec(cpus[0].frequency as nat))
    } else {
        m
    }
}

pub open spec fn with_memory(m: Map<AttrKey, Seq<char>>, rows: Result<Vec<PhysicalMemory>, QueryError>) -> Map<AttrKey, Seq<char>> {
    match rows {
        Ok(v) => m.insert(AttrKey::Ram, dec(capacity_sum(v@))),
        Err(_) => m,
    }
}

pub open spec fn with_disk(m: Map<AttrKey, Seq<char>>, rows: Result<Vec<DiskDrive>, QueryError>) -> Map<AttrKey, Seq<char>> {
    match first_row(rows) {
        Some(d) => m.insert(AttrKey::Disk, d.model@).insert(AttrKey::DiskSerial, d.serial_number@),
        None => m,
    }
}

pub open spec fn with_os(m: Map<AttrKey, Seq<char>>, st: SystemStats) -> Map<AttrKey, Seq<char>> {
    m.insert(AttrKey::Os, or_unknown(st.name))
        .insert(AttrKey::OsVersion, or_unknown(st.kernel_version))
        .insert(AttrKey::OsBuild, or_unknown(st.os_version))
        .insert(AttrKey::Hostname, or_unknown(st.host_name))
}

pub open spec fn with_bios(m: Map<AttrKey, Seq<char>>, rows: Result<Vec<Bios>, QueryError>) -> Map<AttrKey, Seq<char>> {
    match first_row(rows) {
        Some(b) => m.insert(AttrKey::Bios, b.version@)
            .insert(AttrKey::BiosManufacturer, b.manufacturer@)
            .insert(AttrKey::BiosSerial, b.serial_number@),
        None => m,
    }
}

/// The record that collection yields from the category outcomes and the
/// system statistics, before the identifier is attached.
pub open spec fn collected(inv: Inventory, st: SystemStats) -> Map<AttrKey, Seq<char>> {
    with_bios(
        with_os(
            with_disk(
                with_memory(
                    with_cpu(
                        with_board(with_video(Map::empty(), inv.video_controllers), inv.base_boards),
                        st.cpus@,
                    ),
                    inv.physical_memory,
                ),
                inv.disk_drives,
            ),
            st,
        ),
        inv.bios,
    )
}

/// Total capacity over every memory module; it cannot overflow, as there
/// are fewer than 2^64 rows of at most 2^64 - 1 each.
pub fn total_capacity(rows: &Vec<PhysicalMemory>) -> (r: u128)
    ensures
        r == capacity_sum(rows@),
{
    let mut total: u128 = 0;
    let mut i: usize = 0;
    while i < rows.len()
        invariant
            i <= rows@.len(),
            total == capacity_sum(rows@.take(i as int)),
            total <= i * 0xffff_ffff_ffff_ffffnat,
        decreases rows@.len() - i,
    {
        let cap = rows[i].capacity;
        assert(rows@.take(i + 1).drop_last() =~= rows@.take(i as int));
        proof {
            let ii = i as nat;
            assert(ii < 0x1_0000_0000_0000_0000nat);
            assert(total + cap <= (ii + 1) * 0xffff_ffff_ffff_ffffnat) by (nonlinear_arith)
                requires
                    total <= ii * 0xffff_ffff_ffff_ffffnat,
                    cap <= 0xffff_ffff_ffff_ffffnat,
            ;
            assert((ii + 1) * 0xffff_ffff_ffff_ffffnat < 0xffff_ffff_ffff_ffff_ffff_ffff_ffff_ffffnat) by (nonlinear_arith)
                requires
                    ii < 0x1_0000_0000_0000_0000nat,
            ;
        }
        total = total + cap as u128;
        i = i + 1;
    }
    assert(rows@.take(i as int) =~= rows@);
    total
}

/// Records the first video controller's name and adapter memory, if any.
pub fn add_video(record: &mut AttributeRecord, rows: &Result<Vec<VideoController>, QueryError>)
    ensures
        final(record)@ == with_video(old(record)@, *rows),
{
    if let Ok(v) = rows {
        if v.len() > 0 {
            let g = &v[0];
            record.insert(AttrKey::Gpu, g.name.clone());
            record.insert(AttrKey::Vram, decimal(g.adapter_ram as u128));
        }
    }
}

/// Records the first baseboard's product, manufacturer and serial, if any.
pub fn add_board(record: &mut AttributeRecord, rows: &Result<Vec<BaseBoard>, QueryError>)
    ensures
        final(record)@ == with_board(old(record)@, *rows),
{
    if let Ok(v) = rows {
        if v.len() > 0 {
            let b = &v[0];
            record.insert(AttrKey::Motherboard, b.product.clone());
            record.insert(AttrKey::Manufacturer, b.manufacturer.clone());
            record.insert(AttrKey::SerialNumber, b.serial_number.clone());
        }
    }
}

/// Records the first CPU's brand and frequency, if the probe listed any.
pub fn add_cpu(record: &mut AttributeRecord, cpus: &Vec<Cpu>)
    ensures
        final(record)@ == with_cpu(old(record)@, cpus@),
{
    if cpus.len() > 0 {
        let c = &cpus[0];
        record.insert(AttrKey::Cpu, c.brand.clone());
        record.insert(AttrKey::Frequency, decimal(c.frequency as u128));
    }
}

/// Records the total memory capacity over all modules ("0" for none),
/// unless the query failed.
pub fn add_memory(record: &mut AttributeRecord, rows: &Result<Vec<PhysicalMemory>, QueryError>)
    ensures
        final(record)@ == with_memory(old(record)@, *rows),
{
    if let Ok(v) = rows {
        let total = total_capacity(v);
        record.insert(AttrKey::Ram, decimal(total));
    }
}

/// Records the first disk drive's model and serial, if any.
pub fn add_disk(record: &mut AttributeRecord, rows: &Result<Vec<DiskDrive>, QueryError>)
    ensures
        final(record)@ == with_disk(old(record)@, *rows),
{
    if let Ok(v) = rows {
        if v.len() > 0 {
            let d = &v[0];
            record.insert(AttrKey::Disk, d.model.clone());
            record.insert(AttrKey::DiskSerial, d.serial_number.clone());
        }
    }
}

fn value_or_unknown(o: &Option<String>) -> (r: String)
    ensures
        r@ == or_unknown(*o),
{
    match o {
        Some(s) => s.clone(),
        None => String::from_str("unknown"),
    }
}

/// Records the OS name, kernel version, OS build and host name, each
/// replaced by "unknown" where the probe had none.
pub fn add_os(record: &mut AttributeRecord, st: &SystemStats)
    ensures
        final(record)@ == with_os(old(record)@, *st),
{
    record.insert(AttrKey::Os, value_or_unknown(&st.name));
    record.insert(AttrKey::OsVersion, value_or_unknown(&st.kernel_version));
    record.insert(AttrKey::OsBuild, value_or_unknown(&st.os_version));
    record.insert(AttrKey::Hostname, value_or_unknown(&st.host_name));
}

/// Records the first BIOS row's version, manufacturer and serial, if any.
pub fn add_bios(record: &mut AttributeRecord, rows: &Result<Vec<Bios>, QueryError>)
    ensures
        final(record)@ == with_bios(old(record)@, *rows),
{
    if let Ok(v) = rows {
        if v.len() > 0 {
            let b = &v[0];
            record.insert(AttrKey::Bios, b.version.clone());
            record.insert(AttrKey::BiosManufacturer, b.manufacturer.clone());
            record.insert(AttrKey::BiosSerial, b.serial_number.clone());
        }
    }
}

/// Merges every category into a fresh record. A failed or empty category
/// only leaves its own keys out; collection itself never fails.
pub fn collect(inv: &Inventory, st: &SystemStats) -> (r: AttributeRecord)
    ensures
        r@ == collected(*inv, *st),
{
    let mut record = AttributeRecord::new();
    add_video(&mut record, &inv.video_controllers);
    add_board(&mut record, &inv.base_boards);
    add_cpu(&mut record, &st.cpus);
    add_memory(&mut record, &inv.physical_memory);
    add_disk(&mut record, &inv.disk_drives);
    add_os(&mut record, st);
    add_bios(&mut record, &inv.bios);
    record
}

} // verus!
