use vstd::prelude::*;
use crate::decimal::dec;
use crate::inventory::{capacity_sum, collected, Inventory, SystemStats};
use crate::record::AttrKey;

verus! {

/// A hardware category of the inventory service.
#[derive(Clone, Copy, Debug, PartialEq, Eq, Structural)]
pub enum Category {
    Video,
    Board,
    Memory,
    Disk,
    Bios,
}

/// The keys a category fills in.
pub open spec fn category_keys(c: Category) -> Set<AttrKey> {
    match c {
        Category::Video => set![AttrKey::Gpu, AttrKey::Vram],
        Category::Board => set![AttrKey::Motherboard, AttrKey::Manufacturer, AttrKey::SerialNumber],
        Category::Memory => set![AttrKey::Ram],
        Category::Disk => set![AttrKey::Disk, AttrKey::DiskSerial],
        Category::Bios => set![AttrKey::Bios, AttrKey::BiosManufacturer, AttrKey::BiosSerial],
    }
}

/// The number of rows a category's query returned, or `None` if it failed.
pub open spec fn row_count(inv: Inventory, c: Category) -> Option<nat> {
    match c {
        Category::Video => match inv.video_controllers { Ok(v) => Some(v@.len()), Err(_) => None },
        Category::Board => match inv.base_boards { Ok(v) => Some(v@.len()), Err(_) => None },
        Category::Memory => match inv.physical_memory { Ok(v) => Some(v@.len()), Err(_) => None },
        Category::Disk => match inv.disk_drives { Ok(v) => Some(v@.len()), Err(_) => None },
        Category::Bios => match inv.bios { Ok(v) => Some(v@.len()), Err(_) => None },
    }
}

/// Whether a category contributes its keys: its query succeeded with at
/// least one row, or, for memory, succeeded at all.
pub open spec fn contributes(inv: Inventory, c: Category) -> bool {
    match row_count(inv, c) {
        Some(n) => n > 0 || c == Category::Memory,
        None => false,
    }
}

/// A category's keys are present exactly when it contributes, whatever the
/// other categories returned; the OS keys are always present.
pub proof fn lemma_keys_present_iff_contributes(inv: Inventory, st: SystemStats, c: Category, k: AttrKey)
    requires
        category_keys(c).contains(k),
    ensures
        collected(inv, st).contains_key(k) <==> contributes(inv, c),
        collected(inv, st).contains_key(AttrKey::Os),
        collected(inv, st).contains_key(AttrKey::OsVersion),
        collected(inv, st).contains_key(AttrKey::OsBuild),
        collected(inv, st).contains_key(AttrKey::Hostname),
{
}

/// A category whose query returned no rows leaves all of its keys out, while
/// every other contributing category keeps all of its keys.
pub proof fn lemma_empty_category_tolerated(inv: Inventory, st: SystemStats, c: Category)
    requires
        row_count(inv, c) == Some(0nat),
        c != Category::Memory,
    ensures
        forall|k: AttrKey| #[trigger] category_keys(c).contains(k) ==> !collected(inv, st).contains_key(k),
        forall|c2: Category, k: AttrKey|
            c2 != c && contributes(inv, c2) && #[trigger] category_keys(c2).contains(k)
                ==> collected(inv, st).contains_key(k),
{
    assert forall|k: AttrKey| #[trigger] category_keys(c).contains(k) implies !collected(inv, st).contains_key(k) by {
        lemma_keys_present_iff_contributes(inv, st, c, k);
    }
    assert forall|c2: Category, k: AttrKey|
        c2 != c && contributes(inv, c2) && #[trigger] category_keys(c2).contains(k)
            implies collected(inv, st).contains_key(k) by {
        lemma_keys_present_iff_contributes(inv, st, c2, k);
    }
}

/// The `RAM` value is the base-ten total of every module's capacity, and
/// "0" when the query returned no rows.
pub proof fn lemma_memory_total(inv: Inventory, st: SystemStats)
    requires
        inv.physical_memory is Ok,
    ensures
        collected(inv, st)[AttrKey::Ram] == dec(capacity_sum(inv.physical_memory->Ok_0@)),
        inv.physical_memory->Ok_0@.len() == 0 ==> collected(inv, st)[AttrKey::Ram] == "0"@,
{
    reveal_strlit("0");
    reveal_with_fuel(dec, 1);
}

/// With several disks, only the first one's model and serial are recorded.
pub proof fn lemma_first_disk_only(inv: Inventory, st: SystemStats)
    requires
        inv.disk_drives is Ok,
        inv.disk_drives->Ok_0@.len() > 0,
    ensures
        collected(inv, st)[AttrKey::Disk] == inv.disk_drives->Ok_0@[0].model@,
        collected(inv, st)[AttrKey::DiskSerial] == inv.disk_drives->Ok_0@[0].serial_number@,
{
}

/// An OS name the probe could not supply is recorded as "unknown".
pub proof fn lemma_unknown_os_name(inv: Inventory, st: SystemStats)
    requires
        st.name is None,
    ensures
        collected(inv, st)[AttrKey::Os] == "unknown"@,
{
}

} // verus!
