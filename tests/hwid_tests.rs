use hwid::decimal::decimal;
use hwid::hwid::{
    assemble, query_hwid, HwidError, ServiceError, CHANGED_MODE_HINT, GENERIC_HINT, RPC_E_CHANGED_MODE, RPC_E_TOO_LATE,
    TOO_LATE_HINT, WRONG_THREAD_HINT,
};
use hwid::identity::{build_id, IdentityError};
use hwid::inventory::{
    collect, total_capacity, Bios, BaseBoard, Cpu, DiskDrive, Inventory, PhysicalMemory, QueryError,
    SystemStats, VideoController,
};
use hwid::record::{AttrKey, AttributeRecord};

fn s(x: &str) -> String {
    x.to_string()
}

fn stats() -> SystemStats {
    SystemStats {
        cpus: vec![
            Cpu { brand: s("Ryzen 7"), frequency: 3600 },
            Cpu { brand: s("Other"), frequency: 1 },
        ],
        name: Some(s("Windows")),
        kernel_version: Some(s("10.0.22631")),
        os_version: Some(s("11 (22631)")),
        host_name: Some(s("desk")),
    }
}

fn inventory() -> Inventory {
    Inventory {
        video_controllers: Ok(vec![VideoController { name: s("RTX 3080"), adapter_ram: 4293918720 }]),
        base_boards: Ok(vec![BaseBoard {
            manufacturer: s("ASUS"),
            product: s("PRIME B550"),
            serial_number: s("MB123"),
        }]),
        physical_memory: Ok(vec![
            PhysicalMemory { capacity: 2 },
            PhysicalMemory { capacity: 4 },
            PhysicalMemory { capacity: 8 },
        ]),
        disk_drives: Ok(vec![
            DiskDrive { model: s("Samsung 980"), serial_number: s("D1") },
            DiskDrive { model: s("WD Blue"), serial_number: s("D2") },
        ]),
        bios: Ok(vec![Bios { manufacturer: s("AMI"), version: s("1.2"), serial_number: s("B9") }]),
    }
}

fn value(r: &AttributeRecord, k: AttrKey) -> Option<String> {
    r.get(k).cloned()
}

#[test]
fn decimal_renders_exact_digits() {
    assert_eq!(decimal(0), "0");
    assert_eq!(decimal(7), "7");
    assert_eq!(decimal(10), "10");
    assert_eq!(decimal(1234567890), "1234567890");
    assert_eq!(decimal(u64::MAX as u128), "18446744073709551615");
    assert_eq!(decimal(u128::MAX), "340282366920938463463374607431768211455");
}

#[test]
fn record_insert_replaces_and_get_reads() {
    let mut r = AttributeRecord::new();
    assert_eq!(value(&r, AttrKey::Gpu), None);
    r.insert(AttrKey::Gpu, s("a"));
    r.insert(AttrKey::Gpu, s("b"));
    assert_eq!(value(&r, AttrKey::Gpu), Some(s("b")));
    assert_eq!(value(&r, AttrKey::Vram), None);
}

#[test]
fn render_lists_present_keys_in_order() {
    let mut r = AttributeRecord::new();
    assert_eq!(r.render(), "");
    r.insert(AttrKey::Id, s("abc"));
    r.insert(AttrKey::Gpu, s("RTX"));
    r.insert(AttrKey::Ram, s("14"));
    assert_eq!(r.render(), "GPU: RTX\nRAM: 14\nID: abc\n");
}

#[test]
fn key_names() {
    assert_eq!(AttrKey::Gpu.name(), "GPU");
    assert_eq!(AttrKey::DiskSerial.name(), "DiskSerial");
    assert_eq!(AttrKey::BiosManufacturer.name(), "BIOSManufacturer");
    assert_eq!(AttrKey::Id.name(), "ID");
}

#[test]
fn collect_fills_every_category() {
    let r = collect(&inventory(), &stats());
    assert_eq!(value(&r, AttrKey::Gpu), Some(s("RTX 3080")));
    assert_eq!(value(&r, AttrKey::Vram), Some(s("4293918720")));
    assert_eq!(value(&r, AttrKey::Motherboard), Some(s("PRIME B550")));
    assert_eq!(value(&r, AttrKey::Manufacturer), Some(s("ASUS")));
    assert_eq!(value(&r, AttrKey::SerialNumber), Some(s("MB123")));
    assert_eq!(value(&r, AttrKey::Cpu), Some(s("Ryzen 7")));
    assert_eq!(value(&r, AttrKey::Frequency), Some(s("3600")));
    assert_eq!(value(&r, AttrKey::Ram), Some(s("14")));
    assert_eq!(value(&r, AttrKey::Os), Some(s("Windows")));
    assert_eq!(value(&r, AttrKey::OsVersion), Some(s("10.0.22631")));
    assert_eq!(value(&r, AttrKey::OsBuild), Some(s("11 (22631)")));
    assert_eq!(value(&r, AttrKey::Hostname), Some(s("desk")));
    assert_eq!(value(&r, AttrKey::Bios), Some(s("1.2")));
    assert_eq!(value(&r, AttrKey::BiosManufacturer), Some(s("AMI")));
    assert_eq!(value(&r, AttrKey::BiosSerial), Some(s("B9")));
    assert_eq!(value(&r, AttrKey::Id), None);
}

#[test]
fn empty_disk_category_leaves_only_its_keys_out() {
    let mut inv = inventory();
    inv.disk_drives = Ok(vec![]);
    let r = collect(&inv, &stats());
    assert_eq!(value(&r, AttrKey::Disk), None);
    assert_eq!(value(&r, AttrKey::DiskSerial), None);
    assert_eq!(value(&r, AttrKey::Gpu), Some(s("RTX 3080")));
    assert_eq!(value(&r, AttrKey::Motherboard), Some(s("PRIME B550")));
    assert_eq!(value(&r, AttrKey::Ram), Some(s("14")));
    assert_eq!(value(&r, AttrKey::Bios), Some(s("1.2")));
    let done = assemble(&Ok(inv), &stats(), Ok(s("id")));
    assert!(done.is_ok());
}

#[test]
fn failed_category_query_is_isolated() {
    let mut inv = inventory();
    inv.video_controllers = Err(QueryError { message: s("denied") });
    inv.physical_memory = Err(QueryError { message: s("denied") });
    let r = collect(&inv, &stats());
    assert_eq!(value(&r, AttrKey::Gpu), None);
    assert_eq!(value(&r, AttrKey::Vram), None);
    assert_eq!(value(&r, AttrKey::Ram), None);
    assert_eq!(value(&r, AttrKey::Disk), Some(s("Samsung 980")));
}

#[test]
fn memory_rows_are_totaled() {
    let rows = vec![
        PhysicalMemory { capacity: 2 },
        PhysicalMemory { capacity: 4 },
        PhysicalMemory { capacity: 8 },
    ];
    assert_eq!(total_capacity(&rows), 14);
    let r = collect(&inventory(), &stats());
    assert_eq!(value(&r, AttrKey::Ram), Some(s("14")));
}

#[test]
fn no_memory_rows_total_zero() {
    let mut inv = inventory();
    inv.physical_memory = Ok(vec![]);
    let r = collect(&inv, &stats());
    assert_eq!(value(&r, AttrKey::Ram), Some(s("0")));
}

#[test]
fn memory_total_exceeds_u64() {
    let rows = vec![PhysicalMemory { capacity: u64::MAX }, PhysicalMemory { capacity: 1 }];
    assert_eq!(total_capacity(&rows), u64::MAX as u128 + 1);
    assert_eq!(decimal(total_capacity(&rows)), "18446744073709551616");
}

#[test]
fn only_first_disk_is_recorded() {
    let r = collect(&inventory(), &stats());
    assert_eq!(value(&r, AttrKey::Disk), Some(s("Samsung 980")));
    assert_eq!(value(&r, AttrKey::DiskSerial), Some(s("D1")));
}

#[test]
fn missing_os_fields_become_unknown() {
    let st = SystemStats { cpus: vec![], name: None, kernel_version: None, os_version: None, host_name: None };
    let r = collect(&inventory(), &st);
    assert_eq!(value(&r, AttrKey::Os), Some(s("unknown")));
    assert_eq!(value(&r, AttrKey::OsVersion), Some(s("unknown")));
    assert_eq!(value(&r, AttrKey::OsBuild), Some(s("unknown")));
    assert_eq!(value(&r, AttrKey::Hostname), Some(s("unknown")));
    assert_eq!(value(&r, AttrKey::Cpu), None);
    assert_eq!(value(&r, AttrKey::Frequency), None);
}

#[test]
fn service_failure_yields_no_record() {
    let err = ServiceError { code: Some(RPC_E_TOO_LATE) };
    let service: Result<Inventory, ServiceError> = Err(err);
    let r = assemble(&service, &stats(), Ok(s("id")));
    assert!(matches!(r, Err(HwidError::ServiceUnavailable(e)) if e == err));
    let q = query_hwid(&service, &stats(), "key");
    assert_eq!(q, Err(HwidError::ServiceUnavailable(err)));
}

#[test]
fn identity_failure_is_reported() {
    let r = assemble(&Ok(inventory()), &stats(), Err(IdentityError { message: s("no machine id") }));
    assert!(matches!(r, Err(HwidError::Identity(e)) if e.message == "no machine id"));
}

#[test]
fn assembled_record_holds_id() {
    let r = assemble(&Ok(inventory()), &stats(), Ok(s("deadbeef"))).unwrap();
    assert_eq!(value(&r, AttrKey::Id), Some(s("deadbeef")));
    assert_eq!(value(&r, AttrKey::Ram), Some(s("14")));
}

#[test]
fn hints_name_known_codes() {
    assert_eq!(ServiceError { code: Some(RPC_E_CHANGED_MODE) }.hint(), CHANGED_MODE_HINT);
    assert_eq!(ServiceError { code: Some(RPC_E_TOO_LATE) }.hint(), TOO_LATE_HINT);
    assert_eq!(ServiceError { code: Some(-2147417842) }.hint(), WRONG_THREAD_HINT);
    assert_eq!(ServiceError { code: Some(-1) }.hint(), GENERIC_HINT);
    assert_eq!(ServiceError { code: None }.hint(), GENERIC_HINT);
}

#[test]
fn identifier_is_deterministic() {
    assert_eq!(build_id("secret"), build_id("secret"));
}

#[test]
fn identifier_depends_on_key() {
    if let (Ok(a), Ok(b)) = (build_id("secret-a"), build_id("secret-b")) {
        assert_ne!(a, b);
    }
}

#[test]
fn identifier_is_hex_digest() {
    if let Ok(id) = build_id("secret") {
        assert_eq!(id.len(), 64);
        assert!(id.chars().all(|c| c.is_ascii_digit() || ('a'..='f').contains(&c)));
        assert_ne!(id, "secret");
    }
}

#[test]
fn query_renders_record_with_id() {
    let out = query_hwid(&Ok(inventory()), &stats(), "secret");
    match (out, build_id("secret")) {
        (Ok(text), Ok(id)) => {
            assert!(text.starts_with("GPU: RTX 3080\nVRAM: 4293918720\n"));
            assert!(text.contains("RAM: 14\n"));
            assert!(text.ends_with(&format!("ID: {}\n", id)));
        }
        (Err(e), Err(ie)) => assert_eq!(e, HwidError::Identity(ie)),
        _ => panic!("identifier outcome differs between calls"),
    }
}
