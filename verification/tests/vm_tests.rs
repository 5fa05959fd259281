use astraquant::events::{AstraEvent, EventType};
use astraquant::hashing::{hash_bytes, DeterministicState};
use astraquant::package::StrategyPackage;
use astraquant::sandbox::WasmSandbox;
use astraquant::vm::DeterministicVm;

fn package() -> StrategyPackage {
    StrategyPackage::new("AlphaStrategy".to_string(), vec![0x00, 0x61, 0x73, 0x6D])
}

#[test]
fn package_checksum_is_hash_of_module() {
    let p = package();
    assert_eq!(p.checksum, hash_bytes(&[0x00, 0x61, 0x73, 0x6D]));
    assert!(p.verify());
}

#[test]
fn load_verified_package() {
    let vm = DeterministicVm::load(package(), 1_000_000).unwrap();
    assert_eq!(vm.sandbox.gas_meter.gas_limit, 1_000_000);
    assert_eq!(vm.sandbox.gas_meter.used_gas, 0);
    assert_eq!(vm.package, package());
}

#[test]
fn load_rejects_corrupted_package() {
    let mut p = package();
    p.wasm_bytes.push(0xFF);
    assert!(!p.verify());
    let err = DeterministicVm::load(p, 10).unwrap_err();
    assert_eq!(err, "Corrupted package checksum");
}

#[test]
fn run_event_charges_gas() {
    let mut vm = DeterministicVm::load(package(), 10).unwrap();
    let e = AstraEvent::new_raw(1, 1, EventType::MarketTick, vec![1, 2, 3]);
    vm.run_event(&e).unwrap();
    assert_eq!(vm.sandbox.gas_meter.used_gas, 4);
    assert_eq!(vm.sandbox.events_executed, 1);
    vm.run_event(&e).unwrap();
    assert_eq!(vm.sandbox.gas_meter.used_gas, 8);
    let before = vm.clone();
    assert_eq!(vm.run_event(&e).unwrap_err(), "Gas limit exceeded");
    assert_eq!(vm, before);
    let small = AstraEvent::new_raw(2, 2, EventType::MarketTick, vec![9]);
    vm.run_event(&small).unwrap();
    assert_eq!(vm.sandbox.gas_meter.used_gas, 10);
}

#[test]
fn vm_state_hash_tracks_sandbox() {
    let mut a = DeterministicVm::load(package(), 100).unwrap();
    let b = DeterministicVm::load(package(), 100).unwrap();
    assert_eq!(a.state_hash(), b.state_hash());
    let mut bytes = a.package.state_hash().to_vec();
    bytes.extend_from_slice(&a.sandbox.state_hash());
    assert_eq!(a.state_hash(), hash_bytes(&bytes));
    a.run_event(&AstraEvent::new_raw(1, 1, EventType::MarketTick, vec![])).unwrap();
    assert_ne!(a.state_hash(), b.state_hash());
}

#[test]
fn sandbox_state_hash_layout() {
    let s = WasmSandbox::new(5);
    let mut bytes = Vec::new();
    bytes.extend_from_slice(&5u64.to_le_bytes());
    bytes.extend_from_slice(&0u64.to_le_bytes());
    bytes.extend_from_slice(&0u64.to_le_bytes());
    assert_eq!(s.state_hash(), hash_bytes(&bytes));
}

#[test]
fn package_state_hash_layout() {
    let p = package();
    let mut bytes = Vec::new();
    bytes.extend_from_slice(&13u64.to_le_bytes());
    bytes.extend_from_slice(b"AlphaStrategy");
    bytes.extend_from_slice(&4u64.to_le_bytes());
    bytes.extend_from_slice(&[0x00, 0x61, 0x73, 0x6D]);
    bytes.extend_from_slice(&p.checksum);
    assert_eq!(p.state_hash(), hash_bytes(&bytes));
}

#[test]
fn equal_vms_fed_equal_events_stay_equal() {
    let mut a = DeterministicVm::load(package(), 9).unwrap();
    let mut b = DeterministicVm::load(package(), 9).unwrap();
    let events = vec![
        AstraEvent::new_raw(1, 1, EventType::MarketTick, vec![1, 2, 3]),
        AstraEvent::new_raw(2, 2, EventType::MarketTick, vec![4, 5, 6, 7]),
        AstraEvent::new_raw(3, 3, EventType::MarketTick, vec![8]),
    ];
    for e in &events {
        assert_eq!(a.run_event(e), b.run_event(e));
    }
    assert_eq!(a.state_hash(), b.state_hash());
    assert_eq!(a.sandbox.gas_meter.used_gas, b.sandbox.gas_meter.used_gas);
    assert_eq!(a.package, b.package);
    assert_eq!(a.sandbox.gas_meter.used_gas, 9);
}
