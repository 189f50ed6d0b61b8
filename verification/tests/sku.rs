use nico::sku::{
    diff_skus, CpuInfo, Sku, SkuComponentChassis, SkuComponentCpu, SkuComponentGpu, SkuComponentInfinibandDevices,
    SkuComponentMemory, SkuComponentStorage, SkuComponentTpm, SkuComponents,
};

fn base_components() -> SkuComponents {
    SkuComponents {
        chassis: SkuComponentChassis {
            vendor: "Dell".to_string(),
            model: "R760".to_string(),
            architecture: "x86_64".to_string(),
        },
        cpus: vec![SkuComponentCpu { vendor: "Intel".to_string(), model: "Xeon".to_string(), thread_count: 64, count: 2 }],
        gpus: vec![SkuComponentGpu {
            vendor: "NVIDIA".to_string(),
            model: "H100".to_string(),
            total_memory: "80GB".to_string(),
            count: 8,
        }],
        memory: vec![SkuComponentMemory { memory_type: "DDR5".to_string(), capacity_mb: 32768, count: 16 }],
        infiniband_devices: vec![SkuComponentInfinibandDevices {
            vendor: "Mellanox".to_string(),
            model: "MT2910 Family [ConnectX-7]".to_string(),
            count: 4,
            inactive_devices: vec![],
        }],
        storage: vec![SkuComponentStorage { model: "NVMe-1".to_string(), count: 2 }],
        tpm: Some(SkuComponentTpm { vendor: "IFX".to_string(), version: "2.0".to_string() }),
    }
}

fn sku(components: SkuComponents) -> Sku {
    Sku {
        schema_version: 1,
        id: "sku-1".to_string(),
        description: "test".to_string(),
        created: 0,
        components,
        device_type: None,
    }
}

#[test]
fn identical_skus_have_no_differences() {
    let a = sku(base_components());
    let e = sku(base_components());
    assert!(diff_skus(&a, &e).is_empty());
}

#[test]
fn chassis_and_cpu_differences() {
    let mut c = base_components();
    c.chassis.model = "R750".to_string();
    c.cpus[0].count = 1;
    c.cpus[0].thread_count = 32;
    let diffs = diff_skus(&sku(c), &sku(base_components()));
    assert_eq!(
        diffs,
        vec![
            "Actual chassis model \"R750\" does not match expected \"R760\"".to_string(),
            "Number of CPUs (1) does not match expected (2)".to_string(),
            "Number of CPU threads (32) does not match expected (64)".to_string(),
        ]
    );
}

#[test]
fn gpu_differences() {
    let mut c = base_components();
    c.gpus[0].count = 4;
    c.gpus.push(SkuComponentGpu {
        vendor: "NVIDIA".to_string(),
        model: "A100".to_string(),
        total_memory: "40GB".to_string(),
        count: 1,
    });
    let mut e = base_components();
    e.gpus.push(SkuComponentGpu {
        vendor: "NVIDIA".to_string(),
        model: "L40".to_string(),
        total_memory: "48GB".to_string(),
        count: 2,
    });
    let diffs = diff_skus(&sku(c), &sku(e));
    assert_eq!(
        diffs,
        vec![
            "Expected gpu count (8) does not match actual (4) for gpu model (H100)".to_string(),
            "Unexpected GPU config (1xNVIDIA/A100) found".to_string(),
            "Missing GPU config: 2xNVIDIA/L40".to_string(),
        ]
    );
}

#[test]
fn gpu_memory_is_not_compared() {
    let mut c = base_components();
    c.gpus[0].total_memory = "79GB".to_string();
    assert!(diff_skus(&sku(c), &sku(base_components())).is_empty());
}

#[test]
fn infiniband_differences() {
    let mut c = base_components();
    c.infiniband_devices[0].inactive_devices = vec![1, 3];
    c.infiniband_devices.push(SkuComponentInfinibandDevices {
        vendor: "Mellanox".to_string(),
        model: "CX6".to_string(),
        count: 2,
        inactive_devices: vec![],
    });
    let mut e = base_components();
    e.infiniband_devices.push(SkuComponentInfinibandDevices {
        vendor: "Broadcom".to_string(),
        model: "X".to_string(),
        count: 1,
        inactive_devices: vec![],
    });
    let diffs = diff_skus(&sku(c), &sku(e));
    assert_eq!(
        diffs,
        vec![
            "Configuration mismatch for InfiniBand devices of Vendor: \"Mellanox\" and Model: \"MT2910 Family [ConnectX-7]\". Expected \"count: 4, inactive_devices: []\". Actual \"count: 4, inactive_devices: [1, 3]\". ".to_string(),
            "Unexpected 2 InfiniBand devices of Vendor: \"Mellanox\" and Model: \"CX6\"".to_string(),
            "Missing 1 InfiniBand devices of Vendor: \"Broadcom\" and Model: \"X\"".to_string(),
        ]
    );
}

#[test]
fn memory_difference_reports_actual_first() {
    let mut c = base_components();
    c.memory[0].count = 8;
    let diffs = diff_skus(&sku(c), &sku(base_components()));
    assert_eq!(diffs, vec!["Actual memory (262144) differs from expected (524288)".to_string()]);
}

#[test]
fn storage_differences() {
    let mut c = base_components();
    c.storage[0].count = 3;
    c.storage.push(SkuComponentStorage { model: "SATA-1".to_string(), count: 1 });
    let mut e = base_components();
    e.storage.push(SkuComponentStorage { model: "NVMe-2".to_string(), count: 1 });
    let diffs = diff_skus(&sku(c), &sku(e));
    assert_eq!(
        diffs,
        vec![
            "Expected device count (2) does not match actual (3) for storage model (NVMe-1)".to_string(),
            "Missing storage config: model: NVMe-2 count 1".to_string(),
            "Found unexpected storage config: model: SATA-1 count 1".to_string(),
        ]
    );
}

#[test]
fn tpm_differences() {
    let mut c = base_components();
    c.tpm = None;
    assert_eq!(
        diff_skus(&sku(c), &sku(base_components())),
        vec!["Missing a TPM module: version: 2.0".to_string()]
    );
    let mut e = base_components();
    e.tpm = None;
    assert_eq!(
        diff_skus(&sku(base_components()), &sku(e)),
        vec!["Found unexpected TPM config: version: 2.0".to_string()]
    );
    let mut c = base_components();
    c.tpm = Some(SkuComponentTpm { vendor: "other".to_string(), version: "1.2".to_string() });
    assert_eq!(
        diff_skus(&sku(c), &sku(base_components())),
        vec!["Expected TPM version (2.0) does not match actual (1.2)".to_string()]
    );
}

#[test]
fn tpm_vendor_is_not_compared() {
    let mut c = base_components();
    c.tpm = Some(SkuComponentTpm { vendor: "other".to_string(), version: "2.0".to_string() });
    assert!(diff_skus(&sku(c), &sku(base_components())).is_empty());
}

#[test]
fn comparison_is_not_symmetric() {
    let mut c = base_components();
    c.gpus.clear();
    let forward = diff_skus(&sku(c.clone()), &sku(base_components()));
    let backward = diff_skus(&sku(base_components()), &sku(c));
    assert_eq!(forward, vec!["Missing GPU config: 8xNVIDIA/H100".to_string()]);
    assert_eq!(backward, vec!["Unexpected GPU config (8xNVIDIA/H100) found".to_string()]);
}

#[test]
fn component_texts() {
    let g = SkuComponentGpu { vendor: "NVIDIA".to_string(), model: "H100".to_string(), total_memory: "80GB".to_string(), count: 8 };
    assert_eq!(g.to_string(), "8xNVIDIA/H100");
    let s = SkuComponentStorage { model: "NVMe-1".to_string(), count: 2 };
    assert_eq!(s.to_string(), "model: NVMe-1 count 2");
    let t = SkuComponentTpm { vendor: "IFX".to_string(), version: "2.0".to_string() };
    assert_eq!(t.to_string(), "vendor: IFX version: 2.0");
}

#[test]
fn cpu_component_from_inventory() {
    let info = CpuInfo { vendor: "AMD".to_string(), model: "EPYC".to_string(), sockets: 2, threads: 128 };
    let c = SkuComponentCpu::from(&info);
    assert_eq!(c.vendor, "AMD");
    assert_eq!(c.model, "EPYC");
    assert_eq!(c.count, 2);
    assert_eq!(c.thread_count, 128);
}

#[test]
fn vendors_and_memory_types_are_not_compared() {
    let expected = sku(base_components());
    let mut c = base_components();
    c.memory[0].count = 8;
    let before = diff_skus(&sku(c.clone()), &expected);
    c.chassis.vendor = "Other".to_string();
    c.cpus[0].vendor = "AMD".to_string();
    c.cpus[0].model = "EPYC".to_string();
    c.gpus[0].vendor = "Acme".to_string();
    c.gpus[0].total_memory = "40GB".to_string();
    c.memory[0].memory_type = "DDR4".to_string();
    c.tpm = Some(SkuComponentTpm { vendor: "NTC".to_string(), version: "2.0".to_string() });
    let mut other = sku(c);
    other.id = "sku-2".to_string();
    other.description = "changed".to_string();
    let after = diff_skus(&other, &expected);
    assert_eq!(before.len(), after.len());
    assert_eq!(after, vec!["Actual memory (262144) differs from expected (524288)".to_string()]);
}
