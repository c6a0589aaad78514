use blk_mq_ops::atr::{
    pci_mac_atr_cfg, pci_mac_atr_init, pci_mac_atr_table_disable, T7xxAtrConfig,
    ATR_DST_PCI_TRX, ATR_SRC_AXIS_3, ATR_SRC_PCI_WIN0, ATR_TABLE_NUM_PER_ATR,
};
use blk_mq_ops::error::EINVAL;

#[test]
fn new_keeps_every_field() {
    let cfg = T7xxAtrConfig::new(0x1000, 0x2000, 0x100, 3, 4, 5, 0);
    assert_eq!(cfg.src_addr, 0x1000);
    assert_eq!(cfg.trsl_addr, 0x2000);
    assert_eq!(cfg.size, 0x100);
    assert_eq!(cfg.port, 3);
    assert_eq!(cfg.table, 4);
    assert_eq!(cfg.trsl_id, 5);
    assert_eq!(cfg.transparent, 0);
}

#[test]
fn change_cfg_replaces_every_field() {
    let mut cfg = T7xxAtrConfig::new(0x1000, 0x2000, 0x100, 3, 4, 5, 0);
    cfg.change_cfg(0, 0, 0, 2, 0, ATR_DST_PCI_TRX, 1);
    assert_eq!(cfg, T7xxAtrConfig::new(0, 0, 0, 2, 0, 0, 1));
    cfg.change_cfg(1, 2, 3, 4, 5, 6, 7);
    assert_eq!(
        cfg,
        T7xxAtrConfig {
            src_addr: 1,
            trsl_addr: 2,
            size: 3,
            port: 4,
            table: 5,
            trsl_id: 6,
            transparent: 7
        }
    );
}

#[test]
fn aligned_table_is_accepted() {
    let cfg = T7xxAtrConfig::new(0x8040_0000, 0x1000_0000, 0x40_0000, 0, 0, 4, 0);
    assert_eq!(pci_mac_atr_cfg(&cfg), Ok(0));
    let byte = T7xxAtrConfig::new(0x1234_5677, 0x1, 1, 0, 0, 4, 0);
    assert_eq!(pci_mac_atr_cfg(&byte), Ok(0));
}

#[test]
fn misaligned_source_is_refused() {
    let cfg = T7xxAtrConfig::new(0x8040_1000, 0x1000_0000, 0x40_0000, 0, 0, 4, 0);
    assert_eq!(pci_mac_atr_cfg(&cfg).map_err(|e| e.to_errno()), Err(-EINVAL));
    let high = T7xxAtrConfig::new(0x20_0000, 0, 0x40_0000, 0, 0, 4, 2);
    assert_eq!(pci_mac_atr_cfg(&high).map_err(|e| e.to_errno()), Err(-22));
}

#[test]
fn misaligned_translation_is_refused() {
    let cfg = T7xxAtrConfig::new(0x8040_0000, 0x1000_0001, 0x40_0000, 0, 0, 4, 0);
    assert_eq!(pci_mac_atr_cfg(&cfg).map_err(|e| e.to_errno()), Err(-EINVAL));
}

#[test]
fn transparent_table_is_always_accepted() {
    let cfg = T7xxAtrConfig::new(0x8040_1001, 0x1000_0001, 0x40_0000, 2, 0, 0, 1);
    assert_eq!(pci_mac_atr_cfg(&cfg), Ok(0));
    let dma = T7xxAtrConfig::new(0, 0, 0, 3, 0, ATR_DST_PCI_TRX, 1);
    assert_eq!(pci_mac_atr_cfg(&dma), Ok(0));
}

#[test]
fn table_registers_of_a_port() {
    assert_eq!(
        pci_mac_atr_table_disable(0),
        vec![0x600, 0x620, 0x640, 0x660, 0x680, 0x6a0, 0x6c0, 0x6e0]
    );
    assert_eq!(
        pci_mac_atr_table_disable(2),
        vec![0x800, 0x820, 0x840, 0x860, 0x880, 0x8a0, 0x8c0, 0x8e0]
    );
    let top = pci_mac_atr_table_disable(u32::MAX);
    assert_eq!(top.len(), ATR_TABLE_NUM_PER_ATR as usize);
    assert_eq!(top[0], 0x100 * (u32::MAX as u64) + 0x600);
    assert_eq!(top[7], 0x100 * (u32::MAX as u64) + 0x6e0);
    for port in ATR_SRC_PCI_WIN0..=ATR_SRC_AXIS_3 {
        let registers = pci_mac_atr_table_disable(port);
        for (table, register) in registers.iter().enumerate() {
            assert_eq!(*register, 0x100 * port as u64 + 0x20 * table as u64 + 0x600);
        }
    }
}

#[test]
fn init_accepts_an_aligned_register_window() {
    assert_eq!(pci_mac_atr_init(0), Ok(0));
    assert_eq!(pci_mac_atr_init(0x40_0000), Ok(0));
    assert_eq!(pci_mac_atr_init(0xfe80_0000), Ok(0));
    assert_eq!(pci_mac_atr_init(0xffff_ffff_ffc0_0000), Ok(0));
}

#[test]
fn init_refuses_a_misaligned_register_window() {
    assert_eq!(pci_mac_atr_init(0x20_0000).map_err(|e| e.to_errno()), Err(-EINVAL));
    assert_eq!(pci_mac_atr_init(1).map_err(|e| e.to_errno()), Err(-EINVAL));
    assert_eq!(pci_mac_atr_init(0x3f_ffff).map_err(|e| e.to_errno()), Err(-EINVAL));
    assert_eq!(pci_mac_atr_init(u64::MAX).map_err(|e| e.to_errno()), Err(-EINVAL));
}
