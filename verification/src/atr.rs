//! Address translation of the T7xx modem's PCIe window: the configuration
//! of one translation table, the check that it is aligned, and the
//! registers that switch the tables off.

use vstd::prelude::*;
use crate::error::{Error, EINVAL};

verus! {

/// Translation source: PCIe window 0.
pub const ATR_SRC_PCI_WIN0: u32 = 0;

/// Translation source: PCIe window 1.
pub const ATR_SRC_PCI_WIN1: u32 = 1;

/// Translation source: AXI slave 0.
pub const ATR_SRC_AXIS_0: u32 = 2;

/// Translation source: AXI slave 1.
pub const ATR_SRC_AXIS_1: u32 = 3;

/// Translation source: AXI slave 2.
pub const ATR_SRC_AXIS_2: u32 = 4;

/// Translation source: AXI slave 3.
pub const ATR_SRC_AXIS_3: u32 = 5;

/// Translation destination: PCIe transmit and receive.
pub const ATR_DST_PCI_TRX: u32 = 0;

/// Translation destination: PCIe configuration space.
pub const ATR_DST_PCI_CONFIG: u32 = 1;

/// Translation destination: AXI master 0.
pub const ATR_DST_AXIM_0: u32 = 4;

/// Translation destination: AXI master 1.
pub const ATR_DST_AXIM_1: u32 = 5;

/// Translation destination: AXI master 2.
pub const ATR_DST_AXIM_2: u32 = 6;

/// Translation destination: AXI master 3.
pub const ATR_DST_AXIM_3: u32 = 7;

/// Address on the chip to which the register window is translated.
pub const T7XX_PCIE_REG_TRSL_ADDR_CHIP: u64 = 0x10000000;

/// Size of the register window on the chip.
pub const T7XX_PCIE_REG_SIZE_CHIP: u64 = 0x400000;

/// Port of the register window.
pub const T7XX_PCIE_REG_PORT: u32 = 0;

/// Table of the register window.
pub const T7XX_PCIE_REG_TABLE_NUM: u32 = 0;

/// Destination of the register window.
pub const T7XX_PCIE_REG_TRSL_PORT: u32 = 4;

/// First port of the device's DMA windows.
pub const T7XX_PCIE_DEV_DMA_PORT_START: u32 = 2;

/// Last port of the device's DMA windows.
pub const T7XX_PCIE_DEV_DMA_PORT_END: u32 = 4;

/// Table of the device's DMA windows.
pub const T7XX_PCIE_DEV_DMA_TABLE_NUM: u32 = 0;

/// Translated address of the device's DMA windows.
pub const T7XX_PCIE_DEV_DMA_TRSL_ADDR: u64 = 0;

/// Source address of the device's DMA windows.
pub const T7XX_PCIE_DEV_DMA_SRC_ADDR: u64 = 0;

/// Size of the device's DMA windows.
pub const T7XX_PCIE_DEV_DMA_SIZE: u64 = 0;

/// Number of translation tables of one port.
pub const ATR_TABLE_NUM_PER_ATR: u32 = 8;

/// Size field of a transparent table.
pub const ATR_TRANSPARENT_SIZE: u32 = 0x3f;

/// Distance between the registers of two ports.
pub const ATR_PORT_OFFSET: u64 = 0x100;

/// Distance between the registers of two tables of one port.
pub const ATR_TABLE_OFFSET: u64 = 0x20;

/// Source address register of table 0 of PCIe window 0.
pub const ATR_PCIE_WIN0_T0_ATR_PARAM_SRC_ADDR: u64 = 0x600;

/// The configuration of one translation table.
#[derive(Clone, Copy, Debug, PartialEq, Eq, Structural)]
pub struct T7xxAtrConfig {
    pub src_addr: u64,
    pub trsl_addr: u64,
    pub size: u64,
    pub port: u32,
    pub table: u32,
    pub trsl_id: u32,
    pub transparent: u32,
}

/// Whether `addr` is a multiple of `size`, for a `size` that is a power of
/// two: no bit of `addr` below `size` is set.
pub open spec fn atr_aligned(addr: u64, size: u64) -> bool {
    addr & ((size - 1) as u64) == 0
}

impl T7xxAtrConfig {
    /// A transparent table passes addresses on as they are.
    pub open spec fn is_transparent(self) -> bool {
        self.transparent == 1
    }

    /// Whether the table can be programmed: it is transparent, or its source
    /// address and its translated address are both aligned to its size.
    pub open spec fn accepted(self) -> bool {
        self.is_transparent() || (atr_aligned(self.src_addr, self.size) && atr_aligned(
            self.trsl_addr,
            self.size,
        ))
    }

    /// The configuration with the given fields.
    pub fn new(
        src_addr: u64,
        trsl_addr: u64,
        size: u64,
        port: u32,
        table: u32,
        trsl_id: u32,
        transparent: u32,
    ) -> (cfg: Self)
        ensures
            cfg == (T7xxAtrConfig { src_addr, trsl_addr, size, port, table, trsl_id, transparent }),
    {
        Self { src_addr, trsl_addr, size, port, table, trsl_id, transparent }
    }

    /// Replaces every field of the configuration.
    pub fn change_cfg(
        &mut self,
        src_addr: u64,
        trsl_addr: u64,
        size: u64,
        port: u32,
        table: u32,
        trsl_id: u32,
        transparent: u32,
    )
        ensures
            *final(self) == (T7xxAtrConfig {
                src_addr,
                trsl_addr,
                size,
                port,
                table,
                trsl_id,
                transparent,
            }),
    {
        self.src_addr = src_addr;
        self.trsl_addr = trsl_addr;
        self.size = size;
        self.port = port;
        self.table = table;
        self.trsl_id = trsl_id;
        self.transparent = transparent;
    }
}

/// Checks the configuration of one translation table. A table that is not
/// transparent must have a size, and is refused as an invalid argument
/// unless its source address and its translated address are aligned to it.
pub fn pci_mac_atr_cfg(atr_cfg: &T7xxAtrConfig) -> (r: Result<u32, Error>)
    requires
        atr_cfg.is_transparent() || atr_cfg.size > 0,
    ensures
        r is Ok <==> atr_cfg.accepted(),
        r matches Ok(n) ==> n == 0,
        r matches Err(e) ==> e@ == -(EINVAL as int),
{
    if 1 != atr_cfg.transparent {
        if atr_cfg.src_addr & (atr_cfg.size - 1) != 0 {
            return Err(Error::from_errno(-EINVAL));
        }
        if atr_cfg.trsl_addr & (atr_cfg.size - 1) != 0 {
            return Err(Error::from_errno(-EINVAL));
        }
    }
    Ok(0)
}

/// The offset of the source address register of table `table` of port
/// `port` in the register window.
pub open spec fn atr_table_register(port: u32, table: int) -> int {
    ATR_PORT_OFFSET * port + ATR_TABLE_OFFSET * table + ATR_PCIE_WIN0_T0_ATR_PARAM_SRC_ADDR
}

/// The registers that are cleared to switch off the translation tables of
/// `port`: the source address register of each of its tables, in the order
/// of the tables.
pub fn pci_mac_atr_table_disable(port: u32) -> (registers: Vec<u64>)
    ensures
        registers@.len() == ATR_TABLE_NUM_PER_ATR,
        forall|i: int|
            0 <= i < ATR_TABLE_NUM_PER_ATR ==> #[trigger] registers@[i] as int
                == atr_table_register(port, i),
{
    let mut registers: Vec<u64> = Vec::new();
    let mut i: u32 = 0;
    while i < ATR_TABLE_NUM_PER_ATR
        invariant
            i <= ATR_TABLE_NUM_PER_ATR,
            registers@.len() == i,
            forall|k: int| 0 <= k < i ==>
                #[trigger] registers@[k] as int == atr_table_register(port, k),
        decreases ATR_TABLE_NUM_PER_ATR - i,
    {
        let port_base: u64 = ATR_PORT_OFFSET * (port as u64);
        let table_base: u64 = ATR_TABLE_OFFSET * (i as u64);
        registers.push(port_base + table_base + ATR_PCIE_WIN0_T0_ATR_PARAM_SRC_ADDR);
        i = i + 1;
    }
    registers
}

/// The table that maps the register window, which starts at `ext_reg_start`
/// on the bus, to the chip.
pub open spec fn register_window_cfg(ext_reg_start: u64) -> T7xxAtrConfig {
    T7xxAtrConfig {
        src_addr: ext_reg_start,
        trsl_addr: T7XX_PCIE_REG_TRSL_ADDR_CHIP,
        size: T7XX_PCIE_REG_SIZE_CHIP,
        port: T7XX_PCIE_REG_PORT,
        table: T7XX_PCIE_REG_TABLE_NUM,
        trsl_id: T7XX_PCIE_REG_TRSL_PORT,
        transparent: 0,
    }
}

/// The transparent table of the DMA window of `port`.
pub open spec fn dma_window_cfg(port: u32) -> T7xxAtrConfig {
    T7xxAtrConfig {
        src_addr: T7XX_PCIE_DEV_DMA_SRC_ADDR,
        trsl_addr: T7XX_PCIE_DEV_DMA_TRSL_ADDR,
        size: T7XX_PCIE_DEV_DMA_SIZE,
        port,
        table: T7XX_PCIE_DEV_DMA_TABLE_NUM,
        trsl_id: ATR_DST_PCI_TRX,
        transparent: 1,
    }
}

/// Checks the translation tables of the device once the tables of every
/// source have been switched off: the table of the register window, which
/// starts at `ext_reg_start` on the bus, and the transparent tables of the
/// DMA ports. The DMA tables are always accepted, so the outcome is that of
/// the register window.
pub fn pci_mac_atr_init(ext_reg_start: u64) -> (r: Result<u32, Error>)
    ensures
        r is Ok <==> register_window_cfg(ext_reg_start).accepted(),
        r is Ok <==> atr_aligned(ext_reg_start, T7XX_PCIE_REG_SIZE_CHIP),
        r matches Ok(n) ==> n == 0,
        r matches Err(e) ==> e@ == -(EINVAL as int),
{
    assert(atr_aligned(T7XX_PCIE_REG_TRSL_ADDR_CHIP, T7XX_PCIE_REG_SIZE_CHIP)) by {
        assert(0x10000000u64 & 0x3fffffu64 == 0) by (bit_vector);
    }
    let mut atr_cfg = T7xxAtrConfig::new(
        ext_reg_start,
        T7XX_PCIE_REG_TRSL_ADDR_CHIP,
        T7XX_PCIE_REG_SIZE_CHIP,
        T7XX_PCIE_REG_PORT,
        T7XX_PCIE_REG_TABLE_NUM,
        T7XX_PCIE_REG_TRSL_PORT,
        0,
    );
    match pci_mac_atr_cfg(&atr_cfg) {
        Ok(_) => {},
        Err(e) => {
            return Err(e);
        },
    }
    let mut port: u32 = T7XX_PCIE_DEV_DMA_PORT_START;
    while port <= T7XX_PCIE_DEV_DMA_PORT_END
        invariant
            T7XX_PCIE_DEV_DMA_PORT_START <= port <= T7XX_PCIE_DEV_DMA_PORT_END + 1,
            atr_aligned(ext_reg_start, T7XX_PCIE_REG_SIZE_CHIP),
        decreases T7XX_PCIE_DEV_DMA_PORT_END + 1 - port,
    {
        atr_cfg.change_cfg(
            T7XX_PCIE_DEV_DMA_SRC_ADDR,
            T7XX_PCIE_DEV_DMA_TRSL_ADDR,
            T7XX_PCIE_DEV_DMA_SIZE,
            port,
            T7XX_PCIE_DEV_DMA_TABLE_NUM,
            ATR_DST_PCI_TRX,
            1,
        );
        assert(atr_cfg == dma_window_cfg(port));
        match pci_mac_atr_cfg(&atr_cfg) {
            Ok(_) => {},
            Err(e) => {
                return Err(e);
            },
        }
        port = port + 1;
    }
    Ok(0)
}

} // verus!
