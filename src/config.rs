//! The register-map configuration as a driver writes it.

use vstd::prelude::*;

verus! {

/// Byte order used to format register addresses or values.
#[derive(Clone, Copy, Debug, PartialEq, Eq, Structural)]
pub enum RegmapEndian {
    /// Use the bus's own default.
    RegmapEndianDefault,
    RegmapEndianBig,
    RegmapEndianLittle,
    /// The byte order of the running processor.
    RegmapEndianNative,
}

impl RegmapEndian {
    /// The selector value that the engine expects for this byte order.
    pub open spec fn spec_code(self) -> u32 {
        match self {
            RegmapEndian::RegmapEndianDefault => 0,
            RegmapEndian::RegmapEndianBig => 1,
            RegmapEndian::RegmapEndianLittle => 2,
            RegmapEndian::RegmapEndianNative => 3,
        }
    }
}

impl From<RegmapEndian> for u32 {
    fn from(value: RegmapEndian) -> (r: u32) {
        match value {
            RegmapEndian::RegmapEndianDefault => 0,
            RegmapEndian::RegmapEndianBig => 1,
            RegmapEndian::RegmapEndianLittle => 2,
            RegmapEndian::RegmapEndianNative => 3,
        }
    }
}

impl vstd::std_specs::convert::FromSpecImpl<RegmapEndian> for u32 {
    open spec fn obeys_from_spec() -> bool {
        true
    }

    open spec fn from_spec(v: RegmapEndian) -> u32 {
        v.spec_code()
    }
}

/// Strategy of the engine's register cache.
#[derive(Clone, Copy, Debug, PartialEq, Eq, Structural)]
pub enum RegcacheType {
    /// No cache.
    NONE,
    /// Red-black tree of register blocks.
    RBTREE,
    /// Compressed blocks.
    COMPRESSED,
    /// One flat array indexed by register.
    FLAT,
}

impl RegcacheType {
    /// The selector value that the engine expects for this cache strategy.
    pub open spec fn spec_code(self) -> u32 {
        match self {
            RegcacheType::NONE => 0,
            RegcacheType::RBTREE => 1,
            RegcacheType::COMPRESSED => 2,
            RegcacheType::FLAT => 3,
        }
    }
}

impl From<RegcacheType> for u32 {
    fn from(value: RegcacheType) -> (r: u32) {
        match value {
            RegcacheType::NONE => 0,
            RegcacheType::RBTREE => 1,
            RegcacheType::COMPRESSED => 2,
            RegcacheType::FLAT => 3,
        }
    }
}

impl vstd::std_specs::convert::FromSpecImpl<RegcacheType> for u32 {
    open spec fn obeys_from_spec() -> bool {
        true
    }

    open spec fn from_spec(v: RegcacheType) -> u32 {
        v.spec_code()
    }
}


/// Power-on value of one register, seeding the register cache.
#[derive(Clone, Copy, Debug, PartialEq, Eq, Structural)]
pub struct RegDefault {
    /// Register address.
    pub reg: u32,
    /// Value of the register after reset.
    pub def: u32,
}

/// An inclusive range of register addresses.
#[derive(Clone, Copy, Debug, PartialEq, Eq, Structural)]
pub struct RegmapRange {
    pub range_min: u32,
    pub range_max: u32,
}

/// Allow and deny lists of register ranges for one capability (writable,
/// readable, volatile, precious, or one of the no-increment variants).
///
/// Both lists are borrowed and handed to the engine as they are; which of the
/// two wins where they overlap is the engine's rule.
#[derive(Clone, Copy)]
pub struct RegmapAccessTable<'a> {
    pub yes_ranges: &'a [RegmapRange],
    pub no_ranges: &'a [RegmapRange],
}

/// A window of indirectly accessed (paged) registers.
///
/// A register of the virtual range `[range_min, range_max]` is reached by first
/// writing the page number into the selector field of `selector_reg`, then
/// accessing the data window that starts at `window_start`.
#[derive(Clone, Copy)]
pub struct RegmapRangeConfig {
    /// Descriptive name for diagnostics.
    pub name: &'static str,
    /// Lowest register address of the virtual range.
    pub range_min: u32,
    /// Highest register address of the virtual range.
    pub range_max: u32,
    /// Register that holds the selector field.
    pub selector_reg: u32,
    /// Bit mask of the selector field.
    pub selector_mask: u32,
    /// Bit shift of the selector field.
    pub selector_shift: i32,
    /// Address of the first register of the data window.
    pub window_start: u32,
    /// Number of registers in the data window.
    pub window_len: u32,
}

impl RegmapRangeConfig {
    /// A well-formed window: a non-empty virtual range and a non-empty data
    /// window. The engine relies on it; nothing here checks it.
    pub open spec fn wf(&self) -> bool {
        self.range_min <= self.range_max && self.window_len > 0
    }
}


/// Configuration of the register map of a device.
///
/// `reg_bits` and `val_bits` are mandatory; every other setting is optional,
/// and one left as `None` (or at its default) reaches the engine as zero,
/// `false` or a null table. A `reg_stride` of zero is read by the engine as
/// a stride of one.
///
/// Custom access callbacks, custom lock hooks and hardware spinlocks cannot be
/// expressed here: they always reach the engine unset.
pub struct RegmapConfig<'a> {
    /// Name of the map, for devices with several register regions.
    pub name: Option<&'static str>,
    /// Number of bits in a register address.
    pub reg_bits: i32,
    /// Valid register addresses are multiples of this stride.
    pub reg_stride: Option<i32>,
    /// Bits to shift the register address right before any operation.
    pub reg_downshift: Option<i32>,
    /// Offset added to every register address before any operation.
    pub reg_base: Option<u32>,
    /// Bits of padding between register address and value.
    pub pad_bits: Option<i32>,
    /// Number of bits in a register value.
    pub val_bits: i32,
    /// Requests that the engine take no lock around register access. Not
    /// handed to the engine yet: the engine always locks.
    pub disable_locking: bool,
    /// Largest raw read the device supports, in bytes.
    pub max_raw_read: Option<usize>,
    /// Largest raw write the device supports, in bytes.
    pub max_raw_write: Option<usize>,
    /// Register access is fast: lock with a spinlock instead of a mutex.
    pub fast_io: Option<bool>,
    /// Use I/O port accessors where these differ from memory-mapped ones.
    pub io_port: Option<bool>,
    /// Highest valid register address.
    pub max_register: Option<u32>,
    /// Registers that can be written.
    pub wr_table: Option<RegmapAccessTable<'a>>,
    /// Registers that can be read.
    pub rd_table: Option<RegmapAccessTable<'a>>,
    /// Registers whose value cannot be cached.
    pub volatile_table: Option<RegmapAccessTable<'a>>,
    /// Registers that must not be read outside a driver's own request.
    pub precious_table: Option<RegmapAccessTable<'a>>,
    /// Registers that take several writes without address increment.
    pub wr_noinc_table: Option<RegmapAccessTable<'a>>,
    /// Registers that take several reads without address increment.
    pub rd_noinc_table: Option<RegmapAccessTable<'a>>,
    /// Power-on values of registers, for the register cache.
    pub reg_defaults: Option<&'a [RegDefault]>,
    /// Strategy of the register cache.
    pub cache_type: RegcacheType,
    /// Mask set in the top bytes of the register address on a read.
    pub read_flag_mask: Option<u64>,
    /// Mask set in the top bytes of the register address on a write.
    pub write_flag_mask: Option<u64>,
    /// Use the two flag masks even when both are zero.
    pub zero_flag_mask: Option<bool>,
    /// Split bulk reads into single reads.
    pub use_single_read: Option<bool>,
    /// Split bulk writes into single writes.
    pub use_single_write: Option<bool>,
    /// Memory-mapped access without memory barriers.
    pub use_relaxed_mmio: Option<bool>,
    /// The device supports multi-write bulk operations.
    pub can_multi_write: Option<bool>,
    /// Byte order of formatted register addresses.
    pub reg_format_endian: RegmapEndian,
    /// Byte order of formatted register values.
    pub val_format_endian: RegmapEndian,
    /// Windows of paged registers.
    pub ranges: Option<&'a [RegmapRangeConfig]>,
    /// Register operations may sleep.
    pub can_sleep: Option<bool>,
}

impl<'a> RegmapConfig<'a> {
    /// Every optional setting is left unset.
    pub open spec fn has_defaults(&self) -> bool {
        &&& self.name is None
        &&& self.reg_stride is None
        &&& self.reg_downshift is None
        &&& self.reg_base is None
        &&& self.pad_bits is None
        &&& !self.disable_locking
        &&& self.max_raw_read is None
        &&& self.max_raw_write is None
        &&& self.fast_io is None
        &&& self.io_port is None
        &&& self.max_register is None
        &&& self.wr_table is None
        &&& self.rd_table is None
        &&& self.volatile_table is None
        &&& self.precious_table is None
        &&& self.wr_noinc_table is None
        &&& self.rd_noinc_table is None
        &&& self.reg_defaults is None
        &&& self.cache_type == RegcacheType::NONE
        &&& self.read_flag_mask is None
        &&& self.write_flag_mask is None
        &&& self.zero_flag_mask is None
        &&& self.use_single_read is None
        &&& self.use_single_write is None
        &&& self.use_relaxed_mmio is None
        &&& self.can_multi_write is None
        &&& self.reg_format_endian == RegmapEndian::RegmapEndianDefault
        &&& self.val_format_endian == RegmapEndian::RegmapEndianDefault
        &&& self.ranges is None
        &&& self.can_sleep is None
    }

    /// A configuration with the given address and value widths and every
    /// optional setting unset.
    pub fn new(reg_bits: i32, val_bits: i32) -> (r: Self)
        ensures
            r.reg_bits == reg_bits,
            r.val_bits == val_bits,
            r.has_defaults(),
    {
        RegmapConfig {
            name: None,
            reg_bits,
            reg_stride: None,
            reg_downshift: None,
            reg_base: None,
            pad_bits: None,
            val_bits,
            disable_locking: false,
            max_raw_read: None,
            max_raw_write: None,
            fast_io: None,
            io_port: None,
            max_register: None,
            wr_table: None,
            rd_table: None,
            volatile_table: None,
            precious_table: None,
            wr_noinc_table: None,
            rd_noinc_table: None,
            reg_defaults: None,
            cache_type: RegcacheType::NONE,
            read_flag_mask: None,
            write_flag_mask: None,
            zero_flag_mask: None,
            use_single_read: None,
            use_single_write: None,
            use_relaxed_mmio: None,
            can_multi_write: None,
            reg_format_endian: RegmapEndian::RegmapEndianDefault,
            val_format_endian: RegmapEndian::RegmapEndianDefault,
            ranges: None,
            can_sleep: None,
        }
    }
}

} // verus!
