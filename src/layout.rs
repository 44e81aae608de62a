//! The flat layout that the register-map engine consumes, and the projection
//! of a [`RegmapConfig`] into it.
//!
//! Projection has two steps. [`RegmapConfig::to_binding`] builds the side
//! table: the engine's form of every access table and of the paged windows.
//! [`RegmapConfig::native_config`] then builds the flat configuration, which
//! borrows from both the side table and the configuration, so that neither can
//! be dropped while the engine may still read it.

use vstd::prelude::*;

use crate::config::{RegDefault, RegmapAccessTable, RegmapConfig, RegmapRange, RegmapRangeConfig};
use crate::error::{Error, ENOMEM};

verus! {

/// The engine's form of an access table: each list as its first element and
/// its number of elements.
#[derive(Clone, Copy)]
pub struct NativeAccessTable<'a> {
    pub yes_ranges: &'a [RegmapRange],
    pub n_yes_ranges: u32,
    pub no_ranges: &'a [RegmapRange],
    pub n_no_ranges: u32,
}

/// The engine's form of a paged register window.
#[derive(Clone, Copy)]
pub struct NativeRangeCfg {
    pub name: &'static str,
    pub range_min: u32,
    pub range_max: u32,
    pub selector_reg: u32,
    pub selector_mask: u32,
    pub selector_shift: i32,
    pub window_start: u32,
    pub window_len: u32,
}

impl<'a> RegmapAccessTable<'a> {
    /// Both lists can be counted in the engine's 32-bit counters.
    pub open spec fn fits_native(&self) -> bool {
        self.yes_ranges@.len() <= u32::MAX && self.no_ranges@.len() <= u32::MAX
    }

    /// The engine's form of this table.
    pub open spec fn spec_binding(&self) -> NativeAccessTable<'a> {
        NativeAccessTable {
            yes_ranges: self.yes_ranges,
            n_yes_ranges: self.yes_ranges@.len() as u32,
            no_ranges: self.no_ranges,
            n_no_ranges: self.no_ranges@.len() as u32,
        }
    }

    /// Projects this table into the engine's form.
    pub fn to_binding(&self) -> (r: NativeAccessTable<'a>)
        requires
            self.fits_native(),
        ensures
            r == self.spec_binding(),
    {
        NativeAccessTable {
            yes_ranges: self.yes_ranges,
            n_yes_ranges: self.yes_ranges.len() as u32,
            no_ranges: self.no_ranges,
            n_no_ranges: self.no_ranges.len() as u32,
        }
    }
}

impl RegmapRangeConfig {
    /// The engine's form of this window: every field as it is.
    pub open spec fn spec_binding(&self) -> NativeRangeCfg {
        NativeRangeCfg {
            name: self.name,
            range_min: self.range_min,
            range_max: self.range_max,
            selector_reg: self.selector_reg,
            selector_mask: self.selector_mask,
            selector_shift: self.selector_shift,
            window_start: self.window_start,
            window_len: self.window_len,
        }
    }

    /// Projects this window into the engine's form.
    pub fn to_binding(&self) -> (r: NativeRangeCfg)
        ensures
            r == self.spec_binding(),
    {
        NativeRangeCfg {
            name: self.name,
            range_min: self.range_min,
            range_max: self.range_max,
            selector_reg: self.selector_reg,
            selector_mask: self.selector_mask,
            selector_shift: self.selector_shift,
            window_start: self.window_start,
            window_len: self.window_len,
        }
    }
}


/// The engine's form of an optional access table.
pub open spec fn table_binding<'a>(t: Option<RegmapAccessTable<'a>>) -> Option<NativeAccessTable<'a>> {
    match t {
        Some(t) => Some(t.spec_binding()),
        None => None,
    }
}

/// An optional access table that the engine can count.
pub open spec fn table_fits(t: Option<RegmapAccessTable>) -> bool {
    match t {
        Some(t) => t.fits_native(),
        None => true,
    }
}

/// Side table of a projection: the engine's form of the access tables and of
/// the paged windows of one configuration. The flat configuration points into
/// it, so it must outlive every use of that configuration.
pub struct RegmapConfigBindings<'a> {
    pub wr_table: Option<NativeAccessTable<'a>>,
    pub rd_table: Option<NativeAccessTable<'a>>,
    pub volatile_table: Option<NativeAccessTable<'a>>,
    pub precious_table: Option<NativeAccessTable<'a>>,
    pub wr_noinc_table: Option<NativeAccessTable<'a>>,
    pub rd_noinc_table: Option<NativeAccessTable<'a>>,
    pub ranges: Option<Vec<NativeRangeCfg>>,
}

impl<'a> RegmapConfigBindings<'a> {
    /// This side table is the projection of `c`: each access table in the
    /// engine's form, and the windows in their order, each in the engine's form.
    pub open spec fn projects(&self, c: &RegmapConfig<'a>) -> bool {
        &&& self.wr_table == table_binding(c.wr_table)
        &&& self.rd_table == table_binding(c.rd_table)
        &&& self.volatile_table == table_binding(c.volatile_table)
        &&& self.precious_table == table_binding(c.precious_table)
        &&& self.wr_noinc_table == table_binding(c.wr_noinc_table)
        &&& self.rd_noinc_table == table_binding(c.rd_noinc_table)
        &&& (self.ranges is Some <==> c.ranges is Some)
        &&& (c.ranges matches Some(r) ==> self.ranges->0@ == ranges_binding(r@))
    }
}

/// The engine's form of a sequence of windows, in the same order.
pub open spec fn ranges_binding(r: Seq<RegmapRangeConfig>) -> Seq<NativeRangeCfg> {
    r.map_values(|x: RegmapRangeConfig| x.spec_binding())
}

impl<'a> RegmapConfig<'a> {
    /// Every list that the configuration hands over can be counted in the
    /// engine's 32-bit counters.
    pub open spec fn fits_native(&self) -> bool {
        &&& table_fits(self.wr_table)
        &&& table_fits(self.rd_table)
        &&& table_fits(self.volatile_table)
        &&& table_fits(self.precious_table)
        &&& table_fits(self.wr_noinc_table)
        &&& table_fits(self.rd_noinc_table)
        &&& (self.reg_defaults matches Some(d) ==> d@.len() <= u32::MAX)
        &&& (self.ranges matches Some(r) ==> r@.len() <= u32::MAX)
    }

    /// Builds the side table of a projection.
    ///
    /// Fails only when the configuration has paged windows and the memory for
    /// their engine form cannot be had; the error is then out-of-memory.
    pub fn to_binding(&self) -> (r: Result<RegmapConfigBindings<'a>, Error>)
        requires
            self.fits_native(),
        ensures
            r matches Ok(b) ==> b.projects(self),
            r matches Err(e) ==> e.spec_code() == -ENOMEM && self.ranges is Some,
            self.ranges is None ==> r is Ok,
    {
        let ranges = match self.ranges {
            Some(r) => {
                let mut v: Vec<NativeRangeCfg> = Vec::new();
                if v.try_reserve(r.len()).is_err() {
                    return Err(Error::enomem());
                }
                let mut i: usize = 0;
                while i < r.len()
                    invariant
                        i <= r@.len(),
                        v@ == ranges_binding(r@.subrange(0, i as int)),
                    decreases r@.len() - i,
                {
                    v.push(r[i].to_binding());
                    i += 1;
                    assert(r@.subrange(0, i as int) =~= r@.subrange(0, i - 1).push(r@[i - 1]));
                }
                assert(r@.subrange(0, r@.len() as int) =~= r@);
                Some(v)
            },
            None => None,
        };
        Ok(RegmapConfigBindings {
            wr_table: optional_table_binding(&self.wr_table),
            rd_table: optional_table_binding(&self.rd_table),
            volatile_table: optional_table_binding(&self.volatile_table),
            precious_table: optional_table_binding(&self.precious_table),
            wr_noinc_table: optional_table_binding(&self.wr_noinc_table),
            rd_noinc_table: optional_table_binding(&self.rd_noinc_table),
            ranges,
        })
    }
}

fn optional_table_binding<'a>(t: &Option<RegmapAccessTable<'a>>) -> (r: Option<NativeAccessTable<'a>>)
    requires
        table_fits(*t),
    ensures
        r == table_binding(*t),
{
    match t {
        Some(t) => Some(t.to_binding()),
        None => None,
    }
}


/// The flat configuration that the engine reads when a map is opened.
///
/// A reference field stands for the engine's pointer, `None` for a null
/// pointer; a hook field holds the entry address of an engine callback. Every
/// list goes with its number of elements.
pub struct NativeConfig<'b> {
    pub name: Option<&'static str>,
    pub reg_bits: i32,
    pub reg_stride: i32,
    pub reg_downshift: i32,
    pub reg_base: u32,
    pub pad_bits: i32,
    pub val_bits: i32,
    pub writeable_reg: Option<usize>,
    pub readable_reg: Option<usize>,
    pub volatile_reg: Option<usize>,
    pub precious_reg: Option<usize>,
    pub writeable_noinc_reg: Option<usize>,
    pub readable_noinc_reg: Option<usize>,
    pub disable_locking: bool,
    pub lock: Option<usize>,
    pub unlock: Option<usize>,
    pub lock_arg: usize,
    pub reg_read: Option<usize>,
    pub reg_write: Option<usize>,
    pub reg_update_bits: Option<usize>,
    pub read: Option<usize>,
    pub write: Option<usize>,
    pub max_raw_read: usize,
    pub max_raw_write: usize,
    pub fast_io: bool,
    pub io_port: bool,
    pub max_register: u32,
    pub wr_table: Option<&'b NativeAccessTable<'b>>,
    pub rd_table: Option<&'b NativeAccessTable<'b>>,
    pub volatile_table: Option<&'b NativeAccessTable<'b>>,
    pub precious_table: Option<&'b NativeAccessTable<'b>>,
    pub wr_noinc_table: Option<&'b NativeAccessTable<'b>>,
    pub rd_noinc_table: Option<&'b NativeAccessTable<'b>>,
    pub reg_defaults: Option<&'b [RegDefault]>,
    pub num_reg_defaults: u32,
    pub cache_type: u32,
    pub reg_defaults_raw: Option<&'b [u8]>,
    pub num_reg_defaults_raw: u32,
    pub read_flag_mask: u64,
    pub write_flag_mask: u64,
    pub zero_flag_mask: bool,
    pub use_single_read: bool,
    pub use_single_write: bool,
    pub use_relaxed_mmio: bool,
    pub can_multi_write: bool,
    pub reg_format_endian: u32,
    pub val_format_endian: u32,
    pub ranges: Option<&'b [NativeRangeCfg]>,
    pub num_ranges: u32,
    pub use_hwlock: bool,
    pub use_raw_spinlock: bool,
    pub hwlock_id: u32,
    pub hwlock_mode: u32,
    pub can_sleep: bool,
}

/// An engine pointer to an access table that points at `b`'s table, or is
/// null where `b` holds none.
pub open spec fn table_ref_is<'b>(
    n: Option<&'b NativeAccessTable<'b>>,
    b: Option<NativeAccessTable<'b>>,
) -> bool {
    match n {
        Some(t) => b == Some(*t),
        None => b is None,
    }
}

/// The number of elements of an optional list, zero for none.
pub open spec fn opt_len<T>(s: Option<&[T]>) -> nat {
    match s {
        Some(s) => s@.len(),
        None => 0,
    }
}

impl<'b> NativeConfig<'b> {
    /// Every setting that this library cannot express is off: no callback
    /// hooks, no custom lock, the engine's own locking, no raw cache
    /// defaults, no hardware spinlock.
    pub open spec fn unsupported_unset(&self) -> bool {
        &&& self.writeable_reg is None
        &&& self.readable_reg is None
        &&& self.volatile_reg is None
        &&& self.precious_reg is None
        &&& self.writeable_noinc_reg is None
        &&& self.readable_noinc_reg is None
        &&& !self.disable_locking
        &&& self.lock is None
        &&& self.unlock is None
        &&& self.lock_arg == 0
        &&& self.reg_read is None
        &&& self.reg_write is None
        &&& self.reg_update_bits is None
        &&& self.read is None
        &&& self.write is None
        &&& self.reg_defaults_raw is None
        &&& self.num_reg_defaults_raw == 0
        &&& !self.use_hwlock
        &&& !self.use_raw_spinlock
        &&& self.hwlock_id == 0
        &&& self.hwlock_mode == 0
    }

    /// This is the flat configuration of `c`, with side table `b`: each set
    /// option copied, each unset one zero, `false` or null, each list with its
    /// length, each table pointing into `b`, and all that the library cannot
    /// express unset.
    pub open spec fn projects<'a>(&self, c: &RegmapConfig<'a>, b: &RegmapConfigBindings<'a>) -> bool {
        &&& self.unsupported_unset()
        &&& self.name == c.name
        &&& self.reg_bits == c.reg_bits
        &&& self.reg_stride == c.reg_stride.unwrap_or(0)
        &&& self.reg_downshift == c.reg_downshift.unwrap_or(0)
        &&& self.reg_base == c.reg_base.unwrap_or(0)
        &&& self.pad_bits == c.pad_bits.unwrap_or(0)
        &&& self.val_bits == c.val_bits
        &&& self.max_raw_read == c.max_raw_read.unwrap_or(0)
        &&& self.max_raw_write == c.max_raw_write.unwrap_or(0)
        &&& self.fast_io == c.fast_io.unwrap_or(false)
        &&& self.io_port == c.io_port.unwrap_or(false)
        &&& self.max_register == c.max_register.unwrap_or(0)
        &&& table_ref_is(self.wr_table, b.wr_table)
        &&& table_ref_is(self.rd_table, b.rd_table)
        &&& table_ref_is(self.volatile_table, b.volatile_table)
        &&& table_ref_is(self.precious_table, b.precious_table)
        &&& table_ref_is(self.wr_noinc_table, b.wr_noinc_table)
        &&& table_ref_is(self.rd_noinc_table, b.rd_noinc_table)
        &&& self.reg_defaults == c.reg_defaults
        &&& self.num_reg_defaults == opt_len(c.reg_defaults)
        &&& self.cache_type == c.cache_type.spec_code()
        &&& self.read_flag_mask == c.read_flag_mask.unwrap_or(0)
        &&& self.write_flag_mask == c.write_flag_mask.unwrap_or(0)
        &&& self.zero_flag_mask == c.zero_flag_mask.unwrap_or(false)
        &&& self.use_single_read == c.use_single_read.unwrap_or(false)
        &&& self.use_single_write == c.use_single_write.unwrap_or(false)
        &&& self.use_relaxed_mmio == c.use_relaxed_mmio.unwrap_or(false)
        &&& self.can_multi_write == c.can_multi_write.unwrap_or(false)
        &&& self.reg_format_endian == c.reg_format_endian.spec_code()
        &&& self.val_format_endian == c.val_format_endian.spec_code()
        &&& (self.ranges is Some <==> b.ranges is Some)
        &&& (self.ranges matches Some(r) ==> r@ == b.ranges->0@)
        &&& self.num_ranges == opt_len(c.ranges)
        &&& self.can_sleep == c.can_sleep.unwrap_or(false)
    }
}

impl<'a> RegmapConfig<'a> {
    /// Builds the flat configuration from this configuration and the side
    /// table that [`RegmapConfig::to_binding`] built from it. The result
    /// borrows both.
    pub fn native_config<'b>(&'b self, binds: &'b RegmapConfigBindings<'a>) -> (r: NativeConfig<'b>)
        requires
            self.fits_native(),
            binds.projects(self),
        ensures
            r.projects(self, binds),
    {
        NativeConfig {
            name: self.name,
            reg_bits: self.reg_bits,
            reg_stride: self.reg_stride.unwrap_or(0),
            reg_downshift: self.reg_downshift.unwrap_or(0),
            reg_base: self.reg_base.unwrap_or(0),
            pad_bits: self.pad_bits.unwrap_or(0),
            val_bits: self.val_bits,
            writeable_reg: None,
            readable_reg: None,
            volatile_reg: None,
            precious_reg: None,
            writeable_noinc_reg: None,
            readable_noinc_reg: None,
            disable_locking: false,
            lock: None,
            unlock: None,
            lock_arg: 0,
            reg_read: None,
            reg_write: None,
            reg_update_bits: None,
            read: None,
            write: None,
            max_raw_read: self.max_raw_read.unwrap_or(0),
            max_raw_write: self.max_raw_write.unwrap_or(0),
            fast_io: self.fast_io.unwrap_or(false),
            io_port: self.io_port.unwrap_or(false),
            max_register: self.max_register.unwrap_or(0),
            wr_table: binds.wr_table.as_ref(),
            rd_table: binds.rd_table.as_ref(),
            volatile_table: binds.volatile_table.as_ref(),
            precious_table: binds.precious_table.as_ref(),
            wr_noinc_table: binds.wr_noinc_table.as_ref(),
            rd_noinc_table: binds.rd_noinc_table.as_ref(),
            reg_defaults: self.reg_defaults,
            num_reg_defaults: match self.reg_defaults {
                Some(d) => d.len() as u32,
                None => 0,
            },
            cache_type: u32::from(self.cache_type),
            reg_defaults_raw: None,
            num_reg_defaults_raw: 0,
            read_flag_mask: self.read_flag_mask.unwrap_or(0),
            write_flag_mask: self.write_flag_mask.unwrap_or(0),
            zero_flag_mask: self.zero_flag_mask.unwrap_or(false),
            use_single_read: self.use_single_read.unwrap_or(false),
            use_single_write: self.use_single_write.unwrap_or(false),
            use_relaxed_mmio: self.use_relaxed_mmio.unwrap_or(false),
            can_multi_write: self.can_multi_write.unwrap_or(false),
            reg_format_endian: u32::from(self.reg_format_endian),
            val_format_endian: u32::from(self.val_format_endian),
            ranges: match &binds.ranges {
                Some(v) => Some(v.as_slice()),
                None => None,
            },
            num_ranges: match self.ranges {
                Some(r) => r.len() as u32,
                None => 0,
            },
            use_hwlock: false,
            use_raw_spinlock: false,
            hwlock_id: 0,
            hwlock_mode: 0,
            can_sleep: self.can_sleep.unwrap_or(false),
        }
    }
}


/// An access table reaches the engine with its two lists as they are, each
/// counted by its exact length.
pub proof fn lemma_table_counts<'a>(t: RegmapAccessTable<'a>)
    requires
        t.fits_native(),
    ensures
        t.spec_binding().yes_ranges == t.yes_ranges,
        t.spec_binding().n_yes_ranges as nat == t.yes_ranges@.len(),
        t.spec_binding().no_ranges == t.no_ranges,
        t.spec_binding().n_no_ranges as nat == t.no_ranges@.len(),
{
}

/// A sequence of `N` windows reaches the engine as `N` windows in the same
/// order, each with every field copied.
pub proof fn lemma_ranges_in_order<'a, 'b>(
    c: &RegmapConfig<'a>,
    b: &RegmapConfigBindings<'a>,
    n: &NativeConfig<'b>,
)
    requires
        c.ranges is Some,
        b.projects(c),
        n.projects(c, b),
    ensures
        n.ranges is Some,
        n.ranges->0@.len() == c.ranges->0@.len(),
        n.num_ranges as nat == c.ranges->0@.len(),
        forall|i: int|
            0 <= i < c.ranges->0@.len() ==> {
                let w = #[trigger] c.ranges->0@[i];
                let x = n.ranges->0@[i];
                &&& x.name == w.name
                &&& x.range_min == w.range_min
                &&& x.range_max == w.range_max
                &&& x.selector_reg == w.selector_reg
                &&& x.selector_mask == w.selector_mask
                &&& x.selector_shift == w.selector_shift
                &&& x.window_start == w.window_start
                &&& x.window_len == w.window_len
            },
{
}

/// A configuration with every optional setting unset reaches the engine
/// with every optional field zero, `false` or null (a zero stride the engine
/// reads as one), and with its two widths as given.
pub proof fn lemma_defaults_project_to_zero<'a, 'b>(
    c: &RegmapConfig<'a>,
    b: &RegmapConfigBindings<'a>,
    n: &NativeConfig<'b>,
)
    requires
        c.has_defaults(),
        b.projects(c),
        n.projects(c, b),
    ensures
        n.unsupported_unset(),
        n.reg_bits == c.reg_bits,
        n.val_bits == c.val_bits,
        n.name is None,
        n.reg_stride == 0,
        n.reg_downshift == 0,
        n.reg_base == 0,
        n.pad_bits == 0,
        n.max_raw_read == 0,
        n.max_raw_write == 0,
        !n.fast_io,
        !n.io_port,
        n.max_register == 0,
        n.wr_table is None,
        n.rd_table is None,
        n.volatile_table is None,
        n.precious_table is None,
        n.wr_noinc_table is None,
        n.rd_noinc_table is None,
        n.reg_defaults is None,
        n.num_reg_defaults == 0,
        n.cache_type == 0,
        n.read_flag_mask == 0,
        n.write_flag_mask == 0,
        !n.zero_flag_mask,
        !n.use_single_read,
        !n.use_single_write,
        !n.use_relaxed_mmio,
        !n.can_multi_write,
        n.reg_format_endian == 0,
        n.val_format_endian == 0,
        n.ranges is None,
        n.num_ranges == 0,
        !n.can_sleep,
{
}

/// Projecting one configuration twice gives the same flat configuration,
/// field for field.
pub proof fn lemma_projection_deterministic<'a, 'b>(
    c: &RegmapConfig<'a>,
    b1: &RegmapConfigBindings<'a>,
    n1: &NativeConfig<'b>,
    b2: &RegmapConfigBindings<'a>,
    n2: &NativeConfig<'b>,
)
    requires
        b1.projects(c),
        n1.projects(c, b1),
        b2.projects(c),
        n2.projects(c, b2),
    ensures
        *n1 == *n2,
{
    if n1.ranges is Some {
        assert(n1.ranges->0 =~= n2.ranges->0);
    }
}

} // verus!
