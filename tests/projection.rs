use regmap::{
    RegDefault, RegcacheType, RegmapAccessTable, RegmapConfig, RegmapEndian, RegmapRange,
    RegmapRangeConfig,
};

fn window(name: &'static str, min: u32, max: u32) -> RegmapRangeConfig {
    RegmapRangeConfig {
        name,
        range_min: min,
        range_max: max,
        selector_reg: 0x7f,
        selector_mask: 0xf0,
        selector_shift: 4,
        window_start: 0x80,
        window_len: 0x20,
    }
}

#[test]
fn new_sets_widths_and_leaves_options_unset() {
    let c = RegmapConfig::new(8, 16);
    assert_eq!(c.reg_bits, 8);
    assert_eq!(c.val_bits, 16);
    assert!(c.name.is_none());
    assert!(c.reg_stride.is_none());
    assert!(c.wr_table.is_none());
    assert!(c.ranges.is_none());
    assert_eq!(c.cache_type, RegcacheType::NONE);
    assert_eq!(c.reg_format_endian, RegmapEndian::RegmapEndianDefault);
    assert!(!c.disable_locking);
}

#[test]
fn default_config_projects_to_zero() {
    let c = RegmapConfig::new(8, 16);
    let b = c.to_binding().unwrap();
    let n = c.native_config(&b);
    assert_eq!(n.reg_bits, 8);
    assert_eq!(n.val_bits, 16);
    assert_eq!(n.reg_stride, 0);
    assert_eq!(n.reg_downshift, 0);
    assert_eq!(n.reg_base, 0);
    assert_eq!(n.pad_bits, 0);
    assert_eq!(n.max_register, 0);
    assert_eq!(n.max_raw_read, 0);
    assert_eq!(n.max_raw_write, 0);
    assert!(n.name.is_none());
    assert!(n.wr_table.is_none());
    assert!(n.rd_table.is_none());
    assert!(n.volatile_table.is_none());
    assert!(n.precious_table.is_none());
    assert!(n.wr_noinc_table.is_none());
    assert!(n.rd_noinc_table.is_none());
    assert!(n.reg_defaults.is_none());
    assert_eq!(n.num_reg_defaults, 0);
    assert_eq!(n.cache_type, 0);
    assert_eq!(n.read_flag_mask, 0);
    assert_eq!(n.write_flag_mask, 0);
    assert!(!n.zero_flag_mask);
    assert!(!n.use_single_read);
    assert!(!n.use_single_write);
    assert!(!n.use_relaxed_mmio);
    assert!(!n.can_multi_write);
    assert!(!n.fast_io);
    assert!(!n.io_port);
    assert_eq!(n.reg_format_endian, 0);
    assert_eq!(n.val_format_endian, 0);
    assert!(n.ranges.is_none());
    assert_eq!(n.num_ranges, 0);
    assert!(!n.can_sleep);
    assert!(n.writeable_reg.is_none());
    assert!(n.lock.is_none());
    assert_eq!(n.lock_arg, 0);
    assert!(!n.disable_locking);
    assert!(!n.use_hwlock);
    assert_eq!(n.hwlock_id, 0);
    assert!(n.reg_defaults_raw.is_none());
}

#[test]
fn access_table_counts_match_lengths() {
    let yes = [
        RegmapRange { range_min: 0, range_max: 3 },
        RegmapRange { range_min: 8, range_max: 9 },
        RegmapRange { range_min: 16, range_max: 31 },
    ];
    let t = RegmapAccessTable { yes_ranges: &yes, no_ranges: &[] };
    let n = t.to_binding();
    assert_eq!(n.n_yes_ranges, 3);
    assert_eq!(n.n_no_ranges, 0);
    assert_eq!(n.yes_ranges, &yes[..]);
    assert_eq!(n.yes_ranges.as_ptr(), yes.as_ptr());
    assert!(n.no_ranges.is_empty());
}

#[test]
fn tables_point_into_side_table() {
    let yes = [RegmapRange { range_min: 0, range_max: 0x10 }];
    let no = [RegmapRange { range_min: 4, range_max: 5 }, RegmapRange { range_min: 7, range_max: 7 }];
    let mut c = RegmapConfig::new(8, 8);
    c.wr_table = Some(RegmapAccessTable { yes_ranges: &yes, no_ranges: &no });
    c.volatile_table = Some(RegmapAccessTable { yes_ranges: &no, no_ranges: &[] });
    let b = c.to_binding().unwrap();
    let n = c.native_config(&b);
    let wr = n.wr_table.unwrap();
    assert!(std::ptr::eq(wr, b.wr_table.as_ref().unwrap()));
    assert_eq!(wr.n_yes_ranges, 1);
    assert_eq!(wr.n_no_ranges, 2);
    assert_eq!(wr.no_ranges, &no[..]);
    let vol = n.volatile_table.unwrap();
    assert_eq!(vol.n_yes_ranges, 2);
    assert_eq!(vol.n_no_ranges, 0);
    assert!(n.rd_table.is_none());
    assert!(n.precious_table.is_none());
}

#[test]
fn ranges_keep_count_and_order() {
    let ws = [window("page_a", 0x100, 0x1ff), window("page_b", 0x200, 0x2ff), window("page_c", 0x300, 0x3ff)];
    let mut c = RegmapConfig::new(16, 8);
    c.ranges = Some(&ws);
    let b = c.to_binding().unwrap();
    let n = c.native_config(&b);
    assert_eq!(n.num_ranges, 3);
    let r = n.ranges.unwrap();
    assert_eq!(r.len(), 3);
    for (x, w) in r.iter().zip(ws.iter()) {
        assert_eq!(x.name, w.name);
        assert_eq!(x.range_min, w.range_min);
        assert_eq!(x.range_max, w.range_max);
        assert_eq!(x.selector_reg, w.selector_reg);
        assert_eq!(x.selector_mask, w.selector_mask);
        assert_eq!(x.selector_shift, w.selector_shift);
        assert_eq!(x.window_start, w.window_start);
        assert_eq!(x.window_len, w.window_len);
    }
    assert_eq!(r[1].name, "page_b");
}

#[test]
fn empty_range_list_is_present_with_zero_count() {
    let ws: [RegmapRangeConfig; 0] = [];
    let mut c = RegmapConfig::new(8, 8);
    c.ranges = Some(&ws);
    let b = c.to_binding().unwrap();
    let n = c.native_config(&b);
    assert_eq!(n.num_ranges, 0);
    assert_eq!(n.ranges.unwrap().len(), 0);
}

#[test]
fn set_options_are_copied() {
    let defaults = [RegDefault { reg: 1, def: 0xaa }, RegDefault { reg: 2, def: 0x55 }];
    let mut c = RegmapConfig::new(32, 32);
    c.name = Some("ctrl");
    c.reg_stride = Some(4);
    c.reg_downshift = Some(2);
    c.reg_base = Some(0x1000);
    c.pad_bits = Some(8);
    c.max_raw_read = Some(64);
    c.max_raw_write = Some(128);
    c.fast_io = Some(true);
    c.io_port = Some(true);
    c.max_register = Some(0xfc);
    c.reg_defaults = Some(&defaults);
    c.cache_type = RegcacheType::FLAT;
    c.read_flag_mask = Some(0x80);
    c.write_flag_mask = Some(0x40);
    c.zero_flag_mask = Some(true);
    c.use_single_read = Some(true);
    c.use_single_write = Some(false);
    c.use_relaxed_mmio = Some(true);
    c.can_multi_write = Some(true);
    c.reg_format_endian = RegmapEndian::RegmapEndianBig;
    c.val_format_endian = RegmapEndian::RegmapEndianNative;
    c.can_sleep = Some(true);
    c.disable_locking = true;
    let b = c.to_binding().unwrap();
    let n = c.native_config(&b);
    assert_eq!(n.name, Some("ctrl"));
    assert_eq!(n.reg_stride, 4);
    assert_eq!(n.reg_downshift, 2);
    assert_eq!(n.reg_base, 0x1000);
    assert_eq!(n.pad_bits, 8);
    assert_eq!(n.max_raw_read, 64);
    assert_eq!(n.max_raw_write, 128);
    assert!(n.fast_io);
    assert!(n.io_port);
    assert_eq!(n.max_register, 0xfc);
    assert_eq!(n.reg_defaults, Some(&defaults[..]));
    assert_eq!(n.num_reg_defaults, 2);
    assert_eq!(n.cache_type, 3);
    assert_eq!(n.read_flag_mask, 0x80);
    assert_eq!(n.write_flag_mask, 0x40);
    assert!(n.zero_flag_mask);
    assert!(n.use_single_read);
    assert!(!n.use_single_write);
    assert!(n.use_relaxed_mmio);
    assert!(n.can_multi_write);
    assert_eq!(n.reg_format_endian, 1);
    assert_eq!(n.val_format_endian, 3);
    assert!(n.can_sleep);
    // the engine always locks: the request is not handed over
    assert!(!n.disable_locking);
}

#[test]
fn projecting_twice_gives_same_fields() {
    let yes = [RegmapRange { range_min: 2, range_max: 6 }];
    let ws = [window("win", 0x40, 0x7f)];
    let mut c = RegmapConfig::new(8, 8);
    c.rd_table = Some(RegmapAccessTable { yes_ranges: &yes, no_ranges: &[] });
    c.ranges = Some(&ws);
    c.reg_stride = Some(2);
    let b1 = c.to_binding().unwrap();
    let n1 = c.native_config(&b1);
    let b2 = c.to_binding().unwrap();
    let n2 = c.native_config(&b2);
    assert_eq!(n1.reg_stride, n2.reg_stride);
    assert_eq!(n1.num_ranges, n2.num_ranges);
    assert_eq!(n1.ranges.unwrap()[0].name, n2.ranges.unwrap()[0].name);
    assert_eq!(n1.ranges.unwrap()[0].window_len, n2.ranges.unwrap()[0].window_len);
    let (t1, t2) = (n1.rd_table.unwrap(), n2.rd_table.unwrap());
    assert_eq!(t1.yes_ranges, t2.yes_ranges);
    assert_eq!(t1.n_yes_ranges, t2.n_yes_ranges);
    assert_eq!(t1.n_no_ranges, t2.n_no_ranges);
    assert_eq!(n1.cache_type, n2.cache_type);
}

#[test]
fn endian_and_cache_selectors() {
    assert_eq!(u32::from(RegmapEndian::RegmapEndianDefault), 0);
    assert_eq!(u32::from(RegmapEndian::RegmapEndianBig), 1);
    assert_eq!(u32::from(RegmapEndian::RegmapEndianLittle), 2);
    assert_eq!(u32::from(RegmapEndian::RegmapEndianNative), 3);
    assert_eq!(u32::from(RegcacheType::NONE), 0);
    assert_eq!(u32::from(RegcacheType::RBTREE), 1);
    assert_eq!(u32::from(RegcacheType::COMPRESSED), 2);
    assert_eq!(u32::from(RegcacheType::FLAT), 3);
}
