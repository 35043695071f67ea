use atlas_plan::bytes::{
    decode_le32, encode_le32, encode_le64, le32_bytes, le64_bytes, pad_zeros, read_le32,
};
use atlas_plan::gpu::{is_f32_positive, is_f64_positive, DevicePtr};
use atlas_plan::kernels::{KernelEntry, KernelTable, Lookup};
use atlas_plan::gpu::KernelHandle;
use atlas_plan::num::{div_ceil, div_ceil_usize, span};
use atlas_plan::readback::{bf16_to_f32, readback_bf16, readback_f32};
use atlas_plan::text::{
    chars_of, eq_ignore_ascii_case, find, flag, has_suffix, parse_size, same, trim, write_size,
};

fn size(s: &str) -> Option<usize> {
    parse_size(&chars_of(s))
}

#[test]
fn little_endian() {
    assert_eq!(le32_bytes(0x0403_0201), vec![1, 2, 3, 4]);
    assert_eq!(le64_bytes(0x0807_0605_0403_0201), vec![1, 2, 3, 4, 5, 6, 7, 8]);
    assert_eq!(encode_le32(&[1, 0x100]), vec![1, 0, 0, 0, 0, 1, 0, 0]);
    assert_eq!(encode_le64(&[2]), vec![2, 0, 0, 0, 0, 0, 0, 0]);
    assert_eq!(read_le32(&[9, 1, 2, 3, 4], 1), 0x0403_0201);
    let xs = [0u32, 1, u32::MAX, 0xdead_beef];
    assert_eq!(decode_le32(&encode_le32(&xs), 4), xs.to_vec());
    let mut v = vec![1u8];
    pad_zeros(&mut v, 4);
    assert_eq!(v, vec![1, 0, 0, 0]);
    pad_zeros(&mut v, 2);
    assert_eq!(v, vec![1, 0, 0, 0]);
}

#[test]
fn numbers_read_back() {
    assert_eq!(bf16_to_f32(0x3f80), 1.0f32.to_bits());
    assert_eq!(bf16_to_f32(0xc000), (-2.0f32).to_bits());
    assert_eq!(
        readback_bf16(&[0x80, 0x3f, 0x00, 0xc0, 7]), vec![1.0f32.to_bits(), (-2.0f32).to_bits()],
    );
    let mut b = 1.5f32.to_le_bytes().to_vec();
    b.extend((-0.25f32).to_le_bytes());
    b.push(1);
    assert_eq!(readback_f32(&b), vec![1.5f32.to_bits(), (-0.25f32).to_bits()]);
    assert!(readback_f32(&[1, 2, 3]).is_empty());
}

#[test]
fn signs_of_bit_patterns() {
    assert!(is_f32_positive(1.0f32.to_bits()));
    assert!(is_f32_positive(f32::INFINITY.to_bits()));
    assert!(is_f32_positive(f32::MIN_POSITIVE.to_bits()));
    assert!(!is_f32_positive(0.0f32.to_bits()));
    assert!(!is_f32_positive((-0.0f32).to_bits()));
    assert!(!is_f32_positive((-1.0f32).to_bits()));
    assert!(!is_f32_positive(f32::NAN.to_bits()));
    assert!(is_f64_positive(6e6f64.to_bits()));
    assert!(!is_f64_positive((-6e6f64).to_bits()));
    assert!(!is_f64_positive(f64::NAN.to_bits()));
}

#[test]
fn rounding_up() {
    assert_eq!(div_ceil(0, 64), 0);
    assert_eq!(div_ceil(64, 64), 1);
    assert_eq!(div_ceil(65, 64), 2);
    assert_eq!(div_ceil_usize(129, 64), 3);
    assert_eq!(span(3, 5, 2), 30);
}

#[test]
fn addresses_wrap() {
    assert_eq!(DevicePtr(16).offset(4), DevicePtr(20));
    assert_eq!(DevicePtr(u64::MAX).offset(2), DevicePtr(1));
    assert!(DevicePtr::null().is_null());
    assert!(!DevicePtr(1).is_null());
}

#[test]
fn words() {
    assert!(same("a", "a"));
    assert!(!same("a", "A"));
    assert!(eq_ignore_ascii_case("TrUe", "true"));
    assert!(!eq_ignore_ascii_case("true ", "true"));
    assert!(has_suffix("x.weight", ".weight"));
    assert!(!has_suffix("weight", ".weight"));
    assert!(has_suffix("abc", ""));
    assert_eq!(find(&chars_of("a,b,c"), ",", 0), Some(1));
    assert_eq!(find(&chars_of("a,b,c"), ",", 2), Some(3));
    assert_eq!(find(&chars_of("a,b,c"), ";", 0), None);
    assert_eq!(trim(&chars_of("  x y\t"), 0, 6), (2, 5));
    assert_eq!(trim(&chars_of("   "), 0, 3).1 - trim(&chars_of("   "), 0, 3).0, 0);
}

#[test]
fn sizes() {
    assert_eq!(size("0"), Some(0));
    assert_eq!(size("00042"), Some(42));
    assert_eq!(size("+7"), Some(7));
    assert_eq!(size("18446744073709551615"), Some(usize::MAX));
    assert_eq!(size("18446744073709551616"), None);
    assert_eq!(size(""), None);
    assert_eq!(size("+"), None);
    assert_eq!(size("-1"), None);
    assert_eq!(size("1 "), None);
    assert_eq!(size("1x"), None);
}

#[test]
fn settings() {
    assert!(flag(None, true));
    assert!(!flag(None, false));
    assert!(flag(Some("1"), false));
    assert!(flag(Some("TRUE"), false));
    assert!(!flag(Some("0"), true));
    assert!(!flag(Some("yes"), true));
}

#[test]
fn kernels_are_found_by_module_and_name() {
    let t = KernelTable {
        entries: vec![
            KernelEntry {
                module: "a".to_string(), function: "f".to_string(), handle: KernelHandle(1),
            },
            KernelEntry {
                module: "b".to_string(), function: "f".to_string(), handle: KernelHandle(2),
            },
            KernelEntry {
                module: "a".to_string(), function: "f".to_string(), handle: KernelHandle(3),
            },
        ],
    };
    assert_eq!(t.kernel("a", "f"), Some(KernelHandle(1)));
    assert_eq!(t.kernel("b", "f"), Some(KernelHandle(2)));
    assert_eq!(t.kernel("b", "g"), None);
    assert_eq!(t.try_kernel("b", "g"), KernelHandle(0));
    let mut l = Lookup::new(&t);
    assert_eq!(l.must("a", "f"), KernelHandle(1));
    assert!(l.missing.is_none());
    l.must("c", "x");
    l.must("d", "y");
    let m = l.missing.unwrap();
    assert_eq!((m.module, m.function), ("c", "x"));
}

#[test]
fn written_numbers_are_read_back() {
    for n in [0, 9, 10, 42, 109, 1_000_000, usize::MAX] {
        assert_eq!(write_size(n), n.to_string());
        assert_eq!(size(&write_size(n)), Some(n));
    }
}
