use near_vm_runner::marshal::{
    to_host_all, to_host_u32, to_host_u64, to_sandbox_i32, to_sandbox_i64, HostValue,
    SandboxValue,
};

#[test]
fn negative_i32_keeps_its_bits() {
    assert_eq!(to_host_u32(-1), u32::MAX);
    assert_eq!(to_host_u32(-2), 0xffff_fffe);
    assert_eq!(to_host_u32(i32::MIN), 0x8000_0000);
    assert_eq!(to_host_u32(i32::MAX), 0x7fff_ffff);
    assert_eq!(to_host_u32(0), 0);
    assert_eq!(to_host_u32(7), 7);
}

#[test]
fn largest_u32_becomes_minus_one() {
    assert_eq!(to_sandbox_i32(u32::MAX), -1);
    assert_eq!(to_sandbox_i32(0x8000_0000), i32::MIN);
    assert_eq!(to_sandbox_i32(0x7fff_ffff), i32::MAX);
    assert_eq!(to_sandbox_i32(0), 0);
}

#[test]
fn negative_i64_keeps_its_bits() {
    assert_eq!(to_host_u64(-1), u64::MAX);
    assert_eq!(to_host_u64(i64::MIN), 0x8000_0000_0000_0000);
    assert_eq!(to_host_u64(i64::MAX), 0x7fff_ffff_ffff_ffff);
    assert_eq!(to_host_u64(-4_294_967_296), 0xffff_ffff_0000_0000);
    assert_eq!(to_host_u64(42), 42);
}

#[test]
fn largest_u64_becomes_minus_one() {
    assert_eq!(to_sandbox_i64(u64::MAX), -1);
    assert_eq!(to_sandbox_i64(0x8000_0000_0000_0000), i64::MIN);
    assert_eq!(to_sandbox_i64(1), 1);
}

#[test]
fn round_trip_32_on_samples() {
    let samples: [i32; 9] = [i32::MIN, i32::MIN + 1, -65536, -1, 0, 1, 65535, i32::MAX - 1, i32::MAX];
    for v in samples {
        let host = to_host_u32(v);
        assert_eq!(to_sandbox_i32(host), v);
        assert_eq!(host.to_le_bytes(), v.to_le_bytes());
    }
    let hosts: [u32; 6] = [0, 1, 0x7fff_ffff, 0x8000_0000, 0xdead_beef, u32::MAX];
    for u in hosts {
        let native = to_sandbox_i32(u);
        assert_eq!(to_host_u32(native), u);
        assert_eq!(native.to_le_bytes(), u.to_le_bytes());
    }
}

#[test]
fn round_trip_64_on_samples() {
    let samples: [i64; 7] = [i64::MIN, -4_294_967_297, -1, 0, 1, 4_294_967_296, i64::MAX];
    for v in samples {
        let host = to_host_u64(v);
        assert_eq!(to_sandbox_i64(host), v);
        assert_eq!(host.to_le_bytes(), v.to_le_bytes());
    }
    let hosts: [u64; 5] = [0, 0x7fff_ffff_ffff_ffff, 0x8000_0000_0000_0000, 0xdead_beef_0bad_f00d, u64::MAX];
    for u in hosts {
        let native = to_sandbox_i64(u);
        assert_eq!(to_host_u64(native), u);
        assert_eq!(native.to_le_bytes(), u.to_le_bytes());
    }
}

#[test]
fn values_keep_their_width() {
    assert_eq!(SandboxValue::I32(-1).to_host(), HostValue::U32(u32::MAX));
    assert_eq!(SandboxValue::I64(-1).to_host(), HostValue::U64(u64::MAX));
    assert_eq!(HostValue::U32(u32::MAX).to_sandbox(), SandboxValue::I32(-1));
    assert_eq!(HostValue::U64(u64::MAX).to_sandbox(), SandboxValue::I64(-1));
    assert_eq!(HostValue::U64(5).to_sandbox().to_host(), HostValue::U64(5));
}

#[test]
fn argument_lists_convert_in_order() {
    let args = [SandboxValue::I64(-1), SandboxValue::I32(-2), SandboxValue::I64(3)];
    assert_eq!(
        to_host_all(&args),
        vec![HostValue::U64(u64::MAX), HostValue::U32(0xffff_fffe), HostValue::U64(3)]
    );
    assert_eq!(to_host_all(&[]), Vec::<HostValue>::new());
}
