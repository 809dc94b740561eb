use piet_direct2d::d3d::{
    check_hresult, hresult_succeeded, Error, TextureDesc, TextureMode, BIND_RENDER_TARGET,
    BIND_SHADER_RESOURCE, CPU_ACCESS_READ, FORMAT_R8G8B8A8_UNORM, RESOURCE_MISC_SHARED_KEYEDMUTEX,
    RESOURCE_MISC_SHARED_NTHANDLE, USAGE_DEFAULT, USAGE_STAGING,
};

#[test]
fn target_mode_policy() {
    let m = TextureMode::Target;
    assert_eq!(m.usage(), 0);
    assert_eq!(m.bind_flags(), 0x28);
    assert_eq!(m.cpu_access_flags(), 0);
    assert_eq!(m.misc_flags(), 0);
}

#[test]
fn read_mode_policy() {
    let m = TextureMode::Read;
    assert_eq!(m.usage(), 3);
    assert_eq!(m.bind_flags(), 0);
    assert_eq!(m.cpu_access_flags(), 0x20000);
    assert_eq!(m.misc_flags(), 0);
}

#[test]
fn shared_mode_policy() {
    let m = TextureMode::Shared;
    assert_eq!(m.usage(), USAGE_DEFAULT);
    assert_eq!(m.bind_flags(), BIND_SHADER_RESOURCE | BIND_RENDER_TARGET);
    assert_eq!(m.cpu_access_flags(), 0);
    assert_eq!(m.misc_flags(), 0x900);
    assert_eq!(
        m.misc_flags(),
        RESOURCE_MISC_SHARED_KEYEDMUTEX | RESOURCE_MISC_SHARED_NTHANDLE
    );
}

#[test]
fn description_keeps_size_in_every_mode() {
    for mode in [TextureMode::Target, TextureMode::Read, TextureMode::Shared] {
        for (w, h) in [(1u32, 1u32), (800, 600), (3, 7), (u32::MAX, 1), (1, u32::MAX)] {
            let d = TextureDesc::new(w, h, mode);
            assert_eq!(d.width, w);
            assert_eq!(d.height, h);
            assert_eq!(d.usage, mode.usage());
            assert_eq!(d.bind_flags, mode.bind_flags());
            assert_eq!(d.cpu_access_flags, mode.cpu_access_flags());
            assert_eq!(d.misc_flags, mode.misc_flags());
        }
    }
}

#[test]
fn description_fixed_fields() {
    let d = TextureDesc::new(800, 600, TextureMode::Read);
    assert_eq!(d.mip_levels, 1);
    assert_eq!(d.array_size, 1);
    assert_eq!(d.format, FORMAT_R8G8B8A8_UNORM);
    assert_eq!(d.format, 28);
    assert_eq!(d.sample_count, 1);
    assert_eq!(d.sample_quality, 0);
    assert_eq!(d.usage, USAGE_STAGING);
    assert_eq!(d.cpu_access_flags, CPU_ACCESS_READ);
}

#[test]
fn status_codes() {
    assert!(hresult_succeeded(0));
    assert!(hresult_succeeded(1));
    assert!(hresult_succeeded(i32::MAX));
    assert!(!hresult_succeeded(-1));
    assert!(!hresult_succeeded(i32::MIN));
    assert_eq!(check_hresult(0), Ok(()));
    assert_eq!(check_hresult(1), Ok(()));
    assert_eq!(check_hresult(-2147024809), Err(Error(-2147024809)));
}

#[test]
fn error_message() {
    let e = Error(-2147024809);
    assert_eq!(e.code(), -2147024809);
    assert_eq!(e.message(), "HRESULT error -2147024809");
    assert_eq!(Error(5).message(), "HRESULT error 5");
    assert_eq!(Error(0).message(), "HRESULT error 0");
    assert_eq!(Error(i32::MIN).message(), "HRESULT error -2147483648");
}
