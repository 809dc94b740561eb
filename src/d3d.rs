//! The device layer's fixed policy: which usage class and which flags a
//! texture gets in each mode, the description a texture is created with, and
//! the classification of native status codes.
use vstd::prelude::*;
use vstd::string::StringExecFns;

verus! {

/// `D3D11_USAGE_DEFAULT`: GPU read and write.
pub const USAGE_DEFAULT: u32 = 0;
/// `D3D11_USAGE_STAGING`: copy target that the CPU can map.
pub const USAGE_STAGING: u32 = 3;
/// `D3D11_BIND_SHADER_RESOURCE`.
pub const BIND_SHADER_RESOURCE: u32 = 0x8;
/// `D3D11_BIND_RENDER_TARGET`.
pub const BIND_RENDER_TARGET: u32 = 0x20;
/// `D3D11_CPU_ACCESS_READ`.
pub const CPU_ACCESS_READ: u32 = 0x20000;
/// `D3D11_RESOURCE_MISC_SHARED_KEYEDMUTEX`.
pub const RESOURCE_MISC_SHARED_KEYEDMUTEX: u32 = 0x100;
/// `D3D11_RESOURCE_MISC_SHARED_NTHANDLE`.
pub const RESOURCE_MISC_SHARED_NTHANDLE: u32 = 0x800;
/// `DXGI_FORMAT_R8G8B8A8_UNORM`: four bytes per pixel.
pub const FORMAT_R8G8B8A8_UNORM: u32 = 28;

/// What a texture is created for.
#[derive(Clone, Copy, Debug, PartialEq, Eq, Structural)]
pub enum TextureMode {
    /// A render target that shaders may also sample.
    Target,
    /// A staging texture that the CPU reads back.
    Read,
    /// A render target that can be opened from another device through a
    /// shared handle, guarded by a keyed mutex.
    Shared,
}

impl TextureMode {
    pub open spec fn usage_spec(self) -> u32 {
        match self {
            TextureMode::Read => USAGE_STAGING,
            _ => USAGE_DEFAULT,
        }
    }

    pub open spec fn bind_flags_spec(self) -> u32 {
        match self {
            TextureMode::Read => 0,
            _ => BIND_SHADER_RESOURCE | BIND_RENDER_TARGET,
        }
    }

    pub open spec fn cpu_access_flags_spec(self) -> u32 {
        match self {
            TextureMode::Read => CPU_ACCESS_READ,
            _ => 0,
        }
    }

    pub open spec fn misc_flags_spec(self) -> u32 {
        match self {
            TextureMode::Shared => RESOURCE_MISC_SHARED_KEYEDMUTEX | RESOURCE_MISC_SHARED_NTHANDLE,
            _ => 0,
        }
    }

    /// The usage class: staging for read-back, default otherwise.
    pub fn usage(&self) -> (r: u32)
        ensures
            r == self.usage_spec(),
    {
        match self {
            TextureMode::Target => USAGE_DEFAULT,
            TextureMode::Read => USAGE_STAGING,
            TextureMode::Shared => USAGE_DEFAULT,
        }
    }

    /// The bind flags: a read-back texture is bound to nothing, the others
    /// are shader resources and render targets.
    pub fn bind_flags(&self) -> (r: u32)
        ensures
            r == self.bind_flags_spec(),
    {
        match self {
            TextureMode::Target => BIND_SHADER_RESOURCE | BIND_RENDER_TARGET,
            TextureMode::Shared => BIND_SHADER_RESOURCE | BIND_RENDER_TARGET,
            TextureMode::Read => 0,
        }
    }

    /// The CPU access flags: only a read-back texture is readable by the CPU.
    pub fn cpu_access_flags(&self) -> (r: u32)
        ensures
            r == self.cpu_access_flags_spec(),
    {
        match self {
            TextureMode::Target => 0,
            TextureMode::Shared => 0,
            TextureMode::Read => CPU_ACCESS_READ,
        }
    }

    /// The miscellaneous flags: a shared texture carries a keyed mutex and
    /// can be exported through an NT handle.
    pub fn misc_flags(&self) -> (r: u32)
        ensures
            r == self.misc_flags_spec(),
    {
        match self {
            TextureMode::Shared => RESOURCE_MISC_SHARED_KEYEDMUTEX | RESOURCE_MISC_SHARED_NTHANDLE,
            _ => 0,
        }
    }
}

/// The description a 2D texture is created with: one mip level, one array
/// slice, RGBA8 pixels, one sample, and the usage and flags of its mode.
#[derive(Clone, Copy, Debug, PartialEq, Eq, Structural)]
pub struct TextureDesc {
    pub width: u32,
    pub height: u32,
    pub mip_levels: u32,
    pub array_size: u32,
    pub format: u32,
    pub sample_count: u32,
    pub sample_quality: u32,
    pub usage: u32,
    pub bind_flags: u32,
    pub cpu_access_flags: u32,
    pub misc_flags: u32,
}

impl TextureDesc {
    /// The description of a `width` by `height` texture in `mode`.
    pub open spec fn spec_new(width: u32, height: u32, mode: TextureMode) -> TextureDesc {
        TextureDesc {
            width,
            height,
            mip_levels: 1,
            array_size: 1,
            format: FORMAT_R8G8B8A8_UNORM,
            sample_count: 1,
            sample_quality: 0,
            usage: mode.usage_spec(),
            bind_flags: mode.bind_flags_spec(),
            cpu_access_flags: mode.cpu_access_flags_spec(),
            misc_flags: mode.misc_flags_spec(),
        }
    }

    /// Builds the description of a `width` by `height` texture in `mode`.
    /// The texture keeps the requested size whatever the mode.
    pub fn new(width: u32, height: u32, mode: TextureMode) -> (r: TextureDesc)
        ensures
            r == TextureDesc::spec_new(width, height, mode),
            r.width == width,
            r.height == height,
    {
        TextureDesc {
            width,
            height,
            mip_levels: 1,
            array_size: 1,
            format: FORMAT_R8G8B8A8_UNORM,
            sample_count: 1,
            sample_quality: 0,
            usage: mode.usage(),
            bind_flags: mode.bind_flags(),
            cpu_access_flags: mode.cpu_access_flags(),
            misc_flags: mode.misc_flags(),
        }
    }
}

/// A native call failed with this status code (an `HRESULT`).
#[derive(Clone, Copy, Debug, PartialEq, Eq, Structural)]
pub struct Error(pub i32);

/// A status code reports success when it is not negative.
pub open spec fn succeeded(hr: i32) -> bool {
    hr >= 0
}

/// Whether a native status code reports success.
pub fn hresult_succeeded(hr: i32) -> (r: bool)
    ensures
        r == succeeded(hr),
{
    hr >= 0
}

/// Turns a native status code into a `Result`: `Ok` on success, otherwise
/// the error that carries the code.
pub fn check_hresult(hr: i32) -> (r: Result<(), Error>)
    ensures
        succeeded(hr) ==> r == Ok::<(), Error>(()),
        !succeeded(hr) ==> r == Err::<(), Error>(Error(hr)),
{
    if hresult_succeeded(hr) {
        Ok(())
    } else {
        Err(Error(hr))
    }
}

/// The decimal digits of `n`, most significant first, without leading zeros.
pub open spec fn decimal_digits(n: nat) -> Seq<char>
    decreases n,
{
    let digit = seq!['0', '1', '2', '3', '4', '5', '6', '7', '8', '9'][(n % 10) as int];
    if n < 10 {
        seq![digit]
    } else {
        decimal_digits(n / 10).push(digit)
    }
}

/// `n` in decimal, with a leading `-` when it is negative.
pub open spec fn signed_decimal(n: int) -> Seq<char> {
    if n < 0 {
        seq!['-'] + decimal_digits((-n) as nat)
    } else {
        decimal_digits(n as nat)
    }
}

/// The text that describes a failed status code.
pub open spec fn error_text(code: i32) -> Seq<char> {
    "HRESULT error "@ + signed_decimal(code as int)
}

/// Relies on `ToString` through the `Display` of `i32`, which writes the
/// number in decimal, without leading zeros, with a leading `-` when it is
/// negative.
#[verifier::external_body]
fn decimal_i32(n: i32) -> (r: String)
    ensures
        r@ == signed_decimal(n as int),
{
    n.to_string()
}

impl Error {
    /// The status code.
    pub fn code(&self) -> (r: i32)
        ensures
            r == self.0,
    {
        self.0
    }

    /// Describes the error: `HRESULT error ` and the code in decimal.
    pub fn message(&self) -> (r: String)
        ensures
            r@ == error_text(self.0),
    {
        let digits = decimal_i32(self.0);
        let mut text = String::from_str("HRESULT error ");
        proof {
            reveal_strlit("HRESULT error ");
        }
        text.append(digits.as_str());
        text
    }
}

} // verus!
