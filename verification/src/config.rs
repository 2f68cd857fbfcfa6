use vstd::prelude::*;

verus! {

/// Printer dot density. The emulator rasterizes at the fixed resolution of
/// common Zebra desktop printers; it is chosen once at startup and never
/// changes for the life of the process.
#[derive(Clone, Copy, PartialEq, Eq, Structural, Debug)]
pub enum Dpi {
    /// 203 dots per inch.
    Dpi203,
}

impl Dpi {
    /// Dots per inch of this resolution.
    pub open spec fn dots_spec(self) -> u32 {
        match self {
            Dpi::Dpi203 => 203,
        }
    }

    /// Dots per inch of this resolution.
    pub fn dots(self) -> (d: u32)
        ensures
            d == self.dots_spec(),
    {
        match self {
            Dpi::Dpi203 => 203,
        }
    }
}

/// Device pixels covered by a physical length of `mils` thousandths of an
/// inch at `dots` dots per inch: `(mils / 1000) * dots`, rounded to the
/// nearest pixel with halves rounded up.
pub open spec fn px_of(mils: nat, dots: nat) -> nat {
    (mils * dots + 500) / 1000
}

/// `px_of` is the rounding conversion it claims to be: the pixel count `p`
/// it returns is the unique integer with `p - 1/2 <= mils/1000 * dots < p + 1/2`,
/// stated here scaled by 1000 to stay in integers.
pub proof fn lemma_px_of_rounds(mils: nat, dots: nat)
    ensures
        1000 * px_of(mils, dots) <= mils * dots + 500,
        mils * dots + 500 < 1000 * px_of(mils, dots) + 1000,
{
    let n = (mils * dots + 500) as int;
    vstd::arithmetic::div_mod::lemma_fundamental_div_mod(n, 1000);
    vstd::arithmetic::div_mod::lemma_mod_bound(n, 1000);
}

/// Physical length in thousandths of an inch converted to device pixels at
/// the given resolution, exactly as `px_of` states.
pub fn mils_to_px(mils: u32, dpi: Dpi) -> (px: u32)
    ensures
        px == px_of(mils as nat, dpi.dots_spec() as nat),
{
    let dots: u64 = match dpi {
        Dpi::Dpi203 => 203,
    };
    let scaled: u64 = (mils as u64) * dots + 500;
    let px64: u64 = scaled / 1000;
    proof {
        vstd::arithmetic::div_mod::lemma_fundamental_div_mod(scaled as int, 1000);
        vstd::arithmetic::div_mod::lemma_mod_bound(scaled as int, 1000);
        assert(px64 <= u32::MAX as u64);
    }
    px64 as u32
}

/// Why startup configuration was rejected.
#[derive(Clone, Copy, PartialEq, Eq, Structural, Debug)]
pub enum ConfigError {
    /// The label width was not strictly positive.
    ZeroWidth,
    /// The label height was not strictly positive.
    ZeroHeight,
}

/// Process-wide configuration: built once at startup from the invocation
/// parameters, immutable afterwards, shared read-only by every request.
/// Physical label dimensions are carried in thousandths of an inch so the
/// pixel conversion is exact integer arithmetic.
#[derive(Clone, Debug)]
pub struct Config {
    /// Label width in thousandths of an inch.
    pub width_mils: u32,
    /// Label height in thousandths of an inch.
    pub height_mils: u32,
    /// Fixed rasterization resolution.
    pub dpi: Dpi,
    /// TCP port the service listens on.
    pub port: u16,
    /// Interface address the service binds.
    pub interface: String,
}

impl Config {
    /// Invariant: both label dimensions are strictly positive.
    pub open spec fn wf(self) -> bool {
        self.width_mils > 0 && self.height_mils > 0
    }

    /// Validates the invocation parameters and builds the configuration.
    /// Succeeds exactly when both dimensions are strictly positive; a zero
    /// width is reported before a zero height.
    pub fn new(width_mils: u32, height_mils: u32, port: u16, interface: String) -> (r: Result<
        Config,
        ConfigError,
    >)
        ensures
            r is Ok <==> (width_mils > 0 && height_mils > 0),
            width_mils == 0 ==> r == Result::<Config, ConfigError>::Err(ConfigError::ZeroWidth),
            width_mils > 0 && height_mils == 0 ==> r == Result::<Config, ConfigError>::Err(
                ConfigError::ZeroHeight,
            ),
            r matches Ok(c) ==> c.width_mils == width_mils && c.height_mils == height_mils
                && c.dpi == Dpi::Dpi203 && c.port == port && c.interface == interface && c.wf(),
    {
        if width_mils == 0 {
            Err(ConfigError::ZeroWidth)
        } else if height_mils == 0 {
            Err(ConfigError::ZeroHeight)
        } else {
            Ok(Config { width_mils, height_mils, dpi: Dpi::Dpi203, port, interface })
        }
    }

    /// Canvas width in device pixels.
    pub fn canvas_width_px(&self) -> (px: u32)
        ensures
            px == px_of(self.width_mils as nat, self.dpi.dots_spec() as nat),
    {
        mils_to_px(self.width_mils, self.dpi)
    }

    /// Canvas height in device pixels.
    pub fn canvas_height_px(&self) -> (px: u32)
        ensures
            px == px_of(self.height_mils as nat, self.dpi.dots_spec() as nat),
    {
        mils_to_px(self.height_mils, self.dpi)
    }
}

} // verus!
