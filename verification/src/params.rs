//! The physical and resolution parameters of one atmosphere.

use crate::raw::{ACCESS_SHADER_READ, LAYOUT_SHADER_READ_ONLY_OPTIMAL, STAGE_FRAGMENT_SHADER};
use vstd::prelude::*;

verus! {

/// Width and height of a two-dimensional table.
#[derive(Clone, Copy, Debug, PartialEq, Eq, Structural)]
pub struct Extent2D {
    pub width: u32,
    pub height: u32,
}

/// Width, height and depth of a three-dimensional table.
#[derive(Clone, Copy, Debug, PartialEq, Eq, Structural)]
pub struct Extent3D {
    pub width: u32,
    pub height: u32,
    pub depth: u32,
}

/// A single layer of a `DensityProfile`.
///
/// A layer of width `width` whose density at altitude h is
/// `exp_term * exp(exp_scale * h) + linear_term * h + constant_term`,
/// clamped to [0, 1]. Every field holds the bits of an IEEE 754 single.
#[derive(Clone, Copy, Debug, PartialEq, Eq)]
pub struct DensityProfileLayer {
    pub width: u32,
    pub exp_term: u32,
    pub exp_scale: u32,
    pub linear_term: u32,
    pub constant_term: u32,
}

/// Two layers on top of each other, from bottom to top.
///
/// The width of the upper layer is ignored: it always reaches the top of the
/// atmosphere.
#[derive(Clone, Copy, Debug, PartialEq, Eq)]
pub struct DensityProfile {
    pub layers: [DensityProfileLayer; 2],
}

/// Parameters governing generated skies. Distances in km.
///
/// Fields that stand for real numbers hold the bits of an IEEE 754 single;
/// fields that stand for Vulkan masks and enumerations hold their raw value.
///
/// # Table dimensions
///
/// - mu: view angle from vertical
/// - mu_s: sun angle from vertical
/// - r: distance from planet origin
/// - nu: view angle from sun
#[derive(Clone, Copy, Debug, PartialEq, Eq)]
pub struct Parameters {
    /// Extra usage flags for the generated look-up tables
    pub usage: u32,
    /// Stage mask that later use of the tables waits in
    pub dst_stage_mask: u32,
    /// Access mask that later use of the tables reads with
    pub dst_access_mask: u32,
    /// Layout the look-up tables end in
    pub layout: i32,
    /// Number of light bounces to simulate
    pub order: u32,
    /// View angle precision for the transmittance look-up table
    pub transmittance_mu_size: u32,
    /// Height precision for the transmittance look-up table
    pub transmittance_r_size: u32,
    /// Height precision for the scattering look-up table
    pub scattering_r_size: u32,
    /// View angle precision for the scattering look-up table
    pub scattering_mu_size: u32,
    /// Sun angle precision for the scattering look-up table
    pub scattering_mu_s_size: u32,
    /// Sun azimuth precision for the scattering look-up table
    pub scattering_nu_size: u32,
    /// Sun angle precision for the lighting look-up table
    pub irradiance_mu_s_size: u32,
    /// Height precision for the lighting look-up table
    pub irradiance_r_size: u32,
    /// The solar irradiance at the top of the atmosphere.
    pub solar_irradiance: [u32; 3],
    /// The sun's angular radius, in radians.
    pub sun_angular_radius: u32,
    /// The distance between the planet center and the bottom of the atmosphere.
    pub bottom_radius: u32,
    /// The distance between the planet center and the top of the atmosphere.
    pub top_radius: u32,
    /// The density profile of air molecules.
    pub rayleigh_density: DensityProfile,
    /// The scattering coefficient of air molecules where their density is
    /// greatest, per wavelength.
    pub rayleigh_scattering: [u32; 3],
    /// The density profile of aerosols.
    pub mie_density: DensityProfile,
    /// The scattering coefficient of aerosols where their density is greatest,
    /// per wavelength.
    pub mie_scattering: [u32; 3],
    /// The extinction coefficient of aerosols where their density is greatest,
    /// per wavelength.
    pub mie_extinction: [u32; 3],
    /// The asymmetry parameter of the Cornette-Shanks phase function for the
    /// aerosols.
    pub mie_phase_function_g: u32,
    /// The density profile of air molecules that absorb light, such as ozone.
    pub absorbtion_density: DensityProfile,
    /// The extinction coefficient of absorbing molecules where their density
    /// is greatest, per wavelength.
    pub absorbtion_extinction: [u32; 3],
    /// The average albedo of the ground.
    pub ground_albedo: [u32; 3],
    /// The cosine of the largest sun zenith angle for which scattering is
    /// precomputed.
    pub mu_s_min: u32,
}

impl Parameters {
    /// The parameters a precompute run accepts: at least one bounce, every
    /// table dimension at least one, and a scattering table whose width fits
    /// the API's 32-bit extents.
    pub open spec fn valid(&self) -> bool {
        &&& self.order >= 1
        &&& self.transmittance_mu_size >= 1
        &&& self.transmittance_r_size >= 1
        &&& self.scattering_r_size >= 1
        &&& self.scattering_mu_size >= 1
        &&& self.scattering_mu_s_size >= 1
        &&& self.scattering_nu_size >= 1
        &&& self.irradiance_mu_s_size >= 1
        &&& self.irradiance_r_size >= 1
        &&& self.scattering_nu_size * self.scattering_mu_s_size <= u32::MAX
    }

    /// Tests `valid`.
    pub fn is_valid(&self) -> (r: bool)
        ensures
            r == self.valid(),
    {
        let width: Option<u32> = self.scattering_nu_size.checked_mul(self.scattering_mu_s_size);
        self.order >= 1 && self.transmittance_mu_size >= 1 && self.transmittance_r_size >= 1
            && self.scattering_r_size >= 1 && self.scattering_mu_size >= 1
            && self.scattering_mu_s_size >= 1 && self.scattering_nu_size >= 1
            && self.irradiance_mu_s_size >= 1 && self.irradiance_r_size >= 1 && width.is_some()
    }

    /// Extent of the transmittance table: mu by r.
    pub open spec fn spec_transmittance_extent(&self) -> Extent2D {
        Extent2D { width: self.transmittance_mu_size, height: self.transmittance_r_size }
    }

    /// Extent of the irradiance table: mu_s by r.
    pub open spec fn spec_irradiance_extent(&self) -> Extent2D {
        Extent2D { width: self.irradiance_mu_s_size, height: self.irradiance_r_size }
    }

    /// Extent of the scattering table: nu times mu_s, by mu, by r.
    pub open spec fn spec_scattering_extent(&self) -> Extent3D {
        Extent3D {
            width: (self.scattering_nu_size * self.scattering_mu_s_size) as u32,
            height: self.scattering_mu_size,
            depth: self.scattering_r_size,
        }
    }

    #[verifier::when_used_as_spec(spec_transmittance_extent)]
    pub fn transmittance_extent(&self) -> (r: Extent2D)
        ensures
            r == self.spec_transmittance_extent(),
            r.width == self.transmittance_mu_size,
            r.height == self.transmittance_r_size,
    {
        Extent2D { width: self.transmittance_mu_size, height: self.transmittance_r_size }
    }

    #[verifier::when_used_as_spec(spec_irradiance_extent)]
    pub fn irradiance_extent(&self) -> (r: Extent2D)
        ensures
            r == self.spec_irradiance_extent(),
            r.width == self.irradiance_mu_s_size,
            r.height == self.irradiance_r_size,
    {
        Extent2D { width: self.irradiance_mu_s_size, height: self.irradiance_r_size }
    }

    #[verifier::when_used_as_spec(spec_scattering_extent)]
    pub fn scattering_extent(&self) -> (r: Extent3D)
        requires
            self.scattering_nu_size * self.scattering_mu_s_size <= u32::MAX,
        ensures
            r == self.spec_scattering_extent(),
            r.width == self.scattering_nu_size * self.scattering_mu_s_size,
            r.height == self.scattering_mu_size,
            r.depth == self.scattering_r_size,
    {
        Extent3D {
            width: self.scattering_nu_size * self.scattering_mu_s_size,
            height: self.scattering_mu_size,
            depth: self.scattering_r_size,
        }
    }
}

impl Parameters {
    /// Earth, with four orders of scattering.
    pub open spec fn earth() -> Parameters {
        Parameters {
            usage: 0,
            dst_stage_mask: STAGE_FRAGMENT_SHADER,
            dst_access_mask: ACCESS_SHADER_READ,
            layout: LAYOUT_SHADER_READ_ONLY_OPTIMAL,
            order: 4,
            transmittance_mu_size: 256,
            transmittance_r_size: 64,
            scattering_r_size: 32,
            scattering_mu_size: 128,
            scattering_mu_s_size: 32,
            scattering_nu_size: 8,
            irradiance_mu_s_size: 64,
            irradiance_r_size: 16,
            solar_irradiance: [0x3fbc_ac08u32, 0x3fec_cccdu32, 0x3ff4_bbc3u32],
            sun_angular_radius: 0x3b99_30be,
            bottom_radius: 0x45c6_c000,
            top_radius: 0x45c8_a000,
            rayleigh_density: DensityProfile {
                layers: [
                    DensityProfileLayer::absent(),
                    DensityProfileLayer::exponential(0xbe00_0000),
                ],
            },
            rayleigh_scattering: [0x3bbe_1eb4u32, 0x3c5e_2260u32, 0x3d07_93deu32],
            mie_density: DensityProfile {
                layers: [
                    DensityProfileLayer::absent(),
                    DensityProfileLayer::exponential(0xbf55_5550),
                ],
            },
            mie_scattering: [0x3b82_f0e1u32, 0x3b82_f0e1u32, 0x3b82_f0e1u32],
            mie_extinction: [0x3b91_7d6bu32, 0x3b91_7d6bu32, 0x3b91_7d6bu32],
            mie_phase_function_g: 0x3f4c_cccd,
            absorbtion_density: DensityProfile {
                layers: [
                    DensityProfileLayer {
                        width: 0x41c8_0000,
                        exp_term: 0,
                        exp_scale: 0,
                        linear_term: 0x3d88_88b5,
                        constant_term: 0xbf2a_aab0,
                    },
                    DensityProfileLayer {
                        width: 0,
                        exp_term: 0,
                        exp_scale: 0,
                        linear_term: 0xbd88_88b5,
                        constant_term: 0x402a_aaac,
                    },
                ],
            },
            absorbtion_extinction: [0x3a2a_64c3u32, 0x3af6_8be3u32, 0x38b2_4207u32],
            ground_albedo: [0x3dcc_cccdu32, 0x3dcc_cccdu32, 0x3dcc_cccdu32],
            mu_s_min: 0xbe54_e6e2,
        }
    }
}

impl DensityProfileLayer {
    /// A layer of no width and no density.
    pub open spec fn absent() -> DensityProfileLayer {
        DensityProfileLayer { width: 0, exp_term: 0, exp_scale: 0, linear_term: 0, constant_term: 0 }
    }

    /// A layer whose density is `exp(exp_scale * h)`.
    pub open spec fn exponential(exp_scale: u32) -> DensityProfileLayer {
        DensityProfileLayer {
            width: 0,
            exp_term: 0x3f80_0000,
            exp_scale,
            linear_term: 0,
            constant_term: 0,
        }
    }
}

impl Default for Parameters {
    /// Earth's atmosphere: sea level at 6360 km, top at 6420 km, four
    /// orders of scattering, tables read by fragment shaders.
    fn default() -> (r: Self)
        ensures
            r == Parameters::earth(),
            r.valid(),
    {
        let none = DensityProfileLayer {
            width: 0,
            exp_term: 0,
            exp_scale: 0,
            linear_term: 0,
            constant_term: 0,
        };
        // exp(-h / 8)
        let air = DensityProfileLayer { exp_term: 0x3f80_0000, exp_scale: 0xbe00_0000, ..none };
        // exp(-h / 1.2)
        let aerosol = DensityProfileLayer { exp_term: 0x3f80_0000, exp_scale: 0xbf55_5550, ..none };
        // h / 15 - 2 / 3 below 25 km, 8 / 3 - h / 15 above
        let ozone_low = DensityProfileLayer {
            width: 0x41c8_0000,
            linear_term: 0x3d88_88b5,
            constant_term: 0xbf2a_aab0,
            ..none
        };
        let ozone_high = DensityProfileLayer {
            linear_term: 0xbd88_88b5,
            constant_term: 0x402a_aaac,
            ..none
        };
        Parameters {
            usage: 0,
            dst_stage_mask: STAGE_FRAGMENT_SHADER,
            dst_access_mask: ACCESS_SHADER_READ,
            layout: LAYOUT_SHADER_READ_ONLY_OPTIMAL,
            order: 4,
            transmittance_mu_size: 256,
            transmittance_r_size: 64,
            scattering_r_size: 32,
            scattering_mu_size: 128,
            scattering_mu_s_size: 32,
            scattering_nu_size: 8,
            irradiance_mu_s_size: 64,
            irradiance_r_size: 16,
            // 1.474, 1.850, 1.91198
            solar_irradiance: [0x3fbc_ac08, 0x3fec_cccd, 0x3ff4_bbc3],
            // 0.004675
            sun_angular_radius: 0x3b99_30be,
            // 6360
            bottom_radius: 0x45c6_c000,
            // 6420
            top_radius: 0x45c8_a000,
            rayleigh_density: DensityProfile { layers: [none, air] },
            // 0.005802, 0.013558, 0.033100
            rayleigh_scattering: [0x3bbe_1eb4, 0x3c5e_2260, 0x3d07_93de],
            mie_density: DensityProfile { layers: [none, aerosol] },
            // 0.003996
            mie_scattering: [0x3b82_f0e1, 0x3b82_f0e1, 0x3b82_f0e1],
            // 0.004440
            mie_extinction: [0x3b91_7d6b, 0x3b91_7d6b, 0x3b91_7d6b],
            // 0.8
            mie_phase_function_g: 0x3f4c_cccd,
            absorbtion_density: DensityProfile { layers: [ozone_low, ozone_high] },
            // 6.5e-4, 1.881e-3, 8.5e-5
            absorbtion_extinction: [0x3a2a_64c3, 0x3af6_8be3, 0x38b2_4207],
            // 0.1
            ground_albedo: [0x3dcc_cccd, 0x3dcc_cccd, 0x3dcc_cccd],
            // -0.207912
            mu_s_min: 0xbe54_e6e2,
        }
    }
}

} // verus!
