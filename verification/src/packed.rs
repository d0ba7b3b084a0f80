//! The parameter block as the shaders read it.
//!
//! The block is a run of 32-bit words; the byte offset of a word is four
//! times its index. Colours take three words and share a 16-byte row with the
//! scalar that follows them. The eight table dimensions follow the last
//! colour. Density profiles start on the next 16-byte boundary; each of their
//! layers takes five words and is padded to 32 bytes.

use crate::params::{DensityProfile, DensityProfileLayer, Parameters};
use vstd::prelude::*;

verus! {

/// The size of the packed block in bytes.
pub const PARAMS_SIZE: u64 = 320;

/// The number of 32-bit words in the packed block.
pub const PARAMS_WORDS: usize = 80;

/// The index of the first word of the table dimensions.
pub const SIZES_OFFSET: usize = 23;

/// The index of the first word of the first density profile.
pub const PROFILES_OFFSET: usize = 32;

/// The number of words a packed layer takes, padding included.
pub const LAYER_WORDS: usize = 8;

/// The number of words a packed density profile takes.
pub const PROFILE_WORDS: usize = 16;

/// A layer in packed order.
#[derive(Clone, Copy, Debug, PartialEq, Eq)]
pub struct DensityProfileLayerRaw {
    pub width: u32,
    pub exp_term: u32,
    pub exp_scale: u32,
    pub linear_term: u32,
    pub constant_term: u32,
}

/// A density profile in packed order.
#[derive(Clone, Copy, Debug, PartialEq, Eq)]
pub struct DensityProfileRaw {
    pub layers: [DensityProfileLayerRaw; 2],
}

/// The parameters in packed order.
#[derive(Clone, Copy, Debug, PartialEq, Eq)]
pub struct ParamsRaw {
    pub solar_irradiance: [u32; 3],
    pub sun_angular_radius: u32,
    pub rayleigh_scattering: [u32; 3],
    pub bottom_radius: u32,
    pub mie_scattering: [u32; 3],
    pub top_radius: u32,
    pub mie_extinction: [u32; 3],
    pub mie_phase_function_g: u32,
    pub ground_albedo: [u32; 3],
    pub mu_s_min: u32,
    pub absorbtion_extinction: [u32; 3],
    pub transmittance_mu_size: u32,
    pub transmittance_r_size: u32,
    pub scattering_r_size: u32,
    pub scattering_mu_size: u32,
    pub scattering_mu_s_size: u32,
    pub scattering_nu_size: u32,
    pub irradiance_mu_s_size: u32,
    pub irradiance_r_size: u32,
    pub rayleigh_density: DensityProfileRaw,
    pub mie_density: DensityProfileRaw,
    pub absorbtion_density: DensityProfileRaw,
}

/// The three words of a colour.
pub open spec fn colour(c: [u32; 3]) -> Seq<u32> {
    seq![c[0], c[1], c[2]]
}

impl DensityProfileLayerRaw {
    pub open spec fn spec_new(x: DensityProfileLayer) -> Self {
        DensityProfileLayerRaw {
            width: x.width,
            exp_term: x.exp_term,
            exp_scale: x.exp_scale,
            linear_term: x.linear_term,
            constant_term: x.constant_term,
        }
    }

    pub fn new(x: &DensityProfileLayer) -> (r: Self)
        ensures
            r == Self::spec_new(*x),
    {
        Self {
            width: x.width,
            exp_term: x.exp_term,
            exp_scale: x.exp_scale,
            linear_term: x.linear_term,
            constant_term: x.constant_term,
        }
    }

    /// The words of the layer: its five terms, then three words of padding.
    pub open spec fn words(self) -> Seq<u32> {
        seq![
            self.width,
            self.exp_term,
            self.exp_scale,
            self.linear_term,
            self.constant_term,
            0u32,
            0u32,
            0u32,
        ]
    }
}

impl DensityProfileRaw {
    pub open spec fn spec_new(x: DensityProfile) -> Self {
        DensityProfileRaw {
            layers: [
                DensityProfileLayerRaw::spec_new(x.layers[0]),
                DensityProfileLayerRaw::spec_new(x.layers[1]),
            ],
        }
    }

    pub fn new(x: &DensityProfile) -> (r: Self)
        ensures
            r == Self::spec_new(*x),
    {
        Self {
            layers: [
                DensityProfileLayerRaw::new(&x.layers[0]),
                DensityProfileLayerRaw::new(&x.layers[1]),
            ],
        }
    }

    /// The words of the profile: the lower layer, then the upper.
    pub open spec fn words(self) -> Seq<u32> {
        self.layers[0].words() + self.layers[1].words()
    }
}

impl ParamsRaw {
    pub open spec fn spec_new(x: Parameters) -> Self {
        ParamsRaw {
            solar_irradiance: x.solar_irradiance,
            sun_angular_radius: x.sun_angular_radius,
            rayleigh_scattering: x.rayleigh_scattering,
            bottom_radius: x.bottom_radius,
            mie_scattering: x.mie_scattering,
            top_radius: x.top_radius,
            mie_extinction: x.mie_extinction,
            mie_phase_function_g: x.mie_phase_function_g,
            ground_albedo: x.ground_albedo,
            mu_s_min: x.mu_s_min,
            absorbtion_extinction: x.absorbtion_extinction,
            transmittance_mu_size: x.transmittance_mu_size,
            transmittance_r_size: x.transmittance_r_size,
            scattering_r_size: x.scattering_r_size,
            scattering_mu_size: x.scattering_mu_size,
            scattering_mu_s_size: x.scattering_mu_s_size,
            scattering_nu_size: x.scattering_nu_size,
            irradiance_mu_s_size: x.irradiance_mu_s_size,
            irradiance_r_size: x.irradiance_r_size,
            rayleigh_density: DensityProfileRaw::spec_new(x.rayleigh_density),
            mie_density: DensityProfileRaw::spec_new(x.mie_density),
            absorbtion_density: DensityProfileRaw::spec_new(x.absorbtion_density),
        }
    }

    /// Puts the parameters in packed order. What a run is synchronised and
    /// finished with (usage, masks, layout, order) is no part of the block.
    pub fn new(x: &Parameters) -> (r: Self)
        ensures
            r == Self::spec_new(*x),
    {
        Self {
            solar_irradiance: x.solar_irradiance,
            sun_angular_radius: x.sun_angular_radius,
            rayleigh_scattering: x.rayleigh_scattering,
            bottom_radius: x.bottom_radius,
            mie_scattering: x.mie_scattering,
            top_radius: x.top_radius,
            mie_extinction: x.mie_extinction,
            mie_phase_function_g: x.mie_phase_function_g,
            ground_albedo: x.ground_albedo,
            mu_s_min: x.mu_s_min,
            absorbtion_extinction: x.absorbtion_extinction,
            transmittance_mu_size: x.transmittance_mu_size,
            transmittance_r_size: x.transmittance_r_size,
            scattering_r_size: x.scattering_r_size,
            scattering_mu_size: x.scattering_mu_size,
            scattering_mu_s_size: x.scattering_mu_s_size,
            scattering_nu_size: x.scattering_nu_size,
            irradiance_mu_s_size: x.irradiance_mu_s_size,
            irradiance_r_size: x.irradiance_r_size,
            rayleigh_density: DensityProfileRaw::new(&x.rayleigh_density),
            mie_density: DensityProfileRaw::new(&x.mie_density),
            absorbtion_density: DensityProfileRaw::new(&x.absorbtion_density),
        }
    }

    /// The colours and scalars that open the block.
    pub open spec fn head(self) -> Seq<u32> {
        colour(self.solar_irradiance) + seq![self.sun_angular_radius] + colour(
            self.rayleigh_scattering,
        ) + seq![self.bottom_radius] + colour(self.mie_scattering) + seq![self.top_radius]
            + colour(self.mie_extinction) + seq![self.mie_phase_function_g] + colour(
            self.ground_albedo,
        ) + seq![self.mu_s_min] + colour(self.absorbtion_extinction)
    }

    /// The eight table dimensions.
    pub open spec fn sizes(self) -> Seq<u32> {
        seq![
            self.transmittance_mu_size,
            self.transmittance_r_size,
            self.scattering_r_size,
            self.scattering_mu_size,
            self.scattering_mu_s_size,
            self.scattering_nu_size,
            self.irradiance_mu_s_size,
            self.irradiance_r_size,
        ]
    }

    /// The whole block: colours and scalars, dimensions, one word of padding,
    /// then the profiles of air, aerosols and absorbers.
    pub open spec fn words(self) -> Seq<u32> {
        self.head() + self.sizes() + seq![0u32] + self.rayleigh_density.words()
            + self.mie_density.words() + self.absorbtion_density.words()
    }

    /// Writes the block out word by word.
    pub fn to_words(&self) -> (r: Vec<u32>)
        ensures
            r@ == self.words(),
            r.len() == PARAMS_WORDS,
            4 * r.len() == PARAMS_SIZE,
    {
        let mut v: Vec<u32> = Vec::new();
        push_colour(&mut v, &self.solar_irradiance);
        v.push(self.sun_angular_radius);
        push_colour(&mut v, &self.rayleigh_scattering);
        v.push(self.bottom_radius);
        push_colour(&mut v, &self.mie_scattering);
        v.push(self.top_radius);
        push_colour(&mut v, &self.mie_extinction);
        v.push(self.mie_phase_function_g);
        push_colour(&mut v, &self.ground_albedo);
        v.push(self.mu_s_min);
        push_colour(&mut v, &self.absorbtion_extinction);
        assert(v@ =~= self.head());
        v.push(self.transmittance_mu_size);
        v.push(self.transmittance_r_size);
        v.push(self.scattering_r_size);
        v.push(self.scattering_mu_size);
        v.push(self.scattering_mu_s_size);
        v.push(self.scattering_nu_size);
        v.push(self.irradiance_mu_s_size);
        v.push(self.irradiance_r_size);
        v.push(0);
        assert(v@ =~= self.head() + self.sizes() + seq![0u32]);
        push_profile(&mut v, &self.rayleigh_density);
        push_profile(&mut v, &self.mie_density);
        push_profile(&mut v, &self.absorbtion_density);
        v
    }
}

fn push_colour(v: &mut Vec<u32>, c: &[u32; 3])
    ensures
        final(v)@ == old(v)@ + colour(*c),
{
    v.push(c[0]);
    v.push(c[1]);
    v.push(c[2]);
    assert(v@ =~= old(v)@ + colour(*c));
}

fn push_layer(v: &mut Vec<u32>, layer: &DensityProfileLayerRaw)
    ensures
        final(v)@ == old(v)@ + layer.words(),
{
    v.push(layer.width);
    v.push(layer.exp_term);
    v.push(layer.exp_scale);
    v.push(layer.linear_term);
    v.push(layer.constant_term);
    v.push(0);
    v.push(0);
    v.push(0);
    assert(v@ =~= old(v)@ + layer.words());
}

fn push_profile(v: &mut Vec<u32>, profile: &DensityProfileRaw)
    ensures
        final(v)@ == old(v)@ + profile.words(),
{
    push_layer(v, &profile.layers[0]);
    push_layer(v, &profile.layers[1]);
    assert(v@ =~= old(v)@ + profile.words());
}

impl Parameters {
    /// The packed block of the parameters.
    pub open spec fn packed(self) -> Seq<u32> {
        ParamsRaw::spec_new(self).words()
    }

    /// Packs the parameters for upload.
    pub fn pack(&self) -> (r: Vec<u32>)
        ensures
            r@ == self.packed(),
            r.len() == PARAMS_WORDS,
    {
        ParamsRaw::new(self).to_words()
    }
}

/// The density profiles of the parameters in packed order: air, aerosols,
/// absorbers.
pub open spec fn profile(p: Parameters, k: int) -> DensityProfile {
    if k == 0 {
        p.rayleigh_density
    } else if k == 1 {
        p.mie_density
    } else {
        p.absorbtion_density
    }
}

/// The packed block is 80 words, 320 bytes, long. Each colour starts a
/// 16-byte row and the scalar named after it ends the row; the dimensions
/// take words 23 to 30; word 31 is padding; layer `j` of profile `k` starts at
/// word `32 + 16 k + 8 j`, holds its five terms and ends in three zero words.
pub proof fn lemma_packed_layout(p: Parameters)
    ensures
        p.packed().len() == PARAMS_WORDS,
        4 * p.packed().len() == PARAMS_SIZE,
        p.packed().subrange(0, 3) == colour(p.solar_irradiance),
        p.packed()[3] == p.sun_angular_radius,
        p.packed().subrange(4, 7) == colour(p.rayleigh_scattering),
        p.packed()[7] == p.bottom_radius,
        p.packed().subrange(8, 11) == colour(p.mie_scattering),
        p.packed()[11] == p.top_radius,
        p.packed().subrange(12, 15) == colour(p.mie_extinction),
        p.packed()[15] == p.mie_phase_function_g,
        p.packed().subrange(16, 19) == colour(p.ground_albedo),
        p.packed()[19] == p.mu_s_min,
        p.packed().subrange(20, 23) == colour(p.absorbtion_extinction),
        p.packed()[SIZES_OFFSET as int] == p.transmittance_mu_size,
        p.packed()[SIZES_OFFSET + 1] == p.transmittance_r_size,
        p.packed()[SIZES_OFFSET + 2] == p.scattering_r_size,
        p.packed()[SIZES_OFFSET + 3] == p.scattering_mu_size,
        p.packed()[SIZES_OFFSET + 4] == p.scattering_mu_s_size,
        p.packed()[SIZES_OFFSET + 5] == p.scattering_nu_size,
        p.packed()[SIZES_OFFSET + 6] == p.irradiance_mu_s_size,
        p.packed()[SIZES_OFFSET + 7] == p.irradiance_r_size,
        p.packed()[31] == 0,
        forall|k: int, j: int|
            #![trigger profile(p, k).layers[j]]
            0 <= k < 3 && 0 <= j < 2 ==> {
                let at = PROFILES_OFFSET + PROFILE_WORDS * k + LAYER_WORDS * j;
                let layer = profile(p, k).layers[j];
                &&& p.packed()[at] == layer.width
                &&& p.packed()[at + 1] == layer.exp_term
                &&& p.packed()[at + 2] == layer.exp_scale
                &&& p.packed()[at + 3] == layer.linear_term
                &&& p.packed()[at + 4] == layer.constant_term
                &&& p.packed()[at + 5] == 0
                &&& p.packed()[at + 6] == 0
                &&& p.packed()[at + 7] == 0
            },
{
    let raw = ParamsRaw::spec_new(p);
    let w = p.packed();
    assert(raw.head().len() == 23);
    assert(w.len() == 80);
    assert(w.subrange(0, 3) =~= colour(p.solar_irradiance));
    assert(w.subrange(4, 7) =~= colour(p.rayleigh_scattering));
    assert(w.subrange(8, 11) =~= colour(p.mie_scattering));
    assert(w.subrange(12, 15) =~= colour(p.mie_extinction));
    assert(w.subrange(16, 19) =~= colour(p.ground_albedo));
    assert(w.subrange(20, 23) =~= colour(p.absorbtion_extinction));
    assert forall|k: int, j: int|
        #![trigger profile(p, k).layers[j]]
        0 <= k < 3 && 0 <= j < 2 implies {
            let at = PROFILES_OFFSET + PROFILE_WORDS * k + LAYER_WORDS * j;
            let layer = profile(p, k).layers[j];
            &&& w[at] == layer.width
            &&& w[at + 1] == layer.exp_term
            &&& w[at + 2] == layer.exp_scale
            &&& w[at + 3] == layer.linear_term
            &&& w[at + 4] == layer.constant_term
            &&& w[at + 5] == 0
            &&& w[at + 6] == 0
            &&& w[at + 7] == 0
        } by {
        assert(k == 0 || k == 1 || k == 2);
        assert(j == 0 || j == 1);
    }
}

} // verus!
