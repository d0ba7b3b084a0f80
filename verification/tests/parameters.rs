use fuzzyblue::packed::{DensityProfileLayerRaw, ParamsRaw, PARAMS_SIZE, PARAMS_WORDS};
use fuzzyblue::{DensityProfile, DensityProfileLayer, Extent2D, Extent3D, Parameters};

fn bits(x: f32) -> u32 {
    x.to_bits()
}

#[test]
fn default_is_earth() {
    let p = Parameters::default();
    assert_eq!(p.order, 4);
    assert_eq!(p.usage, 0);
    assert_eq!(p.transmittance_mu_size, 256);
    assert_eq!(p.transmittance_r_size, 64);
    assert_eq!(p.scattering_r_size, 32);
    assert_eq!(p.scattering_mu_size, 128);
    assert_eq!(p.scattering_mu_s_size, 32);
    assert_eq!(p.scattering_nu_size, 8);
    assert_eq!(p.irradiance_mu_s_size, 64);
    assert_eq!(p.irradiance_r_size, 16);
    assert_eq!(p.solar_irradiance, [bits(1.474), bits(1.850), bits(1.91198)]);
    assert_eq!(p.sun_angular_radius, bits(0.004675));
    assert_eq!(p.bottom_radius, bits(6360.0));
    assert_eq!(p.top_radius, bits(6420.0));
    assert_eq!(p.rayleigh_scattering, [bits(0.005802), bits(0.013558), bits(0.033100)]);
    assert_eq!(p.mie_scattering, [bits(0.003996); 3]);
    assert_eq!(p.mie_extinction, [bits(0.004440); 3]);
    assert_eq!(p.mie_phase_function_g, bits(0.8));
    assert_eq!(p.absorbtion_extinction, [bits(6.5e-4), bits(1.881e-3), bits(8.5e-5)]);
    assert_eq!(p.ground_albedo, [bits(0.1); 3]);
    assert_eq!(p.mu_s_min, bits(-0.207912));
    assert!(p.is_valid());
}

#[test]
fn default_density_profiles() {
    let p = Parameters::default();
    let nothing = DensityProfileLayer {
        width: bits(0.0),
        exp_term: bits(0.0),
        exp_scale: bits(0.0),
        linear_term: bits(0.0),
        constant_term: bits(0.0),
    };
    assert_eq!(
        p.rayleigh_density,
        DensityProfile {
            layers: [
                nothing,
                DensityProfileLayer { exp_term: bits(1.0), exp_scale: bits(-0.125), ..nothing },
            ],
        }
    );
    assert_eq!(
        p.mie_density,
        DensityProfile {
            layers: [
                nothing,
                DensityProfileLayer { exp_term: bits(1.0), exp_scale: bits(-0.833333), ..nothing },
            ],
        }
    );
    assert_eq!(
        p.absorbtion_density,
        DensityProfile {
            layers: [
                DensityProfileLayer {
                    width: bits(25.0),
                    linear_term: bits(0.066667),
                    constant_term: bits(-0.666667),
                    ..nothing
                },
                DensityProfileLayer {
                    linear_term: bits(-0.066667),
                    constant_term: bits(2.666667),
                    ..nothing
                },
            ],
        }
    );
}

#[test]
fn default_synchronises_with_fragment_shaders() {
    let p = Parameters::default();
    assert_eq!(p.dst_stage_mask, ash::vk::PipelineStageFlags::FRAGMENT_SHADER.as_raw());
    assert_eq!(p.dst_access_mask, ash::vk::AccessFlags::SHADER_READ.as_raw());
    assert_eq!(p.layout, ash::vk::ImageLayout::SHADER_READ_ONLY_OPTIMAL.as_raw());
    assert_eq!(p.usage, ash::vk::ImageUsageFlags::default().as_raw());
}

#[test]
fn extents_of_default() {
    let p = Parameters::default();
    assert_eq!(p.transmittance_extent(), Extent2D { width: 256, height: 64 });
    assert_eq!(p.irradiance_extent(), Extent2D { width: 64, height: 16 });
    assert_eq!(p.scattering_extent(), Extent3D { width: 256, height: 128, depth: 32 });
}

#[test]
fn extents_follow_sizes() {
    let p = Parameters {
        transmittance_mu_size: 7,
        transmittance_r_size: 3,
        irradiance_mu_s_size: 5,
        irradiance_r_size: 11,
        scattering_nu_size: 2,
        scattering_mu_s_size: 8,
        scattering_mu_size: 32,
        scattering_r_size: 8,
        ..Parameters::default()
    };
    assert_eq!(p.transmittance_extent(), Extent2D { width: 7, height: 3 });
    assert_eq!(p.irradiance_extent(), Extent2D { width: 5, height: 11 });
    assert_eq!(p.scattering_extent(), Extent3D { width: 16, height: 32, depth: 8 });
}

#[test]
fn extents_of_one() {
    let p = Parameters {
        transmittance_mu_size: 1,
        transmittance_r_size: 1,
        irradiance_mu_s_size: 1,
        irradiance_r_size: 1,
        scattering_nu_size: 1,
        scattering_mu_s_size: 1,
        scattering_mu_size: 1,
        scattering_r_size: 1,
        ..Parameters::default()
    };
    assert!(p.is_valid());
    assert_eq!(p.transmittance_extent(), Extent2D { width: 1, height: 1 });
    assert_eq!(p.scattering_extent(), Extent3D { width: 1, height: 1, depth: 1 });
}

#[test]
fn validity_asks_for_positive_sizes() {
    let p = Parameters::default();
    assert!(!Parameters { order: 0, ..p }.is_valid());
    assert!(Parameters { order: 1, ..p }.is_valid());
    assert!(!Parameters { transmittance_mu_size: 0, ..p }.is_valid());
    assert!(!Parameters { transmittance_r_size: 0, ..p }.is_valid());
    assert!(!Parameters { scattering_r_size: 0, ..p }.is_valid());
    assert!(!Parameters { scattering_mu_size: 0, ..p }.is_valid());
    assert!(!Parameters { scattering_mu_s_size: 0, ..p }.is_valid());
    assert!(!Parameters { scattering_nu_size: 0, ..p }.is_valid());
    assert!(!Parameters { irradiance_mu_s_size: 0, ..p }.is_valid());
    assert!(!Parameters { irradiance_r_size: 0, ..p }.is_valid());
}

#[test]
fn validity_asks_for_a_width_that_fits() {
    let p = Parameters::default();
    assert!(Parameters { scattering_nu_size: 0xffff, scattering_mu_s_size: 0x1_0001, ..p }
        .is_valid());
    assert!(!Parameters { scattering_nu_size: 0x1_0000, scattering_mu_s_size: 0x1_0000, ..p }
        .is_valid());
}

#[test]
fn packed_block_is_320_bytes() {
    let words = Parameters::default().pack();
    assert_eq!(words.len(), 80);
    assert_eq!(words.len(), PARAMS_WORDS);
    assert_eq!(4 * words.len() as u64, PARAMS_SIZE);
    assert_eq!(PARAMS_SIZE, 320);
}

#[test]
fn packed_block_starts_with_colours_and_scalars() {
    let p = Parameters::default();
    let w = p.pack();
    assert_eq!(w[0..3], p.solar_irradiance);
    assert_eq!(w[3], p.sun_angular_radius);
    assert_eq!(w[4..7], p.rayleigh_scattering);
    assert_eq!(w[7], p.bottom_radius);
    assert_eq!(w[8..11], p.mie_scattering);
    assert_eq!(w[11], p.top_radius);
    assert_eq!(w[12..15], p.mie_extinction);
    assert_eq!(w[15], p.mie_phase_function_g);
    assert_eq!(w[16..19], p.ground_albedo);
    assert_eq!(w[19], p.mu_s_min);
    assert_eq!(w[20..23], p.absorbtion_extinction);
}

#[test]
fn packed_block_holds_sizes_at_byte_92() {
    let p = Parameters {
        transmittance_mu_size: 1,
        transmittance_r_size: 2,
        scattering_r_size: 3,
        scattering_mu_size: 4,
        scattering_mu_s_size: 5,
        scattering_nu_size: 6,
        irradiance_mu_s_size: 7,
        irradiance_r_size: 8,
        ..Parameters::default()
    };
    let w = p.pack();
    assert_eq!(92 / 4, 23);
    assert_eq!(w[23..31], [1, 2, 3, 4, 5, 6, 7, 8]);
    assert_eq!(w[31], 0);
}

#[test]
fn packed_block_pads_layers_to_32_bytes() {
    let layer = |n: u32| DensityProfileLayer {
        width: n,
        exp_term: n + 1,
        exp_scale: n + 2,
        linear_term: n + 3,
        constant_term: n + 4,
    };
    let p = Parameters {
        rayleigh_density: DensityProfile { layers: [layer(100), layer(200)] },
        mie_density: DensityProfile { layers: [layer(300), layer(400)] },
        absorbtion_density: DensityProfile { layers: [layer(500), layer(600)] },
        ..Parameters::default()
    };
    let w = p.pack();
    for (i, first) in [100u32, 200, 300, 400, 500, 600].iter().enumerate() {
        let at = 128 / 4 + 8 * i;
        assert_eq!(w[at..at + 5], [*first, first + 1, first + 2, first + 3, first + 4]);
        assert_eq!(w[at + 5..at + 8], [0, 0, 0]);
    }
}

#[test]
fn packed_block_leaves_out_what_the_shaders_do_not_read() {
    let p = Parameters::default();
    let q = Parameters {
        usage: 0x10,
        dst_stage_mask: 0x800,
        dst_access_mask: 0x40,
        layout: 1,
        order: 9,
        ..p
    };
    assert_eq!(p.pack(), q.pack());
}

#[test]
fn raw_parameters_copy_every_field() {
    let p = Parameters::default();
    let raw = ParamsRaw::new(&p);
    assert_eq!(raw.solar_irradiance, p.solar_irradiance);
    assert_eq!(raw.top_radius, p.top_radius);
    assert_eq!(raw.irradiance_r_size, p.irradiance_r_size);
    assert_eq!(
        raw.absorbtion_density.layers[0],
        DensityProfileLayerRaw::new(&p.absorbtion_density.layers[0])
    );
    assert_eq!(raw.absorbtion_density.layers[0].width, 25.0f32.to_bits());
    assert_eq!(raw.to_words(), p.pack());
}
