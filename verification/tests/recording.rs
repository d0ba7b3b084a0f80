use fuzzyblue::catalog::{ImageId, PassKind, SetId};
use fuzzyblue::commands::{whole_image, BufferBarrier, ClearColor, Command, ImageBarrier};
use fuzzyblue::raw;
use fuzzyblue::schedule::{finalize, record, release_barrier, source_family};
use fuzzyblue::tracker::{ImageState, Launch, Tracker};
use fuzzyblue::Parameters;

const IGNORED: u32 = 0xffff_ffff;

fn small(order: u32) -> Parameters {
    Parameters {
        order,
        scattering_r_size: 8,
        scattering_mu_size: 32,
        scattering_mu_s_size: 8,
        scattering_nu_size: 2,
        ..Parameters::default()
    }
}

fn constants(commands: &[Command]) -> Vec<(PassKind, u32)> {
    let mut found = Vec::new();
    for c in commands.iter() {
        if let Command::PushConstants { layout, value } = c {
            found.push((*layout, *value));
        }
    }
    found
}

fn dispatches(commands: &[Command]) -> usize {
    commands.iter().filter(|c| matches!(c, Command::Dispatch { .. })).count()
}

fn compute_barrier(images: Vec<ImageBarrier>) -> Command {
    Command::PipelineBarrier {
        src_stage_mask: raw::STAGE_COMPUTE_SHADER,
        dst_stage_mask: raw::STAGE_COMPUTE_SHADER,
        buffers: Vec::new(),
        images,
    }
}

#[test]
fn barrier_templates() {
    let image = ImageId::DeltaMie;
    assert_eq!(
        ImageBarrier::init(image),
        ImageBarrier {
            image,
            src_access_mask: 0,
            dst_access_mask: 0x40,
            old_layout: 0,
            new_layout: 1,
            src_queue_family_index: IGNORED,
            dst_queue_family_index: IGNORED,
        }
    );
    assert_eq!(
        ImageBarrier::write_read(image),
        ImageBarrier {
            image,
            src_access_mask: 0x40,
            dst_access_mask: 0x20,
            old_layout: 1,
            new_layout: 5,
            src_queue_family_index: IGNORED,
            dst_queue_family_index: IGNORED,
        }
    );
    assert_eq!(
        ImageBarrier::read_write(image),
        ImageBarrier {
            image,
            src_access_mask: 0x20,
            dst_access_mask: 0x40,
            old_layout: 5,
            new_layout: 1,
            src_queue_family_index: IGNORED,
            dst_queue_family_index: IGNORED,
        }
    );
    assert_eq!(
        ImageBarrier::write(image),
        ImageBarrier {
            image,
            src_access_mask: 0x40,
            dst_access_mask: 0x60,
            old_layout: 1,
            new_layout: 1,
            src_queue_family_index: IGNORED,
            dst_queue_family_index: IGNORED,
        }
    );
    let range = whole_image();
    assert_eq!(
        (range.aspect_mask, range.base_mip_level, range.level_count),
        (raw::IMAGE_ASPECT_COLOR, 0, 1)
    );
    assert_eq!((range.base_array_layer, range.layer_count), (0, 1));
}

#[test]
fn one_order_records_no_loop() {
    let commands = record(&small(1), 0, None);
    assert_eq!(commands.len(), 16);
    assert_eq!(dispatches(&commands), 3);
    assert!(constants(&commands).is_empty());
}

#[test]
fn each_higher_order_adds_fourteen_commands() {
    for order in 1..=6u32 {
        let commands = record(&small(order), 0, None);
        assert_eq!(commands.len(), 16 + 14 * (order as usize - 1));
        assert_eq!(dispatches(&commands), 3 + 3 * (order as usize - 1));
    }
}

#[test]
fn default_run_has_fifty_eight_commands() {
    assert_eq!(record(&Parameters::default(), 0, None).len(), 58);
}

#[test]
fn constants_rise_from_two_to_the_order() {
    let commands = record(&small(5), 0, None);
    assert_eq!(
        constants(&commands),
        vec![
            (PassKind::ScatteringDensity, 2),
            (PassKind::IndirectIrradiance, 1),
            (PassKind::ScatteringDensity, 3),
            (PassKind::IndirectIrradiance, 2),
            (PassKind::ScatteringDensity, 4),
            (PassKind::IndirectIrradiance, 3),
            (PassKind::ScatteringDensity, 5),
            (PassKind::IndirectIrradiance, 4),
        ]
    );
}

#[test]
fn two_orders_push_two_and_one() {
    assert_eq!(
        constants(&record(&small(2), 0, None)),
        vec![(PassKind::ScatteringDensity, 2), (PassKind::IndirectIrradiance, 1)]
    );
}

#[test]
fn run_starts_with_the_upload() {
    let p = small(3);
    let commands = record(&p, 0, None);
    assert_eq!(commands[0], Command::UpdateBuffer { data: p.pack() });
    let transitions = vec![
        ImageBarrier::init(ImageId::Transmittance),
        ImageBarrier::init(ImageId::DeltaRayleigh),
        ImageBarrier::init(ImageId::DeltaMie),
        ImageBarrier::init(ImageId::Scattering),
        ImageBarrier::init(ImageId::Irradiance),
        ImageBarrier::init(ImageId::DeltaIrradiance),
        ImageBarrier::init(ImageId::DeltaMultipleScattering),
        ImageBarrier::init(ImageId::ScatteringDensity),
    ];
    assert_eq!(
        commands[1],
        Command::PipelineBarrier {
            src_stage_mask: raw::STAGE_TRANSFER,
            dst_stage_mask: raw::STAGE_COMPUTE_SHADER,
            buffers: vec![BufferBarrier {
                src_access_mask: raw::ACCESS_TRANSFER_WRITE,
                dst_access_mask: raw::ACCESS_UNIFORM_READ,
                src_queue_family_index: IGNORED,
                dst_queue_family_index: IGNORED,
            }],
            images: transitions,
        }
    );
}

#[test]
fn first_order_in_full() {
    let p = small(1);
    let commands = record(&p, 0, None);
    let expected = vec![
        Command::BindPipeline { pass: PassKind::Transmittance },
        Command::BindDescriptorSets {
            layout: PassKind::Transmittance,
            first_set: 0,
            sets: vec![SetId::Params, SetId::Pass(PassKind::Transmittance)],
        },
        Command::Dispatch { x: 256, y: 64, z: 1 },
        compute_barrier(vec![ImageBarrier::write_read(ImageId::Transmittance)]),
        Command::BindPipeline { pass: PassKind::DirectIrradiance },
        Command::BindDescriptorSets {
            layout: PassKind::DirectIrradiance,
            first_set: 1,
            sets: vec![SetId::Pass(PassKind::DirectIrradiance)],
        },
        Command::Dispatch { x: 64, y: 16, z: 1 },
        Command::BindPipeline { pass: PassKind::SingleScattering },
        Command::BindDescriptorSets {
            layout: PassKind::SingleScattering,
            first_set: 1,
            sets: vec![SetId::Pass(PassKind::SingleScattering)],
        },
        Command::Dispatch { x: 16, y: 32, z: 8 },
        Command::ClearColorImage {
            image: ImageId::Irradiance,
            image_layout: raw::LAYOUT_GENERAL,
            color: ClearColor { red: 0, green: 0, blue: 0, alpha: 0 },
        },
        Command::PipelineBarrier {
            src_stage_mask: raw::STAGE_TRANSFER,
            dst_stage_mask: raw::STAGE_COMPUTE_SHADER,
            buffers: Vec::new(),
            images: vec![ImageBarrier {
                src_access_mask: raw::ACCESS_TRANSFER_WRITE,
                ..ImageBarrier::write(ImageId::Irradiance)
            }],
        },
        compute_barrier(vec![
            ImageBarrier::write_read(ImageId::DeltaRayleigh),
            ImageBarrier::write_read(ImageId::DeltaMie),
        ]),
    ];
    assert_eq!(commands.len(), 2 + expected.len() + 1);
    assert_eq!(commands[2..15], expected[..]);
}

#[test]
fn second_order_in_full() {
    let p = small(2);
    let commands = record(&p, 0, None);
    let bind = |pass: PassKind| {
        vec![
            Command::BindPipeline { pass },
            Command::BindDescriptorSets {
                layout: pass,
                first_set: 0,
                sets: vec![SetId::Params, SetId::Pass(pass)],
            },
        ]
    };
    let mut expected = vec![compute_barrier(vec![
        ImageBarrier {
            src_access_mask: raw::ACCESS_SHADER_READ,
            ..ImageBarrier::init(ImageId::ScatteringDensity)
        },
        ImageBarrier::write_read(ImageId::DeltaIrradiance),
        ImageBarrier::write_read(ImageId::DeltaMultipleScattering),
    ])];
    expected.extend(bind(PassKind::ScatteringDensity));
    expected.push(Command::PushConstants { layout: PassKind::ScatteringDensity, value: 2 });
    expected.push(Command::Dispatch { x: 16, y: 32, z: 8 });
    expected.push(compute_barrier(vec![
        ImageBarrier::read_write(ImageId::DeltaIrradiance),
        ImageBarrier::write(ImageId::Irradiance),
    ]));
    expected.extend(bind(PassKind::IndirectIrradiance));
    expected.push(Command::PushConstants { layout: PassKind::IndirectIrradiance, value: 1 });
    expected.push(Command::Dispatch { x: 64, y: 16, z: 1 });
    expected.push(compute_barrier(vec![
        ImageBarrier::write_read(ImageId::ScatteringDensity),
        ImageBarrier::write(ImageId::Scattering),
        ImageBarrier {
            src_access_mask: raw::ACCESS_SHADER_READ,
            ..ImageBarrier::init(ImageId::DeltaMultipleScattering)
        },
    ]));
    expected.extend(bind(PassKind::MultipleScattering));
    expected.push(Command::Dispatch { x: 16, y: 32, z: 8 });
    assert_eq!(expected.len(), 14);
    assert_eq!(commands[15..29], expected[..]);
}

#[test]
fn run_ends_with_the_handover() {
    let p = Parameters {
        dst_stage_mask: 0x8,
        dst_access_mask: 0x100,
        layout: raw::LAYOUT_GENERAL,
        ..small(2)
    };
    let commands = record(&p, 3, Some(5));
    let release = |image: ImageId| ImageBarrier {
        image,
        src_access_mask: raw::ACCESS_SHADER_WRITE,
        dst_access_mask: 0x100,
        old_layout: raw::LAYOUT_GENERAL,
        new_layout: raw::LAYOUT_GENERAL,
        src_queue_family_index: 5,
        dst_queue_family_index: 3,
    };
    let expected = Command::PipelineBarrier {
        src_stage_mask: raw::STAGE_COMPUTE_SHADER,
        dst_stage_mask: 0x8,
        buffers: vec![BufferBarrier {
            src_access_mask: raw::ACCESS_UNIFORM_READ,
            dst_access_mask: 0,
            src_queue_family_index: 5,
            dst_queue_family_index: 3,
        }],
        images: vec![
            release(ImageId::Scattering),
            release(ImageId::Irradiance),
            ImageBarrier {
                src_access_mask: 0,
                old_layout: raw::LAYOUT_SHADER_READ_ONLY_OPTIMAL,
                ..release(ImageId::Transmittance)
            },
        ],
    };
    assert_eq!(commands.last(), Some(&expected));
    assert_eq!(finalize(&p, 3, Some(5)), expected);
    assert_eq!(release_barrier(ImageId::Scattering, &p, 3, Some(5)), release(ImageId::Scattering));
}

#[test]
fn run_on_its_own_family_hands_over_to_graphics() {
    assert_eq!(source_family(3, Some(5)), 5);
    assert_eq!(source_family(3, None), 3);
    assert_eq!(source_family(3, Some(3)), 3);
}

fn families(command: &Command) -> Vec<(u32, u32)> {
    match command {
        Command::PipelineBarrier { buffers, images, .. } => buffers
            .iter()
            .map(|b| (b.src_queue_family_index, b.dst_queue_family_index))
            .chain(images.iter().map(|b| (b.src_queue_family_index, b.dst_queue_family_index)))
            .collect(),
        _ => Vec::new(),
    }
}

#[test]
fn only_the_last_command_moves_ownership() {
    let commands = record(&small(4), 1, Some(2));
    let (last, body) = commands.split_last().unwrap();
    for c in body.iter() {
        for (src, dst) in families(c) {
            assert_eq!((src, dst), (IGNORED, IGNORED));
        }
    }
    assert_eq!(families(last), vec![(2, 1); 4]);
}

#[test]
fn without_a_compute_family_nothing_moves() {
    let commands = record(&small(4), 7, None);
    for c in commands.iter() {
        for (src, dst) in families(c) {
            assert_eq!(src, dst);
        }
    }
    assert_eq!(families(commands.last().unwrap()), vec![(7, 7); 4]);
}

#[test]
fn recorded_runs_are_in_order() {
    for order in 1..=5u32 {
        let p = small(order);
        let commands = record(&p, 0, Some(1));
        let tracker = Tracker::follow(&commands).unwrap();
        assert_eq!(tracker.launches.len(), 3 + 3 * (order as usize - 1));
        let done = |zeroed: bool| ImageState { layout: p.layout, dirty: false, zeroed };
        assert_eq!(tracker.images.transmittance, done(false));
        assert_eq!(tracker.images.scattering, done(false));
        assert_eq!(tracker.images.irradiance, done(order == 1));
        assert!(tracker.params_written);
        assert!(!tracker.params_dirty);
    }
}

#[test]
fn one_order_leaves_irradiance_zeroed() {
    let commands = record(&small(1), 0, None);
    let tracker = Tracker::follow(&commands).unwrap();
    assert!(tracker.images.irradiance.zeroed);
    assert_eq!(
        tracker.launches,
        vec![
            Launch { pass: PassKind::Transmittance, constant: None, x: 256, y: 64, z: 1 },
            Launch { pass: PassKind::DirectIrradiance, constant: None, x: 64, y: 16, z: 1 },
            Launch { pass: PassKind::SingleScattering, constant: None, x: 16, y: 32, z: 8 },
        ]
    );
}

#[test]
fn launches_of_three_orders() {
    let commands = record(&small(3), 0, None);
    let tracker = Tracker::follow(&commands).unwrap();
    let higher: Vec<(PassKind, Option<u32>)> =
        tracker.launches[3..].iter().map(|l| (l.pass, l.constant)).collect();
    assert_eq!(
        higher,
        vec![
            (PassKind::ScatteringDensity, Some(2)),
            (PassKind::IndirectIrradiance, Some(1)),
            (PassKind::MultipleScattering, None),
            (PassKind::ScatteringDensity, Some(3)),
            (PassKind::IndirectIrradiance, Some(2)),
            (PassKind::MultipleScattering, None),
        ]
    );
}

#[test]
fn a_missing_barrier_is_out_of_order() {
    let mut commands = record(&small(2), 0, None);
    // the barrier that turns the transmittance table over to sampling
    assert!(matches!(commands[5], Command::PipelineBarrier { .. }));
    commands.remove(5);
    assert!(Tracker::follow(&commands).is_none());
}

#[test]
fn a_dispatch_before_the_upload_is_out_of_order() {
    let mut commands = record(&small(1), 0, None);
    commands.remove(0);
    assert!(Tracker::follow(&commands).is_none());
}

#[test]
fn a_second_store_without_a_barrier_is_out_of_order() {
    let mut commands = record(&small(1), 0, None);
    // dispatch the transmittance pass twice
    assert!(matches!(commands[4], Command::Dispatch { .. }));
    commands.insert(4, Command::Dispatch { x: 1, y: 1, z: 1 });
    assert!(Tracker::follow(&commands).is_none());
}

#[test]
fn a_barrier_from_the_wrong_layout_is_out_of_order() {
    let mut tracker = Tracker::new();
    assert!(tracker.step(&compute_barrier(vec![ImageBarrier::init(ImageId::Scattering)])));
    assert_eq!(
        tracker.images.scattering,
        ImageState { layout: raw::LAYOUT_GENERAL, dirty: false, zeroed: false }
    );
    assert!(!tracker.step(&compute_barrier(vec![ImageBarrier::read_write(ImageId::Scattering)])));
}

#[test]
fn sets_bound_through_an_incompatible_layout_are_lost() {
    let mut tracker = Tracker::new();
    let p = small(1);
    let commands = record(&p, 0, None);
    for c in commands[0..2].iter() {
        assert!(tracker.step(c));
    }
    // the parameters bound through a layout with a push constant range
    assert!(tracker.step(&Command::BindDescriptorSets {
        layout: PassKind::MultipleScattering,
        first_set: 0,
        sets: vec![SetId::Params],
    }));
    assert!(tracker.step(&Command::BindPipeline { pass: PassKind::Transmittance }));
    assert!(tracker.step(&Command::BindDescriptorSets {
        layout: PassKind::Transmittance,
        first_set: 1,
        sets: vec![SetId::Pass(PassKind::Transmittance)],
    }));
    assert_eq!(tracker.set0, None);
    assert!(!tracker.step(&Command::Dispatch { x: 1, y: 1, z: 1 }));
}

#[test]
fn a_constant_needs_a_range() {
    let mut tracker = Tracker::new();
    assert!(!tracker.step(&Command::PushConstants { layout: PassKind::Transmittance, value: 1 }));
    let mut tracker = Tracker::new();
    assert!(tracker.step(&Command::PushConstants { layout: PassKind::ScatteringDensity, value: 1 }));
    assert_eq!(tracker.constant, Some(1));
}

#[test]
fn an_upload_of_the_wrong_size_is_out_of_order() {
    let mut tracker = Tracker::new();
    assert!(!tracker.step(&Command::UpdateBuffer { data: vec![0; 79] }));
    let mut tracker = Tracker::new();
    assert!(tracker.step(&Command::UpdateBuffer { data: vec![0; 80] }));
    assert!(tracker.params_written && tracker.params_dirty);
}

#[test]
fn a_clear_needs_the_layout_it_names() {
    let mut tracker = Tracker::new();
    let clear = Command::ClearColorImage {
        image: ImageId::Irradiance,
        image_layout: raw::LAYOUT_TRANSFER_DST_OPTIMAL,
        color: ClearColor::zeros(),
    };
    assert!(!tracker.step(&clear));
    let mut tracker = Tracker::new();
    assert!(tracker.step(&compute_barrier(vec![ImageBarrier {
        new_layout: raw::LAYOUT_TRANSFER_DST_OPTIMAL,
        ..ImageBarrier::init(ImageId::Irradiance)
    }])));
    assert!(tracker.step(&clear));
    assert_eq!(
        tracker.images.irradiance,
        ImageState { layout: raw::LAYOUT_TRANSFER_DST_OPTIMAL, dirty: true, zeroed: true }
    );
    assert_eq!(tracker.images.of(ImageId::Irradiance), tracker.images.irradiance);
}

#[test]
fn the_irradiance_table_is_cleared_to_zero() {
    let commands = record(&small(3), 0, None);
    let clears: Vec<&Command> =
        commands.iter().filter(|c| matches!(c, Command::ClearColorImage { .. })).collect();
    assert_eq!(
        clears,
        vec![&Command::ClearColorImage {
            image: ImageId::Irradiance,
            image_layout: raw::LAYOUT_GENERAL,
            color: ClearColor { red: 0, green: 0, blue: 0, alpha: 0 },
        }]
    );
    assert_eq!(ClearColor::zeros(), ClearColor { red: 0, green: 0, blue: 0, alpha: 0 });
    assert_eq!(0.0f32.to_bits(), 0);
    assert!(ClearColor::zeros().zero());
}

#[test]
fn a_clear_to_another_value_leaves_no_zeros() {
    let mut tracker = Tracker::new();
    assert!(tracker.step(&compute_barrier(vec![ImageBarrier::init(ImageId::Irradiance)])));
    let one = 1.0f32.to_bits();
    let color = ClearColor { red: 0, green: 0, blue: 0, alpha: one };
    assert!(!color.zero());
    assert!(tracker.step(&Command::ClearColorImage {
        image: ImageId::Irradiance,
        image_layout: raw::LAYOUT_GENERAL,
        color,
    }));
    assert_eq!(
        tracker.images.irradiance,
        ImageState { layout: raw::LAYOUT_GENERAL, dirty: true, zeroed: false }
    );
}
