use fuzzyblue::atmosphere::{Image, RunObjects};
use fuzzyblue::builder::Stage;
use fuzzyblue::memory::{MemoryProperties, MemoryRequirements, MemoryType};
use fuzzyblue::raw;
use fuzzyblue::resources::{image_order, transient_sets};
use fuzzyblue::tracker::Tracker;
use fuzzyblue::{Atmosphere, Builder, Parameters};

#[test]
fn smoke() {
    let queue_family_index = 0;
    let mut memory_types = [MemoryType { property_flags: 0, heap_index: 0 }; 32];
    memory_types[0].property_flags = 0b110;
    memory_types[1].property_flags = raw::MEMORY_PROPERTY_DEVICE_LOCAL;
    let memory_props = MemoryProperties { memory_type_count: 2, memory_types };
    let stages: Vec<Stage> =
        (1..=6u64).map(|i| Stage { shader: i, layout: 10 + i, ds_layout: 20 + i }).collect();
    let pipelines: Vec<u64> = (1..=6u64).map(|i| 30 + i).collect();
    let builder =
        Builder::new(memory_props, queue_family_index, None, 40, 41, 42, 43, &stages, &pipelines);

    let memory = builder
        .choose_memory(MemoryRequirements { size: 36, alignment: 32, memory_type_bits: 0b11 })
        .unwrap();
    assert_eq!(memory.allocation_size, 36);
    assert_eq!(memory.memory_type_index, 1);

    let objects = RunObjects {
        images: (0..image_order().len() as u64)
            .map(|i| Image { handle: 100 + i, view: 200 + i, memory: 300 + i })
            .collect(),
        params: 50,
        params_mem: 51,
        descriptor_pool: 52,
        sets: (0..transient_sets().len() as u64).map(|i| 60 + i).collect(),
        persistent_pool: 53,
        render_ds: 54,
    };

    let (pending, recording) = Atmosphere::build(
        &builder,
        &objects,
        // Simplified for speed
        &Parameters {
            scattering_r_size: 8,
            scattering_mu_size: 32,
            scattering_mu_s_size: 8,
            scattering_nu_size: 2,
            ..Default::default()
        },
    );

    let had_error = Tracker::follow(&recording.commands).is_none();

    let released = pending.release();
    assert_eq!(released.len(), 28);

    if had_error {
        panic!("the recording is out of order");
    }
}
