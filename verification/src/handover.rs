//! Which commands of a run move resources between queue families.

use crate::atmosphere::PendingAtmosphere;
use crate::catalog::ImageId;
use crate::commands::{CommandView, ImageBarrier};
use crate::params::Parameters;
use crate::schedule::{
    add_order, clear_irradiance, direct_irradiance_pass, finalization, first_order,
    higher_orders, indirect_irradiance_pass, multiple_scattering_pass,
    publish_single_scattering, scattering_density_pass, schedule, single_scattering_pass,
    spec_release_barrier, spec_source_family, transmittance_pass, upload,
};
use crate::tracker::{lemma_after_concat, replay, Images, State};
use vstd::prelude::*;

verus! {

/// Whether every barrier of the command names `from` as its source queue
/// family and `to` as its destination. Commands other than barriers name
/// none.
pub open spec fn hands(command: CommandView, from: u32, to: u32) -> bool {
    match command {
        CommandView::PipelineBarrier { buffers, images, .. } => {
            &&& forall|i: int|
                0 <= i < buffers.len() ==> (#[trigger] buffers[i]).src_queue_family_index == from
                    && buffers[i].dst_queue_family_index == to
            &&& forall|i: int|
                0 <= i < images.len() ==> (#[trigger] images[i]).src_queue_family_index == from
                    && images[i].dst_queue_family_index == to
        },
        _ => true,
    }
}

/// Whether the command leaves every resource with the queue family that
/// has it: each of its barriers names the same family as source and as
/// destination.
pub open spec fn stays(command: CommandView) -> bool {
    match command {
        CommandView::PipelineBarrier { buffers, images, .. } => {
            &&& forall|i: int|
                0 <= i < buffers.len() ==> (#[trigger] buffers[i]).src_queue_family_index
                    == buffers[i].dst_queue_family_index
            &&& forall|i: int|
                0 <= i < images.len() ==> (#[trigger] images[i]).src_queue_family_index
                    == images[i].dst_queue_family_index
        },
        _ => true,
    }
}

/// Whether every command of the stream leaves ownership where it is.
pub open spec fn all_stay(commands: Seq<CommandView>) -> bool {
    forall|i: int| 0 <= i < commands.len() ==> stays(#[trigger] commands[i])
}

proof fn lemma_all_stay_concat(a: Seq<CommandView>, b: Seq<CommandView>)
    requires
        all_stay(a),
        all_stay(b),
    ensures
        all_stay(a + b),
{
    assert forall|i: int| 0 <= i < (a + b).len() implies stays(#[trigger] (a + b)[i]) by {
        if i < a.len() {
            assert((a + b)[i] == a[i]);
        } else {
            assert((a + b)[i] == b[i - a.len()]);
        }
    }
}

proof fn lemma_first_order_stays(p: Parameters)
    ensures
        all_stay(first_order(p)),
{
    let a = upload(p);
    let b = transmittance_pass(p);
    let c = direct_irradiance_pass(p);
    let d = single_scattering_pass(p);
    let e = clear_irradiance().push(publish_single_scattering());
    assert(all_stay(a));
    assert(all_stay(b));
    assert(all_stay(c));
    assert(all_stay(d));
    assert(all_stay(e));
    lemma_all_stay_concat(a, b);
    lemma_all_stay_concat(a + b, c);
    lemma_all_stay_concat(a + b + c, d);
    lemma_all_stay_concat(a + b + c + d, e);
}

proof fn lemma_add_order_stays(p: Parameters, order: u32)
    ensures
        all_stay(add_order(p, order)),
{
    let a = scattering_density_pass(p, order);
    let b = indirect_irradiance_pass(p, order);
    let c = multiple_scattering_pass(p);
    assert(all_stay(a));
    assert(all_stay(b));
    assert(all_stay(c));
    lemma_all_stay_concat(a, b);
    lemma_all_stay_concat(a + b, c);
}

proof fn lemma_higher_orders_stay(p: Parameters, count: nat)
    ensures
        all_stay(higher_orders(p, count)),
    decreases count,
{
    if count > 0 {
        lemma_higher_orders_stay(p, (count - 1) as nat);
        lemma_add_order_stays(p, (count + 1) as u32);
        lemma_all_stay_concat(
            higher_orders(p, (count - 1) as nat),
            add_order(p, (count + 1) as u32),
        );
    }
}

/// Nothing but the last command of a run moves a resource between queue
/// families. The last command is one barrier on the parameter buffer and
/// the three tables, and each of its parts names the family that the run
/// executes on as source and the graphics family as destination. So with a
/// compute family of its own the run ends by handing its results from that
/// family to the graphics family, and without one no command of the run
/// moves anything.
pub proof fn lemma_handover(p: Parameters, gfx_queue_family: u32, compute_queue_family: Option<u32>)
    requires
        p.valid(),
    ensures
        ({
            let s = schedule(p, gfx_queue_family, compute_queue_family);
            let from = spec_source_family(gfx_queue_family, compute_queue_family);
            &&& s.len() > 0
            &&& s.last() == finalization(p, gfx_queue_family, compute_queue_family)
            &&& s.last() matches CommandView::PipelineBarrier { buffers, images, .. }
                && buffers.len() == 1 && images.len() == 3
            &&& hands(s.last(), from, gfx_queue_family)
            &&& all_stay(s.drop_last())
            &&& stays(s.last()) <==> from == gfx_queue_family
            &&& compute_queue_family matches Some(family) ==> from == family
            &&& compute_queue_family.is_none() ==> all_stay(s)
        }),
{
    let s = schedule(p, gfx_queue_family, compute_queue_family);
    let body = first_order(p) + higher_orders(p, (p.order - 1) as nat);
    lemma_first_order_stays(p);
    lemma_higher_orders_stay(p, (p.order - 1) as nat);
    lemma_all_stay_concat(first_order(p), higher_orders(p, (p.order - 1) as nat));
    assert(s.drop_last() =~= body);
    let last = finalization(p, gfx_queue_family, compute_queue_family);
    assert(s.last() == last);
    let buffers = last->PipelineBarrier_buffers;
    assert(buffers.len() == 1);
    if stays(last) {
        assert(buffers[0].src_queue_family_index == buffers[0].dst_queue_family_index);
    }
    if compute_queue_family.is_none() {
        assert forall|i: int| 0 <= i < s.len() implies stays(#[trigger] s[i]) by {
            if i < s.len() - 1 {
                assert(s[i] == s.drop_last()[i]);
            }
        }
    }
}

/// The state that a run ends in does not depend on the queue families:
/// handing the results over to another family and keeping them in the same
/// family leave every image in the same layout, with the same writes made
/// visible.
pub proof fn lemma_families_do_not_matter(
    p: Parameters,
    gfx_queue_family: u32,
    compute_queue_family: Option<u32>,
    other_gfx_queue_family: u32,
    other_compute_queue_family: Option<u32>,
)
    requires
        p.valid(),
    ensures
        replay(schedule(p, gfx_queue_family, compute_queue_family)) == replay(
            schedule(p, other_gfx_queue_family, other_compute_queue_family),
        ),
{
    let s = State::start();
    let body = first_order(p) + higher_orders(p, (p.order - 1) as nat);
    let one = seq![finalization(p, gfx_queue_family, compute_queue_family)];
    let other = seq![finalization(p, other_gfx_queue_family, other_compute_queue_family)];
    lemma_after_concat(s, body, one);
    lemma_after_concat(s, body, other);
    assert(schedule(p, gfx_queue_family, compute_queue_family) =~= body + one);
    assert(schedule(p, other_gfx_queue_family, other_compute_queue_family) =~= body + other);
    if let Some(n) = s.after(body) {
        lemma_last_barrier(
            n,
            p,
            gfx_queue_family,
            compute_queue_family,
            other_gfx_queue_family,
            other_compute_queue_family,
        );
    }
}

proof fn lemma_last_barrier(
    n: State,
    p: Parameters,
    gfx_queue_family: u32,
    compute_queue_family: Option<u32>,
    other_gfx_queue_family: u32,
    other_compute_queue_family: Option<u32>,
)
    ensures
        n.after(seq![finalization(p, gfx_queue_family, compute_queue_family)]) == n.after(
            seq![finalization(p, other_gfx_queue_family, other_compute_queue_family)],
        ),
{
    reveal_with_fuel(State::run, 2);
    reveal_with_fuel(Images::transitions, 4);
}

/// The barrier of `command` on `image`, where it has exactly one.
pub open spec fn barrier_on(command: CommandView, image: ImageId) -> Option<ImageBarrier> {
    match command {
        CommandView::PipelineBarrier { images, .. } => {
            if exists|i: int| 0 <= i < images.len() && images[i].image == image {
                let i = choose|i: int| 0 <= i < images.len() && images[i].image == image;
                Some(images[i])
            } else {
                None
            }
        },
        _ => None,
    }
}

/// The barrier that the graphics queue family acquires the tables with is
/// the other half of the barrier that the run releases them with, whatever
/// the parameters of the run: both wait in the stage that the parameters name,
/// and for each table both name the same two queue families, the same two
/// layouts and the access that the parameters name.
pub proof fn lemma_acquisition_matches_release(
    pending: PendingAtmosphere,
    p: Parameters,
    gfx_queue_family: u32,
    compute_queue_family: u32,
    image: ImageId,
)
    requires
        pending.spec_final_layout() == p.layout,
        pending.spec_dst_access_mask() == p.dst_access_mask,
        pending.spec_dst_stage_mask() == p.dst_stage_mask,
        image.is_table(),
    ensures
        pending.acquisition(compute_queue_family, gfx_queue_family) matches CommandView::PipelineBarrier {
            dst_stage_mask,
            ..
        } && dst_stage_mask == p.dst_stage_mask,
        finalization(
            p,
            gfx_queue_family,
            Some(compute_queue_family),
        ) matches CommandView::PipelineBarrier { dst_stage_mask, .. } && dst_stage_mask
            == p.dst_stage_mask,
        barrier_on(
            pending.acquisition(compute_queue_family, gfx_queue_family),
            image,
        ) matches Some(acquire) && {
            let release = spec_release_barrier(
                image,
                p,
                gfx_queue_family,
                Some(compute_queue_family),
            );
            &&& barrier_on(
                finalization(p, gfx_queue_family, Some(compute_queue_family)),
                image,
            ) == Some(release)
            &&& acquire == pending.acquire_barrier(image, compute_queue_family, gfx_queue_family)
            &&& acquire.image == image
            &&& acquire.old_layout == release.old_layout
            &&& acquire.new_layout == release.new_layout
            &&& acquire.new_layout == p.layout
            &&& acquire.dst_access_mask == release.dst_access_mask
            &&& acquire.dst_access_mask == p.dst_access_mask
            &&& acquire.src_queue_family_index == release.src_queue_family_index
            &&& acquire.dst_queue_family_index == release.dst_queue_family_index
            &&& acquire.src_queue_family_index == compute_queue_family
            &&& acquire.dst_queue_family_index == gfx_queue_family
        },
{
    let acquisition = pending.acquisition(compute_queue_family, gfx_queue_family);
    let last = finalization(p, gfx_queue_family, Some(compute_queue_family));
    let acquired = acquisition->PipelineBarrier_images;
    let released = last->PipelineBarrier_images;
    assert(acquired.len() == 3 && released.len() == 3);
    let a: int = if image == ImageId::Transmittance {
        0
    } else if image == ImageId::Scattering {
        1
    } else {
        2
    };
    let r: int = if image == ImageId::Scattering {
        0
    } else if image == ImageId::Irradiance {
        1
    } else {
        2
    };
    assert(acquired[a].image == image);
    assert(released[r].image == image);
    let i = choose|i: int| 0 <= i < acquired.len() && acquired[i].image == image;
    assert(i == a) by {
        assert(acquired[0].image == ImageId::Transmittance);
        assert(acquired[1].image == ImageId::Scattering);
        assert(acquired[2].image == ImageId::Irradiance);
    }
    let j = choose|j: int| 0 <= j < released.len() && released[j].image == image;
    assert(j == r) by {
        assert(released[0].image == ImageId::Scattering);
        assert(released[1].image == ImageId::Irradiance);
        assert(released[2].image == ImageId::Transmittance);
    }
}

} // verus!
