//! Proofs that the command stream of a run is in order, whatever the
//! parameters: no image is sampled or stored to while a write to it is
//! pending or while it is in the wrong layout, and every table ends in the
//! layout that the parameters ask for.

use crate::catalog::{
    lemma_irradiance_table, lemma_single_scattering_images, ImageId, PassKind, SetId,
};
use crate::commands::CommandView;
use crate::packed::lemma_packed_layout;
use crate::params::Parameters;
use crate::raw::{LAYOUT_GENERAL, LAYOUT_SHADER_READ_ONLY_OPTIMAL};
use crate::schedule::{
    add_order, clear_irradiance, direct_irradiance_pass, finalization, first_order,
    higher_orders, indirect_irradiance_pass, multiple_scattering_pass,
    publish_single_scattering, scattering_density_pass, schedule, single_scattering_pass,
    transmittance_pass, upload,
};
use crate::tracker::{lemma_after_concat, replay, Bound, ImageState, Images, Launch, State};
use vstd::prelude::*;

verus! {

/// An image in `layout` that holds no pending write.
pub open spec fn settled(layout: i32) -> ImageState {
    ImageState { layout, dirty: false, zeroed: false }
}

/// An image in the general layout that a shader has stored to.
pub open spec fn stored() -> ImageState {
    ImageState { layout: LAYOUT_GENERAL, dirty: true, zeroed: false }
}

/// The launch of `pass` over a two-dimensional table.
pub open spec fn launch_2d(pass: PassKind, constant: Option<u32>, width: u32, height: u32)
    -> Launch {
    Launch { pass, constant, x: width, y: height, z: 1 }
}

/// The launch of `pass` over the scattering table.
pub open spec fn launch_3d(pass: PassKind, constant: Option<u32>, p: Parameters) -> Launch {
    Launch {
        pass,
        constant,
        x: p.spec_scattering_extent().width,
        y: p.spec_scattering_extent().height,
        z: p.spec_scattering_extent().depth,
    }
}

/// Both sets bound through the pipeline layout of `pass`.
pub open spec fn bound_for(s: State, pass: PassKind) -> State {
    State {
        pipeline: Some(pass),
        constant: None,
        set0: Some(Bound { set: SetId::Params, layout: pass }),
        set1: Some(Bound { set: SetId::Pass(pass), layout: pass }),
        ..s
    }
}

/// The state after the upload.
pub open spec fn uploaded() -> State {
    State {
        images: Images {
            transmittance: settled(LAYOUT_GENERAL),
            scattering: settled(LAYOUT_GENERAL),
            irradiance: settled(LAYOUT_GENERAL),
            delta_irradiance: settled(LAYOUT_GENERAL),
            delta_rayleigh: settled(LAYOUT_GENERAL),
            delta_mie: settled(LAYOUT_GENERAL),
            delta_multiple_scattering: settled(LAYOUT_GENERAL),
            scattering_density: settled(LAYOUT_GENERAL),
        },
        params_written: true,
        params_dirty: false,
        ..State::start()
    }
}

/// The launches of the first order.
pub open spec fn first_launches(p: Parameters) -> Seq<Launch> {
    seq![
        launch_2d(
            PassKind::Transmittance,
            None,
            p.transmittance_mu_size,
            p.transmittance_r_size,
        ),
        launch_2d(
            PassKind::DirectIrradiance,
            None,
            p.irradiance_mu_s_size,
            p.irradiance_r_size,
        ),
        launch_3d(PassKind::SingleScattering, None, p),
    ]
}

/// The state after the transmittance pass.
pub open spec fn transmitted(p: Parameters) -> State {
    State {
        images: Images {
            transmittance: settled(LAYOUT_SHADER_READ_ONLY_OPTIMAL),
            ..uploaded().images
        },
        launches: first_launches(p).take(1),
        ..bound_for(uploaded(), PassKind::Transmittance)
    }
}

/// The state after the direct irradiance pass.
pub open spec fn lit(p: Parameters) -> State {
    State {
        images: Images { delta_irradiance: stored(), ..transmitted(p).images },
        pipeline: Some(PassKind::DirectIrradiance),
        set1: Some(
            Bound {
                set: SetId::Pass(PassKind::DirectIrradiance),
                layout: PassKind::DirectIrradiance,
            },
        ),
        launches: first_launches(p).take(2),
        ..transmitted(p)
    }
}

/// The state after the single scattering pass.
pub open spec fn scattered(p: Parameters) -> State {
    State {
        images: Images {
            delta_rayleigh: stored(),
            delta_mie: stored(),
            scattering: stored(),
            ..lit(p).images
        },
        pipeline: Some(PassKind::SingleScattering),
        set1: Some(
            Bound {
                set: SetId::Pass(PassKind::SingleScattering),
                layout: PassKind::SingleScattering,
            },
        ),
        launches: first_launches(p),
        ..lit(p)
    }
}

/// The state after the first order: the transmittance and single scattering
/// can be sampled, the scattering table holds single scattering, the
/// irradiance table holds zeros.
pub open spec fn first_order_done(p: Parameters) -> State {
    State {
        images: Images {
            irradiance: ImageState { layout: LAYOUT_GENERAL, dirty: false, zeroed: true },
            delta_rayleigh: settled(LAYOUT_SHADER_READ_ONLY_OPTIMAL),
            delta_mie: settled(LAYOUT_SHADER_READ_ONLY_OPTIMAL),
            ..scattered(p).images
        },
        ..scattered(p)
    }
}

proof fn lemma_upload(p: Parameters)
    ensures
        State::start().after(upload(p)) == Some(uploaded()),
{
    lemma_packed_layout(p);
    reveal_with_fuel(State::run, 3);
    reveal_with_fuel(Images::transitions, 9);
}

proof fn lemma_transmittance_pass(p: Parameters)
    ensures
        uploaded().after(transmittance_pass(p)) == Some(transmitted(p)),
{
    let s = uploaded();
    let c = transmittance_pass(p);
    reveal_with_fuel(State::run, 5);
    reveal_with_fuel(Images::transitions, 2);
    reveal_with_fuel(Images::accesses, 2);
    assert(c.len() == 4);
    let t = s.after(c);
    assert(t is Some);
    assert(t->0.launches =~= transmitted(p).launches);
}

proof fn lemma_direct_irradiance_pass(p: Parameters)
    ensures
        transmitted(p).after(direct_irradiance_pass(p)) == Some(lit(p)),
{
    let s = transmitted(p);
    let c = direct_irradiance_pass(p);
    reveal_with_fuel(State::run, 4);
    reveal_with_fuel(Images::accesses, 3);
    assert(c.len() == 3);
    let t = s.after(c);
    assert(t is Some);
    assert(t->0.launches =~= lit(p).launches);
}

proof fn lemma_single_scattering_pass(p: Parameters)
    ensures
        lit(p).after(single_scattering_pass(p)) == Some(scattered(p)),
{
    let s = lit(p);
    let c = single_scattering_pass(p);
    reveal_with_fuel(State::run, 4);
    reveal_with_fuel(Images::accesses, 5);
    assert(c.len() == 3);
    let t = s.after(c);
    assert(t is Some);
    assert(t->0.launches =~= scattered(p).launches);
}

proof fn lemma_clear_and_publish(p: Parameters)
    ensures
        scattered(p).after(clear_irradiance().push(publish_single_scattering())) == Some(
            first_order_done(p),
        ),
{
    reveal_with_fuel(State::run, 4);
    reveal_with_fuel(Images::transitions, 3);
}

/// The first order is in order and ends in `first_order_done`.
pub proof fn lemma_first_order(p: Parameters)
    ensures
        replay(first_order(p)) == Some(first_order_done(p)),
{
    let s = State::start();
    lemma_upload(p);
    lemma_transmittance_pass(p);
    lemma_direct_irradiance_pass(p);
    lemma_single_scattering_pass(p);
    lemma_clear_and_publish(p);
    let a = upload(p);
    let b = transmittance_pass(p);
    let c = direct_irradiance_pass(p);
    let d = single_scattering_pass(p);
    let e = clear_irradiance().push(publish_single_scattering());
    lemma_after_concat(s, a, b);
    lemma_after_concat(s, a + b, c);
    lemma_after_concat(s, a + b + c, d);
    lemma_after_concat(s, a + b + c + d, e);
}

/// What every order from the second on starts from: the parameters are
/// visible, the transmittance and single scattering can be sampled, and the
/// two tables and the two deltas that the order rewrites are in the general
/// layout.
pub open spec fn ready(s: State) -> bool {
    &&& s.params_written
    &&& !s.params_dirty
    &&& s.images.transmittance == settled(LAYOUT_SHADER_READ_ONLY_OPTIMAL)
    &&& s.images.delta_rayleigh == settled(LAYOUT_SHADER_READ_ONLY_OPTIMAL)
    &&& s.images.delta_mie == settled(LAYOUT_SHADER_READ_ONLY_OPTIMAL)
    &&& s.images.scattering.layout == LAYOUT_GENERAL
    &&& !s.images.scattering.zeroed
    &&& s.images.irradiance.layout == LAYOUT_GENERAL
    &&& s.images.delta_irradiance.layout == LAYOUT_GENERAL
    &&& !s.images.delta_irradiance.zeroed
    &&& s.images.delta_multiple_scattering.layout == LAYOUT_GENERAL
    &&& !s.images.delta_multiple_scattering.zeroed
}

/// The launches of order `order`.
pub open spec fn order_launches(p: Parameters, order: u32) -> Seq<Launch> {
    seq![
        launch_3d(PassKind::ScatteringDensity, Some(order), p),
        launch_2d(
            PassKind::IndirectIrradiance,
            Some((order - 1) as u32),
            p.irradiance_mu_s_size,
            p.irradiance_r_size,
        ),
        launch_3d(PassKind::MultipleScattering, None, p),
    ]
}

/// The launches of the first `count` of the higher orders.
pub open spec fn higher_launches(p: Parameters, count: nat) -> Seq<Launch>
    decreases count,
{
    if count == 0 {
        seq![]
    } else {
        higher_launches(p, (count - 1) as nat) + order_launches(p, (count + 1) as u32)
    }
}

/// The state after the scattering density pass of an order.
pub open spec fn gathered(s: State, p: Parameters, order: u32) -> State {
    State {
        images: Images {
            scattering_density: stored(),
            delta_irradiance: settled(LAYOUT_SHADER_READ_ONLY_OPTIMAL),
            delta_multiple_scattering: settled(LAYOUT_SHADER_READ_ONLY_OPTIMAL),
            ..s.images
        },
        constant: Some(order),
        launches: s.launches.push(launch_3d(PassKind::ScatteringDensity, Some(order), p)),
        ..bound_for(s, PassKind::ScatteringDensity)
    }
}

/// The state after the indirect irradiance pass of an order.
pub open spec fn relit(s: State, p: Parameters, order: u32) -> State {
    let g = gathered(s, p, order);
    State {
        images: Images { delta_irradiance: stored(), irradiance: stored(), ..g.images },
        constant: Some((order - 1) as u32),
        launches: g.launches.push(
            launch_2d(
                PassKind::IndirectIrradiance,
                Some((order - 1) as u32),
                p.irradiance_mu_s_size,
                p.irradiance_r_size,
            ),
        ),
        ..bound_for(g, PassKind::IndirectIrradiance)
    }
}

/// The state after an order was added.
pub open spec fn order_added(s: State, p: Parameters, order: u32) -> State {
    let r = relit(s, p, order);
    State {
        images: Images {
            scattering_density: settled(LAYOUT_SHADER_READ_ONLY_OPTIMAL),
            scattering: stored(),
            delta_multiple_scattering: stored(),
            ..r.images
        },
        launches: r.launches.push(launch_3d(PassKind::MultipleScattering, None, p)),
        ..bound_for(r, PassKind::MultipleScattering)
    }
}

proof fn lemma_scattering_density_pass(s: State, p: Parameters, order: u32)
    requires
        ready(s),
    ensures
        s.after(scattering_density_pass(p, order)) == Some(gathered(s, p, order)),
{
    let c = scattering_density_pass(p, order);
    reveal_with_fuel(State::run, 6);
    reveal_with_fuel(Images::transitions, 4);
    reveal_with_fuel(Images::accesses, 7);
    assert(c.len() == 5);
    assert(s.after(c) is Some);
}

proof fn lemma_indirect_irradiance_pass(s: State, p: Parameters, order: u32)
    requires
        ready(s),
    ensures
        gathered(s, p, order).after(indirect_irradiance_pass(p, order)) == Some(
            relit(s, p, order),
        ),
{
    let c = indirect_irradiance_pass(p, order);
    reveal_with_fuel(State::run, 6);
    reveal_with_fuel(Images::transitions, 3);
    reveal_with_fuel(Images::accesses, 6);
    assert(c.len() == 5);
    assert(gathered(s, p, order).after(c) is Some);
}

proof fn lemma_multiple_scattering_pass(s: State, p: Parameters, order: u32)
    requires
        ready(s),
    ensures
        relit(s, p, order).after(multiple_scattering_pass(p)) == Some(order_added(s, p, order)),
{
    let c = multiple_scattering_pass(p);
    reveal_with_fuel(State::run, 5);
    reveal_with_fuel(Images::transitions, 4);
    reveal_with_fuel(Images::accesses, 5);
    assert(c.len() == 4);
    assert(relit(s, p, order).after(c) is Some);
}

/// From a ready state, the three passes of an order are in order and leave
/// a ready state.
pub proof fn lemma_add_order(s: State, p: Parameters, order: u32)
    requires
        ready(s),
    ensures
        s.after(add_order(p, order)) == Some(order_added(s, p, order)),
        ready(order_added(s, p, order)),
        order_added(s, p, order).launches == s.launches + order_launches(p, order),
        order_added(s, p, order).images.irradiance == stored(),
        order_added(s, p, order).images.scattering == stored(),
{
    lemma_scattering_density_pass(s, p, order);
    lemma_indirect_irradiance_pass(s, p, order);
    lemma_multiple_scattering_pass(s, p, order);
    let a = scattering_density_pass(p, order);
    let b = indirect_irradiance_pass(p, order);
    let c = multiple_scattering_pass(p);
    lemma_after_concat(s, a, b);
    lemma_after_concat(s, a + b, c);
    assert(order_added(s, p, order).launches =~= s.launches + order_launches(p, order));
}

/// From a ready state, any number of higher orders is in order and leaves a
/// ready state; with no order added the state is the one it started from.
pub proof fn lemma_higher_orders(s: State, p: Parameters, count: nat)
    requires
        ready(s),
    ensures
        s.after(higher_orders(p, count)) matches Some(t) && {
            &&& ready(t)
            &&& t.launches == s.launches + higher_launches(p, count)
            &&& count == 0 ==> t == s
            &&& count > 0 ==> t.images.irradiance == stored() && t.images.scattering == stored()
        },
    decreases count,
{
    if count == 0 {
        assert(higher_orders(p, 0) =~= seq![]);
        assert(s.launches + higher_launches(p, 0) =~= s.launches);
    } else {
        let before = (count - 1) as nat;
        let order = (count + 1) as u32;
        lemma_higher_orders(s, p, before);
        let m = s.after(higher_orders(p, before))->0;
        lemma_add_order(m, p, order);
        lemma_after_concat(s, higher_orders(p, before), add_order(p, order));
        assert(s.launches + higher_launches(p, count) =~= (s.launches + higher_launches(
            p,
            before,
        )) + order_launches(p, order));
    }
}

/// From a ready state, the last barrier is in order and leaves the three
/// tables in the layout that the parameters ask for, with no write pending.
pub proof fn lemma_finalization(
    s: State,
    p: Parameters,
    gfx_queue_family: u32,
    compute_queue_family: Option<u32>,
)
    requires
        ready(s),
    ensures
        s.after(seq![finalization(p, gfx_queue_family, compute_queue_family)]) matches Some(t) && {
            &&& t.images.transmittance == settled(p.layout)
            &&& t.images.scattering == settled(p.layout)
            &&& t.images.irradiance == ImageState {
                layout: p.layout,
                dirty: false,
                zeroed: s.images.irradiance.zeroed,
            }
            &&& t.params_written
            &&& !t.params_dirty
            &&& t.launches == s.launches
        },
{
    reveal_with_fuel(State::run, 2);
    reveal_with_fuel(Images::transitions, 4);
}

/// The launches of a whole run.
pub open spec fn run_launches(p: Parameters) -> Seq<Launch> {
    first_launches(p) + higher_launches(p, (p.order - 1) as nat)
}

/// Whether `commands` carries a run with parameters `p` through: every
/// command is in order, the three tables end in the layout that the
/// parameters ask for with no write pending, the parameter buffer is filled
/// and visible, the passes launched are those of the first order followed by
/// those of each higher order, and the irradiance table still holds the zeros
/// it was cleared to exactly when one order is asked for.
pub open spec fn completes(commands: Seq<CommandView>, p: Parameters) -> bool {
    replay(commands) matches Some(t) && {
        &&& t.images.transmittance == settled(p.layout)
        &&& t.images.scattering == settled(p.layout)
        &&& t.images.irradiance == ImageState {
            layout: p.layout,
            dirty: false,
            zeroed: p.order == 1,
        }
        &&& t.params_written
        &&& !t.params_dirty
        &&& t.launches == run_launches(p)
    }
}

/// The command stream of a run is in order from its first command to its
/// last and carries the run through, for every parameter set that a run
/// accepts and every pair of queue families.
pub proof fn lemma_schedule_in_order(
    p: Parameters,
    gfx_queue_family: u32,
    compute_queue_family: Option<u32>,
)
    requires
        p.valid(),
    ensures
        completes(schedule(p, gfx_queue_family, compute_queue_family), p),
{
    let s = State::start();
    let count = (p.order - 1) as nat;
    let a = first_order(p);
    let b = higher_orders(p, count);
    let c = seq![finalization(p, gfx_queue_family, compute_queue_family)];
    lemma_first_order(p);
    let m = first_order_done(p);
    lemma_higher_orders(m, p, count);
    let n = m.after(b)->0;
    lemma_finalization(n, p, gfx_queue_family, compute_queue_family);
    lemma_after_concat(s, a, b);
    lemma_after_concat(s, a + b, c);
    assert(schedule(p, gfx_queue_family, compute_queue_family) =~= a + b + c);
}

/// The higher orders launch three passes per order: for the `i`-th of them
/// (counting from zero) the scattering density pass is told `i + 2`, the
/// indirect irradiance pass `i + 1`, and the multiple scattering pass
/// nothing.
pub proof fn lemma_higher_launches(p: Parameters, count: nat)
    requires
        count < u32::MAX,
    ensures
        higher_launches(p, count).len() == 3 * count,
        forall|i: int|
            0 <= i < count ==> {
                &&& (#[trigger] higher_launches(p, count)[3 * i]) == launch_3d(
                    PassKind::ScatteringDensity,
                    Some((i + 2) as u32),
                    p,
                )
                &&& higher_launches(p, count)[3 * i + 1] == launch_2d(
                    PassKind::IndirectIrradiance,
                    Some((i + 1) as u32),
                    p.irradiance_mu_s_size,
                    p.irradiance_r_size,
                )
                &&& higher_launches(p, count)[3 * i + 2] == launch_3d(
                    PassKind::MultipleScattering,
                    None,
                    p,
                )
            },
    decreases count,
{
    if count > 0 {
        let before = (count - 1) as nat;
        lemma_higher_launches(p, before);
        let all = higher_launches(p, count);
        let last = order_launches(p, (count + 1) as u32);
        assert(all == higher_launches(p, before) + last);
        assert forall|i: int| 0 <= i < count implies {
            &&& (#[trigger] all[3 * i]) == launch_3d(
                PassKind::ScatteringDensity,
                Some((i + 2) as u32),
                p,
            )
            &&& all[3 * i + 1] == launch_2d(
                PassKind::IndirectIrradiance,
                Some((i + 1) as u32),
                p.irradiance_mu_s_size,
                p.irradiance_r_size,
            )
            &&& all[3 * i + 2] == launch_3d(PassKind::MultipleScattering, None, p)
        } by {
            if i < before {
                assert(all[3 * i] == higher_launches(p, before)[3 * i]);
                assert(all[3 * i + 1] == higher_launches(p, before)[3 * i + 1]);
                assert(all[3 * i + 2] == higher_launches(p, before)[3 * i + 2]);
            } else {
                assert(all[3 * i] == last[0]);
                assert(all[3 * i + 1] == last[1]);
                assert(all[3 * i + 2] == last[2]);
            }
        }
    }
}

/// With one order of scattering no higher order is added: the stream is the
/// first order and the last barrier, the three passes of the first order are
/// all that is launched, and the irradiance table, which only the indirect
/// irradiance pass stores to, ends holding the zeros it was cleared to.
pub proof fn lemma_single_order(
    p: Parameters,
    gfx_queue_family: u32,
    compute_queue_family: Option<u32>,
)
    requires
        p.valid(),
        p.order == 1,
    ensures
        schedule(p, gfx_queue_family, compute_queue_family) == first_order(p).push(
            finalization(p, gfx_queue_family, compute_queue_family),
        ),
        replay(schedule(p, gfx_queue_family, compute_queue_family)) matches Some(t) && {
            &&& t.launches == first_launches(p)
            &&& t.images.irradiance.zeroed
            &&& t.images.irradiance.layout == p.layout
        },
        forall|i: int|
            0 <= i < first_launches(p).len() ==> !(#[trigger] first_launches(p)[i]).pass.stores(
                ImageId::Irradiance,
            ),
{
    lemma_schedule_in_order(p, gfx_queue_family, compute_queue_family);
    assert(higher_orders(p, 0) =~= seq![]);
    assert(higher_launches(p, 0) =~= seq![]);
    assert(first_order(p) + higher_orders(p, 0) =~= first_order(p));
    assert(run_launches(p) =~= first_launches(p));
    assert forall|i: int| 0 <= i < first_launches(p).len() implies !(
    #[trigger] first_launches(p)[i]).pass.stores(ImageId::Irradiance) by {
        lemma_irradiance_table(first_launches(p)[i].pass);
    }
}

/// With `k` orders of scattering the higher orders are added `k - 1` times:
/// after the three launches of the first order come `k - 1` groups of three,
/// and in the `i`-th group (counting from zero) the scattering density pass
/// is told `i + 2`, rising from 2 to `k`, and the indirect irradiance pass
/// one less.
pub proof fn lemma_order_constants(
    p: Parameters,
    gfx_queue_family: u32,
    compute_queue_family: Option<u32>,
)
    requires
        p.valid(),
    ensures
        replay(schedule(p, gfx_queue_family, compute_queue_family)) matches Some(t) && {
            &&& t.launches.len() == 3 + 3 * (p.order - 1)
            &&& t.launches.take(3) == first_launches(p)
            &&& forall|i: int|
                0 <= i < p.order - 1 ==> {
                    &&& (#[trigger] t.launches[3 + 3 * i]).pass == PassKind::ScatteringDensity
                    &&& t.launches[3 + 3 * i].constant == Some((i + 2) as u32)
                    &&& t.launches[3 + 3 * i + 1].pass == PassKind::IndirectIrradiance
                    &&& t.launches[3 + 3 * i + 1].constant == Some((i + 1) as u32)
                    &&& t.launches[3 + 3 * i + 2].pass == PassKind::MultipleScattering
                    &&& t.launches[3 + 3 * i + 2].constant.is_none()
                }
        },
{
    let count = (p.order - 1) as nat;
    lemma_schedule_in_order(p, gfx_queue_family, compute_queue_family);
    lemma_higher_launches(p, count);
    let all = run_launches(p);
    let higher = higher_launches(p, count);
    assert(all.take(3) =~= first_launches(p));
    assert forall|i: int| 0 <= i < p.order - 1 implies {
        &&& (#[trigger] all[3 + 3 * i]).pass == PassKind::ScatteringDensity
        &&& all[3 + 3 * i].constant == Some((i + 2) as u32)
        &&& all[3 + 3 * i + 1].pass == PassKind::IndirectIrradiance
        &&& all[3 + 3 * i + 1].constant == Some((i + 1) as u32)
        &&& all[3 + 3 * i + 2].pass == PassKind::MultipleScattering
        &&& all[3 + 3 * i + 2].constant.is_none()
    } by {
        assert(all[3 + 3 * i] == higher[3 * i]);
        assert(all[3 + 3 * i + 1] == higher[3 * i + 1]);
        assert(all[3 + 3 * i + 2] == higher[3 * i + 2]);
    }
}

/// Single scattering is computed once and sampled from then on: in a whole
/// run the third launch, that of the single scattering pass, is the only one
/// that stores to the images of single scattering by air and by aerosols.
pub proof fn lemma_single_scattering_is_kept(p: Parameters)
    requires
        p.valid(),
    ensures
        run_launches(p).len() == 3 + 3 * (p.order - 1),
        forall|i: int|
            0 <= i < run_launches(p).len() ==> (((#[trigger] run_launches(p)[i]).pass.stores(
                ImageId::DeltaRayleigh,
            ) || run_launches(p)[i].pass.stores(ImageId::DeltaMie)) <==> i == 2),
{
    let count = (p.order - 1) as nat;
    let all = run_launches(p);
    let higher = higher_launches(p, count);
    lemma_higher_launches(p, count);
    assert forall|i: int| 0 <= i < all.len() implies ((#[trigger] all[i]).pass.stores(
        ImageId::DeltaRayleigh,
    ) || all[i].pass.stores(ImageId::DeltaMie) <==> i == 2) by {
        lemma_single_scattering_images(all[i].pass);
        if i >= 3 {
            let k = (i - 3) / 3;
            assert(all[i] == higher[i - 3]);
            assert(i - 3 == 3 * k || i - 3 == 3 * k + 1 || i - 3 == 3 * k + 2);
            assert(higher[3 * k].pass == PassKind::ScatteringDensity);
        }
    }
}

} // verus!
