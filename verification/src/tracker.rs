//! A model of what a command stream does to the images of a run.
//!
//! The tracker follows the layout of every image, whether it holds a write
//! that no barrier has made visible yet, and what is bound. A stream is in
//! order when every dispatch samples images that are in the read-only layout
//! and hold no pending write, stores to images that are in the general layout
//! and hold no pending write, and runs with the descriptor sets of its pass
//! bound through compatible pipeline layouts.

use crate::catalog::{ImageId, PassKind, SetId, Slot};
use crate::commands::{views, Command, CommandView, ImageBarrier};
use crate::packed::PARAMS_WORDS;
use crate::raw::{
    DESCRIPTOR_COMBINED_IMAGE_SAMPLER, DESCRIPTOR_STORAGE_IMAGE, LAYOUT_GENERAL,
    LAYOUT_SHADER_READ_ONLY_OPTIMAL, LAYOUT_TRANSFER_DST_OPTIMAL, LAYOUT_UNDEFINED,
};
use vstd::prelude::*;

verus! {

/// What is known of one image.
#[derive(Clone, Copy, Debug, PartialEq, Eq, Structural)]
pub struct ImageState {
    /// The layout the image is in.
    pub layout: i32,
    /// Whether the image was written since the last barrier on it.
    pub dirty: bool,
    /// Whether the image was cleared to zero and neither stored to nor
    /// cleared to another value since.
    pub zeroed: bool,
}

/// What is known of every image of a run.
#[derive(Clone, Copy, Debug, PartialEq, Eq, Structural)]
pub struct Images {
    pub transmittance: ImageState,
    pub scattering: ImageState,
    pub irradiance: ImageState,
    pub delta_irradiance: ImageState,
    pub delta_rayleigh: ImageState,
    pub delta_mie: ImageState,
    pub delta_multiple_scattering: ImageState,
    pub scattering_density: ImageState,
}

/// A descriptor set as it is bound: which set, through which pass's
/// pipeline layout.
#[derive(Clone, Copy, Debug, PartialEq, Eq, Structural)]
pub struct Bound {
    pub set: SetId,
    pub layout: PassKind,
}

/// One dispatch as it ran: the pass whose pipeline was bound, the constant
/// pushed for it since its pipeline was bound, and the work group counts.
#[derive(Clone, Copy, Debug, PartialEq, Eq, Structural)]
pub struct Launch {
    pub pass: PassKind,
    pub constant: Option<u32>,
    pub x: u32,
    pub y: u32,
    pub z: u32,
}

/// The state of a recording.
pub struct State {
    pub images: Images,
    /// Whether the parameter buffer was filled.
    pub params_written: bool,
    /// Whether the parameter buffer was written since the last barrier on it.
    pub params_dirty: bool,
    /// The pass whose pipeline is bound.
    pub pipeline: Option<PassKind>,
    /// The constant pushed since the pipeline was bound.
    pub constant: Option<u32>,
    /// What is bound at set 0.
    pub set0: Option<Bound>,
    /// What is bound at set 1.
    pub set1: Option<Bound>,
    /// The dispatches so far.
    pub launches: Seq<Launch>,
}

/// An image as it is created: layout undefined, nothing written.
pub open spec fn fresh() -> ImageState {
    ImageState { layout: LAYOUT_UNDEFINED, dirty: false, zeroed: false }
}

impl Images {
    pub open spec fn get(self, image: ImageId) -> ImageState {
        match image {
            ImageId::Transmittance => self.transmittance,
            ImageId::Scattering => self.scattering,
            ImageId::Irradiance => self.irradiance,
            ImageId::DeltaIrradiance => self.delta_irradiance,
            ImageId::DeltaRayleigh => self.delta_rayleigh,
            ImageId::DeltaMie => self.delta_mie,
            ImageId::DeltaMultipleScattering => self.delta_multiple_scattering,
            ImageId::ScatteringDensity => self.scattering_density,
        }
    }

    pub open spec fn set(self, image: ImageId, state: ImageState) -> Images {
        match image {
            ImageId::Transmittance => Images { transmittance: state, ..self },
            ImageId::Scattering => Images { scattering: state, ..self },
            ImageId::Irradiance => Images { irradiance: state, ..self },
            ImageId::DeltaIrradiance => Images { delta_irradiance: state, ..self },
            ImageId::DeltaRayleigh => Images { delta_rayleigh: state, ..self },
            ImageId::DeltaMie => Images { delta_mie: state, ..self },
            ImageId::DeltaMultipleScattering => Images {
                delta_multiple_scattering: state,
                ..self
            },
            ImageId::ScatteringDensity => Images { scattering_density: state, ..self },
        }
    }

    /// Every image as it is created.
    pub open spec fn created() -> Images {
        Images {
            transmittance: fresh(),
            scattering: fresh(),
            irradiance: fresh(),
            delta_irradiance: fresh(),
            delta_rayleigh: fresh(),
            delta_mie: fresh(),
            delta_multiple_scattering: fresh(),
            scattering_density: fresh(),
        }
    }

    /// The images after one barrier, or `None` where the barrier names an
    /// old layout that the image is not in. A transition out of the
    /// undefined layout is always in order, and discards what the image held.
    pub open spec fn transition(self, barrier: ImageBarrier) -> Option<Images> {
        let before = self.get(barrier.image);
        if barrier.old_layout == LAYOUT_UNDEFINED || barrier.old_layout == before.layout {
            Some(
                self.set(
                    barrier.image,
                    ImageState {
                        layout: barrier.new_layout,
                        dirty: false,
                        zeroed: before.zeroed && barrier.old_layout != LAYOUT_UNDEFINED,
                    },
                ),
            )
        } else {
            None
        }
    }

    /// The images after the first `n` of `barriers`, in turn.
    pub open spec fn transitions(self, barriers: Seq<ImageBarrier>, n: nat) -> Option<Images>
        decreases n,
    {
        if n == 0 {
            Some(self)
        } else {
            match self.transitions(barriers, (n - 1) as nat) {
                Some(images) => images.transition(barriers[n - 1]),
                None => None,
            }
        }
    }

    /// The images after a dispatch has used one descriptor, or `None` where
    /// the image is not ready for that use: sampling needs the read-only
    /// layout, storing the general layout, and both an image without a
    /// pending write.
    pub open spec fn access(self, slot: Slot) -> Option<Images> {
        match slot.image {
            None => Some(self),
            Some(image) => {
                let before = self.get(image);
                if before.dirty {
                    None
                } else if slot.descriptor_type == DESCRIPTOR_COMBINED_IMAGE_SAMPLER {
                    if before.layout == LAYOUT_SHADER_READ_ONLY_OPTIMAL {
                        Some(self)
                    } else {
                        None
                    }
                } else if slot.descriptor_type == DESCRIPTOR_STORAGE_IMAGE {
                    if before.layout == LAYOUT_GENERAL {
                        Some(
                            self.set(
                                image,
                                ImageState { layout: before.layout, dirty: true, zeroed: false },
                            ),
                        )
                    } else {
                        None
                    }
                } else {
                    None
                }
            },
        }
    }

    /// The images after a dispatch has used the first `n` of `slots`.
    pub open spec fn accesses(self, slots: Seq<Slot>, n: nat) -> Option<Images>
        decreases n,
    {
        if n == 0 {
            Some(self)
        } else {
            match self.accesses(slots, (n - 1) as nat) {
                Some(images) => images.access(slots[n - 1]),
                None => None,
            }
        }
    }
}

/// Whether a set bound at set number `number` through the pipeline layout of
/// `bound` can be used by the pipeline of `used`: the layouts agree on every
/// set up to that number and on their push constant ranges.
pub open spec fn compatible(number: int, bound: PassKind, used: PassKind) -> bool {
    if number == 0 {
        bound.has_push_constants() == used.has_push_constants()
    } else {
        bound == used
    }
}

/// What stays bound at set number `number` when sets are bound through
/// `layout`.
pub open spec fn keep(number: int, bound: Option<Bound>, layout: PassKind) -> Option<Bound> {
    match bound {
        Some(b) => if compatible(number, b.layout, layout) {
            bound
        } else {
            None
        },
        None => None,
    }
}

impl State {
    /// The state before the first command: images as created, nothing
    /// uploaded, nothing bound.
    pub open spec fn start() -> State {
        State {
            images: Images::created(),
            params_written: false,
            params_dirty: false,
            pipeline: None,
            constant: None,
            set0: None,
            set1: None,
            launches: seq![],
        }
    }

    /// The state after descriptor sets are bound, or `None` where a set
    /// does not fit the pipeline layout at its number.
    pub open spec fn bind(self, layout: PassKind, first_set: u32, sets: Seq<SetId>) -> Option<
        State,
    > {
        if first_set == 0 && sets == seq![SetId::Params, SetId::Pass(layout)] {
            Some(
                State {
                    set0: Some(Bound { set: SetId::Params, layout }),
                    set1: Some(Bound { set: SetId::Pass(layout), layout }),
                    ..self
                },
            )
        } else if first_set == 0 && sets == seq![SetId::Params] {
            Some(
                State {
                    set0: Some(Bound { set: SetId::Params, layout }),
                    set1: keep(1, self.set1, layout),
                    ..self
                },
            )
        } else if first_set == 1 && sets == seq![SetId::Pass(layout)] {
            Some(
                State {
                    set0: keep(0, self.set0, layout),
                    set1: Some(Bound { set: SetId::Pass(layout), layout }),
                    ..self
                },
            )
        } else if sets.len() == 0 {
            Some(self)
        } else {
            None
        }
    }

    /// The state after a dispatch, or `None` where no pipeline is bound,
    /// the sets of its pass are not bound through compatible layouts, the
    /// parameters are not visible, or an image is not ready.
    pub open spec fn dispatch(self, x: u32, y: u32, z: u32) -> Option<State> {
        match (self.pipeline, self.set0, self.set1) {
            (Some(pass), Some(b0), Some(b1)) => {
                if b0.set == SetId::Params && compatible(0, b0.layout, pass) && b1.set
                    == SetId::Pass(pass) && compatible(1, b1.layout, pass) && self.params_written
                    && !self.params_dirty {
                    match self.images.accesses(pass.slots(), pass.slots().len()) {
                        Some(images) => Some(
                            State {
                                images,
                                launches: self.launches.push(
                                    Launch { pass, constant: self.constant, x, y, z },
                                ),
                                ..self
                            },
                        ),
                        None => None,
                    }
                } else {
                    None
                }
            },
            _ => None,
        }
    }

    /// The state after one command, or `None` where the command is out of
    /// order.
    pub open spec fn step(self, command: CommandView) -> Option<State> {
        match command {
            CommandView::UpdateBuffer { data } => {
                if data.len() == PARAMS_WORDS {
                    Some(State { params_written: true, params_dirty: true, ..self })
                } else {
                    None
                }
            },
            CommandView::PipelineBarrier { buffers, images, .. } => {
                match self.images.transitions(images, images.len()) {
                    Some(after) => Some(
                        State {
                            images: after,
                            params_dirty: self.params_dirty && buffers.len() == 0,
                            ..self
                        },
                    ),
                    None => None,
                }
            },
            CommandView::BindPipeline { pass } => Some(
                State { pipeline: Some(pass), constant: None, ..self },
            ),
            CommandView::BindDescriptorSets { layout, first_set, sets } => self.bind(
                layout,
                first_set,
                sets,
            ),
            CommandView::PushConstants { layout, value } => {
                if layout.has_push_constants() {
                    Some(State { constant: Some(value), ..self })
                } else {
                    None
                }
            },
            CommandView::Dispatch { x, y, z } => self.dispatch(x, y, z),
            CommandView::ClearColorImage { image, image_layout, color } => {
                let before = self.images.get(image);
                if before.layout == image_layout && !before.dirty && (image_layout
                    == LAYOUT_TRANSFER_DST_OPTIMAL || image_layout == LAYOUT_GENERAL) {
                    Some(
                        State {
                            images: self.images.set(
                                image,
                                ImageState {
                                    layout: image_layout,
                                    dirty: true,
                                    zeroed: color.is_zero(),
                                },
                            ),
                            ..self
                        },
                    )
                } else {
                    None
                }
            },
        }
    }

    /// The state after the first `n` of `commands`, or `None` where one of
    /// them is out of order.
    pub open spec fn run(self, commands: Seq<CommandView>, n: nat) -> Option<State>
        decreases n,
    {
        if n == 0 {
            Some(self)
        } else {
            match self.run(commands, (n - 1) as nat) {
                Some(state) => state.step(commands[n - 1]),
                None => None,
            }
        }
    }

    /// The state after all of `commands`.
    pub open spec fn after(self, commands: Seq<CommandView>) -> Option<State> {
        self.run(commands, commands.len())
    }
}

/// The state that a whole recording ends in, or `None` where a command of
/// it is out of order.
pub open spec fn replay(commands: Seq<CommandView>) -> Option<State> {
    State::start().after(commands)
}

/// Running a stream up to `n` looks at its first `n` commands only.
pub proof fn lemma_run_prefix(s: State, a: Seq<CommandView>, b: Seq<CommandView>, n: nat)
    requires
        n <= a.len(),
        n <= b.len(),
        forall|i: int| 0 <= i < n ==> a[i] == b[i],
    ensures
        s.run(a, n) == s.run(b, n),
    decreases n,
{
    if n > 0 {
        lemma_run_prefix(s, a, b, (n - 1) as nat);
    }
}

/// Running two streams one after the other is running their concatenation.
pub proof fn lemma_after_concat(s: State, a: Seq<CommandView>, b: Seq<CommandView>)
    ensures
        s.after(a + b) == match s.after(a) {
            Some(t) => t.after(b),
            None => None,
        },
{
    lemma_run_concat(s, a, b, b.len());
}

impl Images {
    /// Reads the state of one image.
    pub fn of(&self, image: ImageId) -> (r: ImageState)
        ensures
            r == self.get(image),
    {
        match image {
            ImageId::Transmittance => self.transmittance,
            ImageId::Scattering => self.scattering,
            ImageId::Irradiance => self.irradiance,
            ImageId::DeltaIrradiance => self.delta_irradiance,
            ImageId::DeltaRayleigh => self.delta_rayleigh,
            ImageId::DeltaMie => self.delta_mie,
            ImageId::DeltaMultipleScattering => self.delta_multiple_scattering,
            ImageId::ScatteringDensity => self.scattering_density,
        }
    }

    /// Replaces the state of one image.
    pub fn put(&mut self, image: ImageId, state: ImageState)
        ensures
            *final(self) == old(self).set(image, state),
    {
        match image {
            ImageId::Transmittance => self.transmittance = state,
            ImageId::Scattering => self.scattering = state,
            ImageId::Irradiance => self.irradiance = state,
            ImageId::DeltaIrradiance => self.delta_irradiance = state,
            ImageId::DeltaRayleigh => self.delta_rayleigh = state,
            ImageId::DeltaMie => self.delta_mie = state,
            ImageId::DeltaMultipleScattering => self.delta_multiple_scattering = state,
            ImageId::ScatteringDensity => self.scattering_density = state,
        }
    }

    fn apply_barriers(&mut self, barriers: &Vec<ImageBarrier>) -> (ok: bool)
        ensures
            match old(self).transitions(barriers@, barriers@.len()) {
                Some(images) => ok && *final(self) == images,
                None => !ok,
            },
    {
        let mut i: usize = 0;
        while i < barriers.len()
            invariant
                i <= barriers.len(),
                old(self).transitions(barriers@, i as nat) == Some(*self),
            decreases barriers.len() - i,
        {
            let barrier = barriers[i];
            let before = self.of(barrier.image);
            if barrier.old_layout == LAYOUT_UNDEFINED || barrier.old_layout == before.layout {
                self.put(
                    barrier.image,
                    ImageState {
                        layout: barrier.new_layout,
                        dirty: false,
                        zeroed: before.zeroed && barrier.old_layout != LAYOUT_UNDEFINED,
                    },
                );
            } else {
                proof {
                    lemma_transitions_stay_failed(*old(self), barriers@, i as nat + 1, barriers@.len());
                }
                return false;
            }
            i += 1;
        }
        true
    }

    fn apply_slots(&mut self, slots: &Vec<Slot>) -> (ok: bool)
        ensures
            match old(self).accesses(slots@, slots@.len()) {
                Some(images) => ok && *final(self) == images,
                None => !ok,
            },
    {
        let mut i: usize = 0;
        while i < slots.len()
            invariant
                i <= slots.len(),
                old(self).accesses(slots@, i as nat) == Some(*self),
            decreases slots.len() - i,
        {
            let slot = slots[i];
            let mut ok = true;
            match slot.image {
                None => {},
                Some(image) => {
                    let before = self.of(image);
                    if before.dirty {
                        ok = false;
                    } else if slot.descriptor_type == DESCRIPTOR_COMBINED_IMAGE_SAMPLER {
                        ok = before.layout == LAYOUT_SHADER_READ_ONLY_OPTIMAL;
                    } else if slot.descriptor_type == DESCRIPTOR_STORAGE_IMAGE {
                        if before.layout == LAYOUT_GENERAL {
                            self.put(
                                image,
                                ImageState { layout: before.layout, dirty: true, zeroed: false },
                            );
                        } else {
                            ok = false;
                        }
                    } else {
                        ok = false;
                    }
                },
            }
            if !ok {
                proof {
                    lemma_accesses_stay_failed(*old(self), slots@, i as nat + 1, slots@.len());
                }
                return false;
            }
            i += 1;
        }
        true
    }
}

proof fn lemma_transitions_stay_failed(images: Images, barriers: Seq<ImageBarrier>, n: nat, m: nat)
    requires
        n <= m,
        images.transitions(barriers, n).is_none(),
    ensures
        images.transitions(barriers, m).is_none(),
    decreases m,
{
    if n < m {
        lemma_transitions_stay_failed(images, barriers, n, (m - 1) as nat);
    }
}

proof fn lemma_accesses_stay_failed(images: Images, slots: Seq<Slot>, n: nat, m: nat)
    requires
        n <= m,
        images.accesses(slots, n).is_none(),
    ensures
        images.accesses(slots, m).is_none(),
    decreases m,
{
    if n < m {
        lemma_accesses_stay_failed(images, slots, n, (m - 1) as nat);
    }
}

proof fn lemma_run_stays_failed(s: State, commands: Seq<CommandView>, n: nat, m: nat)
    requires
        n <= m,
        s.run(commands, n).is_none(),
    ensures
        s.run(commands, m).is_none(),
    decreases m,
{
    if n < m {
        lemma_run_stays_failed(s, commands, n, (m - 1) as nat);
    }
}

/// Follows a recording command by command.
#[derive(Debug)]
pub struct Tracker {
    pub images: Images,
    pub params_written: bool,
    pub params_dirty: bool,
    pub pipeline: Option<PassKind>,
    pub constant: Option<u32>,
    pub set0: Option<Bound>,
    pub set1: Option<Bound>,
    pub launches: Vec<Launch>,
}

impl View for Tracker {
    type V = State;

    open spec fn view(&self) -> State {
        State {
            images: self.images,
            params_written: self.params_written,
            params_dirty: self.params_dirty,
            pipeline: self.pipeline,
            constant: self.constant,
            set0: self.set0,
            set1: self.set1,
            launches: self.launches@,
        }
    }
}

fn kept(number: u8, bound: Option<Bound>, layout: PassKind) -> (r: Option<Bound>)
    requires
        number <= 1,
    ensures
        r == keep(number as int, bound, layout),
{
    match bound {
        Some(b) => {
            let fits = if number == 0 {
                b.layout.declares_push_constants() == layout.declares_push_constants()
            } else {
                b.layout == layout
            };
            if fits {
                bound
            } else {
                None
            }
        },
        None => None,
    }
}

impl Tracker {
    /// A tracker before the first command.
    pub fn new() -> (r: Tracker)
        ensures
            r@ == State::start(),
    {
        let fresh = ImageState { layout: LAYOUT_UNDEFINED, dirty: false, zeroed: false };
        Tracker {
            images: Images {
                transmittance: fresh,
                scattering: fresh,
                irradiance: fresh,
                delta_irradiance: fresh,
                delta_rayleigh: fresh,
                delta_mie: fresh,
                delta_multiple_scattering: fresh,
                scattering_density: fresh,
            },
            params_written: false,
            params_dirty: false,
            pipeline: None,
            constant: None,
            set0: None,
            set1: None,
            launches: Vec::new(),
        }
    }

    fn bind(&mut self, layout: PassKind, first_set: u32, sets: &Vec<SetId>) -> (ok: bool)
        ensures
            match old(self)@.bind(layout, first_set, sets@) {
                Some(state) => ok && final(self)@ == state,
                None => !ok,
            },
    {
        let own = SetId::Pass(layout);
        if first_set == 0 && sets.len() == 2 && sets[0] == SetId::Params && sets[1] == own {
            assert(sets@ =~= seq![SetId::Params, SetId::Pass(layout)]);
            self.set0 = Some(Bound { set: SetId::Params, layout });
            self.set1 = Some(Bound { set: own, layout });
            true
        } else if first_set == 0 && sets.len() == 1 && sets[0] == SetId::Params {
            assert(sets@ =~= seq![SetId::Params]);
            self.set0 = Some(Bound { set: SetId::Params, layout });
            self.set1 = kept(1, self.set1, layout);
            true
        } else if first_set == 1 && sets.len() == 1 && sets[0] == own {
            assert(sets@ =~= seq![SetId::Pass(layout)]);
            self.set0 = kept(0, self.set0, layout);
            self.set1 = Some(Bound { set: own, layout });
            true
        } else {
            assert(sets@ != seq![SetId::Params, SetId::Pass(layout)] || first_set != 0) by {
                if sets@ == seq![SetId::Params, SetId::Pass(layout)] {
                    assert(sets@.len() == 2 && sets@[0] == SetId::Params && sets@[1] == own);
                }
            }
            assert(sets@ != seq![SetId::Params] || first_set != 0) by {
                if sets@ == seq![SetId::Params] {
                    assert(sets@.len() == 1 && sets@[0] == SetId::Params);
                }
            }
            assert(sets@ != seq![SetId::Pass(layout)] || first_set != 1) by {
                if sets@ == seq![SetId::Pass(layout)] {
                    assert(sets@.len() == 1 && sets@[0] == own);
                }
            }
            sets.len() == 0
        }
    }

    fn dispatch(&mut self, x: u32, y: u32, z: u32) -> (ok: bool)
        ensures
            match old(self)@.dispatch(x, y, z) {
                Some(state) => ok && final(self)@ == state,
                None => !ok,
            },
    {
        match (self.pipeline, self.set0, self.set1) {
            (Some(pass), Some(b0), Some(b1)) => {
                if b0.set == SetId::Params && b0.layout.declares_push_constants()
                    == pass.declares_push_constants() && b1.set == SetId::Pass(pass) && b1.layout
                    == pass && self.params_written && !self.params_dirty {
                    let slots = SetId::Pass(pass).slots();
                    if self.images.apply_slots(&slots) {
                        self.launches.push(Launch { pass, constant: self.constant, x, y, z });
                        true
                    } else {
                        false
                    }
                } else {
                    false
                }
            },
            _ => false,
        }
    }

    /// Follows one command. Returns whether the command is in order; where
    /// it is not, the tracker is of no further use.
    pub fn step(&mut self, command: &Command) -> (ok: bool)
        ensures
            match old(self)@.step(command@) {
                Some(state) => ok && final(self)@ == state,
                None => !ok,
            },
    {
        match command {
            Command::UpdateBuffer { data } => {
                if data.len() == PARAMS_WORDS {
                    self.params_written = true;
                    self.params_dirty = true;
                    true
                } else {
                    false
                }
            },
            Command::PipelineBarrier { buffers, images, .. } => {
                if self.images.apply_barriers(images) {
                    self.params_dirty = self.params_dirty && buffers.len() == 0;
                    true
                } else {
                    false
                }
            },
            Command::BindPipeline { pass } => {
                self.pipeline = Some(*pass);
                self.constant = None;
                true
            },
            Command::BindDescriptorSets { layout, first_set, sets } => self.bind(
                *layout,
                *first_set,
                sets,
            ),
            Command::PushConstants { layout, value } => {
                if layout.declares_push_constants() {
                    self.constant = Some(*value);
                    true
                } else {
                    false
                }
            },
            Command::Dispatch { x, y, z } => self.dispatch(*x, *y, *z),
            Command::ClearColorImage { image, image_layout, color } => {
                let before = self.images.of(*image);
                if before.layout == *image_layout && !before.dirty && (*image_layout
                    == LAYOUT_TRANSFER_DST_OPTIMAL || *image_layout == LAYOUT_GENERAL) {
                    self.images.put(
                        *image,
                        ImageState { layout: *image_layout, dirty: true, zeroed: color.zero() },
                    );
                    true
                } else {
                    false
                }
            },
        }
    }

    /// Follows a whole recording from its start. Returns the tracker as the
    /// recording leaves it, or `None` where a command of it is out of order.
    pub fn follow(commands: &Vec<Command>) -> (r: Option<Tracker>)
        ensures
            match replay(views(commands@)) {
                Some(state) => r matches Some(tracker) && tracker@ == state,
                None => r.is_none(),
            },
    {
        let mut tracker = Tracker::new();
        let ghost all = views(commands@);
        let mut i: usize = 0;
        while i < commands.len()
            invariant
                i <= commands.len(),
                all == views(commands@),
                State::start().run(all, i as nat) == Some(tracker@),
            decreases commands.len() - i,
        {
            if !tracker.step(&commands[i]) {
                proof {
                    lemma_run_stays_failed(State::start(), all, i as nat + 1, all.len());
                }
                return None;
            }
            i += 1;
        }
        Some(tracker)
    }
}

proof fn lemma_run_concat(s: State, a: Seq<CommandView>, b: Seq<CommandView>, n: nat)
    requires
        n <= b.len(),
    ensures
        s.run(a + b, a.len() + n) == match s.after(a) {
            Some(t) => t.run(b, n),
            None => None,
        },
    decreases n,
{
    if n == 0 {
        lemma_run_prefix(s, a + b, a, a.len());
    } else {
        lemma_run_concat(s, a, b, (n - 1) as nat);
        assert((a + b)[a.len() + n - 1] == b[n - 1]);
    }
}

} // verus!
