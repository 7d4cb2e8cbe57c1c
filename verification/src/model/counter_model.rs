//! The example payload: a counter driven by keyboard edges. An Up key press
//! counts only on a released-to-pressed transition, and likewise Down; the
//! counter saturates at the ends of its range.

use vstd::prelude::*;

use crate::input::{ElementState, Input, InputEvent, Key};
use crate::model::Model;

verus! {

/// A counter incremented by Up-key press edges and decremented by Down-key
/// press edges, with the last seen state of either key remembered between
/// batches.
#[derive(Debug, Clone, Copy, PartialEq, Eq, Structural)]
pub struct CounterModel {
    pub counter: i32,
    pub up_state: ElementState,
    pub down_state: ElementState,
}

/// `c + 1`, held at `i32::MAX`.
pub open spec fn inc_sat(c: i32) -> i32 {
    if c == i32::MAX {
        c
    } else {
        (c + 1) as i32
    }
}

/// `c - 1`, held at `i32::MIN`.
pub open spec fn dec_sat(c: i32) -> i32 {
    if c == i32::MIN {
        c
    } else {
        (c - 1) as i32
    }
}

impl CounterModel {
    /// The counter value.
    pub open spec fn spec_count(self) -> i32 {
        self.counter
    }

    /// The freshly constructed model: zero, with both keys released.
    pub open spec fn spec_new() -> CounterModel {
        CounterModel {
            counter: 0,
            up_state: ElementState::Released,
            down_state: ElementState::Released,
        }
    }

    /// The effect of one Up-key transition: count the released-to-pressed
    /// edge, remember the new state.
    pub open spec fn spec_up_event(self, new_state: ElementState) -> CounterModel {
        CounterModel {
            counter: if self.up_state is Released && new_state is Pressed {
                inc_sat(self.counter)
            } else {
                self.counter
            },
            up_state: new_state,
            down_state: self.down_state,
        }
    }

    /// The effect of one Down-key transition.
    pub open spec fn spec_down_event(self, new_state: ElementState) -> CounterModel {
        CounterModel {
            counter: if self.down_state is Released && new_state is Pressed {
                dec_sat(self.counter)
            } else {
                self.counter
            },
            up_state: self.up_state,
            down_state: new_state,
        }
    }

    /// The effect of one input record: only keyboard transitions of the Up
    /// and Down keys matter.
    pub open spec fn spec_apply_input(self, input: Input) -> CounterModel {
        match input.event {
            InputEvent::Keyboard { key, state } => if key is Up {
                self.spec_up_event(state)
            } else if key is Down {
                self.spec_down_event(state)
            } else {
                self
            },
            _ => self,
        }
    }

    /// The effect of a whole drained batch, in arrival order.
    pub open spec fn spec_apply_inputs(self, inputs: Seq<Input>) -> CounterModel
        decreases inputs.len(),
    {
        if inputs.len() == 0 {
            self
        } else {
            self.spec_apply_input(inputs[0]).spec_apply_inputs(inputs.skip(1))
        }
    }

    /// Law: a batch folds step by step — an empty batch changes nothing,
    /// and otherwise the head input applies first, the rest after. Stated
    /// so a caller can evaluate the fold on concrete batches without
    /// unrolling the recursion itself.
    pub proof fn lemma_apply_inputs_unfold(self, inputs: Seq<Input>)
        ensures
            inputs.len() == 0 ==> self.spec_apply_inputs(inputs) == self,
            inputs.len() > 0 ==> self.spec_apply_inputs(inputs) == self.spec_apply_input(
                inputs[0],
            ).spec_apply_inputs(inputs.skip(1)),
    {
    }

    pub fn new() -> (r: Self)
        ensures
            r == Self::spec_new(),
            r.spec_count() == 0,
    {
        Self {
            counter: 0,
            up_state: ElementState::Released,
            down_state: ElementState::Released,
        }
    }

    fn up_event(&mut self, new_state: ElementState)
        ensures
            *final(self) == old(self).spec_up_event(new_state),
    {
        if self.up_state == ElementState::Released && new_state == ElementState::Pressed {
            if self.counter < i32::MAX {
                self.counter = self.counter + 1;
            }
        }
        self.up_state = new_state;
    }

    fn down_event(&mut self, new_state: ElementState)
        ensures
            *final(self) == old(self).spec_down_event(new_state),
    {
        if self.down_state == ElementState::Released && new_state == ElementState::Pressed {
            if self.counter > i32::MIN {
                self.counter = self.counter - 1;
            }
        }
        self.down_state = new_state;
    }

    /// Consumes one drained batch, in arrival order.
    pub fn apply_inputs(&mut self, inputs: &Vec<Input>)
        ensures
            *final(self) == old(self).spec_apply_inputs(inputs@),
    {
        let ghost m0 = *self;
        proof {
            assert(inputs@.skip(0) =~= inputs@);
        }
        let mut i: usize = 0;
        while i < inputs.len()
            invariant
                i <= inputs.len(),
                m0.spec_apply_inputs(inputs@) == self.spec_apply_inputs(inputs@.skip(i as int)),
            decreases inputs.len() - i,
        {
            let ghost before = *self;
            let input = inputs[i];
            if let InputEvent::Keyboard { key, state } = input.event {
                if key == Key::Up {
                    self.up_event(state);
                }
                if key == Key::Down {
                    self.down_event(state);
                }
            }
            proof {
                assert(*self == before.spec_apply_input(inputs@[i as int]));
                assert(inputs@.skip(i as int)[0] == inputs@[i as int]);
                assert(inputs@.skip(i as int).skip(1) =~= inputs@.skip(i as int + 1));
            }
            i = i + 1;
        }
    }

    /// The current counter value.
    pub fn count(&self) -> (r: i32)
        ensures
            r == self.spec_count(),
    {
        self.counter
    }
}

impl Model for CounterModel {
    type PriorResult = ();

    fn prior(&self, _prior_result: Option<()>) -> Option<()> {
        None
    }

    fn update(&mut self, _prior_result: Option<()>, inputs: &Vec<Input>) -> Option<()> {
        self.apply_inputs(inputs);
        None
    }
}

} // verus!
