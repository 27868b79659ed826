//! The step-by-step guide a processor is set up with: an ordered list of
//! input steps, each with a label and a text input, advanced one step at a
//! time once the current input validates.

use vstd::prelude::*;
use crate::color::{is_hex, is_hex_spec};

verus! {

/// The kinds of steps used to set up a processor.
pub enum ProcessingStepTypes {
    /// A standard color input, as a hex code with an optional '#'.
    Color,
}

impl ProcessingStepTypes {
    /// Decides whether an input is valid for this kind of step.
    pub fn is_step_valid(&self, input: String) -> (r: bool)
        ensures
            r == match self {
                ProcessingStepTypes::Color => is_hex_spec(input@),
            },
    {
        match self {
            ProcessingStepTypes::Color => is_hex(&input),
        }
    }
}

/// A single step of the guide: its kind, its label and the input gathered
/// so far.
pub struct ProcessingStep {
    /// The kind of value the step gathers.
    pub step_type: ProcessingStepTypes,
    /// The short description shown for the step.
    pub label: String,
    /// The text input of the step.
    pub input: String,
}

impl ProcessingStep {
    /// A fresh step of the given kind and label, with an empty input.
    pub fn new(step_type: ProcessingStepTypes, label: String) -> (r: ProcessingStep)
        ensures
            r.step_type == step_type,
            r.label@ == label@,
            r.input@.len() == 0,
    {
        ProcessingStep { step_type, label, input: String::new() }
    }

    /// The step's input when it is a valid hex code, `None` otherwise.
    pub fn as_hex(&self) -> (r: Option<String>)
        ensures
            match r {
                Some(s) => is_hex_spec(self.input@) && s@ == self.input@,
                None => !is_hex_spec(self.input@),
            },
    {
        if is_hex(&self.input) {
            return Some(self.input.clone());
        }
        None
    }
}

/// The information needed to create a processor, gathered as a
/// step-by-step guide.
pub struct ProcessingGuide {
    /// The steps required to create the processor.
    pub steps: Vec<ProcessingStep>,
    /// The index of the step currently being filled.
    pub current_step: usize,
}

impl ProcessingGuide {
    /// The current step index never runs past the steps.
    pub open spec fn wf(self) -> bool {
        self.steps@.len() >= 1 && self.current_step < self.steps@.len()
    }

    /// A new guide over the given steps, starting at the first.
    pub fn new(steps: Vec<ProcessingStep>) -> (r: ProcessingGuide)
        ensures
            r.steps@ == steps@,
            r.current_step == 0,
            steps@.len() >= 1 ==> r.wf(),
    {
        ProcessingGuide { steps, current_step: 0 }
    }

    /// The label of the current step.
    pub fn get_current_label(&self) -> (r: String)
        requires
            self.wf(),
        ensures
            r@ == self.steps@[self.current_step as int].label@,
    {
        self.steps[self.current_step].label.clone()
    }

    /// The input of the current step.
    pub fn get_current_input(&self) -> (r: String)
        requires
            self.wf(),
        ensures
            r@ == self.steps@[self.current_step as int].input@,
    {
        self.steps[self.current_step].input.clone()
    }

    /// Replaces the input of the current step.
    pub fn update_current_input(&mut self, new_input: String)
        requires
            old(self).wf(),
        ensures
            final(self).wf(),
            final(self).current_step == old(self).current_step,
            final(self).steps@.len() == old(self).steps@.len(),
            final(self).steps@[old(self).current_step as int].input@ == new_input@,
            final(self).steps@[old(self).current_step as int].label@ == old(self).steps@[old(
                self,
            ).current_step as int].label@,
            final(self).steps@[old(self).current_step as int].step_type == old(self).steps@[old(
                self,
            ).current_step as int].step_type,
            forall|i: int|
                0 <= i < old(self).steps@.len() && i != old(self).current_step
                    ==> final(self).steps@[i] == old(self).steps@[i],
    {
        let i = self.current_step;
        let mut step = self.steps.remove(i);
        step.input = new_input;
        self.steps.insert(i, step);
        proof {
            assert(final(self).steps@ =~= old(self).steps@.update(i as int, final(self).steps@[
                i as int]));
        }
    }

    /// Whether the current step's input validates for its kind.
    pub fn is_current_input_valid(&self) -> (r: bool)
        requires
            self.wf(),
        ensures
            r == match self.steps@[self.current_step as int].step_type {
                ProcessingStepTypes::Color => is_hex_spec(
                    self.steps@[self.current_step as int].input@,
                ),
            },
    {
        self.steps[self.current_step].step_type.is_step_valid(self.get_current_input())
    }

    /// Advances to the next step when the guide is not yet ready and the
    /// current input validates; otherwise nothing changes.
    pub fn try_finish_current_step(&mut self)
        requires
            old(self).wf(),
        ensures
            final(self).wf(),
            final(self).steps@ == old(self).steps@,
            final(self).current_step == (if old(self).current_step + 1 < old(self).steps@.len()
                && (match old(self).steps@[old(self).current_step as int].step_type {
                ProcessingStepTypes::Color => is_hex_spec(
                    old(self).steps@[old(self).current_step as int].input@,
                ),
            }) {
                old(self).current_step + 1
            } else {
                old(self).current_step as int
            }),
    {
        let n = self.steps.len();
        if !self.is_ready() && self.is_current_input_valid() {
            proof {
                assert(self.current_step + 1 < n);
            }
            self.current_step = self.current_step + 1;
        }
    }

    /// Whether the guide has reached its last step.
    pub fn is_ready(&self) -> (r: bool)
        requires
            self.steps@.len() >= 1,
        ensures
            r == (self.current_step + 1 >= self.steps@.len()),
    {
        self.current_step >= self.steps.len() - 1
    }
}

} // verus!
