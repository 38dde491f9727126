//! Pipelines: the steps to run, in order, for one channel.

use vstd::prelude::*;
use crate::json::Members;
use crate::step::SerializedStep;

verus! {

/// An ordered sequence of steps bound to one channel.
#[derive(Debug)]
pub struct Pipeline {
    pub channel: String,
    pub steps: Vec<SerializedStep>,
}

/// A [`Pipeline`] by content.
pub struct PipelineView {
    pub channel: Seq<char>,
    pub steps: Seq<Members>,
}

impl View for Pipeline {
    type V = PipelineView;

    open spec fn view(&self) -> PipelineView {
        PipelineView { channel: self.channel@, steps: crate::step::steps_view(self.steps@) }
    }
}

impl Clone for Pipeline {
    fn clone(&self) -> (copy: Pipeline)
        ensures
            copy@ == self@,
    {
        let mut steps: Vec<SerializedStep> = Vec::new();
        let mut i: usize = 0;
        while i < self.steps.len()
            invariant
                i <= self.steps.len(),
                steps.len() == i,
                forall|j: int| 0 <= j < i ==> steps[j]@ == self.steps[j]@,
            decreases self.steps.len() - i,
        {
            steps.push(self.steps[i].clone());
            i += 1;
        }
        assert(crate::step::steps_view(steps@) =~= crate::step::steps_view(self.steps@));
        Pipeline { channel: self.channel.clone(), steps }
    }
}

/// A list of pipelines, by content.
pub open spec fn pipelines_view(pipelines: Seq<Pipeline>) -> Seq<PipelineView> {
    pipelines.map_values(|p: Pipeline| p@)
}

/// A stored pipeline together with the identifiers of the events that
/// trigger it.
#[derive(Debug)]
pub struct PipelineResult {
    pub pipeline: Pipeline,
    pub event_ids: Vec<u128>,
}

/// An event by name, with the pipelines that it triggers.
#[derive(Debug)]
pub struct Event {
    pub name: String,
    pub pipelines: Vec<Pipeline>,
}

/// An [`Event`] by content.
pub struct EventView {
    pub name: Seq<char>,
    pub pipelines: Seq<PipelineView>,
}

impl View for Event {
    type V = EventView;

    open spec fn view(&self) -> EventView {
        EventView { name: self.name@, pipelines: pipelines_view(self.pipelines@) }
    }
}

} // verus!
